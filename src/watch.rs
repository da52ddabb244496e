use vstd::prelude::*;

use crate::path::{
    components_of, has_backup_component, has_hidden_component, is_prefix_of, PathModel,
    WatchPath,
};

verus! {

/// The quiet window that a new configuration starts with, in milliseconds.
pub const DEFAULT_DEBOUNCE_MS: u64 = 2000;

/// The models of a list of paths.
pub open spec fn paths_model(v: Seq<WatchPath>) -> Seq<PathModel> {
    v.map_values(|w: WatchPath| w@)
}

/// The models of a list of path strings.
pub open spec fn strs_model(v: Seq<&str>) -> Seq<PathModel> {
    v.map_values(|s: &str| components_of(s@))
}

/// `p` lies under (or is) one of `roots`.
pub open spec fn under_any(roots: Seq<PathModel>, p: PathModel) -> bool {
    exists|i: int| 0 <= i < roots.len() && is_prefix_of(#[trigger] roots[i], p)
}

/// `p` is excluded, either by an absolute entry or, once made relative to
/// `root`, by a workspace-relative entry.
pub open spec fn excluded(
    exclude: Seq<PathModel>,
    workspace_exclude: Seq<PathModel>,
    root: PathModel,
    p: PathModel,
) -> bool {
    under_any(exclude, p) || (is_prefix_of(root, p) && under_any(
        workspace_exclude,
        p.skip(root.len() as int),
    ))
}

/// Taken relative to one of `roots` that holds it, `p` has a hidden component.
pub open spec fn hidden_under(roots: Seq<PathModel>, p: PathModel) -> bool {
    exists|i: int|
        0 <= i < roots.len() && is_prefix_of(#[trigger] roots[i], p) && has_hidden_component(
            p.skip(roots[i].len() as int),
        )
}

/// Taken relative to one of `roots` that holds it, `p` has a backup component.
pub open spec fn backup_under(roots: Seq<PathModel>, p: PathModel) -> bool {
    exists|i: int|
        0 <= i < roots.len() && is_prefix_of(#[trigger] roots[i], p) && has_backup_component(
            p.skip(roots[i].len() as int),
        )
}

/// Whether `p` lies under one of `roots`.
fn is_under_any(roots: &Vec<WatchPath>, p: &WatchPath) -> (r: bool)
    ensures
        r == under_any(paths_model(roots@), p@),
{
    let mut i: usize = 0;
    while i < roots.len()
        invariant
            i <= roots@.len(),
            forall|k: int| 0 <= k < i ==> !is_prefix_of(#[trigger] roots@[k]@, p@),
        decreases roots@.len() - i,
    {
        if p.starts_with(&roots[i]) {
            assert(paths_model(roots@)[i as int] == roots@[i as int]@);
            return true;
        }
        i += 1;
    }
    assert forall|k: int| 0 <= k < roots@.len() implies !is_prefix_of(
        #[trigger] paths_model(roots@)[k],
        p@,
    ) by {
        assert(paths_model(roots@)[k] == roots@[k]@);
    }
    false
}

/// Watches over a project's source tree: what to watch, what to leave out,
/// and how long to stay quiet after a restart.
#[derive(Clone, Debug)]
pub struct Watch {
    /// The files and folders to watch. An empty list stands for the
    /// workspace root.
    pub watch_paths: Vec<WatchPath>,
    /// Paths whose changes are ignored.
    pub exclude_paths: Vec<WatchPath>,
    /// Paths, relative to the workspace root, whose changes are ignored.
    pub workspace_exclude_paths: Vec<WatchPath>,
    /// The least time between two restarts, in milliseconds.
    pub debounce: u64,
}

impl Default for Watch {
    fn default() -> (r: Watch)
        ensures
            r.watch_paths@.len() == 0,
            r.exclude_paths@.len() == 0,
            r.workspace_exclude_paths@.len() == 0,
            r.debounce == DEFAULT_DEBOUNCE_MS,
    {
        Watch {
            watch_paths: Vec::new(),
            exclude_paths: Vec::new(),
            workspace_exclude_paths: Vec::new(),
            debounce: DEFAULT_DEBOUNCE_MS,
        }
    }
}

/// Appends the parsed form of each string of `paths` to `list`.
fn push_all(list: &mut Vec<WatchPath>, paths: &[&str])
    ensures
        paths_model(final(list)@) == paths_model(old(list)@) + strs_model(paths@),
{
    let ghost start = paths_model(list@);
    let mut i: usize = 0;
    while i < paths.len()
        invariant
            i <= paths@.len(),
            paths_model(list@) == start + strs_model(paths@.subrange(0, i as int)),
        decreases paths@.len() - i,
    {
        let p = WatchPath::new(paths[i]);
        let ghost before = list@;
        list.push(p);
        i += 1;
        assert(paths_model(list@) =~= paths_model(before).push(p@));
        assert(strs_model(paths@.subrange(0, i as int)) =~= strs_model(
            paths@.subrange(0, i - 1),
        ).push(components_of(paths@[i - 1]@)));
        assert(paths_model(list@) =~= start + strs_model(paths@.subrange(0, i as int)));
    }
    assert(paths@.subrange(0, i as int) =~= paths@);
}

impl Watch {
    /// Adds a path to watch for changes.
    pub fn watch_path(self, path: &str) -> (r: Watch)
        ensures
            paths_model(r.watch_paths@) == paths_model(self.watch_paths@).push(components_of(path@)),
            r.exclude_paths == self.exclude_paths,
            r.workspace_exclude_paths == self.workspace_exclude_paths,
            r.debounce == self.debounce,
    {
        let mut w = self;
        let ghost before = w.watch_paths@;
        let p = WatchPath::new(path);
        w.watch_paths.push(p);
        assert(paths_model(w.watch_paths@) =~= paths_model(before).push(p@));
        w
    }

    /// Adds several paths to watch for changes.
    pub fn watch_paths(self, paths: &[&str]) -> (r: Watch)
        ensures
            paths_model(r.watch_paths@) == paths_model(self.watch_paths@) + strs_model(paths@),
            r.exclude_paths == self.exclude_paths,
            r.workspace_exclude_paths == self.workspace_exclude_paths,
            r.debounce == self.debounce,
    {
        let mut w = self;
        push_all(&mut w.watch_paths, paths);
        w
    }

    /// Adds a path whose changes are ignored.
    pub fn exclude_path(self, path: &str) -> (r: Watch)
        ensures
            paths_model(r.exclude_paths@) == paths_model(self.exclude_paths@).push(
                components_of(path@),
            ),
            r.watch_paths == self.watch_paths,
            r.workspace_exclude_paths == self.workspace_exclude_paths,
            r.debounce == self.debounce,
    {
        let mut w = self;
        let ghost before = w.exclude_paths@;
        let p = WatchPath::new(path);
        w.exclude_paths.push(p);
        assert(paths_model(w.exclude_paths@) =~= paths_model(before).push(p@));
        w
    }

    /// Adds several paths whose changes are ignored.
    pub fn exclude_paths(self, paths: &[&str]) -> (r: Watch)
        ensures
            paths_model(r.exclude_paths@) == paths_model(self.exclude_paths@) + strs_model(
                paths@,
            ),
            r.watch_paths == self.watch_paths,
            r.workspace_exclude_paths == self.workspace_exclude_paths,
            r.debounce == self.debounce,
    {
        let mut w = self;
        push_all(&mut w.exclude_paths, paths);
        w
    }

    /// Adds a path, relative to the workspace root, whose changes are ignored.
    pub fn exclude_workspace_path(self, path: &str) -> (r: Watch)
        ensures
            paths_model(r.workspace_exclude_paths@) == paths_model(
                self.workspace_exclude_paths@,
            ).push(components_of(path@)),
            r.watch_paths == self.watch_paths,
            r.exclude_paths == self.exclude_paths,
            r.debounce == self.debounce,
    {
        let mut w = self;
        let ghost before = w.workspace_exclude_paths@;
        let p = WatchPath::new(path);
        w.workspace_exclude_paths.push(p);
        assert(paths_model(w.workspace_exclude_paths@) =~= paths_model(before).push(p@));
        w
    }

    /// Adds several paths, relative to the workspace root, whose changes are
    /// ignored.
    pub fn exclude_workspace_paths(self, paths: &[&str]) -> (r: Watch)
        ensures
            paths_model(r.workspace_exclude_paths@) == paths_model(
                self.workspace_exclude_paths@,
            ) + strs_model(paths@),
            r.watch_paths == self.watch_paths,
            r.exclude_paths == self.exclude_paths,
            r.debounce == self.debounce,
    {
        let mut w = self;
        push_all(&mut w.workspace_exclude_paths, paths);
        w
    }

    /// Sets the least time between two restarts, in milliseconds.
    pub fn debounce(self, millis: u64) -> (r: Watch)
        ensures
            r.debounce == millis,
            r.watch_paths == self.watch_paths,
            r.exclude_paths == self.exclude_paths,
            r.workspace_exclude_paths == self.workspace_exclude_paths,
    {
        let mut w = self;
        w.debounce = millis;
        w
    }

    /// The configuration a watch session runs with: the build output
    /// directory `target_dir` joins the exclusions, and with no path given
    /// the workspace root is watched.
    pub fn with_defaults(self, workspace_root: &WatchPath, target_dir: WatchPath) -> (r: Watch)
        ensures
            paths_model(r.exclude_paths@) == paths_model(self.exclude_paths@).push(target_dir@),
            paths_model(r.watch_paths@) == (if self.watch_paths@.len() == 0 {
                seq![workspace_root@]
            } else {
                paths_model(self.watch_paths@)
            }),
            r.workspace_exclude_paths == self.workspace_exclude_paths,
            r.debounce == self.debounce,
    {
        let mut w = self;
        let ghost before_exclude = w.exclude_paths@;
        let ghost target_model = target_dir@;
        w.exclude_paths.push(target_dir);
        assert(paths_model(w.exclude_paths@) =~= paths_model(before_exclude).push(target_model));
        if w.watch_paths.len() == 0 {
            let root = workspace_root.copied();
            w.watch_paths.push(root);
            assert(paths_model(w.watch_paths@) =~= seq![workspace_root@]);
        }
        w
    }

    /// Whether changes to `path` are ignored by the exclusion lists, with
    /// workspace-relative entries taken from `workspace_root`.
    pub fn is_excluded_path(&self, path: &WatchPath, workspace_root: &WatchPath) -> (r: bool)
        ensures
            r == excluded(
                paths_model(self.exclude_paths@),
                paths_model(self.workspace_exclude_paths@),
                workspace_root@,
                path@,
            ),
    {
        if is_under_any(&self.exclude_paths, path) {
            return true;
        }
        match path.strip_prefix(workspace_root) {
            Some(rel) => is_under_any(&self.workspace_exclude_paths, &rel),
            None => false,
        }
    }

    /// Whether `path`, taken relative to a watched root that holds it, has a
    /// component that starts with a dot.
    pub fn is_hidden_path(&self, path: &WatchPath) -> (r: bool)
        ensures
            r == hidden_under(paths_model(self.watch_paths@), path@),
    {
        let mut i: usize = 0;
        while i < self.watch_paths.len()
            invariant
                i <= self.watch_paths@.len(),
                forall|k: int|
                    0 <= k < i ==> !(is_prefix_of(#[trigger] paths_model(self.watch_paths@)[k], path@)
                        && has_hidden_component(path@.skip(paths_model(self.watch_paths@)[k].len() as int))),
            decreases self.watch_paths@.len() - i,
        {
            assert(paths_model(self.watch_paths@)[i as int] == self.watch_paths@[i as int]@);
            match path.strip_prefix(&self.watch_paths[i]) {
                Some(rel) => {
                    if rel.has_hidden_component() {
                        assert(hidden_under(paths_model(self.watch_paths@), path@));
                        return true;
                    }
                },
                None => {},
            }
            i += 1;
        }
        false
    }

    /// Whether `path`, taken relative to a watched root that holds it, has a
    /// component that ends with a tilde.
    pub fn is_backup_file(&self, path: &WatchPath) -> (r: bool)
        ensures
            r == backup_under(paths_model(self.watch_paths@), path@),
    {
        let mut i: usize = 0;
        while i < self.watch_paths.len()
            invariant
                i <= self.watch_paths@.len(),
                forall|k: int|
                    0 <= k < i ==> !(is_prefix_of(#[trigger] paths_model(self.watch_paths@)[k], path@)
                        && has_backup_component(path@.skip(paths_model(self.watch_paths@)[k].len() as int))),
            decreases self.watch_paths@.len() - i,
        {
            assert(paths_model(self.watch_paths@)[i as int] == self.watch_paths@[i as int]@);
            match path.strip_prefix(&self.watch_paths[i]) {
                Some(rel) => {
                    if rel.has_backup_component() {
                        assert(backup_under(paths_model(self.watch_paths@), path@));
                        return true;
                    }
                },
                None => {},
            }
            i += 1;
        }
        false
    }
}

} // verus!
