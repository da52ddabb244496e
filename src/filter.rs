use vstd::prelude::*;

use crate::debounce::{accepts, Debouncer};
use crate::path::{has_backup_component, has_hidden_component, is_prefix_of, PathModel, WatchPath};
use crate::watch::{backup_under, excluded, hidden_under, paths_model, under_any, Watch};

verus! {

/// What happened to the paths of a filesystem event.
#[derive(Clone, Copy, Debug, PartialEq, Eq)]
pub enum ChangeKind {
    /// Something was created.
    Create,
    /// Contents or metadata changed.
    Modify,
    /// Something was renamed.
    Rename,
    /// Something was removed.
    Remove,
    /// Any other kind of event.
    Other,
}

/// A path named by an event, and whether it still existed when the event
/// was handled.
#[derive(Clone, Debug)]
pub struct ChangedPath {
    /// The path, in canonical form.
    pub path: WatchPath,
    /// Whether the path exists.
    pub present: bool,
}

/// The roots that hidden and backup components are judged from: the
/// watched paths, or the workspace root when none is given.
pub open spec fn watch_roots(w: Watch, root: PathModel) -> Seq<PathModel> {
    if w.watch_paths@.len() == 0 {
        seq![root]
    } else {
        paths_model(w.watch_paths@)
    }
}

/// Whether a change of kind `kind` to `p` is ignored under `w`, with
/// workspace-relative exclusions taken from `root`.
pub open spec fn ignored(w: Watch, root: PathModel, p: PathModel, present: bool, kind: ChangeKind) -> bool {
    !present || excluded(
        paths_model(w.exclude_paths@),
        paths_model(w.workspace_exclude_paths@),
        root,
        p,
    ) || hidden_under(watch_roots(w, root), p) || backup_under(watch_roots(w, root), p)
        || kind == ChangeKind::Create || kind == ChangeKind::Rename
}

/// Some path of `paths` is not ignored.
pub open spec fn relevant(w: Watch, root: PathModel, paths: Seq<ChangedPath>, kind: ChangeKind) -> bool {
    exists|i: int|
        0 <= i < paths.len() && !ignored(w, root, (#[trigger] paths[i]).path@, paths[i].present, kind)
}

/// Decides which filesystem events call for a restart.
#[derive(Clone, Debug)]
pub struct EventFilter {
    /// The configuration, with its paths in canonical form.
    pub watch: Watch,
    /// The workspace root, in canonical form.
    pub workspace_root: WatchPath,
    /// The quiet window after each restart.
    pub debouncer: Debouncer,
}

impl EventFilter {
    /// A filter for `watch` whose first quiet window starts at `now`.
    pub fn new(watch: Watch, workspace_root: WatchPath, now: u64) -> (r: EventFilter)
        ensures
            r.watch == watch,
            r.workspace_root == workspace_root,
            r.debouncer == (Debouncer { window: watch.debounce, last_accepted: now }),
    {
        let debouncer = Debouncer::new(watch.debounce, now);
        EventFilter { watch, workspace_root, debouncer }
    }

    /// Whether a change of kind `kind` to `path` is ignored.
    pub fn should_ignore(&self, path: &WatchPath, present: bool, kind: ChangeKind) -> (r: bool)
        ensures
            r == ignored(self.watch, self.workspace_root@, path@, present, kind),
    {
        if !present || self.watch.is_excluded_path(path, &self.workspace_root) {
            return true;
        }
        if self.watch.watch_paths.len() == 0 {
            if let Some(rel) = path.strip_prefix(&self.workspace_root) {
                let hidden = rel.has_hidden_component();
                let backup = rel.has_backup_component();
                assert(hidden == hidden_under(seq![self.workspace_root@], path@)) by {
                    if hidden {
                        assert(seq![self.workspace_root@][0] == self.workspace_root@);
                    }
                }
                assert(backup == backup_under(seq![self.workspace_root@], path@)) by {
                    if backup {
                        assert(seq![self.workspace_root@][0] == self.workspace_root@);
                    }
                }
                if hidden || backup {
                    return true;
                }
            }
        } else if self.watch.is_hidden_path(path) || self.watch.is_backup_file(path) {
            return true;
        }
        match kind {
            ChangeKind::Create | ChangeKind::Rename => true,
            _ => false,
        }
    }

    /// Handles one event at `now`: a restart is due when some path of the
    /// event is not ignored and the quiet window has passed; the window then
    /// starts again at `now`.
    pub fn handle_event(&mut self, paths: &Vec<ChangedPath>, kind: ChangeKind, now: u64) -> (r: bool)
        ensures
            r == (relevant(old(self).watch, old(self).workspace_root@, paths@, kind) && accepts(
                old(self).debouncer,
                now,
            )),
            final(self).debouncer == (if r {
                Debouncer { last_accepted: now, ..old(self).debouncer }
            } else {
                old(self).debouncer
            }),
            final(self).watch == old(self).watch,
            final(self).workspace_root == old(self).workspace_root,
    {
        let mut i: usize = 0;
        while i < paths.len()
            invariant
                *self == *old(self),
                i <= paths@.len(),
                forall|k: int|
                    0 <= k < i ==> ignored(
                        self.watch,
                        self.workspace_root@,
                        (#[trigger] paths@[k]).path@,
                        paths@[k].present,
                        kind,
                    ),
            decreases paths@.len() - i,
        {
            if !self.should_ignore(&paths[i].path, paths[i].present, kind) {
                assert(relevant(self.watch, self.workspace_root@, paths@, kind));
                return self.debouncer.accept(now);
            }
            i += 1;
        }
        false
    }
}

/// A change under an excluded path, component by component, is ignored.
pub proof fn lemma_excluded_entry_ignores(
    w: Watch,
    root: PathModel,
    i: int,
    p: PathModel,
    present: bool,
    kind: ChangeKind,
)
    requires
        0 <= i < w.exclude_paths@.len(),
        is_prefix_of(paths_model(w.exclude_paths@)[i], p),
    ensures
        ignored(w, root, p, present, kind),
{
    assert(under_any(paths_model(w.exclude_paths@), p));
}

/// A change under a workspace-relative exclusion, once made relative to the
/// workspace root, is ignored.
pub proof fn lemma_workspace_entry_ignores(
    w: Watch,
    root: PathModel,
    i: int,
    p: PathModel,
    present: bool,
    kind: ChangeKind,
)
    requires
        0 <= i < w.workspace_exclude_paths@.len(),
        is_prefix_of(root, p),
        is_prefix_of(paths_model(w.workspace_exclude_paths@)[i], p.skip(root.len() as int)),
    ensures
        ignored(w, root, p, present, kind),
{
    assert(under_any(paths_model(w.workspace_exclude_paths@), p.skip(root.len() as int)));
}

/// With one exclusion `e` and nothing relative to the workspace, a path is
/// excluded exactly when `e` leads it by whole components; so a proper
/// ancestor of `e` is never excluded.
pub proof fn lemma_single_exclusion(e: PathModel, root: PathModel, p: PathModel)
    ensures
        excluded(seq![e], Seq::empty(), root, p) <==> is_prefix_of(e, p),
        p.len() < e.len() ==> !excluded(seq![e], Seq::empty(), root, p),
{
    if is_prefix_of(e, p) {
        assert(seq![e][0] == e);
    }
}

/// Taken relative to a watched root that holds it, a path with a component
/// that starts with a dot is ignored, whatever the exclusion lists hold.
pub proof fn lemma_hidden_ignored(
    w: Watch,
    root: PathModel,
    i: int,
    p: PathModel,
    present: bool,
    kind: ChangeKind,
)
    requires
        0 <= i < w.watch_paths@.len(),
        is_prefix_of(paths_model(w.watch_paths@)[i], p),
        has_hidden_component(p.skip(paths_model(w.watch_paths@)[i].len() as int)),
    ensures
        ignored(w, root, p, present, kind),
{
    assert(hidden_under(watch_roots(w, root), p));
}

/// Taken relative to a watched root that holds it, a path with a component
/// that ends with a tilde is ignored, whatever the exclusion lists hold.
pub proof fn lemma_backup_ignored(
    w: Watch,
    root: PathModel,
    i: int,
    p: PathModel,
    present: bool,
    kind: ChangeKind,
)
    requires
        0 <= i < w.watch_paths@.len(),
        is_prefix_of(paths_model(w.watch_paths@)[i], p),
        has_backup_component(p.skip(paths_model(w.watch_paths@)[i].len() as int)),
    ensures
        ignored(w, root, p, present, kind),
{
    assert(backup_under(watch_roots(w, root), p));
}

} // verus!
