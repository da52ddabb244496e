use xtask_watch::filter::{ChangeKind, ChangedPath, EventFilter};
use xtask_watch::{Debouncer, Watch, WatchPath};

fn p(s: &str) -> WatchPath {
    WatchPath::new(s)
}

fn names(path: &WatchPath) -> Vec<String> {
    path.components().clone()
}

#[test]
fn exclude_relative_path() {
    let workspace_root = p("/workspace/project");
    let watch = Watch {
        debounce: 0,
        watch_paths: Vec::new(),
        exclude_paths: Vec::new(),
        workspace_exclude_paths: vec![p("src/watch.rs")],
    };

    assert!(watch.is_excluded_path(
        &workspace_root.join(&p("src")).join(&p("watch.rs")),
        &workspace_root
    ));
    assert!(!watch.is_excluded_path(&workspace_root.join(&p("src")), &workspace_root));
}

#[test]
fn path_is_split_into_components() {
    assert_eq!(names(&p("/a/b")), vec!["/".to_string(), "a".to_string(), "b".to_string()]);
    assert_eq!(names(&p("src/watch.rs")), vec!["src".to_string(), "watch.rs".to_string()]);
    assert_eq!(names(&p("a//b/")), vec!["a".to_string(), "b".to_string()]);
    assert_eq!(p("/a/b").len(), 3);
}

#[test]
fn path_prefix_is_by_whole_components() {
    let file = p("/ws/src/watch.rs");
    assert!(file.starts_with(&p("/ws/src")));
    assert!(file.starts_with(&p("/ws/src/watch.rs")));
    assert!(!file.starts_with(&p("/ws/sr")));
    assert!(!p("/ws/src/watch.rsx").starts_with(&file));
    let rest = file.strip_prefix(&p("/ws")).unwrap();
    assert_eq!(names(&rest), vec!["src".to_string(), "watch.rs".to_string()]);
    assert!(file.strip_prefix(&p("/other")).is_none());
    assert_eq!(names(&file.copied()), names(&file));
}

#[test]
fn hidden_and_backup_components() {
    assert!(p("a/.git/HEAD").has_hidden_component());
    assert!(!p("a/git/HEAD").has_hidden_component());
    assert!(p("src/main.rs~").has_backup_component());
    assert!(!p("src/main.rs").has_backup_component());
    assert!(!p("src/~main.rs").has_backup_component());
}

#[test]
fn exclusion_matches_component_prefixes() {
    let root = p("/ws");
    let watch = Watch::default().exclude_path("/ws/src/watch.rs");
    assert!(watch.is_excluded_path(&p("/ws/src/watch.rs"), &root));
    assert!(watch.is_excluded_path(&p("/ws/src/watch.rs/inner"), &root));
    assert!(!watch.is_excluded_path(&p("/ws/src/watch.rsx"), &root));
    assert!(!watch.is_excluded_path(&p("/ws/src"), &root));
    let dir = Watch::default().exclude_path("/ws/target");
    assert!(dir.is_excluded_path(&p("/ws/target/debug/app"), &root));
    assert!(!dir.is_excluded_path(&p("/ws/target2/app"), &root));
}

#[test]
fn workspace_exclusion_needs_the_root() {
    let watch = Watch::default().exclude_workspace_path("docs");
    assert!(watch.is_excluded_path(&p("/ws/docs/a.md"), &p("/ws")));
    assert!(!watch.is_excluded_path(&p("/other/docs/a.md"), &p("/ws")));
}

#[test]
fn hidden_and_backup_relative_to_watch_root() {
    let watch = Watch::default().watch_path("/home/.me/ws");
    assert!(watch.is_hidden_path(&p("/home/.me/ws/.git/HEAD")));
    assert!(!watch.is_hidden_path(&p("/home/.me/ws/src/main.rs")));
    assert!(!watch.is_hidden_path(&p("/elsewhere/.git/HEAD")));
    assert!(watch.is_backup_file(&p("/home/.me/ws/src/main.rs~")));
    assert!(!watch.is_backup_file(&p("/home/.me/ws/src/main.rs")));
    assert!(!watch.is_backup_file(&p("/elsewhere/main.rs~")));
}

#[test]
fn hidden_and_backup_ignored_whatever_the_exclusions() {
    let watch = Watch::default().watch_path("/ws").exclude_path("/ws/other").debounce(0);
    let filter = EventFilter::new(watch, p("/ws"), 0);
    assert!(filter.should_ignore(&p("/ws/.git/HEAD"), true, ChangeKind::Modify));
    assert!(filter.should_ignore(&p("/ws/src/main.rs~"), true, ChangeKind::Modify));
    assert!(!filter.should_ignore(&p("/ws/src/main.rs"), true, ChangeKind::Modify));
}

#[test]
fn builders_append_and_set() {
    let watch = Watch::default()
        .watch_paths(&["/a", "/b"])
        .watch_path("/c")
        .exclude_paths(&["/a/x", "/a/y"])
        .exclude_workspace_paths(&["target", "docs"])
        .exclude_workspace_path("book")
        .debounce(500);
    assert_eq!(watch.watch_paths.len(), 3);
    assert_eq!(names(&watch.watch_paths[2]), vec!["/".to_string(), "c".to_string()]);
    assert_eq!(watch.exclude_paths.len(), 2);
    assert_eq!(names(&watch.exclude_paths[1]), vec!["/".to_string(), "a".to_string(), "y".to_string()]);
    assert_eq!(watch.workspace_exclude_paths.len(), 3);
    assert_eq!(names(&watch.workspace_exclude_paths[2]), vec!["book".to_string()]);
    assert_eq!(watch.debounce, 500);
    assert_eq!(Watch::default().debounce, 2000);
}

#[test]
fn defaults_add_target_and_root() {
    let watch = Watch::default().with_defaults(&p("/ws"), p("/ws/target"));
    assert_eq!(watch.watch_paths.len(), 1);
    assert_eq!(names(&watch.watch_paths[0]), names(&p("/ws")));
    assert_eq!(watch.exclude_paths.len(), 1);
    assert_eq!(names(&watch.exclude_paths[0]), names(&p("/ws/target")));
    let given = Watch::default().watch_path("/ws/src").with_defaults(&p("/ws"), p("/ws/target"));
    assert_eq!(given.watch_paths.len(), 1);
    assert_eq!(names(&given.watch_paths[0]), names(&p("/ws/src")));
}

#[test]
fn ignore_rules() {
    let watch = Watch::default().watch_path("/ws").debounce(0);
    let filter = EventFilter::new(watch, p("/ws"), 0);
    let file = p("/ws/src/lib.rs");
    assert!(!filter.should_ignore(&file, true, ChangeKind::Modify));
    assert!(!filter.should_ignore(&file, true, ChangeKind::Remove));
    assert!(!filter.should_ignore(&file, true, ChangeKind::Other));
    assert!(filter.should_ignore(&file, false, ChangeKind::Modify));
    assert!(filter.should_ignore(&file, true, ChangeKind::Create));
    assert!(filter.should_ignore(&file, true, ChangeKind::Rename));
}

#[test]
fn create_then_modify_restarts_once() {
    let watch = Watch::default().watch_path("/tmp/dir").debounce(0);
    let mut filter = EventFilter::new(watch, p("/tmp/dir"), 0);
    let changed = vec![ChangedPath { path: p("/tmp/dir/new.txt"), present: true }];
    assert!(!filter.handle_event(&changed, ChangeKind::Create, 10));
    assert!(filter.handle_event(&changed, ChangeKind::Modify, 11));
    assert_eq!(filter.debouncer.last_accepted, 11);
}

#[test]
fn event_within_window_is_dropped() {
    let watch = Watch::default().watch_path("/ws");
    let mut filter = EventFilter::new(watch, p("/ws"), 1000);
    let changed = vec![
        ChangedPath { path: p("/ws/.git/index"), present: true },
        ChangedPath { path: p("/ws/src/lib.rs"), present: true },
    ];
    assert!(!filter.handle_event(&changed, ChangeKind::Modify, 2000));
    assert_eq!(filter.debouncer.last_accepted, 1000);
    assert!(filter.handle_event(&changed, ChangeKind::Modify, 3000));
    assert_eq!(filter.debouncer.last_accepted, 3000);
    assert!(!filter.handle_event(&changed[..1].to_vec(), ChangeKind::Modify, 9000));
}

#[test]
fn debounce_accepts_then_refuses() {
    let mut d = Debouncer::new(2000, 0);
    let t0 = 10_000;
    assert_eq!((d.accept(t0), d.accept(t0 + 1000)), (true, false));
    assert_eq!(d.last_accepted, t0);

    let mut d = Debouncer::new(2000, 0);
    assert_eq!((d.accept(t0), d.accept(t0 + 3000)), (true, true));
    assert_eq!(d.last_accepted, t0 + 3000);
}

#[test]
fn debounce_edges() {
    let mut d = Debouncer::new(2000, 5000);
    assert!(!d.accept(4000));
    assert!(d.accept(7000));
    let mut zero = Debouncer::new(0, 5000);
    assert!(zero.accept(5000));
    assert!(zero.accept(5000));
}

#[test]
fn no_watch_path_judges_from_workspace_root() {
    let filter = EventFilter::new(Watch::default().debounce(0), p("/ws"), 0);
    assert!(filter.should_ignore(&p("/ws/.git/HEAD"), true, ChangeKind::Modify));
    assert!(filter.should_ignore(&p("/ws/src/main.rs~"), true, ChangeKind::Modify));
    assert!(!filter.should_ignore(&p("/ws/src/main.rs"), true, ChangeKind::Modify));
    assert!(!filter.should_ignore(&p("/other/.git/HEAD"), true, ChangeKind::Modify));
}
