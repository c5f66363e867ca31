use graph_explorer::fs_entry::FsEntry;
use graph_explorer::layout::LayoutKind;
use graph_explorer::external::paths_equal;
use graph_explorer::workspace::{contains_path, filter_by_name, renamed_path, toggle_path, Workspace};

fn s(x: &str) -> String {
    x.to_string()
}

#[test]
fn new_workspace() {
    let w = Workspace::new(s("/home/u"));
    assert_eq!(w.current_path, "/home/u");
    assert_eq!(w.root_path, "/home/u");
    assert_eq!(w.recent_paths, vec![s("/home/u")]);
    assert_eq!(w.status_message.as_deref(), Some("Opened /home/u"));
    assert!(!w.can_go_back());
    assert!(!w.can_go_forward());
    assert_eq!(w.layout_kind, LayoutKind::NativeTopDown);
}

#[test]
fn drill_back_and_forward() {
    let mut w = Workspace::new(s("/r"));
    w.set_filter_query(s("abc"));
    assert!(w.drill_down(s("/r/a"), true));
    assert_eq!(w.filter_query, "");
    assert_eq!(w.status_message.as_deref(), Some("Navigated to /r/a"));
    assert!(w.drill_down(s("/r/a/b"), true));
    assert!(w.can_go_back());
    assert!(w.navigate_back());
    assert_eq!(w.current_path, "/r/a");
    assert_eq!(w.status_message.as_deref(), Some("Navigated back to /r/a"));
    assert!(w.can_go_forward());
    assert!(w.navigate_forward());
    assert_eq!(w.current_path, "/r/a/b");
    assert_eq!(w.status_message.as_deref(), Some("Navigated forward to /r/a/b"));
    assert!(!w.navigate_forward());
    assert_eq!(w.history_back, vec![s("/r"), s("/r/a")]);
}

#[test]
fn drill_into_file_or_same_place() {
    let mut w = Workspace::new(s("/r"));
    assert!(!w.drill_down(s("/r/file.txt"), false));
    assert_eq!(w.current_path, "/r");
    assert!(w.drill_down(s("/r"), true));
    assert!(!w.can_go_back());
    w.drill_down(s("/r/x"), true);
    w.navigate_back();
    assert!(w.can_go_forward());
    w.drill_down(s("/r/y"), true);
    assert!(!w.can_go_forward());
}

#[test]
fn navigate_up_to_parent() {
    let mut w = Workspace::new(s("/r/a/b"));
    w.select_path(Some(s("/r/a/b/c")));
    assert!(w.navigate_up());
    assert_eq!(w.current_path, "/r/a");
    assert_eq!(w.selected_path, None);
    assert_eq!(w.status_message.as_deref(), Some("Navigated up to /r/a"));
    assert_eq!(w.history_back, vec![s("/r/a/b")]);
    let mut top = Workspace::new(s("/"));
    assert!(!top.navigate_up());
    assert!(!top.move_up_to(None));
    assert!(!top.move_up_to(Some(s("/"))));
}

#[test]
fn open_root_records_recent() {
    let mut w = Workspace::new(s("/r"));
    assert!(!w.open_root(s("/nope"), false));
    assert!(w.open_root(s("/home"), true));
    assert_eq!(w.root_path, "/home");
    assert_eq!(w.recent_paths, vec![s("/home"), s("/r")]);
    assert_eq!(w.status_message.as_deref(), Some("Opened root: /home"));
    assert!(w.open_root(s("/r"), true));
    assert_eq!(w.recent_paths, vec![s("/home"), s("/r")]);
    assert_eq!(w.history_back, vec![s("/r"), s("/home")]);
}

#[test]
fn expansion_toggles() {
    let mut w = Workspace::new(s("/r"));
    assert!(!w.is_expanded("/r/a"));
    w.toggle_expand(s("/r/a"));
    assert!(w.is_expanded("/r/a"));
    w.toggle_expand(s("/r/b"));
    w.toggle_expand(s("/r/a"));
    assert!(!w.is_expanded("/r/a"));
    assert!(w.is_expanded("/r/b"));
    let mut v = vec![s("x")];
    toggle_path(&mut v, s("y"));
    toggle_path(&mut v, s("x"));
    assert_eq!(v, vec![s("y")]);
    assert!(contains_path(&v, "y"));
    assert!(!contains_path(&v, "x"));
}

#[test]
fn hidden_layout_and_selection() {
    let mut w = Workspace::new(s("/r"));
    w.toggle_hidden();
    assert!(w.show_hidden);
    assert_eq!(w.status_message.as_deref(), Some("Showing hidden files"));
    w.toggle_hidden();
    assert!(!w.show_hidden);
    assert_eq!(w.status_message.as_deref(), Some("Hiding hidden files"));
    w.set_layout_kind(LayoutKind::RadialBalloonTree);
    assert_eq!(w.status_message.as_deref(), Some("Switched layout to Radial Balloon Tree"));
    w.select_path(Some(s("/r/x")));
    w.note_deleted("/r/y");
    assert_eq!(w.selected_path.as_deref(), Some("/r/x"));
    w.note_deleted("/r/x");
    assert_eq!(w.selected_path, None);
    assert_eq!(w.status_message.as_deref(), Some("Deleted /r/x"));
}

#[test]
fn created_and_renamed_entries() {
    let mut w = Workspace::new(s("/r"));
    let target = w.entry_target("new_file.txt");
    assert_eq!(target, "/r/new_file.txt");
    w.note_created("new_file.txt", false, target);
    assert_eq!(w.selected_path.as_deref(), Some("/r/new_file.txt"));
    assert_eq!(w.status_message.as_deref(), Some("Created file: new_file.txt"));
    w.note_created("new_folder", true, s("/r/new_folder"));
    assert_eq!(w.status_message.as_deref(), Some("Created directory: new_folder"));
    assert_eq!(renamed_path("/r/a.txt", "b.txt").as_deref(), Some("/r/b.txt"));
    assert_eq!(renamed_path("/", "b.txt"), None);
    w.note_renamed("b.txt", s("/r/b.txt"));
    assert_eq!(w.status_message.as_deref(), Some("Renamed to b.txt"));
    assert_eq!(w.selected_path.as_deref(), Some("/r/b.txt"));
}

fn e(name: &str) -> FsEntry {
    FsEntry::from_parts(name.into(), format!("/r/{name}"), false, false, 0, None, None)
}

#[test]
fn name_filter_is_case_insensitive() {
    let kids = vec![e("Readme.MD"), e("main.rs"), e("README.txt"), e("lib.rs")];
    let out = filter_by_name(kids, "readme");
    let names: Vec<&str> = out.iter().map(|c| c.name.as_str()).collect();
    assert_eq!(names, vec!["Readme.MD", "README.txt"]);
    let all = filter_by_name(vec![e("a"), e("b")], "");
    assert_eq!(all.len(), 2);
    let none = filter_by_name(vec![e("a"), e("b")], "zz");
    assert!(none.is_empty());
}

#[test]
fn paths_compare_by_components() {
    assert!(paths_equal("/a/b/", "/a/b"));
    assert!(paths_equal("/a//b", "/a/b"));
    assert!(paths_equal("a/./b", "a/b"));
    assert!(!paths_equal("/a/b", "/a/c"));
    assert!(!paths_equal("/a/b", "a/b"));
    assert!(!paths_equal("/a/..", "/"));
}

#[test]
fn moving_to_the_same_path_keeps_history() {
    let mut w = Workspace::new(s("/r"));
    assert!(w.drill_down(s("/r/"), true));
    assert_eq!(w.current_path, "/r/");
    assert!(!w.can_go_back());
    assert!(w.open_root(s("/r"), true));
    assert!(!w.can_go_back());
    assert_eq!(w.recent_paths, vec![s("/r")]);
    assert!(!w.move_up_to(Some(s("/r/"))));
    assert_eq!(w.current_path, "/r");
}

#[test]
fn expansion_and_deletion_by_same_path() {
    let mut w = Workspace::new(s("/r"));
    w.toggle_expand(s("/r/a"));
    assert!(w.is_expanded("/r/a/"));
    w.toggle_expand(s("/r/a/"));
    assert!(!w.is_expanded("/r/a"));
    assert!(w.expanded_paths.is_empty());
    let mut paths = vec![s("/x"), s("/y")];
    toggle_path(&mut paths, s("/x/"));
    assert_eq!(paths, vec![s("/y")]);
    assert!(contains_path(&paths, "/y/"));
    w.select_path(Some(s("/r/a")));
    w.note_deleted("/r/a/");
    assert_eq!(w.selected_path, None);
    assert_eq!(w.status_message.as_deref(), Some("Deleted /r/a/"));
}

#[test]
fn entries_clone_deeply() {
    let mut d = FsEntry::from_parts(s("d"), s("/d"), true, false, 0, None, None);
    d.children.push(e("x.rs"));
    let c = d.clone();
    assert_eq!(c.name, "d");
    assert_eq!(c.path, "/d");
    assert_eq!(c.children.len(), 1);
    assert_eq!(c.children[0].name, d.children[0].name);
    assert_eq!(c.children[0].extension, d.children[0].extension);
}
