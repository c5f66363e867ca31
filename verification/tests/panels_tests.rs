use graph_explorer::panels::{
    breadcrumb_segments, can_go_up, key_action, more_marker, preview_count, preview_lines,
    selection_text, size_tier, GraphKeyAction, SizeTier,
};

fn pairs(v: &[(&str, &str)]) -> Vec<(String, String)> {
    v.iter().map(|(a, b)| (a.to_string(), b.to_string())).collect()
}

#[test]
fn breadcrumbs_from_root_down() {
    assert_eq!(
        breadcrumb_segments("/a/b/c", "/a"),
        pairs(&[("a", "/a"), ("b", "/a/b"), ("c", "/a/b/c")])
    );
    assert_eq!(
        breadcrumb_segments("/a/b", "/elsewhere"),
        pairs(&[("a", "/a"), ("b", "/a/b")])
    );
    assert_eq!(breadcrumb_segments("/", "/"), pairs(&[("/", "/")]));
    assert_eq!(breadcrumb_segments("/a", "/a"), pairs(&[("a", "/a")]));
}

#[test]
fn up_button() {
    assert!(can_go_up("/a/b", "/a"));
    assert!(!can_go_up("/a", "/a"));
    assert!(!can_go_up("/", "/x"));
}

#[test]
fn status_selection() {
    assert_eq!(selection_text(None, 12), "12 items");
    assert_eq!(selection_text(Some("/r/notes.md"), 12), "Selected: notes.md");
    assert_eq!(selection_text(Some("/"), 3), "");
}

#[test]
fn preview_takes_first_lines() {
    let text = "one\ntwo\r\nthree\n";
    assert_eq!(preview_lines(text, 2), vec!["one".to_string(), "two".to_string()]);
    assert_eq!(preview_lines(text, 40).len(), 3);
    assert!(preview_lines("", 5).is_empty());
}

#[test]
fn size_tiers() {
    assert_eq!(size_tier(true, 1 << 40), SizeTier::Directory);
    assert_eq!(size_tier(false, 10 * 1024 * 1024 + 1), SizeTier::Huge);
    assert_eq!(size_tier(false, 10 * 1024 * 1024), SizeTier::Large);
    assert_eq!(size_tier(false, 1024 * 1024), SizeTier::Small);
}

#[test]
fn previews_and_more_marker() {
    assert_eq!(preview_count(2), 2);
    assert_eq!(preview_count(9), 4);
    assert_eq!(more_marker(4), None);
    assert_eq!(more_marker(9).as_deref(), Some("+5"));
}

#[test]
fn canvas_keys() {
    assert_eq!(key_action("enter"), Some(GraphKeyAction::OpenSelection));
    assert_eq!(key_action("backspace"), Some(GraphKeyAction::NavigateUp));
    assert_eq!(key_action("="), Some(GraphKeyAction::ZoomIn));
    assert_eq!(key_action("+"), Some(GraphKeyAction::ZoomIn));
    assert_eq!(key_action("-"), Some(GraphKeyAction::ZoomOut));
    assert_eq!(key_action("0"), Some(GraphKeyAction::ResetZoom));
    assert_eq!(key_action("left"), Some(GraphKeyAction::PanLeft));
    assert_eq!(key_action("right"), Some(GraphKeyAction::PanRight));
    assert_eq!(key_action("up"), Some(GraphKeyAction::PanUp));
    assert_eq!(key_action("down"), Some(GraphKeyAction::PanDown));
    assert_eq!(key_action("x"), None);
}

#[test]
fn root_is_found_by_same_path() {
    assert_eq!(
        breadcrumb_segments("/r/a", "/r/"),
        pairs(&[("r", "/r"), ("a", "/r/a")])
    );
    assert!(!can_go_up("/r/", "/r"));
}

#[test]
fn preview_keeps_a_lone_carriage_return() {
    assert_eq!(preview_lines("a\r", 5), vec!["a\r".to_string()]);
    assert_eq!(preview_lines("\n\nb", 5), vec!["".to_string(), "".to_string(), "b".to_string()]);
}
