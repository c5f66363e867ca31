use graph_explorer::fs_entry::{FileCategory, FsEntry};
use graph_explorer::table::{clock_text, sort_entries, SortField, SortOrder, TableView};

fn entry(name: &str, is_dir: bool, size: u64, modified: Option<i128>, ext: Option<&str>) -> FsEntry {
    FsEntry::from_parts(
        name.to_string(),
        format!("/w/{name}"),
        is_dir,
        false,
        size,
        modified,
        ext.map(|e| e.to_string()),
    )
}

fn names(v: &[FsEntry]) -> Vec<&str> {
    v.iter().map(|e| e.name.as_str()).collect()
}

fn sample() -> Vec<FsEntry> {
    vec![
        entry("notes.md", false, 300, Some(30), Some("md")),
        entry("lib", true, 0, Some(10), None),
        entry("a.rs", false, 300, None, Some("rs")),
        entry("Bin", true, 0, Some(20), None),
        entry("z.rs", false, 5, Some(5), Some("rs")),
    ]
}

#[test]
fn set_sort_flips_or_switches() {
    let mut t = TableView::new();
    assert_eq!(t.sort_field, SortField::Name);
    assert_eq!(t.sort_order, SortOrder::Asc);
    t.set_sort(SortField::Name);
    assert_eq!(t.sort_order, SortOrder::Desc);
    t.set_sort(SortField::Name);
    assert_eq!(t.sort_order, SortOrder::Asc);
}

#[test]
fn choosing_another_column_sorts_ascending() {
    let mut t = TableView::new();
    t.set_sort(SortField::Name);
    t.set_sort(SortField::Size);
    assert_eq!(t.sort_field, SortField::Size);
    assert_eq!(t.sort_order, SortOrder::Asc);
}

#[test]
fn header_labels() {
    let mut t = TableView::new();
    assert_eq!(t.sort_label(SortField::Name, "Name"), "Name ↑");
    assert_eq!(t.sort_label(SortField::Size, "Size"), "Size");
    t.set_sort(SortField::Name);
    assert_eq!(t.sort_label(SortField::Name, "Name"), "Name ↓");
}

#[test]
fn sort_by_name_puts_directories_first() {
    let out = sort_entries(sample(), SortField::Name, SortOrder::Asc);
    assert_eq!(names(&out), vec!["Bin", "lib", "a.rs", "notes.md", "z.rs"]);
}

#[test]
fn descending_reverses_whole_key_keeping_ties_stable() {
    let out = sort_entries(sample(), SortField::Size, SortOrder::Desc);
    // files first (the directory rank is reversed too); equal sizes keep their order
    assert_eq!(names(&out), vec!["notes.md", "a.rs", "z.rs", "lib", "Bin"]);
}

#[test]
fn sort_by_type_and_modified() {
    let out = sort_entries(sample(), SortField::Type, SortOrder::Asc);
    assert_eq!(names(&out), vec!["lib", "Bin", "notes.md", "a.rs", "z.rs"]);
    assert_eq!(FileCategory::Markdown.display_badge(), "MD");
    let out = sort_entries(sample(), SortField::Modified, SortOrder::Asc);
    assert_eq!(names(&out), vec!["a.rs", "z.rs", "lib", "Bin", "notes.md"]);
}

#[test]
fn sorted_rows_follow_the_state() {
    let mut t = TableView::new();
    t.set_sort(SortField::Name);
    let out = t.sorted_rows(sample());
    assert_eq!(names(&out), vec!["z.rs", "notes.md", "a.rs", "lib", "Bin"]);
}

#[test]
fn clock_cells() {
    assert_eq!(clock_text(None), "—");
    assert_eq!(clock_text(Some(-1)), "—");
    assert_eq!(clock_text(Some(0)), "00:00 UTC");
    let t: i128 = (13 * 3600 + 7 * 60 + 59) * 1_000_000_000 + 999;
    assert_eq!(clock_text(Some(t)), "13:07 UTC");
    let t2: i128 = (3 * 86400 + 23 * 3600 + 59 * 60) * 1_000_000_000;
    assert_eq!(clock_text(Some(t2)), "23:59 UTC");
}
