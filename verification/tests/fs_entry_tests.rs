use graph_explorer::fs_entry::{
    format_age, format_bytes, is_listed, plan_child_load, FileCategory, FsEntry,
};

fn file(name: &str, is_dir: bool, size: u64) -> FsEntry {
    let ext = if is_dir {
        None
    } else {
        name.rsplit_once('.').map(|(_, e)| e.to_string())
    };
    FsEntry::from_parts(
        name.to_string(),
        format!("/tmp/{name}"),
        is_dir,
        false,
        size,
        None,
        ext,
    )
}

#[test]
fn extension_categories_ignore_ascii_case() {
    assert_eq!(FileCategory::from_extension(Some("RS"), false), FileCategory::Rust);
    assert_eq!(FileCategory::from_extension(Some("rs"), false), FileCategory::Rust);
    assert_eq!(FileCategory::from_extension(Some("Tsx"), false), FileCategory::TypeScript);
    assert_eq!(FileCategory::from_extension(Some("ipynb"), false), FileCategory::Python);
    assert_eq!(FileCategory::from_extension(Some("HPP"), false), FileCategory::Cpp);
    assert_eq!(FileCategory::from_extension(Some("mDx"), false), FileCategory::Markdown);
    assert_eq!(FileCategory::from_extension(Some("7z"), false), FileCategory::Archive);
    assert_eq!(FileCategory::from_extension(Some("BAT"), false), FileCategory::Executable);
    assert_eq!(FileCategory::from_extension(Some("rtf"), false), FileCategory::Document);
    assert_eq!(FileCategory::from_extension(Some("m4a"), false), FileCategory::Audio);
    assert_eq!(FileCategory::from_extension(Some("webm"), false), FileCategory::Video);
    assert_eq!(FileCategory::from_extension(Some("ico"), false), FileCategory::Image);
    assert_eq!(FileCategory::from_extension(Some("yml"), false), FileCategory::Yaml);
    assert_eq!(FileCategory::from_extension(Some("toml"), false), FileCategory::Toml);
    assert_eq!(FileCategory::from_extension(Some("json"), false), FileCategory::Json);
    assert_eq!(FileCategory::from_extension(Some("less"), false), FileCategory::Css);
    assert_eq!(FileCategory::from_extension(Some("htm"), false), FileCategory::Html);
    assert_eq!(FileCategory::from_extension(Some("h"), false), FileCategory::C);
    assert_eq!(FileCategory::from_extension(Some("go"), false), FileCategory::Go);
    assert_eq!(FileCategory::from_extension(Some("cjs"), false), FileCategory::JavaScript);
}

#[test]
fn unknown_missing_and_directory_categories() {
    assert_eq!(FileCategory::from_extension(Some("xyz"), false), FileCategory::Other);
    assert_eq!(FileCategory::from_extension(Some(""), false), FileCategory::Other);
    assert_eq!(FileCategory::from_extension(None, false), FileCategory::Other);
    assert_eq!(FileCategory::from_extension(Some("rs"), true), FileCategory::Directory);
    assert_eq!(FileCategory::from_extension(None, true), FileCategory::Directory);
    // Non-ASCII letters are not folded.
    assert_eq!(FileCategory::from_extension(Some("RŜ"), false), FileCategory::Other);
}

#[test]
fn badges() {
    assert_eq!(FileCategory::Directory.display_badge(), "DIR");
    assert_eq!(FileCategory::Cpp.display_badge(), "C++");
    assert_eq!(FileCategory::Archive.display_badge(), "ZIP");
    assert_eq!(FileCategory::Other.display_badge(), "FILE");
    assert_eq!(FileCategory::Markdown.display_badge(), "MD");
    assert_eq!(FileCategory::Audio.display_badge(), "AUD");
}

#[test]
fn bytes_below_one_kib_are_whole() {
    assert_eq!(format_bytes(0), "0 B");
    assert_eq!(format_bytes(1), "1 B");
    assert_eq!(format_bytes(1023), "1023 B");
}

#[test]
fn bytes_in_larger_units() {
    assert_eq!(format_bytes(1024), "1.0 KB");
    assert_eq!(format_bytes(1536), "1.5 KB");
    assert_eq!(format_bytes(1048575), "1024.0 KB");
    assert_eq!(format_bytes(1048576), "1.0 MB");
    assert_eq!(format_bytes(5 * 1048576 + 104858), "5.1 MB");
    assert_eq!(format_bytes(1073741824), "1.00 GB");
    assert_eq!(format_bytes(1099511627776), "1.00 TB");
    assert_eq!(format_bytes(u64::MAX), "16777216.00 TB");
}

fn float_label(bytes: u64) -> String {
    const KB: u64 = 1024;
    const MB: u64 = KB * 1024;
    const GB: u64 = MB * 1024;
    const TB: u64 = GB * 1024;
    if bytes < KB {
        format!("{bytes} B")
    } else if bytes < MB {
        format!("{:.1} KB", bytes as f64 / KB as f64)
    } else if bytes < GB {
        format!("{:.1} MB", bytes as f64 / MB as f64)
    } else if bytes < TB {
        format!("{:.2} GB", bytes as f64 / GB as f64)
    } else {
        format!("{:.2} TB", bytes as f64 / TB as f64)
    }
}

#[test]
fn bytes_round_as_float_formatting_does() {
    // Exact ties: 2.25 KB, 1.125 GB, 3.375 TB, and their neighbours.
    let ties: [u64; 6] = [2304, 2305, 2303, 9 * (1 << 27), 27 * (1 << 37), 3 * (1 << 38) + (1 << 37)];
    for b in ties {
        assert_eq!(format_bytes(b), float_label(b), "bytes {b}");
    }
    let mut b: u64 = 1;
    while b < u64::MAX / 3 {
        for d in [0u64, 1, 2, 511, 512, 513] {
            let v = b.saturating_add(d);
            assert_eq!(format_bytes(v), float_label(v), "bytes {v}");
            let w = b.saturating_sub(d);
            assert_eq!(format_bytes(w), float_label(w), "bytes {w}");
        }
        b = b * 3 + 7;
    }
    for v in [(1u64 << 53) + 1, (1u64 << 53) + 3, (1u64 << 60) + (1 << 7), u64::MAX - 1] {
        assert_eq!(format_bytes(v), float_label(v), "bytes {v}");
    }
    for v in 1000u64..200_000 {
        assert_eq!(format_bytes(v), float_label(v), "bytes {v}");
    }
}

#[test]
fn size_column() {
    let mut dir = file("src", true, 4096);
    dir.install_children(vec![file("a.rs", false, 1), file("b.rs", false, 2), file("c", true, 0)]);
    assert_eq!(dir.format_size(), "3 items");
    assert_eq!(file("big.bin", false, 2 * 1048576).format_size(), "2.0 MB");
    assert_eq!(file("empty", true, 0).format_size(), "0 items");
}

const SEC: i128 = 1_000_000_000;

#[test]
fn ages() {
    let now = 1_700_000_000 * SEC;
    assert_eq!(format_age(None, now), "Unknown");
    assert_eq!(format_age(Some(now), now), "Just now");
    assert_eq!(format_age(Some(now - 59 * SEC), now), "Just now");
    assert_eq!(format_age(Some(now - 60 * SEC), now), "1m ago");
    assert_eq!(format_age(Some(now - 3599 * SEC), now), "59m ago");
    assert_eq!(format_age(Some(now - 3600 * SEC), now), "1h ago");
    assert_eq!(format_age(Some(now - 86399 * SEC), now), "23h ago");
    assert_eq!(format_age(Some(now - 3 * 86400 * SEC), now), "3d ago");
    assert_eq!(format_age(Some(now + 1), now), "In the future");
    assert_eq!(format_age(Some(-5 * 86400 * SEC), 0), "5d ago");
    assert_eq!(format_age(Some(i128::MIN), i128::MAX), format!("{}d ago", (u128::MAX / 1_000_000_000) / 86400));
}

#[test]
fn modified_label_reads_the_clock() {
    assert_eq!(file("a.txt", false, 1).format_modified(), "Unknown");
    let mut e = file("a.txt", false, 1);
    e.modified = Some(0);
    assert!(e.format_modified().ends_with("d ago"));
    e.modified = Some(i128::MAX);
    assert_eq!(e.format_modified(), "In the future");
}

#[test]
fn from_parts_drops_extension_of_directories() {
    let d = FsEntry::from_parts("x.rs".into(), "/x.rs".into(), true, false, 0, None, Some("rs".into()));
    assert_eq!(d.extension, None);
    assert_eq!(d.category, FileCategory::Directory);
    let f = FsEntry::from_parts("x.RS".into(), "/x.RS".into(), false, true, 9, Some(5), Some("RS".into()));
    assert_eq!(f.extension.as_deref(), Some("RS"));
    assert_eq!(f.category, FileCategory::Rust);
    assert!(f.is_symlink);
    assert!(!f.is_loaded);
    assert_eq!(f.item_count, 0);
}

#[test]
fn children_are_listed_directories_first_then_by_name() {
    let mut root = file("root", true, 0);
    root.install_children(vec![
        file("b.txt", false, 1),
        file("Zeta", true, 0),
        file("A.txt", false, 2),
        file("alpha", true, 0),
        file("a.txt", false, 3),
    ]);
    let names: Vec<&str> = root.children.iter().map(|c| c.name.as_str()).collect();
    // "A.txt" and "a.txt" have the same key and keep their reading order.
    assert_eq!(names, vec!["alpha", "Zeta", "A.txt", "a.txt", "b.txt"]);
    assert_eq!(root.item_count, 5);
    assert!(root.is_loaded);
}

#[test]
fn hidden_children_and_preview_depth() {
    assert!(!is_listed(".git", false));
    assert!(is_listed(".git", true));
    assert!(is_listed("src", false));
    assert!(is_listed("", false));
    let p = plan_child_load(true, true, 0);
    assert!(p.load);
    assert_eq!(p.depth, 1);
    let p = plan_child_load(true, true, 3);
    assert_eq!(p.depth, 3);
    let p = plan_child_load(true, false, 3);
    assert!(p.load);
    assert_eq!(p.depth, 2);
    let p = plan_child_load(true, false, 0);
    assert!(!p.load);
    assert_eq!(p.depth, 0);
    let p = plan_child_load(false, true, 2);
    assert!(!p.load);
}

#[test]
fn from_metadata_names_by_final_component() {
    let f = FsEntry::from_metadata("/home/u/Main.RS".into(), false, false, 10, Some(1));
    assert_eq!(f.name, "Main.RS");
    assert_eq!(f.extension.as_deref(), Some("RS"));
    assert_eq!(f.category, FileCategory::Rust);
    let d = FsEntry::from_metadata("/home/u/pkg.d".into(), true, false, 0, None);
    assert_eq!(d.name, "pkg.d");
    assert_eq!(d.extension, None);
    assert_eq!(d.category, FileCategory::Directory);
    let r = FsEntry::from_metadata("/".into(), true, false, 0, None);
    assert_eq!(r.name, "/");
    let n = FsEntry::from_metadata("/tmp/Makefile".into(), false, false, 0, None);
    assert_eq!(n.extension, None);
    assert_eq!(n.category, FileCategory::Other);
}

#[test]
fn extension_follows_the_last_dot() {
    let t = FsEntry::from_metadata("/x/a.tar.gz".into(), false, false, 1, None);
    assert_eq!(t.extension.as_deref(), Some("gz"));
    assert_eq!(t.category, FileCategory::Archive);
    let h = FsEntry::from_metadata("/x/.bashrc".into(), false, false, 1, None);
    assert_eq!(h.extension, None);
    let d = FsEntry::from_metadata("/x/notes.".into(), false, false, 1, None);
    assert_eq!(d.extension.as_deref(), Some(""));
}
