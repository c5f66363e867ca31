use graph_explorer::fs_entry::FsEntry;
use graph_explorer::layout::{
    count_layout_nodes, nests_children, GridShape, LayoutKind, NativeTopDownLayout,
    RadialBalloonTreeLayout, SugiyamaLayeredLayout,
};

fn node(name: &str, is_dir: bool, children: Vec<FsEntry>) -> FsEntry {
    let mut e = FsEntry::from_parts(name.into(), format!("/{name}"), is_dir, false, 0, None, None);
    if is_dir {
        e.install_children(children);
    }
    e
}

#[test]
fn kind_names_and_availability() {
    assert_eq!(LayoutKind::NativeTopDown.name(), "Native Top-Down");
    assert_eq!(LayoutKind::RadialBalloonTree.name(), "Radial Balloon Tree");
    assert_eq!(LayoutKind::SugiyamaLayered.name(), "Sugiyama Layered");
    assert_eq!(LayoutKind::FCoSE.name(), "FCoSE Compound Force");
    assert!(LayoutKind::NativeTopDown.is_available());
    assert!(LayoutKind::RadialBalloonTree.is_available());
    assert!(!LayoutKind::SugiyamaLayered.is_available());
    assert!(!LayoutKind::FCoSE.is_available());
    assert!(LayoutKind::FCoSE.description().ends_with("(Planned)"));
    assert_eq!(
        LayoutKind::NativeTopDown.description(),
        "Algorithm 2: Topdownpacking with node count size approximation"
    );
    assert_eq!(LayoutKind::default(), LayoutKind::NativeTopDown);
}

#[test]
fn all_kinds_in_switcher_order() {
    assert_eq!(
        LayoutKind::all().to_vec(),
        vec![
            LayoutKind::NativeTopDown,
            LayoutKind::RadialBalloonTree,
            LayoutKind::SugiyamaLayered,
            LayoutKind::FCoSE
        ]
    );
}

#[test]
fn engines_report_their_kind() {
    assert_eq!(NativeTopDownLayout.kind(), LayoutKind::NativeTopDown);
    assert_eq!(RadialBalloonTreeLayout.kind(), LayoutKind::RadialBalloonTree);
    assert_eq!(SugiyamaLayeredLayout.kind(), LayoutKind::SugiyamaLayered);
}

#[test]
fn grid_shape_clamps_columns() {
    let g = GridShape::new(10, 0);
    assert_eq!((g.cols, g.rows), (1, 10));
    let g = GridShape::new(10, 20);
    assert_eq!((g.cols, g.rows), (8, 2));
    let g = GridShape::new(9, 3);
    assert_eq!((g.cols, g.rows), (3, 3));
    let g = GridShape::new(1, 1);
    assert_eq!((g.cols, g.rows), (1, 1));
}

#[test]
fn grid_slots_are_row_major_and_distinct() {
    let g = GridShape::new(10, 4);
    assert_eq!(g.rows, 3);
    let mut seen = std::collections::HashSet::new();
    for i in 0..10 {
        let s = g.slot(i);
        assert_eq!(s.row * 4 + s.col, i);
        assert!(s.row < g.rows && s.col < g.cols);
        assert!(seen.insert((s.row, s.col)));
        if i >= 8 {
            assert_eq!(s.spread_over, Some(2));
        } else {
            assert_eq!(s.spread_over, None);
        }
    }
    let full = GridShape::new(8, 4);
    assert_eq!(full.slot(7).spread_over, None);
}

#[test]
fn nesting_and_node_count() {
    let deep = node("d", true, vec![node("x", false, vec![]), node("y", false, vec![])]);
    let empty = node("e", true, vec![]);
    let tree = vec![
        node("top", true, vec![deep, node("f", false, vec![])]),
        empty,
        node("g", false, vec![]),
    ];
    assert!(nests_children(&tree[0], 1, 3));
    assert!(!nests_children(&tree[0], 3, 3));
    assert!(!nests_children(&tree[1], 1, 3));
    assert!(!nests_children(&tree[2], 1, 3));
    // depth 1: top, e, g; depth 2: d, f; depth 3: x, y
    assert_eq!(count_layout_nodes(&tree, 1, 3), 7);
    // with limit 2, d (met at depth 2) is not opened
    assert_eq!(count_layout_nodes(&tree, 1, 2), 5);
    assert_eq!(count_layout_nodes(&tree, 1, 10), 7);
    assert_eq!(count_layout_nodes(&tree, 1, 1), 3);
    assert_eq!(count_layout_nodes(&Vec::new(), 1, 10), 0);
}
