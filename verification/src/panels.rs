//! What the panels around the graph show and how the graph canvas answers
//! keys: breadcrumb segments, the status-bar selection text, the preview of a
//! file's first lines, size tiers of nodes and the keyboard map.
use vstd::prelude::*;
use crate::external::{display_name, file_name_of, lines_of, name_of_path, parent_of, path_file_name, path_parent, paths_equal, same_path, string_views, text_lines};
use crate::text::{decimal, push_decimal, str_equal};

verus! {

/// The breadcrumbs from `p` up to `root` (the first ancestor that is the same
/// path as `root`, or the top when there is none), nearest first, as (label,
/// path) pairs. A path without a parent adds no crumb.
pub open spec fn crumb_chain(p: Seq<char>, root: Seq<char>) -> Seq<(Seq<char>, Seq<char>)>
    decreases p.len(),
{
    match parent_of(p) {
        None => Seq::empty(),
        Some(parent) => {
            let item = (display_name(p), p);
            if same_path(p, root) || parent.len() >= p.len() {
                seq![item]
            } else {
                seq![item] + crumb_chain(parent, root)
            }
        },
    }
}

/// The breadcrumbs shown for `current` under `root`, outermost first; the
/// whole current path as a single crumb when there is none.
pub open spec fn breadcrumbs(current: Seq<char>, root: Seq<char>) -> Seq<(Seq<char>, Seq<char>)> {
    let chain = crumb_chain(current, root).reverse();
    if chain.len() == 0 {
        seq![(current, current)]
    } else {
        chain
    }
}

/// The views of (label, path) pairs.
pub open spec fn pair_views(v: Seq<(String, String)>) -> Seq<(Seq<char>, Seq<char>)> {
    v.map_values(|x: (String, String)| (x.0@, x.1@))
}

/// The breadcrumb segments from `root` down to `current`.
pub fn breadcrumb_segments(current: &str, root: &str) -> (segs: Vec<(String, String)>)
    ensures
        pair_views(segs@) == breadcrumbs(current@, root@),
{
    let mut chain: Vec<(String, String)> = Vec::new();
    let mut curr = String::from_str(current);
    let ghost start = current@;
    loop
        invariant_except_break
            crumb_chain(start, root@) == pair_views(chain@) + crumb_chain(curr@, root@),
        ensures
            crumb_chain(start, root@) == pair_views(chain@),
        decreases curr@.len(),
    {
        match path_parent(curr.as_str()) {
            None => {
                proof {
                    assert(pair_views(chain@) + crumb_chain(curr@, root@) =~= pair_views(chain@));
                }
                break ;
            },
            Some(parent) => {
                let name = name_of_path(curr.as_str());
                let at_root = paths_equal(curr.as_str(), root);
                let ghost before = pair_views(chain@);
                let ghost item = (display_name(curr@), curr@);
                chain.push((name, curr.clone()));
                proof {
                    assert(pair_views(chain@) =~= before.push(item));
                }
                if at_root {
                    proof {
                        assert(crumb_chain(start, root@) =~= pair_views(chain@));
                    }
                    break ;
                }
                proof {
                    assert(pair_views(chain@) + crumb_chain(parent@, root@) =~= before + (seq![item]
                        + crumb_chain(parent@, root@)));
                }
                curr = parent;
            },
        }
    }
    let mut segs: Vec<(String, String)> = Vec::new();
    let mut k: usize = chain.len();
    while k > 0
        invariant
            k <= chain@.len(),
            crumb_chain(start, root@) == pair_views(chain@),
            pair_views(segs@) == pair_views(chain@).reverse().subrange(
                0,
                (chain@.len() - k) as int,
            ),
        decreases k,
    {
        k = k - 1;
        let (a, b) = &chain[k];
        let ghost before = pair_views(segs@);
        segs.push((a.clone(), b.clone()));
        proof {
            assert(pair_views(segs@) =~= before.push(pair_views(chain@)[k as int]));
            assert(pair_views(segs@) =~= pair_views(chain@).reverse().subrange(
                0,
                (chain@.len() - k) as int,
            ));
        }
    }
    proof {
        assert(pair_views(chain@).reverse().subrange(0, chain@.len() as int) =~= pair_views(
            chain@,
        ).reverse());
    }
    if segs.len() == 0 {
        segs.push((String::from_str(current), String::from_str(current)));
        proof {
            assert(pair_views(segs@) =~= seq![(current@, current@)]);
        }
    }
    segs
}

/// The last breadcrumb is the current directory.
pub proof fn lemma_last_crumb_is_current(current: Seq<char>, root: Seq<char>)
    ensures
        breadcrumbs(current, root).len() > 0,
        breadcrumbs(current, root).last().1 == current,
{
    let chain = crumb_chain(current, root);
    if chain.len() > 0 {
        assert(chain[0].1 == current);
        assert(chain.reverse().last() == chain[0]);
    }
}

/// Whether the "up" button is enabled: the current path has a parent and is
/// not the same path as the root.
pub fn can_go_up(current: &str, root: &str) -> (b: bool)
    ensures
        b == (parent_of(current@) is Some && !same_path(current@, root@)),
{
    match path_parent(current) {
        Some(_) => !paths_equal(current, root),
        None => false,
    }
}

/// The selection text of the status bar.
pub open spec fn selection_label(selected: Option<Seq<char>>, item_count: nat) -> Seq<char> {
    match selected {
        Some(p) => match file_name_of(p) {
            Some(n) => "Selected: "@ + n,
            None => Seq::empty(),
        },
        None => decimal(item_count) + " items"@,
    }
}

/// The selection text of the status bar: the selected file's name, or the
/// number of items in the current directory when nothing is selected.
pub fn selection_text(selected: Option<&str>, item_count: usize) -> (s: String)
    ensures
        s@ == selection_label(
            match selected {
                Some(p) => Some(p@),
                None => None,
            },
            item_count as nat,
        ),
{
    match selected {
        Some(p) => match path_file_name(p) {
            Some(n) => {
                let mut s = String::from_str("Selected: ");
                s.append(n.as_str());
                s
            },
            None => String::new(),
        },
        None => {
            let mut s = String::new();
            push_decimal(&mut s, item_count as u128);
            s.append(" items");
            s
        },
    }
}

/// The first `max_lines` lines of `content`, for the preview.
pub fn preview_lines(content: &str, max_lines: usize) -> (lines: Vec<String>)
    ensures
        string_views(lines@) == if lines_of(content@).len() <= max_lines {
            lines_of(content@)
        } else {
            lines_of(content@).subrange(0, max_lines as int)
        },
{
    let mut lines = text_lines(content);
    let ghost all = string_views(lines@);
    lines.truncate(max_lines);
    proof {
        if all.len() > max_lines {
            assert(string_views(lines@) =~= all.subrange(0, max_lines as int));
        } else {
            assert(string_views(lines@) =~= all);
        }
    }
    lines
}

/// How the canvas colours a node's size: directories apart, then files above
/// 10 MiB, above 1 MiB, and the rest.
#[derive(Debug, Clone, Copy, PartialEq, Eq, Structural)]
pub enum SizeTier {
    Directory,
    Huge,
    Large,
    Small,
}

/// The size tier of a node.
pub fn size_tier(is_dir: bool, size_bytes: u64) -> (t: SizeTier)
    ensures
        t == if is_dir {
            SizeTier::Directory
        } else if size_bytes > 10 * 1024 * 1024 {
            SizeTier::Huge
        } else if size_bytes > 1024 * 1024 {
            SizeTier::Large
        } else {
            SizeTier::Small
        },
{
    if is_dir {
        SizeTier::Directory
    } else if size_bytes > 10 * 1024 * 1024 {
        SizeTier::Huge
    } else if size_bytes > 1024 * 1024 {
        SizeTier::Large
    } else {
        SizeTier::Small
    }
}

/// How many children a node previews: at most four.
pub fn preview_count(children: usize) -> (n: usize)
    ensures
        n == if children < 4 {
            children
        } else {
            4
        },
{
    if children < 4 {
        children
    } else {
        4
    }
}

/// The "+N" marker for the children a node does not preview, if any.
pub fn more_marker(children: usize) -> (m: Option<String>)
    ensures
        match m {
            Some(s) => children > 4 && s@ == "+"@ + decimal((children - 4) as nat),
            None => children <= 4,
        },
{
    if children > 4 {
        let mut s = String::from_str("+");
        push_decimal(&mut s, (children - 4) as u128);
        Some(s)
    } else {
        None
    }
}

/// What a key pressed on the graph canvas does.
#[derive(Debug, Clone, Copy, PartialEq, Eq, Structural)]
pub enum GraphKeyAction {
    /// Enter the selected directory.
    OpenSelection,
    /// Go up to the parent directory.
    NavigateUp,
    ZoomIn,
    ZoomOut,
    ResetZoom,
    /// The left arrow: the plane moves right.
    PanLeft,
    /// The right arrow: the plane moves left.
    PanRight,
    /// The up arrow: the plane moves down.
    PanUp,
    /// The down arrow: the plane moves up.
    PanDown,
}

/// The action bound to the key named `key`, if any.
pub open spec fn key_binding(key: Seq<char>) -> Option<GraphKeyAction> {
    if key == "enter"@ {
        Some(GraphKeyAction::OpenSelection)
    } else if key == "backspace"@ {
        Some(GraphKeyAction::NavigateUp)
    } else if key == "="@ || key == "+"@ {
        Some(GraphKeyAction::ZoomIn)
    } else if key == "-"@ {
        Some(GraphKeyAction::ZoomOut)
    } else if key == "0"@ {
        Some(GraphKeyAction::ResetZoom)
    } else if key == "left"@ {
        Some(GraphKeyAction::PanLeft)
    } else if key == "right"@ {
        Some(GraphKeyAction::PanRight)
    } else if key == "up"@ {
        Some(GraphKeyAction::PanUp)
    } else if key == "down"@ {
        Some(GraphKeyAction::PanDown)
    } else {
        None
    }
}

/// The action bound to the key named `key`, if any.
pub fn key_action(key: &str) -> (a: Option<GraphKeyAction>)
    ensures
        a == key_binding(key@),
{
    if str_equal(key, "enter") {
        Some(GraphKeyAction::OpenSelection)
    } else if str_equal(key, "backspace") {
        Some(GraphKeyAction::NavigateUp)
    } else if str_equal(key, "=") || str_equal(key, "+") {
        Some(GraphKeyAction::ZoomIn)
    } else if str_equal(key, "-") {
        Some(GraphKeyAction::ZoomOut)
    } else if str_equal(key, "0") {
        Some(GraphKeyAction::ResetZoom)
    } else if str_equal(key, "left") {
        Some(GraphKeyAction::PanLeft)
    } else if str_equal(key, "right") {
        Some(GraphKeyAction::PanRight)
    } else if str_equal(key, "up") {
        Some(GraphKeyAction::PanUp)
    } else if str_equal(key, "down") {
        Some(GraphKeyAction::PanDown)
    } else {
        None
    }
}

} // verus!
