//! The navigation state of the explorer: where it is, where it has been, what
//! is selected, expanded and filtered, and the status line that reports it.
use vstd::prelude::*;
use crate::external::{
    joined, lowercase, parent_of, path_join, path_parent, paths_equal, same_path, string_views,
    to_lowercase,
};
use crate::fs_entry::FsEntry;
use crate::layout::{kind_name, LayoutKind};
use crate::text::{chars_of, contains_chars, seq_contains};

verus! {

/// The workspace state. Paths are written as text and compared component by
/// component.
pub struct Workspace {
    pub root_path: String,
    pub current_path: String,
    pub selected_path: Option<String>,
    pub current_entry: Option<FsEntry>,
    pub layout_kind: LayoutKind,
    pub filter_query: String,
    pub show_hidden: bool,
    /// Directories shown expanded; no path occurs twice.
    pub expanded_paths: Vec<String>,
    /// Roots opened so far, most recent first; no path occurs twice.
    pub recent_paths: Vec<String>,
    pub is_loading: bool,
    pub status_message: Option<String>,
    pub history_back: Vec<String>,
    pub history_forward: Vec<String>,
}

/// The workspace state with every path and text as a character sequence.
pub struct WorkspaceView {
    pub root: Seq<char>,
    pub current: Seq<char>,
    pub selected: Option<Seq<char>>,
    pub entry: Option<FsEntry>,
    pub kind: LayoutKind,
    pub filter: Seq<char>,
    pub show_hidden: bool,
    pub expanded: Seq<Seq<char>>,
    pub recent: Seq<Seq<char>>,
    pub loading: bool,
    pub status: Option<Seq<char>>,
    pub back: Seq<Seq<char>>,
    pub forward: Seq<Seq<char>>,
}

/// The view of an optional string.
pub open spec fn opt_text(p: Option<String>) -> Option<Seq<char>> {
    match p {
        Some(s) => Some(s@),
        None => None,
    }
}

impl View for Workspace {
    type V = WorkspaceView;

    open spec fn view(&self) -> WorkspaceView {
        WorkspaceView {
            root: self.root_path@,
            current: self.current_path@,
            selected: opt_text(self.selected_path),
            entry: self.current_entry,
            kind: self.layout_kind,
            filter: self.filter_query@,
            show_hidden: self.show_hidden,
            expanded: string_views(self.expanded_paths@),
            recent: string_views(self.recent_paths@),
            loading: self.is_loading,
            status: opt_text(self.status_message),
            back: string_views(self.history_back@),
            forward: string_views(self.history_forward@),
        }
    }
}

/// The state's own consistency: the expanded and the recent paths hold no
/// path twice.
pub open spec fn wf(v: WorkspaceView) -> bool {
    &&& distinct_paths(v.expanded)
    &&& distinct_paths(v.recent)
}

/// One step back in the history (when there is one).
pub open spec fn after_back(v: WorkspaceView) -> WorkspaceView {
    WorkspaceView {
        current: v.back.last(),
        back: v.back.drop_last(),
        forward: v.forward.push(v.current),
        selected: None,
        status: Some("Navigated back to "@ + v.back.last()),
        ..v
    }
}

/// One step forward in the history (when there is one).
pub open spec fn after_forward(v: WorkspaceView) -> WorkspaceView {
    WorkspaceView {
        current: v.forward.last(),
        forward: v.forward.drop_last(),
        back: v.back.push(v.current),
        selected: None,
        status: Some("Navigated forward to "@ + v.forward.last()),
        ..v
    }
}

/// A move to `path`: the old location is remembered for going back (unless it
/// is the same path as `path`, when the history stays), the forward history is
/// dropped, and the selection is cleared.
pub open spec fn after_move(v: WorkspaceView, path: Seq<char>) -> WorkspaceView {
    if same_path(path, v.current) {
        WorkspaceView { current: path, selected: None, ..v }
    } else {
        WorkspaceView {
            current: path,
            back: v.back.push(v.current),
            forward: Seq::empty(),
            selected: None,
            ..v
        }
    }
}

/// Opening `path` as the root: a move there, remembered among the recent roots.
pub open spec fn after_open_root(v: WorkspaceView, path: Seq<char>) -> WorkspaceView {
    WorkspaceView {
        root: path,
        recent: if has_path(v.recent, path) {
            v.recent
        } else {
            seq![path] + v.recent
        },
        status: Some("Opened root: "@ + path),
        ..after_move(v, path)
    }
}

/// Entering the directory `path`: a move there, with the filter cleared.
pub open spec fn after_drill_down(v: WorkspaceView, path: Seq<char>) -> WorkspaceView {
    WorkspaceView {
        filter: Seq::empty(),
        status: Some("Navigated to "@ + path),
        ..after_move(v, path)
    }
}

/// Going up to `parent` (not the same path as the current one): a move there,
/// with the filter cleared.
pub open spec fn after_up(v: WorkspaceView, parent: Seq<char>) -> WorkspaceView {
    WorkspaceView {
        filter: Seq::empty(),
        status: Some("Navigated up to "@ + parent),
        ..after_move(v, parent)
    }
}

/// Showing hidden files when they were hidden, and the reverse.
pub open spec fn after_toggle_hidden(v: WorkspaceView) -> WorkspaceView {
    WorkspaceView {
        show_hidden: !v.show_hidden,
        status: Some(
            if !v.show_hidden {
                "Showing hidden files"@
            } else {
                "Hiding hidden files"@
            },
        ),
        ..v
    }
}

/// Whether `p` is shown expanded.
pub open spec fn expanded(v: WorkspaceView, p: Seq<char>) -> bool {
    has_path(v.expanded, p)
}

/// The children whose lower-cased name contains the lower-cased query; all of
/// them when the lower-cased query is empty.
pub open spec fn name_filter(children: Seq<FsEntry>, query: Seq<char>) -> Seq<FsEntry> {
    if lowercase(query).len() == 0 {
        children
    } else {
        children.filter(matches_query(lowercase(query)))
    }
}

/// An entry whose lower-cased name contains `q`.
pub open spec fn matches_query(q: Seq<char>) -> spec_fn(FsEntry) -> bool {
    |e: FsEntry| seq_contains(lowercase(e.name@), q)
}

/// Whether some entry of `paths` is the same path as `p`.
pub open spec fn has_path(paths: Seq<Seq<char>>, p: Seq<char>) -> bool {
    exists|i: int| 0 <= i < paths.len() && #[trigger] same_path(paths[i], p)
}

/// No two entries of `paths` are the same path.
pub open spec fn distinct_paths(paths: Seq<Seq<char>>) -> bool {
    forall|i: int, j: int|
        #![trigger paths[i], paths[j]]
        0 <= i < j < paths.len() ==> !same_path(paths[i], paths[j])
}

/// The position of an entry of `paths` that is the same path as `p` (the only
/// one, when the entries are distinct paths).
pub open spec fn match_index(paths: Seq<Seq<char>>, p: Seq<char>) -> int {
    choose|i: int| 0 <= i < paths.len() && #[trigger] same_path(paths[i], p)
}

/// Whether some entry of `paths` is the same path as `p`.
pub fn contains_path(paths: &Vec<String>, p: &str) -> (b: bool)
    ensures
        b == has_path(string_views(paths@), p@),
{
    match position_of(paths, p) {
        Some(i) => {
            proof {
                assert(same_path(string_views(paths@)[i as int], p@));
            }
            true
        },
        None => false,
    }
}

/// The first entry of `paths` that is the same path as `p`.
fn position_of(paths: &Vec<String>, p: &str) -> (r: Option<usize>)
    ensures
        match r {
            Some(i) => i < paths@.len() && same_path(paths@[i as int]@, p@) && forall|j: int|
                0 <= j < i ==> !same_path(#[trigger] paths@[j]@, p@),
            None => !has_path(string_views(paths@), p@),
        },
{
    let mut i: usize = 0;
    while i < paths.len()
        invariant
            i <= paths@.len(),
            forall|j: int| 0 <= j < i ==> !same_path(#[trigger] paths@[j]@, p@),
        decreases paths@.len() - i,
    {
        if paths_equal(paths[i].as_str(), p) {
            return Some(i);
        }
        i = i + 1;
    }
    proof {
        if has_path(string_views(paths@), p@) {
            let j = choose|j: int|
                0 <= j < paths@.len() && #[trigger] same_path(string_views(paths@)[j], p@);
            assert(string_views(paths@)[j] == paths@[j]@);
        }
    }
    None
}

/// Adds `path` to `paths` when no entry is the same path, and removes the
/// entry that is when there is one; a list of distinct paths stays so.
pub fn toggle_path(paths: &mut Vec<String>, path: String)
    requires
        distinct_paths(string_views(old(paths)@)),
    ensures
        distinct_paths(string_views(final(paths)@)),
        string_views(final(paths)@) == if has_path(string_views(old(paths)@), path@) {
            string_views(old(paths)@).remove(match_index(string_views(old(paths)@), path@))
        } else {
            string_views(old(paths)@).push(path@)
        },
        forall|q: Seq<char>|
            #[trigger] has_path(string_views(final(paths)@), q) == if same_path(q, path@) {
                !has_path(string_views(old(paths)@), q)
            } else {
                has_path(string_views(old(paths)@), q)
            },
{
    let ghost old_v = string_views(paths@);
    match position_of(paths, path.as_str()) {
        Some(i) => {
            paths.remove(i);
            proof {
                let new_v = string_views(paths@);
                assert(new_v =~= old_v.remove(i as int));
                assert(same_path(old_v[i as int], path@));
                let m = match_index(old_v, path@);
                assert(0 <= m < old_v.len() && same_path(old_v[m], path@));
                if m < i {
                    assert(!same_path(old_v[m], old_v[i as int]));
                } else if m > i {
                    assert(!same_path(old_v[i as int], old_v[m]));
                }
                assert(m == i);
                assert forall|q: Seq<char>|
                    #[trigger] has_path(new_v, q) == if same_path(q, path@) {
                        !has_path(old_v, q)
                    } else {
                        has_path(old_v, q)
                    } by {
                    if has_path(new_v, q) {
                        let j = choose|j: int| 0 <= j < new_v.len() && #[trigger] same_path(new_v[j], q);
                        let k = if j < i {
                            j
                        } else {
                            j + 1
                        };
                        assert(old_v[k] == new_v[j]);
                        assert(same_path(old_v[k], q));
                        if same_path(q, path@) {
                            if k < i {
                                assert(!same_path(old_v[k], old_v[i as int]));
                            } else {
                                assert(!same_path(old_v[i as int], old_v[k]));
                            }
                        }
                    }
                    if !same_path(q, path@) && has_path(old_v, q) {
                        let k = choose|k: int| 0 <= k < old_v.len() && #[trigger] same_path(old_v[k], q);
                        assert(k != i);
                        let j = if k < i {
                            k
                        } else {
                            k - 1
                        };
                        assert(new_v[j] == old_v[k]);
                        assert(same_path(new_v[j], q));
                    }
                    if same_path(q, path@) {
                        assert(same_path(old_v[i as int], q));
                    }
                }
                assert forall|a: int, b: int|
                    #![trigger new_v[a], new_v[b]]
                    0 <= a < b < new_v.len() implies !same_path(new_v[a], new_v[b]) by {
                    let oa = if a < i {
                        a
                    } else {
                        a + 1
                    };
                    let ob = if b < i {
                        b
                    } else {
                        b + 1
                    };
                    assert(old_v[oa] == new_v[a] && old_v[ob] == new_v[b]);
                    assert(!same_path(old_v[oa], old_v[ob]));
                }
            }
        },
        None => {
            paths.push(path);
            proof {
                let new_v = string_views(paths@);
                assert(new_v =~= old_v.push(path@));
                let last = old_v.len() as int;
                assert(new_v[last] == path@);
                assert forall|q: Seq<char>|
                    #[trigger] has_path(new_v, q) == if same_path(q, path@) {
                        !has_path(old_v, q)
                    } else {
                        has_path(old_v, q)
                    } by {
                    if has_path(new_v, q) && !same_path(q, path@) {
                        let j = choose|j: int| 0 <= j < new_v.len() && #[trigger] same_path(new_v[j], q);
                        assert(j != last);
                        assert(old_v[j] == new_v[j]);
                        assert(same_path(old_v[j], q));
                    }
                    if has_path(old_v, q) {
                        let k = choose|k: int| 0 <= k < old_v.len() && #[trigger] same_path(old_v[k], q);
                        assert(new_v[k] == old_v[k]);
                        assert(same_path(new_v[k], q));
                        if same_path(q, path@) {
                            assert(same_path(old_v[k], path@));
                        }
                    }
                    if same_path(q, path@) {
                        assert(same_path(new_v[last], q));
                    }
                }
                assert forall|a: int, b: int|
                    #![trigger new_v[a], new_v[b]]
                    0 <= a < b < new_v.len() implies !same_path(new_v[a], new_v[b]) by {
                    if b == last {
                        assert(old_v[a] == new_v[a]);
                        if same_path(new_v[a], new_v[b]) {
                            assert(same_path(old_v[a], path@));
                        }
                    } else {
                        assert(old_v[a] == new_v[a] && old_v[b] == new_v[b]);
                    }
                }
            }
        },
    }
}

/// A new status line `prefix` + `text`.
fn status_text(prefix: &str, text: &str) -> (s: Option<String>)
    ensures
        opt_text(s) == Some(prefix@ + text@),
{
    let mut s = String::from_str(prefix);
    s.append(text);
    Some(s)
}

/// Keeps the children whose lower-cased name contains the lower-cased query.
pub fn filter_by_name(children: Vec<FsEntry>, query: &str) -> (out: Vec<FsEntry>)
    ensures
        out@ == name_filter(children@, query@),
{
    let q_lower = to_lowercase(query);
    let q = chars_of(q_lower.as_str());
    if q.len() == 0 {
        return children;
    }
    let ghost pred = matches_query(lowercase(query@));
    let mut out: Vec<FsEntry> = Vec::new();
    let mut rest = children;
    let ghost inp = rest@;
    let ghost mut i: int = 0;
    proof {
        reveal_with_fuel(Seq::filter, 1);
        assert(inp.subrange(0, 0) =~= Seq::<FsEntry>::empty());
    }
    while rest.len() > 0
        invariant
            0 <= i <= inp.len(),
            rest@ == inp.subrange(i, inp.len() as int),
            q@ == lowercase(query@),
            pred == matches_query(lowercase(query@)),
            out@ == inp.subrange(0, i).filter(pred),
        decreases rest@.len(),
    {
        let e = rest.remove(0);
        let lower = to_lowercase(e.name.as_str());
        let name_chars = chars_of(lower.as_str());
        let keep = contains_chars(&name_chars, &q);
        proof {
            reveal_with_fuel(Seq::filter, 1);
            assert(inp.subrange(0, i + 1).drop_last() =~= inp.subrange(0, i));
            assert(inp.subrange(0, i + 1).last() == e);
            assert(keep == pred(e));
        }
        if keep {
            out.push(e);
        }
        proof {
            i = i + 1;
            assert(rest@ =~= inp.subrange(i, inp.len() as int));
        }
    }
    proof {
        assert(inp.subrange(0, i) =~= inp);
    }
    out
}

impl Workspace {
    /// A workspace opened at `root_path`.
    pub fn new(root_path: String) -> (w: Workspace)
        ensures
            w@ == (WorkspaceView {
                root: root_path@,
                current: root_path@,
                selected: None,
                entry: None,
                kind: LayoutKind::NativeTopDown,
                filter: Seq::empty(),
                show_hidden: false,
                expanded: Seq::empty(),
                recent: seq![root_path@],
                loading: false,
                status: Some("Opened "@ + root_path@),
                back: Seq::empty(),
                forward: Seq::empty(),
            }),
            wf(w@),
    {
        let status = status_text("Opened ", root_path.as_str());
        let mut recent: Vec<String> = Vec::new();
        recent.push(root_path.clone());
        let w = Workspace {
            root_path: root_path.clone(),
            current_path: root_path,
            selected_path: None,
            current_entry: None,
            layout_kind: LayoutKind::NativeTopDown,
            filter_query: String::new(),
            show_hidden: false,
            expanded_paths: Vec::new(),
            recent_paths: recent,
            is_loading: false,
            status_message: status,
            history_back: Vec::new(),
            history_forward: Vec::new(),
        };
        proof {
            assert(w@.recent =~= seq![w.root_path@]);
            assert(w@.expanded =~= Seq::<Seq<char>>::empty());
            assert(w@.back =~= Seq::<Seq<char>>::empty());
            assert(w@.forward =~= Seq::<Seq<char>>::empty());
            assert(w@.filter =~= Seq::<char>::empty());
        }
        w
    }

    /// Whether `path` is shown expanded.
    pub fn is_expanded(&self, path: &str) -> (b: bool)
        ensures
            b == expanded(self@, path@),
    {
        contains_path(&self.expanded_paths, path)
    }

    /// Flips whether `path` is shown expanded; nothing else changes.
    pub fn toggle_expand(&mut self, path: String)
        requires
            wf(old(self)@),
        ensures
            final(self)@ == (WorkspaceView { expanded: final(self)@.expanded, ..old(self)@ }),
            final(self)@.expanded == if expanded(old(self)@, path@) {
                old(self)@.expanded.remove(match_index(old(self)@.expanded, path@))
            } else {
                old(self)@.expanded.push(path@)
            },
            forall|q: Seq<char>|
                #[trigger] expanded(final(self)@, q) == if same_path(q, path@) {
                    !expanded(old(self)@, q)
                } else {
                    expanded(old(self)@, q)
                },
            wf(final(self)@),
    {
        toggle_path(&mut self.expanded_paths, path);
    }

    /// Whether there is a place to go back to.
    pub fn can_go_back(&self) -> (b: bool)
        ensures
            b == (self@.back.len() > 0),
    {
        self.history_back.len() > 0
    }

    /// Whether there is a place to go forward to.
    pub fn can_go_forward(&self) -> (b: bool)
        ensures
            b == (self@.forward.len() > 0),
    {
        self.history_forward.len() > 0
    }

    /// Goes back one step; `false`, with nothing changed, when there is no history.
    pub fn navigate_back(&mut self) -> (moved: bool)
        ensures
            moved == (old(self)@.back.len() > 0),
            final(self)@ == if moved {
                after_back(old(self)@)
            } else {
                old(self)@
            },
    {
        if self.history_back.len() == 0 {
            return false;
        }
        match self.history_back.pop() {
            Some(prev) => {
                self.history_forward.push(self.current_path.clone());
                self.current_path = prev;
                self.selected_path = None;
                self.status_message = status_text("Navigated back to ", self.current_path.as_str());
                proof {
                    assert(self@.back =~= old(self)@.back.drop_last());
                    assert(self@.forward =~= old(self)@.forward.push(old(self)@.current));
                }
                true
            },
            None => false,
        }
    }

    /// Goes forward one step; `false`, with nothing changed, when there is no history.
    pub fn navigate_forward(&mut self) -> (moved: bool)
        ensures
            moved == (old(self)@.forward.len() > 0),
            final(self)@ == if moved {
                after_forward(old(self)@)
            } else {
                old(self)@
            },
    {
        if self.history_forward.len() == 0 {
            return false;
        }
        match self.history_forward.pop() {
            Some(next) => {
                self.history_back.push(self.current_path.clone());
                self.current_path = next;
                self.selected_path = None;
                self.status_message = status_text(
                    "Navigated forward to ",
                    self.current_path.as_str(),
                );
                proof {
                    assert(self@.forward =~= old(self)@.forward.drop_last());
                    assert(self@.back =~= old(self)@.back.push(old(self)@.current));
                }
                true
            },
            None => false,
        }
    }

    /// Records the move to `path`.
    fn move_to(&mut self, path: String)
        ensures
            final(self)@ == after_move(old(self)@, path@),
    {
        if !paths_equal(path.as_str(), self.current_path.as_str()) {
            self.history_back.push(self.current_path.clone());
            self.history_forward.clear();
            proof {
                assert(self@.back =~= old(self)@.back.push(old(self)@.current));
                assert(self@.forward =~= Seq::<Seq<char>>::empty());
            }
        }
        self.current_path = path;
        self.selected_path = None;
    }

    /// Opens `path` as the new root when it is a directory (`is_dir`, as the
    /// file system reports it); `false`, with nothing changed, otherwise.
    pub fn open_root(&mut self, path: String, is_dir: bool) -> (opened: bool)
        requires
            wf(old(self)@),
        ensures
            opened == is_dir,
            final(self)@ == if opened {
                after_open_root(old(self)@, path@)
            } else {
                old(self)@
            },
            wf(final(self)@),
    {
        if !is_dir {
            return false;
        }
        let ghost old_recent = self@.recent;
        self.move_to(path.clone());
        self.root_path = path.clone();
        if !contains_path(&self.recent_paths, path.as_str()) {
            self.recent_paths.insert(0, path.clone());
            proof {
                let nv = self@.recent;
                assert(nv =~= seq![path@] + old_recent);
                assert forall|a: int, b: int|
                    #![trigger nv[a], nv[b]]
                    0 <= a < b < nv.len() implies !same_path(nv[a], nv[b]) by {
                    assert(old_recent[b - 1] == nv[b]);
                    if a == 0 {
                        if same_path(nv[a], nv[b]) {
                            assert(same_path(old_recent[b - 1], path@));
                        }
                    } else {
                        assert(old_recent[a - 1] == nv[a]);
                        assert(!same_path(old_recent[a - 1], old_recent[b - 1]));
                    }
                }
            }
        }
        self.status_message = status_text("Opened root: ", path.as_str());
        true
    }

    /// Enters the directory `path` (`is_dir`, as the file system reports it)
    /// and clears the filter; `false`, with nothing changed, for a file.
    pub fn drill_down(&mut self, path: String, is_dir: bool) -> (entered: bool)
        ensures
            entered == is_dir,
            final(self)@ == if entered {
                after_drill_down(old(self)@, path@)
            } else {
                old(self)@
            },
    {
        if !is_dir {
            return false;
        }
        let status = status_text("Navigated to ", path.as_str());
        self.move_to(path);
        self.filter_query = String::new();
        self.status_message = status;
        proof {
            assert(self@.filter =~= Seq::<char>::empty());
        }
        true
    }

    /// Goes up to `parent`, the parent directory of the current path as the
    /// file system names it; `false`, with nothing changed, when there is none
    /// or it is the current path itself.
    pub fn move_up_to(&mut self, parent: Option<String>) -> (moved: bool)
        ensures
            moved == match parent {
                Some(p) => !same_path(p@, old(self)@.current),
                None => false,
            },
            final(self)@ == if moved {
                after_up(old(self)@, parent->0@)
            } else {
                old(self)@
            },
    {
        match parent {
            Some(p) => {
                if paths_equal(p.as_str(), self.current_path.as_str()) {
                    return false;
                }
                let status = status_text("Navigated up to ", p.as_str());
                self.move_to(p);
                self.filter_query = String::new();
                self.status_message = status;
                proof {
                    assert(self@.filter =~= Seq::<char>::empty());
                }
                true
            },
            None => false,
        }
    }

    /// Goes up to the parent directory of the current path.
    pub fn navigate_up(&mut self) -> (moved: bool)
        ensures
            moved == (parent_of(old(self)@.current) is Some && !same_path(
                parent_of(old(self)@.current)->0,
                old(self)@.current,
            )),
            final(self)@ == if moved {
                after_up(old(self)@, parent_of(old(self)@.current)->0)
            } else {
                old(self)@
            },
    {
        let parent = path_parent(self.current_path.as_str());
        self.move_up_to(parent)
    }

    /// Selects `path`, or clears the selection.
    pub fn select_path(&mut self, path: Option<String>)
        ensures
            final(self)@ == (WorkspaceView { selected: opt_text(path), ..old(self)@ }),
    {
        self.selected_path = path;
    }

    /// Switches the layout algorithm.
    pub fn set_layout_kind(&mut self, kind: LayoutKind)
        ensures
            final(self)@ == (WorkspaceView {
                kind,
                status: Some("Switched layout to "@ + kind_name(kind)),
                ..old(self)@
            }),
    {
        self.layout_kind = kind;
        self.status_message = status_text("Switched layout to ", kind.name());
    }

    /// Replaces the name filter.
    pub fn set_filter_query(&mut self, query: String)
        ensures
            final(self)@ == (WorkspaceView { filter: query@, ..old(self)@ }),
    {
        self.filter_query = query;
    }

    /// Shows or hides hidden files, the opposite of before.
    pub fn toggle_hidden(&mut self)
        ensures
            final(self)@ == after_toggle_hidden(old(self)@),
    {
        self.show_hidden = !self.show_hidden;
        proof {
            reveal_strlit("");
        }
        self.status_message = if self.show_hidden {
            status_text("Showing hidden files", "")
        } else {
            status_text("Hiding hidden files", "")
        };
        proof {
            assert("Showing hidden files"@ + ""@ =~= "Showing hidden files"@);
            assert("Hiding hidden files"@ + ""@ =~= "Hiding hidden files"@);
        }
    }

    /// Where a new entry called `name` goes: inside the current directory.
    pub fn entry_target(&self, name: &str) -> (p: String)
        ensures
            p@ == joined(self@.current, name@),
    {
        path_join(self.current_path.as_str(), name)
    }

    /// Records that the entry `name` was created at `target`: it is selected
    /// and the status line says so.
    pub fn note_created(&mut self, name: &str, is_dir: bool, target: String)
        ensures
            final(self)@ == (WorkspaceView {
                selected: Some(target@),
                status: Some(
                    if is_dir {
                        "Created directory: "@
                    } else {
                        "Created file: "@
                    } + name@,
                ),
                ..old(self)@
            }),
    {
        self.status_message = if is_dir {
            status_text("Created directory: ", name)
        } else {
            status_text("Created file: ", name)
        };
        self.selected_path = Some(target);
    }

    /// Records that an entry was renamed to `new_name`, now at `new_path`: it
    /// is selected and the status line says so.
    pub fn note_renamed(&mut self, new_name: &str, new_path: String)
        ensures
            final(self)@ == (WorkspaceView {
                selected: Some(new_path@),
                status: Some("Renamed to "@ + new_name@),
                ..old(self)@
            }),
    {
        self.status_message = status_text("Renamed to ", new_name);
        self.selected_path = Some(new_path);
    }

    /// Records that `path` was deleted: the status line says so, and a
    /// selection of that path is cleared.
    pub fn note_deleted(&mut self, path: &str)
        ensures
            final(self)@ == (WorkspaceView {
                selected: match old(self)@.selected {
                    Some(s) => if same_path(s, path@) {
                        None
                    } else {
                        Some(s)
                    },
                    None => None,
                },
                status: Some("Deleted "@ + path@),
                ..old(self)@
            }),
    {
        self.status_message = status_text("Deleted ", path);
        let clear = match &self.selected_path {
            Some(s) => paths_equal(s.as_str(), path),
            None => false,
        };
        if clear {
            self.selected_path = None;
        }
    }
}

/// Where a renamed entry goes: next to the old one, under `new_name`; `None`
/// when the old path has no parent.
pub fn renamed_path(old_path: &str, new_name: &str) -> (p: Option<String>)
    ensures
        match p {
            Some(q) => parent_of(old_path@) is Some && q@ == joined(
                parent_of(old_path@)->0,
                new_name@,
            ),
            None => parent_of(old_path@) is None,
        },
{
    match path_parent(old_path) {
        Some(parent) => Some(path_join(parent.as_str(), new_name)),
        None => None,
    }
}

/// The name filter keeps exactly the children whose lower-cased name contains
/// the lower-cased query, in their order, and nothing else.
pub proof fn lemma_filter_keeps_case_insensitive_matches(children: Seq<FsEntry>, query: Seq<char>)
    ensures
        name_filter(children, query).len() <= children.len(),
        forall|e: FsEntry|
            #[trigger] name_filter(children, query).contains(e) <==> children.contains(e)
                && seq_contains(lowercase(e.name@), lowercase(query)),
{
    let q = lowercase(query);
    let out = name_filter(children, query);
    let pred = matches_query(q);
    assert forall|e: FsEntry|
        #[trigger] out.contains(e) <==> children.contains(e) && seq_contains(lowercase(e.name@), q) by {
        if q.len() == 0 {
            assert(lowercase(e.name@).subrange(0, 0 + q.len() as int) =~= q);
            assert(seq_contains(lowercase(e.name@), q));
        } else {
            if out.contains(e) {
                children.lemma_filter_contains_rev(pred, e);
                let k = choose|k: int| 0 <= k < out.len() && out[k] == e;
                children.lemma_filter_pred(pred, k);
                assert(pred(out[k]));
            }
            if children.contains(e) && seq_contains(lowercase(e.name@), q) {
                let k = choose|k: int| 0 <= k < children.len() && children[k] == e;
                children.lemma_filter_contains(pred, k);
            }
        }
    }
    children.lemma_filter_len(pred);
}

/// A query that lower-cases to nothing keeps every child, in order.
pub proof fn lemma_empty_query_keeps_all(children: Seq<FsEntry>, query: Seq<char>)
    requires
        lowercase(query).len() == 0,
    ensures
        name_filter(children, query) == children,
{
}

/// Filtering keeps the children's order: filtering two lists one after the
/// other gives the two results one after the other, and a single child is
/// kept exactly when its lower-cased name contains the lower-cased query.
pub proof fn lemma_filter_keeps_order(a: Seq<FsEntry>, b: Seq<FsEntry>, e: FsEntry, query: Seq<char>)
    ensures
        name_filter(a + b, query) == name_filter(a, query) + name_filter(b, query),
        name_filter(seq![e], query) == if seq_contains(lowercase(e.name@), lowercase(query)) {
            seq![e]
        } else {
            Seq::<FsEntry>::empty()
        },
{
    let q = lowercase(query);
    if q.len() == 0 {
        assert(lowercase(e.name@).subrange(0, 0 + q.len() as int) =~= q);
    } else {
        let pred = matches_query(q);
        Seq::filter_distributes_over_add(a, b, pred);
        reveal_with_fuel(Seq::filter, 2);
        assert(seq![e].drop_last() =~= Seq::<FsEntry>::empty());
        if pred(e) {
            assert(seq![e].filter(pred) =~= seq![e]);
        } else {
            assert(seq![e].filter(pred) =~= Seq::<FsEntry>::empty());
        }
    }
}

/// The query's case does not matter: two queries with the same lower-cased
/// text keep the same children.
pub proof fn lemma_filter_ignores_query_case(children: Seq<FsEntry>, q1: Seq<char>, q2: Seq<char>)
    requires
        lowercase(q1) == lowercase(q2),
    ensures
        name_filter(children, q1) == name_filter(children, q2),
{
}

/// Going back and then forward returns to the same place with the same history.
pub proof fn lemma_back_then_forward(v: WorkspaceView)
    requires
        v.back.len() > 0,
    ensures
        after_forward(after_back(v)).current == v.current,
        after_forward(after_back(v)).back == v.back,
        after_forward(after_back(v)).forward == v.forward,
{
    assert(v.back.drop_last().push(v.back.last()) =~= v.back);
    assert(v.forward.push(v.current).drop_last() =~= v.forward);
}

/// Going forward and then back returns to the same place with the same history.
pub proof fn lemma_forward_then_back(v: WorkspaceView)
    requires
        v.forward.len() > 0,
    ensures
        after_back(after_forward(v)).current == v.current,
        after_back(after_forward(v)).back == v.back,
        after_back(after_forward(v)).forward == v.forward,
{
    assert(v.forward.drop_last().push(v.forward.last()) =~= v.forward);
    assert(v.back.push(v.current).drop_last() =~= v.back);
}

/// Flipping the expansion of a path twice leaves every path as expanded as before.
pub proof fn lemma_toggle_twice(v0: WorkspaceView, v1: WorkspaceView, v2: WorkspaceView, p: Seq<char>)
    requires
        forall|q: Seq<char>|
            #[trigger] expanded(v1, q) == if same_path(q, p) {
                !expanded(v0, q)
            } else {
                expanded(v0, q)
            },
        forall|q: Seq<char>|
            #[trigger] expanded(v2, q) == if same_path(q, p) {
                !expanded(v1, q)
            } else {
                expanded(v1, q)
            },
    ensures
        forall|q: Seq<char>| #[trigger] expanded(v2, q) == expanded(v0, q),
{
    assert forall|q: Seq<char>| #[trigger] expanded(v2, q) == expanded(v0, q) by {
        assert(expanded(v1, q) == if same_path(q, p) {
            !expanded(v0, q)
        } else {
            expanded(v0, q)
        });
    }
}

/// Showing hidden files twice over returns to the setting it had.
pub proof fn lemma_toggle_hidden_twice(v: WorkspaceView)
    ensures
        after_toggle_hidden(after_toggle_hidden(v)).show_hidden == v.show_hidden,
{
}

/// Moving to another path always leaves a way back to where it started, and
/// nothing to go forward to.
pub proof fn lemma_move_enables_back(v: WorkspaceView, path: Seq<char>)
    requires
        !same_path(path, v.current),
    ensures
        after_move(v, path).back.len() > 0,
        after_move(v, path).back.last() == v.current,
        after_move(v, path).forward.len() == 0,
        after_move(v, path).current == path,
{
}

/// Every navigation keeps the expanded and recent paths free of repeats.
pub proof fn lemma_navigation_keeps_wf(v: WorkspaceView, path: Seq<char>)
    requires
        wf(v),
    ensures
        v.back.len() > 0 ==> wf(after_back(v)),
        v.forward.len() > 0 ==> wf(after_forward(v)),
        wf(after_drill_down(v, path)),
        wf(after_up(v, path)),
        wf(after_toggle_hidden(v)),
{
}

} // verus!
