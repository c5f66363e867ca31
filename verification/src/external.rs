//! Calls into the standard library for Unicode case mapping, path manipulation
//! and line splitting. Verus has no specification for these functions. Where
//! the documentation gives the result in a few lines (a path's extension, the
//! lines of a text) it is stated here; the other results are named by
//! uninterpreted functions of the arguments.
use vstd::prelude::*;
use crate::text::str_equal;

verus! {

/// What `str::to_lowercase` returns for `s` (full Unicode lower-casing).
pub uninterp spec fn lowercase(s: Seq<char>) -> Seq<char>;

/// What `Path::parent` returns for the path written `p`, as text.
pub uninterp spec fn parent_of(p: Seq<char>) -> Option<Seq<char>>;

/// What `Path::file_name` returns for the path written `p`, as text.
pub uninterp spec fn file_name_of(p: Seq<char>) -> Option<Seq<char>>;

/// The position of the last `.` in `name`; -1 when there is none.
pub open spec fn last_dot(name: Seq<char>) -> int
    decreases name.len(),
{
    if name.len() == 0 {
        -1
    } else if name.last() == '.' {
        name.len() - 1
    } else {
        last_dot(name.drop_last())
    }
}

/// What `Path::extension` returns for the path written `p`, as text: the part
/// of the file name after its last `.`; none without a file name, without a
/// `.` after the first character, or for `..`.
pub open spec fn extension_of(p: Seq<char>) -> Option<Seq<char>> {
    match file_name_of(p) {
        None => None,
        Some(name) => if name == seq!['.', '.'] || last_dot(name) <= 0 {
            None
        } else {
            Some(name.skip(last_dot(name) + 1))
        },
    }
}

/// The name shown for the path written `p`: its final component, or the whole
/// path when it has none.
pub open spec fn display_name(p: Seq<char>) -> Seq<char> {
    match file_name_of(p) {
        Some(n) => n,
        None => p,
    }
}

/// What `Path::join` returns for the path `base` joined with `name`, as text.
pub uninterp spec fn joined(base: Seq<char>, name: Seq<char>) -> Seq<char>;

/// `line` without one `\r` at its end.
pub open spec fn strip_cr(line: Seq<char>) -> Seq<char> {
    if line.len() > 0 && line.last() == '\r' {
        line.drop_last()
    } else {
        line
    }
}

/// The lines of `s`, where `cur` is the part of the current line read so far:
/// a line ends at `\n` (a `\r` before it is dropped); the last line needs no
/// `\n`, and nothing follows a final `\n`.
pub open spec fn lines_after(cur: Seq<char>, s: Seq<char>) -> Seq<Seq<char>>
    decreases s.len(),
{
    if s.len() == 0 {
        if cur.len() == 0 {
            Seq::empty()
        } else {
            seq![cur]
        }
    } else if s[0] == '\n' {
        seq![strip_cr(cur)] + lines_after(Seq::empty(), s.skip(1))
    } else {
        lines_after(cur.push(s[0]), s.skip(1))
    }
}

/// What `str::lines` yields for `s`, one entry per line.
pub open spec fn lines_of(s: Seq<char>) -> Seq<Seq<char>> {
    lines_after(Seq::empty(), s)
}

/// What `Path::components` yields for the path written `p`, each component
/// as text (the root as the separator, `.` and `..` as written).
pub uninterp spec fn components_of(p: Seq<char>) -> Seq<Seq<char>>;

/// Whether `a` and `b` name the same path: `Path` compares paths component by
/// component, so `/a/b/`, `/a//b` and `/a/./b` are all the path `/a/b`.
/// Components are compared here by their text, which on Unix is exactly how
/// `Path` compares them.
pub open spec fn same_path(a: Seq<char>, b: Seq<char>) -> bool {
    components_of(a) == components_of(b)
}

/// The views of a sequence of strings.
pub open spec fn string_views(v: Seq<String>) -> Seq<Seq<char>> {
    v.map_values(|s: String| s@)
}

/// `str::to_lowercase`: the result is `lowercase(s@)`.
#[verifier::external_body]
pub(crate) fn to_lowercase(s: &str) -> (r: String)
    ensures
        r@ == lowercase(s@),
{
    s.to_lowercase()
}

/// `Path::parent` of the path written `p`, as text: the result is `parent_of(p@)`.
/// `Path::parent` drops the final component and returns the leading part of
/// `p` before it, so a parent is always shorter than `p`; nothing else is stated.
#[verifier::external_body]
pub(crate) fn path_parent(p: &str) -> (r: Option<String>)
    ensures
        match r {
            Some(q) => parent_of(p@) == Some(q@) && q@.len() < p@.len(),
            None => parent_of(p@) is None,
        },
{
    match std::path::Path::new(p).parent() {
        Some(q) => Some(q.to_string_lossy().into_owned()),
        None => None,
    }
}

/// `Path::file_name` of the path written `p`, as text: the result is `file_name_of(p@)`.
#[verifier::external_body]
pub(crate) fn path_file_name(p: &str) -> (r: Option<String>)
    ensures
        match r {
            Some(q) => file_name_of(p@) == Some(q@),
            None => file_name_of(p@) is None,
        },
{
    match std::path::Path::new(p).file_name() {
        Some(q) => Some(q.to_string_lossy().into_owned()),
        None => None,
    }
}

/// `Path::extension` of the path written `p`, as text: the result is
/// `extension_of(p@)`, the rule that its documentation gives.
#[verifier::external_body]
pub(crate) fn path_extension(p: &str) -> (r: Option<String>)
    ensures
        match r {
            Some(q) => extension_of(p@) == Some(q@),
            None => extension_of(p@) is None,
        },
{
    match std::path::Path::new(p).extension() {
        Some(q) => Some(q.to_string_lossy().into_owned()),
        None => None,
    }
}

/// The name shown for the path written `p`.
pub fn name_of_path(p: &str) -> (n: String)
    ensures
        n@ == display_name(p@),
{
    match path_file_name(p) {
        Some(n) => n,
        None => String::from_str(p),
    }
}

/// `Path::join` of `base` and `name`, as text: the result is `joined(base@, name@)`.
#[verifier::external_body]
pub(crate) fn path_join(base: &str, name: &str) -> (r: String)
    ensures
        r@ == joined(base@, name@),
{
    std::path::Path::new(base).join(name).to_string_lossy().into_owned()
}

/// `Path::components` of the path written `p`, each component as text: the
/// result is `components_of(p@)`.
#[verifier::external_body]
pub(crate) fn path_components(p: &str) -> (r: Vec<String>)
    ensures
        string_views(r@) == components_of(p@),
{
    let mut out = Vec::new();
    for c in std::path::Path::new(p).components() {
        out.push(c.as_os_str().to_string_lossy().into_owned());
    }
    out
}

/// Whether the paths written `a` and `b` are the same path, component by
/// component.
pub fn paths_equal(a: &str, b: &str) -> (r: bool)
    ensures
        r == same_path(a@, b@),
{
    let ca = path_components(a);
    let cb = path_components(b);
    if ca.len() != cb.len() {
        proof {
            assert(string_views(ca@).len() != string_views(cb@).len());
        }
        return false;
    }
    let mut i: usize = 0;
    while i < ca.len()
        invariant
            i <= ca@.len(),
            ca@.len() == cb@.len(),
            string_views(ca@) == components_of(a@),
            string_views(cb@) == components_of(b@),
            forall|j: int| 0 <= j < i ==> ca@[j]@ == cb@[j]@,
        decreases ca@.len() - i,
    {
        if !str_equal(ca[i].as_str(), cb[i].as_str()) {
            proof {
                assert(string_views(ca@)[i as int] != string_views(cb@)[i as int]);
            }
            return false;
        }
        i = i + 1;
    }
    proof {
        assert(string_views(ca@) =~= string_views(cb@));
    }
    true
}

/// `str::lines` of `s`, each line as a new string: the result is `lines_of(s@)`,
/// the rule that its documentation gives.
#[verifier::external_body]
pub(crate) fn text_lines(s: &str) -> (r: Vec<String>)
    ensures
        string_views(r@) == lines_of(s@),
{
    let mut out = Vec::new();
    for line in s.lines() {
        out.push(line.to_string());
    }
    out
}

} // verus!
