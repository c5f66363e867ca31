//! The directory table: its sort state, the order of its rows and the text of
//! its header and time cells.
use vstd::prelude::*;
use crate::external::{lowercase, to_lowercase};
use crate::fs_entry::{badge_text, FsEntry};
use crate::sorting::{
    lemma_lex_first_difference, lemma_lex_prefix_first, lex_le, sorted_by_keys,
    stable_sort_by_keys, stable_sorted,
};
use crate::text::{chars_of, push_zero_padded, zero_padded};

verus! {

/// The column the table is sorted by.
#[derive(Debug, Clone, Copy, PartialEq, Eq, Structural)]
pub enum SortField {
    Name,
    Size,
    Type,
    Modified,
}

/// The direction of the sort.
#[derive(Debug, Clone, Copy, PartialEq, Eq, Structural)]
pub enum SortOrder {
    Asc,
    Desc,
}

/// 0 for a directory, 1 for a file: directories come first.
pub open spec fn dir_rank(e: FsEntry) -> i128 {
    if e.is_dir {
        0
    } else {
        1
    }
}

/// Characters as code points.
pub open spec fn code_points(s: Seq<char>) -> Seq<i128> {
    s.map_values(|c: char| (c as u32) as i128)
}

/// The key a row is sorted by, compared lexicographically: directories before
/// files, then the lower-cased name, the byte size or the badge; by modification
/// time alone (an unknown time first) for `Modified`.
pub open spec fn table_key(e: FsEntry, field: SortField) -> Seq<i128> {
    match field {
        SortField::Name => seq![dir_rank(e)] + code_points(lowercase(e.name@)),
        SortField::Size => seq![dir_rank(e), e.size_bytes as i128],
        SortField::Type => seq![dir_rank(e)] + code_points(badge_text(e.category)),
        SortField::Modified => match e.modified {
            None => seq![0i128],
            Some(t) => seq![1i128, t],
        },
    }
}

/// `table_key` for one field, as a function of the entry.
pub open spec fn table_key_fn(field: SortField) -> spec_fn(FsEntry) -> Seq<i128> {
    |e: FsEntry| table_key(e, field)
}

fn push_code_points(key: &mut Vec<i128>, s: &str)
    ensures
        final(key)@ == old(key)@ + code_points(s@),
{
    let chars = chars_of(s);
    let mut i: usize = 0;
    let ghost start = key@;
    while i < chars.len()
        invariant
            i <= chars@.len(),
            chars@ == s@,
            key@ == start + code_points(s@.subrange(0, i as int)),
        decreases chars@.len() - i,
    {
        let c = chars[i];
        key.push((c as u32) as i128);
        i = i + 1;
        proof {
            assert(key@ =~= start + code_points(s@.subrange(0, i as int)));
        }
    }
    proof {
        assert(s@.subrange(0, i as int) =~= s@);
    }
}

/// The sort key of one row.
fn table_key_exec(e: &FsEntry, field: SortField) -> (k: Vec<i128>)
    ensures
        k@ == table_key(*e, field),
{
    let rank: i128 = if e.is_dir {
        0
    } else {
        1
    };
    let mut k: Vec<i128> = Vec::new();
    match field {
        SortField::Name => {
            k.push(rank);
            let lower = to_lowercase(e.name.as_str());
            push_code_points(&mut k, lower.as_str());
        },
        SortField::Size => {
            k.push(rank);
            k.push(e.size_bytes as i128);
        },
        SortField::Type => {
            k.push(rank);
            push_code_points(&mut k, e.category.display_badge());
        },
        SortField::Modified => {
            match e.modified {
                None => {
                    k.push(0);
                },
                Some(t) => {
                    k.push(1);
                    k.push(t);
                },
            }
        },
    }
    proof {
        assert(k@ =~= table_key(*e, field));
    }
    k
}

/// Orders rows by `field` in direction `order`; rows of equal key keep their
/// relative order.
pub fn sort_entries(entries: Vec<FsEntry>, field: SortField, order: SortOrder) -> (out: Vec<
    FsEntry,
>)
    ensures
        stable_sorted(out@, entries@, table_key_fn(field), order == SortOrder::Desc),
{
    let mut keys: Vec<Vec<i128>> = Vec::new();
    let mut i: usize = 0;
    while i < entries.len()
        invariant
            i <= entries@.len(),
            keys@.len() == i,
            forall|m: int| 0 <= m < i ==> #[trigger] keys@[m]@ == table_key_fn(field)(entries@[m]),
        decreases entries@.len() - i,
    {
        keys.push(table_key_exec(&entries[i], field));
        i = i + 1;
    }
    let descending = match order {
        SortOrder::Asc => false,
        SortOrder::Desc => true,
    };
    stable_sort_by_keys(entries, keys, descending, Ghost(table_key_fn(field)))
}

/// The sort state of the directory table.
pub struct TableView {
    pub sort_field: SortField,
    pub sort_order: SortOrder,
}

/// The header text of column `f`: its name, with an arrow when the table is
/// sorted by it.
pub open spec fn sort_label_text(
    sort_field: SortField,
    sort_order: SortOrder,
    f: SortField,
    base: Seq<char>,
) -> Seq<char> {
    if sort_field == f {
        match sort_order {
            SortOrder::Asc => base + " ↑"@,
            SortOrder::Desc => base + " ↓"@,
        }
    } else {
        base
    }
}

/// The clock time of day (UTC) of a modification time as `HH:MM UTC`, or a
/// dash for an unknown time or one before the Unix epoch.
pub open spec fn clock_label(modified: Option<i128>) -> Seq<char> {
    match modified {
        Some(t) => if t >= 0 {
            let secs = (t / 1_000_000_000) as nat;
            zero_padded((secs / 3600) % 24, 2) + ":"@ + zero_padded((secs / 60) % 60, 2)
                + " UTC"@
        } else {
            "—"@
        },
        None => "—"@,
    }
}

/// The direction after choosing column `field` while sorted by
/// `sort_field` in direction `sort_order`.
pub open spec fn next_order(sort_field: SortField, sort_order: SortOrder, field: SortField) -> SortOrder {
    if sort_field == field {
        match sort_order {
            SortOrder::Asc => SortOrder::Desc,
            SortOrder::Desc => SortOrder::Asc,
        }
    } else {
        SortOrder::Asc
    }
}

/// Choosing the same column twice restores the direction it had.
pub proof fn lemma_choose_column_twice(sort_order: SortOrder, field: SortField)
    ensures
        next_order(field, next_order(field, sort_order, field), field) == sort_order,
{
}

/// Choosing a column other than the current one sorts by it ascending,
/// whatever the direction was.
pub proof fn lemma_new_column_ascending(sort_field: SortField, sort_order: SortOrder, field: SortField)
    requires
        sort_field != field,
    ensures
        next_order(sort_field, sort_order, field) == SortOrder::Asc,
{
}

/// Choosing the current column again reverses the direction.
pub proof fn lemma_same_column_reverses(sort_order: SortOrder, field: SortField)
    ensures
        next_order(field, sort_order, field) != sort_order,
{
}

/// `a` is a proper prefix of `b`.
pub open spec fn proper_prefix(a: Seq<char>, b: Seq<char>) -> bool {
    a.len() < b.len() && b.take(a.len() as int) == a
}

/// The text a row is compared by under `field` (name or type), after the
/// directories-first rank.
pub open spec fn sort_text(e: FsEntry, field: SortField) -> Seq<char> {
    if field == SortField::Name {
        lowercase(e.name@)
    } else {
        badge_text(e.category)
    }
}

/// Sorted by name or by type in ascending order, a row never comes after
/// another of its kind (both directories or both files) whose text (lower-cased
/// name, or badge) is a proper prefix of its own: `test` before `tests`, `C`
/// before `C++`.
pub proof fn lemma_prefix_sorts_first(
    out: Seq<FsEntry>,
    inp: Seq<FsEntry>,
    field: SortField,
)
    requires
        stable_sorted(out, inp, table_key_fn(field), false),
        field == SortField::Name || field == SortField::Type,
    ensures
        forall|i: int, j: int|
            0 <= i < j < out.len() && (#[trigger] out[i]).is_dir == (#[trigger] out[j]).is_dir
                ==> !proper_prefix(sort_text(out[j], field), sort_text(out[i], field)),
{
    let keys = out.map_values(table_key_fn(field));
    assert forall|i: int, j: int|
        0 <= i < j < out.len() && (#[trigger] out[i]).is_dir == (#[trigger] out[j]).is_dir
            implies !proper_prefix(sort_text(out[j], field), sort_text(out[i], field)) by {
        assert(sorted_by_keys(keys, false));
        let ki = keys[i];
        let kj = keys[j];
        assert(lex_le(ki, kj));
        let ti = sort_text(out[i], field);
        let tj = sort_text(out[j], field);
        assert(ki == seq![dir_rank(out[i])] + code_points(ti));
        assert(kj == seq![dir_rank(out[j])] + code_points(tj));
        if proper_prefix(tj, ti) {
            let rest = ti.skip(tj.len() as int);
            assert(ti =~= tj + rest);
            assert(code_points(ti) =~= code_points(tj) + code_points(rest));
            assert(ki =~= kj + code_points(rest));
            lemma_lex_prefix_first(kj, code_points(rest));
        }
    }
}

/// Sorting by name ignores case: rows of the same kind whose names lower-case
/// alike have the same key, and so keep their relative order.
pub proof fn lemma_name_key_ignores_case(a: FsEntry, b: FsEntry)
    requires
        a.is_dir == b.is_dir,
        lowercase(a.name@) == lowercase(b.name@),
    ensures
        table_key(a, SortField::Name) == table_key(b, SortField::Name),
{
}

/// Sorted by size in ascending order, rows of the same kind come smallest
/// first; sorted by modification time, rows with an unknown time come first,
/// then the others oldest first.
pub proof fn lemma_size_and_time_ascending(out: Seq<FsEntry>, inp: Seq<FsEntry>, field: SortField)
    requires
        stable_sorted(out, inp, table_key_fn(field), false),
        field == SortField::Size || field == SortField::Modified,
    ensures
        forall|i: int, j: int|
            0 <= i < j < out.len() ==> if field == SortField::Size {
                (#[trigger] out[i]).is_dir == (#[trigger] out[j]).is_dir ==> out[i].size_bytes
                    <= out[j].size_bytes
            } else {
                out[j].modified is None ==> out[i].modified is None
            },
        field == SortField::Modified ==> forall|i: int, j: int|
            0 <= i < j < out.len() && (#[trigger] out[i]).modified is Some && (
            #[trigger] out[j]).modified is Some ==> out[i].modified->0 <= out[j].modified->0,
{
    let keys = out.map_values(table_key_fn(field));
    assert forall|i: int, j: int| 0 <= i < j < out.len() implies (if field == SortField::Size {
        (#[trigger] out[i]).is_dir == (#[trigger] out[j]).is_dir ==> out[i].size_bytes
            <= out[j].size_bytes
    } else {
        out[j].modified is None ==> out[i].modified is None
    }) && (field == SortField::Modified && out[i].modified is Some && out[j].modified is Some
        ==> out[i].modified->0 <= out[j].modified->0) by {
        assert(sorted_by_keys(keys, false));
        let ki = keys[i];
        let kj = keys[j];
        assert(lex_le(ki, kj));
        assert(ki == table_key(out[i], field));
        assert(kj == table_key(out[j], field));
        if field == SortField::Size {
            if out[i].is_dir == out[j].is_dir && out[i].size_bytes != out[j].size_bytes {
                lemma_lex_first_difference(ki, kj, 1);
            }
        } else {
            if out[j].modified is None && out[i].modified is Some {
                lemma_lex_first_difference(ki, kj, 0);
            }
            if out[i].modified is Some && out[j].modified is Some && out[i].modified->0
                != out[j].modified->0 {
                lemma_lex_first_difference(ki, kj, 1);
            }
        }
    }
}

/// Sorted by name, size or type, directories come before files in ascending
/// order and after them in descending order.
pub proof fn lemma_directories_grouped(
    out: Seq<FsEntry>,
    inp: Seq<FsEntry>,
    field: SortField,
    order: SortOrder,
)
    requires
        stable_sorted(out, inp, table_key_fn(field), order == SortOrder::Desc),
        field != SortField::Modified,
    ensures
        forall|i: int, j: int|
            0 <= i < j < out.len() ==> (if order == SortOrder::Asc {
                (#[trigger] out[j]).is_dir ==> (#[trigger] out[i]).is_dir
            } else {
                out[i].is_dir ==> out[j].is_dir
            }),
{
    let keys = out.map_values(table_key_fn(field));
    assert forall|i: int, j: int| 0 <= i < j < out.len() implies (if order == SortOrder::Asc {
        (#[trigger] out[j]).is_dir ==> (#[trigger] out[i]).is_dir
    } else {
        out[i].is_dir ==> out[j].is_dir
    }) by {
        assert(sorted_by_keys(keys, order == SortOrder::Desc));
        let ki = keys[i];
        let kj = keys[j];
        assert(ki == table_key(out[i], field));
        assert(kj == table_key(out[j], field));
        assert(ki[0] == dir_rank(out[i]));
        assert(kj[0] == dir_rank(out[j]));
        if order == SortOrder::Asc {
            assert(lex_le(ki, kj));
        } else {
            assert(lex_le(kj, ki));
        }
    }
}

impl TableView {
    /// A table sorted by name, ascending.
    pub fn new() -> (t: TableView)
        ensures
            t.sort_field == SortField::Name,
            t.sort_order == SortOrder::Asc,
    {
        TableView { sort_field: SortField::Name, sort_order: SortOrder::Asc }
    }

    /// Sorts by `field`: choosing the current column again flips the direction,
    /// choosing another column sorts by it ascending.
    pub fn set_sort(&mut self, field: SortField)
        ensures
            final(self).sort_field == field,
            final(self).sort_order == next_order(old(self).sort_field, old(self).sort_order, field),
    {
        if self.sort_field == field {
            self.sort_order = match self.sort_order {
                SortOrder::Asc => SortOrder::Desc,
                SortOrder::Desc => SortOrder::Asc,
            };
        } else {
            self.sort_field = field;
            self.sort_order = SortOrder::Asc;
        }
    }

    /// The header text of column `f`.
    pub fn sort_label(&self, f: SortField, base: &str) -> (s: String)
        ensures
            s@ == sort_label_text(self.sort_field, self.sort_order, f, base@),
    {
        let mut s = String::from_str(base);
        if self.sort_field == f {
            match self.sort_order {
                SortOrder::Asc => s.append(" ↑"),
                SortOrder::Desc => s.append(" ↓"),
            }
        }
        s
    }

    /// The rows of the table, in the current order.
    pub fn sorted_rows(&self, entries: Vec<FsEntry>) -> (out: Vec<FsEntry>)
        ensures
            stable_sorted(
                out@,
                entries@,
                table_key_fn(self.sort_field),
                self.sort_order == SortOrder::Desc,
            ),
    {
        sort_entries(entries, self.sort_field, self.sort_order)
    }
}

/// The time-of-day cell of a row.
pub fn clock_text(modified: Option<i128>) -> (s: String)
    ensures
        s@ == clock_label(modified),
{
    match modified {
        Some(t) => {
            if t >= 0 {
                let secs = (t / 1_000_000_000) as u128;
                let mut s = String::new();
                push_zero_padded(&mut s, (secs / 3600) % 24, 2);
                s.append(":");
                push_zero_padded(&mut s, (secs / 60) % 60, 2);
                s.append(" UTC");
                s
            } else {
                String::from_str("—")
            }
        },
        None => String::from_str("—"),
    }
}

} // verus!
