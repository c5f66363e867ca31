//! Lexicographic order on integer keys and a stable sort of entries by key.
use vstd::prelude::*;
use crate::fs_entry::FsEntry;

verus! {

/// Lexicographic order on key sequences: a proper prefix comes first.
pub open spec fn lex_le(a: Seq<i128>, b: Seq<i128>) -> bool
    decreases a.len(),
{
    if a.len() == 0 {
        true
    } else if b.len() == 0 {
        false
    } else if a[0] < b[0] {
        true
    } else if a[0] > b[0] {
        false
    } else {
        lex_le(a.drop_first(), b.drop_first())
    }
}

/// `a` may come before `b`: ascending key order, or descending when `descending`.
pub open spec fn key_in_order(a: Seq<i128>, b: Seq<i128>, descending: bool) -> bool {
    if descending {
        lex_le(b, a)
    } else {
        lex_le(a, b)
    }
}

pub proof fn lemma_lex_reflexive(a: Seq<i128>)
    ensures
        lex_le(a, a),
    decreases a.len(),
{
    if a.len() > 0 {
        lemma_lex_reflexive(a.drop_first());
    }
}

pub proof fn lemma_lex_total(a: Seq<i128>, b: Seq<i128>)
    ensures
        lex_le(a, b) || lex_le(b, a),
    decreases a.len(),
{
    if a.len() > 0 && b.len() > 0 && a[0] == b[0] {
        lemma_lex_total(a.drop_first(), b.drop_first());
    }
}

pub proof fn lemma_lex_transitive(a: Seq<i128>, b: Seq<i128>, c: Seq<i128>)
    requires
        lex_le(a, b),
        lex_le(b, c),
    ensures
        lex_le(a, c),
    decreases a.len(),
{
    if a.len() > 0 && b.len() > 0 && c.len() > 0 && a[0] == b[0] && b[0] == c[0] {
        lemma_lex_transitive(a.drop_first(), b.drop_first(), c.drop_first());
    }
}

/// A proper prefix sorts strictly first: every key comes before each of its
/// proper extensions, and never after one.
pub proof fn lemma_lex_prefix_first(a: Seq<i128>, s: Seq<i128>)
    requires
        s.len() > 0,
    ensures
        lex_le(a, a + s),
        !lex_le(a + s, a),
    decreases a.len(),
{
    if a.len() == 0 {
        assert(a + s =~= s);
    } else {
        assert((a + s).drop_first() =~= a.drop_first() + s);
        assert((a + s)[0] == a[0]);
        lemma_lex_prefix_first(a.drop_first(), s);
    }
}

/// Keys that agree on their first `k` places and differ at place `k` are
/// ordered as their values at place `k` are.
pub proof fn lemma_lex_first_difference(a: Seq<i128>, b: Seq<i128>, k: int)
    requires
        0 <= k < a.len(),
        k < b.len(),
        forall|i: int| 0 <= i < k ==> a[i] == b[i],
        a[k] != b[k],
    ensures
        lex_le(a, b) == (a[k] < b[k]),
    decreases k,
{
    if k > 0 {
        assert(a[0] == b[0]);
        let a1 = a.drop_first();
        let b1 = b.drop_first();
        assert forall|i: int| 0 <= i < k - 1 implies a1[i] == b1[i] by {
            assert(a1[i] == a[i + 1] && b1[i] == b[i + 1]);
        }
        assert(a1[k - 1] == a[k] && b1[k - 1] == b[k]);
        lemma_lex_first_difference(a1, b1, k - 1);
    }
}

proof fn lemma_order_reflexive(a: Seq<i128>, d: bool)
    ensures
        key_in_order(a, a, d),
{
    lemma_lex_reflexive(a);
}

proof fn lemma_order_total(a: Seq<i128>, b: Seq<i128>, d: bool)
    ensures
        key_in_order(a, b, d) || key_in_order(b, a, d),
{
    lemma_lex_total(a, b);
}

proof fn lemma_order_transitive(a: Seq<i128>, b: Seq<i128>, c: Seq<i128>, d: bool)
    requires
        key_in_order(a, b, d),
        key_in_order(b, c, d),
    ensures
        key_in_order(a, c, d),
{
    if d {
        lemma_lex_transitive(c, b, a);
    } else {
        lemma_lex_transitive(a, b, c);
    }
}

/// Lexicographic comparison of two keys.
pub fn lex_le_exec(a: &Vec<i128>, b: &Vec<i128>) -> (r: bool)
    ensures
        r == lex_le(a@, b@),
{
    let mut i: usize = 0;
    proof {
        assert(a@.skip(0) =~= a@);
        assert(b@.skip(0) =~= b@);
    }
    while i < a.len()
        invariant
            i <= a@.len(),
            i <= b@.len(),
            lex_le(a@, b@) == lex_le(a@.skip(i as int), b@.skip(i as int)),
        decreases a@.len() - i,
    {
        if i == b.len() {
            return false;
        }
        if a[i] < b[i] {
            return true;
        }
        if a[i] > b[i] {
            return false;
        }
        proof {
            assert(a@.skip(i as int).drop_first() =~= a@.skip(i + 1));
            assert(b@.skip(i as int).drop_first() =~= b@.skip(i + 1));
        }
        i = i + 1;
    }
    true
}

/// Every earlier element may come before every later one.
pub open spec fn sorted_by_keys(keys: Seq<Seq<i128>>, descending: bool) -> bool {
    forall|i: int, j: int|
        0 <= i < j < keys.len() ==> key_in_order(#[trigger] keys[i], #[trigger] keys[j], descending)
}

/// The elements of `s` whose key is `k`, in their order in `s`.
pub open spec fn with_key(s: Seq<FsEntry>, key: spec_fn(FsEntry) -> Seq<i128>, k: Seq<i128>) -> Seq<
    FsEntry,
> {
    s.filter(key_is(key, k))
}

/// Whether an element's key is `k`.
pub open spec fn key_is(key: spec_fn(FsEntry) -> Seq<i128>, k: Seq<i128>) -> spec_fn(FsEntry) -> bool {
    |e: FsEntry| key(e) == k
}

/// `out` holds the elements of `inp`, ordered by `key` (ascending, or
/// descending when `descending`), elements of equal key in their order in `inp`.
pub open spec fn stable_sorted(
    out: Seq<FsEntry>,
    inp: Seq<FsEntry>,
    key: spec_fn(FsEntry) -> Seq<i128>,
    descending: bool,
) -> bool {
    &&& out.len() == inp.len()
    &&& sorted_by_keys(out.map_values(key), descending)
    &&& forall|k: Seq<i128>| #[trigger] with_key(out, key, k) == with_key(inp, key, k)
}

proof fn lemma_filter_single(x: FsEntry, p: spec_fn(FsEntry) -> bool)
    ensures
        seq![x].filter(p) == (if p(x) {
            seq![x]
        } else {
            Seq::<FsEntry>::empty()
        }),
{
    reveal_with_fuel(Seq::filter, 2);
    assert(seq![x].drop_last() =~= Seq::<FsEntry>::empty());
    if p(x) {
        assert(seq![x].filter(p) =~= seq![x]);
    } else {
        assert(seq![x].filter(p) =~= Seq::<FsEntry>::empty());
    }
}

proof fn lemma_filter_none(s: Seq<FsEntry>, p: spec_fn(FsEntry) -> bool)
    requires
        forall|i: int| 0 <= i < s.len() ==> !p(#[trigger] s[i]),
    ensures
        s.filter(p) == Seq::<FsEntry>::empty(),
    decreases s.len(),
{
    reveal_with_fuel(Seq::filter, 1);
    if s.len() > 0 {
        lemma_filter_none(s.drop_last(), p);
        assert(!p(s[s.len() - 1]));
    }
}

/// Inserting `x` after every element that may precede it and before those
/// that must follow it keeps the keyed subsequences stable.
proof fn lemma_insert_stable(
    res: Seq<FsEntry>,
    p: int,
    x: FsEntry,
    key: spec_fn(FsEntry) -> Seq<i128>,
    descending: bool,
    k: Seq<i128>,
)
    requires
        0 <= p <= res.len(),
        forall|m: int| p <= m < res.len() ==> !key_in_order(#[trigger] key(res[m]), key(x), descending),
    ensures
        with_key(res.insert(p, x), key, k) == if key(x) == k {
            with_key(res, key, k).push(x)
        } else {
            with_key(res, key, k)
        },
{
    let pred = key_is(key, k);
    let pre = res.subrange(0, p);
    let post = res.subrange(p, res.len() as int);
    assert(res.insert(p, x) =~= pre + seq![x] + post);
    assert(res =~= pre + post);
    broadcast use Seq::filter_distributes_over_add;
    Seq::filter_distributes_over_add(pre + seq![x], post, pred);
    Seq::filter_distributes_over_add(pre, seq![x], pred);
    Seq::filter_distributes_over_add(pre, post, pred);
    lemma_filter_single(x, pred);
    if key(x) == k {
        assert forall|i: int| 0 <= i < post.len() implies !pred(#[trigger] post[i]) by {
            lemma_order_reflexive(key(x), descending);
            assert(!key_in_order(key(res[p + i]), key(x), descending));
        }
        lemma_filter_none(post, pred);
        assert(with_key(res.insert(p, x), key, k) =~= with_key(res, key, k).push(x));
    } else {
        assert(with_key(res.insert(p, x), key, k) =~= with_key(res, key, k));
    }
}

proof fn lemma_count_filter(s: Seq<FsEntry>, p: spec_fn(FsEntry) -> bool, x: FsEntry)
    requires
        p(x),
    ensures
        s.filter(p).to_multiset().count(x) == s.to_multiset().count(x),
    decreases s.len(),
{
    broadcast use vstd::seq_lib::group_to_multiset_ensures;

    reveal_with_fuel(Seq::filter, 1);
    if s.len() > 0 {
        let init = s.drop_last();
        lemma_count_filter(init, p, x);
        assert(s =~= init.push(s.last()));
        if p(s.last()) {
            assert(s.filter(p) == init.filter(p).push(s.last()));
        } else {
            assert(s.filter(p) == init.filter(p));
        }
    }
}

/// A stable sort keeps exactly the elements it was given, each as many times.
pub proof fn lemma_stable_sorted_permutation(
    out: Seq<FsEntry>,
    inp: Seq<FsEntry>,
    key: spec_fn(FsEntry) -> Seq<i128>,
    descending: bool,
)
    requires
        stable_sorted(out, inp, key, descending),
    ensures
        out.to_multiset() == inp.to_multiset(),
{
    assert forall|x: FsEntry| out.to_multiset().count(x) == inp.to_multiset().count(x) by {
        let k = key(x);
        assert(with_key(out, key, k) == with_key(inp, key, k));
        lemma_count_filter(out, key_is(key, k), x);
        lemma_count_filter(inp, key_is(key, k), x);
    }
    assert(out.to_multiset() =~= inp.to_multiset());
}

/// Sorts `entries` stably by the keys `keys` (one per entry), ascending or
/// descending. An insertion sort: each entry goes after every entry already
/// placed whose key may precede it.
pub fn stable_sort_by_keys(
    entries: Vec<FsEntry>,
    keys: Vec<Vec<i128>>,
    descending: bool,
    Ghost(key): Ghost<spec_fn(FsEntry) -> Seq<i128>>,
) -> (out: Vec<FsEntry>)
    requires
        keys@.len() == entries@.len(),
        forall|i: int| 0 <= i < entries@.len() ==> #[trigger] keys@[i]@ == key(entries@[i]),
    ensures
        stable_sorted(out@, entries@, key, descending),
{
    let ghost inp = entries@;
    let mut rest = entries;
    let mut rest_keys = keys;
    let mut res: Vec<FsEntry> = Vec::new();
    let mut res_keys: Vec<Vec<i128>> = Vec::new();
    let ghost mut i: int = 0;
    while rest.len() > 0
        invariant
            0 <= i <= inp.len(),
            rest@ == inp.subrange(i, inp.len() as int),
            rest_keys@.len() == rest@.len(),
            forall|m: int| 0 <= m < rest@.len() ==> #[trigger] rest_keys@[m]@ == key(rest@[m]),
            res_keys@.len() == res@.len(),
            res@.len() == i,
            forall|m: int| 0 <= m < res@.len() ==> #[trigger] res_keys@[m]@ == key(res@[m]),
            sorted_by_keys(res@.map_values(key), descending),
            forall|k: Seq<i128>| #[trigger]
                with_key(res@, key, k) == with_key(inp.subrange(0, i), key, k),
        decreases rest@.len(),
    {
        let x = rest.remove(0);
        let xk = rest_keys.remove(0);
        let mut p = res.len();
        while p > 0
            invariant
                p <= res@.len(),
                res_keys@.len() == res@.len(),
                forall|m: int| 0 <= m < res@.len() ==> #[trigger] res_keys@[m]@ == key(res@[m]),
                xk@ == key(x),
                forall|m: int|
                    p <= m < res@.len() ==> !key_in_order(
                        #[trigger] key(res@[m]),
                        key(x),
                        descending,
                    ),
            ensures
                p <= res@.len(),
                p > 0 ==> key_in_order(key(res@[p - 1]), key(x), descending),
            decreases p,
        {
            let prev_first = if descending {
                lex_le_exec(&xk, &res_keys[p - 1])
            } else {
                lex_le_exec(&res_keys[p - 1], &xk)
            };
            if prev_first {
                break ;
            }
            p = p - 1;
        }
        proof {
            assert(p > 0 ==> key_in_order(key(res@[p - 1]), key(x), descending));
            let old_res = res@;
            let old_keys = old_res.map_values(key);
            let new_res = old_res.insert(p as int, x);
            assert forall|a: int, b: int|
                0 <= a < b < new_res.len() implies key_in_order(
                #[trigger] new_res.map_values(key)[a],
                #[trigger] new_res.map_values(key)[b],
                descending,
            ) by {
                let ka = key(new_res[a]);
                let kb = key(new_res[b]);
                if b < p {
                    assert(key_in_order(old_keys[a], old_keys[b], descending));
                } else if a > p {
                    assert(key_in_order(old_keys[a - 1], old_keys[b - 1], descending));
                } else if a < p && b > p {
                    assert(key_in_order(old_keys[a], old_keys[b - 1], descending));
                } else if a < p && b == p {
                    if a < p - 1 {
                        assert(key_in_order(old_keys[a], old_keys[p - 1], descending));
                        lemma_order_transitive(old_keys[a], old_keys[p - 1], key(x), descending);
                    }
                } else {
                    assert(a == p);
                    assert(!key_in_order(key(old_res[b - 1]), key(x), descending));
                    lemma_order_total(key(x), key(old_res[b - 1]), descending);
                }
            }
            assert forall|k: Seq<i128>| #[trigger]
                with_key(new_res, key, k) == with_key(inp.subrange(0, i + 1), key, k) by {
                lemma_insert_stable(old_res, p as int, x, key, descending, k);
                let pred = key_is(key, k);
                assert(inp.subrange(0, i + 1) =~= inp.subrange(0, i) + seq![x]);
                Seq::filter_distributes_over_add(inp.subrange(0, i), seq![x], pred);
                lemma_filter_single(x, pred);
                if key(x) == k {
                    assert(with_key(inp.subrange(0, i + 1), key, k) =~= with_key(
                        inp.subrange(0, i),
                        key,
                        k,
                    ).push(x));
                } else {
                    assert(with_key(inp.subrange(0, i + 1), key, k) =~= with_key(
                        inp.subrange(0, i),
                        key,
                        k,
                    ));
                }
            }
        }
        res.insert(p, x);
        res_keys.insert(p, xk);
        proof {
            i = i + 1;
            assert(rest@ =~= inp.subrange(i, inp.len() as int));
            assert forall|m: int| 0 <= m < res@.len() implies #[trigger] res_keys@[m]@ == key(
                res@[m],
            ) by {
                if m < p {
                } else if m > p {
                } else {
                }
            }
        }
    }
    proof {
        assert(inp.subrange(0, i) =~= inp);
    }
    res
}

} // verus!
