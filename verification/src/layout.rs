//! Layout algorithms: their kinds, the grid that the top-down packing fills,
//! and which entries a layout nests and counts.
use vstd::prelude::*;
use crate::fs_entry::FsEntry;

verus! {

/// The available and planned layout algorithms.
#[derive(Debug, Clone, Copy, PartialEq, Eq, Structural)]
pub enum LayoutKind {
    NativeTopDown,
    RadialBalloonTree,
    SugiyamaLayered,
    FCoSE,
}

/// The display name of a layout kind.
pub open spec fn kind_name(k: LayoutKind) -> Seq<char> {
    match k {
        LayoutKind::NativeTopDown => "Native Top-Down"@,
        LayoutKind::RadialBalloonTree => "Radial Balloon Tree"@,
        LayoutKind::SugiyamaLayered => "Sugiyama Layered"@,
        LayoutKind::FCoSE => "FCoSE Compound Force"@,
    }
}

/// The one-line description of a layout kind.
pub open spec fn kind_description(k: LayoutKind) -> Seq<char> {
    match k {
        LayoutKind::NativeTopDown => "Algorithm 2: Topdownpacking with node count size approximation"@,
        LayoutKind::RadialBalloonTree => "Concentric radial balloon tree layout with compound sub-orbits (Paper Appendix)"@,
        LayoutKind::SugiyamaLayered => "Hierarchical layered directed compound layout (Planned)"@,
        LayoutKind::FCoSE => "Fast Compound Spring Embedder force layout (Planned)"@,
    }
}

/// Only the top-down and the radial layouts are implemented.
pub open spec fn kind_available(k: LayoutKind) -> bool {
    k == LayoutKind::NativeTopDown || k == LayoutKind::RadialBalloonTree
}

/// Every kind, in the order the switcher shows them.
pub open spec fn all_kinds() -> Seq<LayoutKind> {
    seq![
        LayoutKind::NativeTopDown,
        LayoutKind::RadialBalloonTree,
        LayoutKind::SugiyamaLayered,
        LayoutKind::FCoSE,
    ]
}

/// The switcher lists every kind exactly once.
pub proof fn lemma_all_kinds_listed_once(k: LayoutKind)
    ensures
        all_kinds().contains(k),
        all_kinds().no_duplicates(),
        all_kinds().len() == 4,
{
    let s = all_kinds();
    match k {
        LayoutKind::NativeTopDown => assert(s[0] == k),
        LayoutKind::RadialBalloonTree => assert(s[1] == k),
        LayoutKind::SugiyamaLayered => assert(s[2] == k),
        LayoutKind::FCoSE => assert(s[3] == k),
    }
}

impl Default for LayoutKind {
    fn default() -> (k: LayoutKind)
        ensures
            k == LayoutKind::NativeTopDown,
    {
        LayoutKind::NativeTopDown
    }
}

impl LayoutKind {
    /// The display name.
    pub fn name(&self) -> (s: &'static str)
        ensures
            s@ == kind_name(*self),
    {
        match self {
            LayoutKind::NativeTopDown => "Native Top-Down",
            LayoutKind::RadialBalloonTree => "Radial Balloon Tree",
            LayoutKind::SugiyamaLayered => "Sugiyama Layered",
            LayoutKind::FCoSE => "FCoSE Compound Force",
        }
    }

    /// The one-line description.
    pub fn description(&self) -> (s: &'static str)
        ensures
            s@ == kind_description(*self),
    {
        match self {
            LayoutKind::NativeTopDown => "Algorithm 2: Topdownpacking with node count size approximation",
            LayoutKind::RadialBalloonTree => "Concentric radial balloon tree layout with compound sub-orbits (Paper Appendix)",
            LayoutKind::SugiyamaLayered => "Hierarchical layered directed compound layout (Planned)",
            LayoutKind::FCoSE => "Fast Compound Spring Embedder force layout (Planned)",
        }
    }

    /// Whether the kind is implemented.
    pub fn is_available(&self) -> (b: bool)
        ensures
            b == kind_available(*self),
    {
        match self {
            LayoutKind::NativeTopDown | LayoutKind::RadialBalloonTree => true,
            _ => false,
        }
    }

    /// Every kind, in the order the switcher shows them.
    pub fn all() -> (v: &'static [LayoutKind])
        ensures
            v@ == all_kinds(),
    {
        let v: &'static [LayoutKind] = &[
            LayoutKind::NativeTopDown,
            LayoutKind::RadialBalloonTree,
            LayoutKind::SugiyamaLayered,
            LayoutKind::FCoSE,
        ];
        proof {
            assert(v@ =~= all_kinds());
        }
        v
    }
}

/// The top-down packing layout.
pub struct NativeTopDownLayout;

/// The radial balloon-tree layout.
pub struct RadialBalloonTreeLayout;

/// The layered layout, planned; it lays out as the top-down layout does.
pub struct SugiyamaLayeredLayout;

impl NativeTopDownLayout {
    /// The kind this algorithm reports.
    pub fn kind(&self) -> (k: LayoutKind)
        ensures
            k == LayoutKind::NativeTopDown,
    {
        LayoutKind::NativeTopDown
    }
}

impl RadialBalloonTreeLayout {
    /// The kind this algorithm reports.
    pub fn kind(&self) -> (k: LayoutKind)
        ensures
            k == LayoutKind::RadialBalloonTree,
    {
        LayoutKind::RadialBalloonTree
    }
}

impl SugiyamaLayeredLayout {
    /// The kind this algorithm reports.
    pub fn kind(&self) -> (k: LayoutKind)
        ensures
            k == LayoutKind::SugiyamaLayered,
    {
        LayoutKind::SugiyamaLayered
    }
}

/// The grid the top-down packing places `count` children in.
pub struct GridShape {
    pub count: usize,
    pub cols: usize,
    pub rows: usize,
}

/// Where one child goes in the grid.
pub struct GridSlot {
    pub row: usize,
    pub col: usize,
    /// `Some(k)` when the child sits in an incomplete last row of `k` children,
    /// which then share that row's whole width.
    pub spread_over: Option<usize>,
}

impl GridShape {
    /// The grid for `count` children when `wanted_cols` columns would keep the
    /// aspect ratio: between 1 and 8 columns, and as many rows as it takes.
    pub fn new(count: usize, wanted_cols: usize) -> (g: GridShape)
        requires
            count > 0,
        ensures
            g.count == count,
            g.cols == if wanted_cols < 1 {
                1
            } else if wanted_cols > 8 {
                8
            } else {
                wanted_cols
            },
            g.rows == (count + g.cols - 1) / (g.cols as int),
    {
        let cols = if wanted_cols < 1 {
            1
        } else if wanted_cols > 8 {
            8
        } else {
            wanted_cols
        };
        proof {
            lemma_ceil_div(count as int, cols as int);
        }
        let rows = if count % cols == 0 {
            count / cols
        } else {
            count / cols + 1
        };
        GridShape { count, cols, rows }
    }

    /// The grid is well formed: a positive column count and enough rows, none
    /// of them empty.
    pub open spec fn wf(&self) -> bool {
        &&& 1 <= self.cols <= 8
        &&& self.count > 0
        &&& self.rows == (self.count + self.cols - 1) / (self.cols as int)
    }

    /// The cell of child `idx`, in row-major order.
    pub fn slot(&self, idx: usize) -> (s: GridSlot)
        requires
            self.wf(),
            idx < self.count,
        ensures
            s.row == idx / self.cols,
            s.col == idx % self.cols,
            s.spread_over == if s.row == self.rows - 1 && self.count - s.row * self.cols
                < self.cols {
                Some((self.count - s.row * self.cols) as usize)
            } else {
                None::<usize>
            },
    {
        let row = idx / self.cols;
        let col = idx % self.cols;
        proof {
            vstd::arithmetic::div_mod::lemma_fundamental_div_mod(idx as int, self.cols as int);
            assert(row * self.cols <= idx) by (nonlinear_arith)
                requires
                    row == idx / self.cols,
                    self.cols >= 1,
            ;
        }
        let in_row = self.count - row * self.cols;
        let spread_over = if self.rows > 0 && row == self.rows - 1 && in_row < self.cols {
            Some(in_row)
        } else {
            None
        };
        proof {
            lemma_rows_positive(self.count as int, self.cols as int);
        }
        GridSlot { row, col, spread_over }
    }
}

/// Rounding a quotient up: one more than the quotient exactly when something remains.
proof fn lemma_ceil_div(n: int, c: int)
    requires
        n > 0,
        c >= 1,
    ensures
        (n + c - 1) / c == if n % c == 0 {
            n / c
        } else {
            n / c + 1
        },
        n % c != 0 ==> n / c < n,
{
    let q = n / c;
    let r = n % c;
    vstd::arithmetic::div_mod::lemma_fundamental_div_mod(n, c);
    if r == 0 {
        vstd::arithmetic::div_mod::lemma_fundamental_div_mod_converse_div(n + c - 1, c, q, c - 1);
    } else {
        assert(n + c - 1 == (q + 1) * c + (r - 1)) by (nonlinear_arith)
            requires
                n == c * q + r,
        ;
        vstd::arithmetic::div_mod::lemma_fundamental_div_mod_converse_div(
            n + c - 1,
            c,
            q + 1,
            r - 1,
        );
        assert(q < n) by (nonlinear_arith)
            requires
                n == c * q + r,
                c >= 1,
                r >= 1,
                q >= 0,
        ;
    }
}

proof fn lemma_rows_positive(count: int, cols: int)
    requires
        count > 0,
        cols >= 1,
    ensures
        (count + cols - 1) / cols >= 1,
{
    vstd::arithmetic::div_mod::lemma_div_is_ordered(cols, count + cols - 1, cols);
    vstd::arithmetic::div_mod::lemma_div_basics(cols);
}

/// Every child of the grid has its own cell: distinct children never share a
/// cell, every cell lies inside the grid, and no row is left empty.
pub proof fn lemma_grid_cells_distinct(g: GridShape, i: int, j: int)
    requires
        g.wf(),
        0 <= i < g.count,
        0 <= j < g.count,
        i != j,
    ensures
        i / (g.cols as int) != j / (g.cols as int) || i % (g.cols as int) != j % (g.cols as int),
        i / (g.cols as int) < g.rows,
        i % (g.cols as int) < g.cols,
        (g.rows - 1) * g.cols < g.count <= g.rows * g.cols,
{
    let c = g.cols as int;
    vstd::arithmetic::div_mod::lemma_fundamental_div_mod(i, c);
    vstd::arithmetic::div_mod::lemma_fundamental_div_mod(j, c);
    vstd::arithmetic::div_mod::lemma_fundamental_div_mod(g.count + c - 1, c);
    let r = g.rows as int;
    assert(r * c <= g.count + c - 1);
    assert(g.count + c - 1 < r * c + c);
    assert(g.count <= r * c);
    assert((r - 1) * c < g.count) by (nonlinear_arith)
        requires
            r * c <= g.count + c - 1,
            c >= 1,
    ;
    vstd::arithmetic::div_mod::lemma_div_is_ordered(i, g.count - 1, c);
    assert(i / c < r) by (nonlinear_arith)
        requires
            i / c <= (g.count - 1) / c,
            g.count <= r * c,
            c >= 1,
            g.count >= 1,
    {
        vstd::arithmetic::div_mod::lemma_div_is_ordered(g.count - 1, r * c - 1, c);
        vstd::arithmetic::div_mod::lemma_fundamental_div_mod(r * c - 1, c);
    }
}

/// A child is laid out nested inside its own node: a non-empty directory,
/// above the depth limit.
pub open spec fn nests(e: FsEntry, depth: nat, depth_limit: nat) -> bool {
    e.is_dir && e.children@.len() > 0 && depth < depth_limit
}

/// How many nodes a layout places for `children` at `depth`: one for each
/// child, plus those of the children it nests.
pub open spec fn layout_node_count(children: Seq<FsEntry>, depth: nat, depth_limit: nat) -> nat
    decreases (if depth < depth_limit {
        depth_limit - depth
    } else {
        0
    }), children.len(),
{
    if children.len() == 0 {
        0
    } else {
        let last = children.last();
        layout_node_count(children.drop_last(), depth, depth_limit) + 1 + if nests(
            last,
            depth,
            depth_limit,
        ) {
            layout_node_count(last.children@, depth + 1, depth_limit)
        } else {
            0
        }
    }
}

/// Whether `e`, met at `depth`, is laid out nested inside its node.
pub fn nests_children(e: &FsEntry, depth: usize, depth_limit: usize) -> (b: bool)
    ensures
        b == nests(*e, depth as nat, depth_limit as nat),
{
    e.is_dir && e.children.len() > 0 && depth < depth_limit
}

/// Counts the nodes a layout places for `children` at `depth`.
pub fn count_layout_nodes(children: &Vec<FsEntry>, depth: usize, depth_limit: usize) -> (n: usize)
    requires
        layout_node_count(children@, depth as nat, depth_limit as nat) <= usize::MAX,
    ensures
        n == layout_node_count(children@, depth as nat, depth_limit as nat),
    decreases (if depth < depth_limit {
        depth_limit - depth
    } else {
        0
    }), children@.len(),
{
    let mut total: usize = 0;
    let mut i: usize = 0;
    proof {
        assert(children@.subrange(0, 0) =~= Seq::<FsEntry>::empty());
    }
    while i < children.len()
        invariant
            i <= children@.len(),
            total == layout_node_count(children@.subrange(0, i as int), depth as nat, depth_limit as nat),
            layout_node_count(children@, depth as nat, depth_limit as nat) <= usize::MAX,
        decreases children@.len() - i,
    {
        let child = &children[i];
        proof {
            assert(children@.subrange(0, i + 1).drop_last() =~= children@.subrange(0, i as int));
            lemma_count_prefix(children@, i + 1, depth as nat, depth_limit as nat);
        }
        let nested = if nests_children(child, depth, depth_limit) {
            count_layout_nodes(&child.children, depth + 1, depth_limit)
        } else {
            0
        };
        total = total + 1 + nested;
        i = i + 1;
    }
    proof {
        assert(children@.subrange(0, i as int) =~= children@);
    }
    total
}

/// A directory with at least one child, met above the depth limit, is opened
/// up; a file, an empty directory, or any entry at or below the limit is not.
pub proof fn lemma_nonempty_directories_nest(e: FsEntry, depth: nat, depth_limit: nat)
    ensures
        e.is_dir && e.children@.len() >= 1 && depth < depth_limit ==> nests(e, depth, depth_limit),
        !e.is_dir || e.children@.len() == 0 || depth >= depth_limit ==> !nests(
            e,
            depth,
            depth_limit,
        ),
{
}

/// A listing of one entry places that entry's node, plus, when it is a
/// non-empty directory above the depth limit, every node of its children one
/// level down.
pub proof fn lemma_single_entry_count(e: FsEntry, depth: nat, depth_limit: nat)
    ensures
        layout_node_count(seq![e], depth, depth_limit) == 1 + if e.is_dir && e.children@.len()
            >= 1 && depth < depth_limit {
            layout_node_count(e.children@, depth + 1, depth_limit)
        } else {
            0
        },
{
    reveal_with_fuel(layout_node_count, 2);
    assert(seq![e].drop_last() =~= Seq::<FsEntry>::empty());
    assert(seq![e].last() == e);
}

/// The nodes placed for two listings side by side are those placed for each.
pub proof fn lemma_count_concat(a: Seq<FsEntry>, b: Seq<FsEntry>, depth: nat, depth_limit: nat)
    ensures
        layout_node_count(a + b, depth, depth_limit) == layout_node_count(a, depth, depth_limit)
            + layout_node_count(b, depth, depth_limit),
    decreases b.len(),
{
    if b.len() == 0 {
        assert(a + b =~= a);
    } else {
        assert((a + b).drop_last() =~= a + b.drop_last());
        assert((a + b).last() == b.last());
        lemma_count_concat(a, b.drop_last(), depth, depth_limit);
    }
}

/// Counting a prefix never gives more than counting the whole.
proof fn lemma_count_prefix(s: Seq<FsEntry>, k: int, depth: nat, depth_limit: nat)
    requires
        0 <= k <= s.len(),
    ensures
        layout_node_count(s.subrange(0, k), depth, depth_limit) <= layout_node_count(
            s,
            depth,
            depth_limit,
        ),
    decreases s.len() - k,
{
    if k < s.len() {
        lemma_count_prefix(s, k + 1, depth, depth_limit);
        assert(s.subrange(0, k + 1).drop_last() =~= s.subrange(0, k));
    } else {
        assert(s.subrange(0, k) =~= s);
    }
}

} // verus!
