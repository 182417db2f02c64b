//! Biome parameter search tree.
//!
//! A static k-d-like tree over seven climate parameters resolves a noise
//! point to a biome by exact nearest-leaf search. A caller may pass the leaf
//! a previous query returned as a warm-start hint; the hint prunes traversal
//! but never changes which leaf wins, which is proved below as
//! [`lemma_hint_independence`].

use vstd::prelude::*;

verus! {

/// Climate parameters and query coordinates stay within this magnitude, so
/// squared distances over seven axes fit comfortably in an `i64`.
pub const PARAMETER_BOUND: i64 = 0x2000_0000;

/// Squared-distance contribution of one axis: how far `noise` lies outside
/// the closed interval `[min, max]`, and zero inside it.
pub open spec fn spec_axis_distance(min: i64, max: i64, noise: i64) -> int {
    if noise > max {
        noise - max
    } else if noise < min {
        min - noise
    } else {
        0
    }
}

/// One climate axis of a node: the closed interval its subtree spans.
#[derive(Clone, Copy, Debug, PartialEq, Eq, Structural)]
pub struct ParameterRange {
    pub min: i64,
    pub max: i64,
}

impl ParameterRange {
    pub open spec fn wf(self) -> bool {
        -PARAMETER_BOUND <= self.min <= self.max <= PARAMETER_BOUND
    }

    pub open spec fn spec_distance(self, noise: i64) -> int {
        spec_axis_distance(self.min, self.max, noise)
    }

    /// Distance from a coordinate to this axis interval.
    pub fn calc_distance(&self, noise: i64) -> (r: i64)
        requires
            self.wf(),
            -PARAMETER_BOUND <= noise <= PARAMETER_BOUND,
        ensures
            r == self.spec_distance(noise),
            0 <= r <= 2 * PARAMETER_BOUND,
    {
        if noise > self.max {
            noise - self.max
        } else if noise < self.min {
            self.min - noise
        } else {
            0
        }
    }
}

/// A seven-axis climate point within the parameter bound.
pub open spec fn spec_point_wf(p: Seq<i64>) -> bool {
    &&& p.len() == 7
    &&& forall|i: int| 0 <= i < 7 ==> -PARAMETER_BOUND <= #[trigger] p[i] <= PARAMETER_BOUND
}

/// All seven axes of a node are well-formed intervals.
pub open spec fn spec_params_wf(params: Seq<ParameterRange>) -> bool {
    &&& params.len() == 7
    &&& forall|i: int| 0 <= i < 7 ==> (#[trigger] params[i]).wf()
}

/// The outer axes contain the inner axes, interval by interval.
pub open spec fn spec_encloses(outer: Seq<ParameterRange>, inner: Seq<ParameterRange>) -> bool {
    forall|i: int|
        0 <= i < 7 ==> (#[trigger] outer[i]).min <= inner[i].min && inner[i].max <= outer[i].max
}

/// Sum of squared axis distances over the first `n` axes.
pub open spec fn spec_dist_prefix(params: Seq<ParameterRange>, p: Seq<i64>, n: int) -> int
    decreases n,
{
    if n <= 0 {
        0
    } else {
        spec_dist_prefix(params, p, n - 1) + params[n - 1].spec_distance(p[n - 1])
            * params[n - 1].spec_distance(p[n - 1])
    }
}

/// The biome parameter tree: leaves carry a biome identifier, branches carry
/// their children and axis intervals that enclose every descendant.
pub enum BiomeTree {
    Leaf { parameters: [ParameterRange; 7], biome: u8 },
    Branch { parameters: [ParameterRange; 7], nodes: Vec<BiomeTree> },
}

impl BiomeTree {
    pub open spec fn spec_params(self) -> Seq<ParameterRange> {
        match self {
            BiomeTree::Leaf { parameters, .. } => parameters@,
            BiomeTree::Branch { parameters, .. } => parameters@,
        }
    }

    /// Squared distance from a point to this node's bounding intervals.
    pub open spec fn spec_distance(self, p: Seq<i64>) -> int {
        spec_dist_prefix(self.spec_params(), p, 7)
    }

    /// The biome of a leaf.
    pub open spec fn spec_biome(self) -> u8
        recommends
            self is Leaf,
    {
        match self {
            BiomeTree::Leaf { biome, .. } => biome,
            BiomeTree::Branch { .. } => 0,
        }
    }

    /// Structural validity: intervals in bounds everywhere, branches
    /// non-empty, and every branch enclosing each of its children.
    pub open spec fn wf(self) -> bool
        decreases self, 0int,
    {
        match self {
            BiomeTree::Leaf { parameters, .. } => spec_params_wf(parameters@),
            BiomeTree::Branch { parameters, nodes } => {
                &&& spec_params_wf(parameters@)
                &&& nodes@.len() > 0
                &&& spec_forest_wf(nodes@, 0)
                &&& forall|i: int|
                    0 <= i < nodes@.len() ==> spec_encloses(
                        parameters@,
                        (#[trigger] nodes@[i]).spec_params(),
                    )
            },
        }
    }
}

/// Validity of every tree in `nodes` from position `i` on.
pub open spec fn spec_forest_wf(nodes: Seq<BiomeTree>, i: int) -> bool
    decreases nodes, nodes.len() - i,
{
    if i < 0 || i >= nodes.len() {
        true
    } else {
        nodes[i].wf() && spec_forest_wf(nodes, i + 1)
    }
}

/// Whether `x` is one of the leaves of `t`.
pub open spec fn spec_leaf_in(x: BiomeTree, t: BiomeTree) -> bool
    decreases t, 0int,
{
    match t {
        BiomeTree::Leaf { .. } => x == t,
        BiomeTree::Branch { nodes, .. } => spec_leaf_in_forest(x, nodes@, 0),
    }
}

/// Whether `x` is a leaf of one of the trees of `nodes` from position `i` on.
pub open spec fn spec_leaf_in_forest(x: BiomeTree, nodes: Seq<BiomeTree>, i: int) -> bool
    decreases nodes, nodes.len() - i,
{
    if i < 0 || i >= nodes.len() {
        false
    } else {
        spec_leaf_in(x, nodes[i]) || spec_leaf_in_forest(x, nodes, i + 1)
    }
}

/// Least squared distance from the point to any leaf of `t`.
pub open spec fn spec_min_leaf_distance(t: BiomeTree, p: Seq<i64>) -> int
    decreases t, 0int,
{
    match t {
        BiomeTree::Leaf { .. } => t.spec_distance(p),
        BiomeTree::Branch { nodes, .. } => spec_min_leaf_forest(nodes@, p, 0),
    }
}

/// Least leaf distance over the trees of `nodes` from position `i` on; the
/// empty suffix contributes the unreachable ceiling.
pub open spec fn spec_min_leaf_forest(nodes: Seq<BiomeTree>, p: Seq<i64>, i: int) -> int
    decreases nodes, nodes.len() - i,
{
    if i < 0 || i >= nodes.len() {
        i64::MAX as int
    } else {
        let rest = spec_min_leaf_forest(nodes, p, i + 1);
        let here = spec_min_leaf_distance(nodes[i], p);
        if here < rest {
            here
        } else {
            rest
        }
    }
}

/// Distance of the running best candidate, or the ceiling when none exists.
pub open spec fn spec_best_distance(best: Option<BiomeTree>, p: Seq<i64>) -> int {
    match best {
        Option::Some(b) => b.spec_distance(p),
        Option::None => i64::MAX as int,
    }
}

/// The functional model of the reference search: a leaf answers itself; a
/// branch walks its children in stored order, entering a child only when the
/// child's bounding distance strictly beats the running best, and replacing
/// the running best only on strict improvement.
pub open spec fn spec_search(t: BiomeTree, p: Seq<i64>, best: Option<BiomeTree>) -> Option<
    BiomeTree,
>
    decreases t, 0int,
{
    match t {
        BiomeTree::Leaf { .. } => Option::Some(t),
        BiomeTree::Branch { nodes, .. } => spec_search_forest(nodes@, p, 0, best),
    }
}

/// The children walk from position `i` on, threading the running best.
pub open spec fn spec_search_forest(
    nodes: Seq<BiomeTree>,
    p: Seq<i64>,
    i: int,
    best: Option<BiomeTree>,
) -> Option<BiomeTree>
    decreases nodes, nodes.len() - i,
{
    if i < 0 || i >= nodes.len() {
        best
    } else {
        let d = spec_best_distance(best, p);
        let next = if d > nodes[i].spec_distance(p) {
            let cand = spec_search(nodes[i], p, best);
            if d > spec_best_distance(cand, p) {
                cand
            } else {
                best
            }
        } else {
            best
        };
        spec_search_forest(nodes, p, i + 1, next)
    }
}

impl BiomeTree {
    /// Squared distance from `point` to this node's bounding intervals.
    pub fn get_squared_distance(&self, point: &[i64; 7]) -> (r: i64)
        requires
            spec_params_wf(self.spec_params()),
            spec_point_wf(point@),
        ensures
            r == self.spec_distance(point@),
            0 <= r <= 0x7000_0000_0000_0000,
    {
        let params: &[ParameterRange; 7] = match self {
            BiomeTree::Leaf { parameters, .. } => parameters,
            BiomeTree::Branch { parameters, .. } => parameters,
        };
        let mut acc: i64 = 0;
        let mut i: usize = 0;
        while i < 7
            invariant
                i <= 7,
                spec_params_wf(params@),
                spec_point_wf(point@),
                params@ == self.spec_params(),
                acc == spec_dist_prefix(params@, point@, i as int),
                0 <= acc <= i * 0x1000_0000_0000_0000,
            decreases 7 - i,
        {
            let d: i64 = params[i].calc_distance(point[i]);
            proof {
                assert(d * d <= 0x1000_0000_0000_0000) by (nonlinear_arith)
                    requires
                        0 <= d <= 0x4000_0000,
                ;
            }
            acc = acc + d * d;
            i = i + 1;
        }
        acc
    }

    /// The reference search: returns the winning node, given an optional
    /// previous-result leaf as warm start.
    pub fn get_resulting_node<'a>(
        &'a self,
        point: &[i64; 7],
        previous: Option<&'a BiomeTree>,
    ) -> (r: Option<&'a BiomeTree>)
        requires
            self.wf(),
            spec_point_wf(point@),
            previous matches Option::Some(h) ==> spec_params_wf(h.spec_params()),
        ensures
            spec_opt_deref(r) == spec_search(*self, point@, spec_opt_deref(previous)),
            r matches Option::Some(c) ==> spec_params_wf(c.spec_params()),
        decreases *self,
    {
        match self {
            BiomeTree::Leaf { .. } => Option::Some(self),
            BiomeTree::Branch { nodes, .. } => {
                let ghost init = spec_opt_deref(previous);
                let mut best: Option<&'a BiomeTree> = previous;
                let mut dist: i64 = match best {
                    Option::Some(b) => b.get_squared_distance(point),
                    Option::None => i64::MAX,
                };
                let n: usize = nodes.len();
                let mut i: usize = 0;
                while i < n
                    invariant
                        i <= n,
                        n == nodes@.len(),
                        self.wf(),
                        *self matches BiomeTree::Branch { nodes: nn, .. } && nn@ == nodes@,
                        spec_point_wf(point@),
                        dist == spec_best_distance(spec_opt_deref(best), point@),
                        best matches Option::Some(b) ==> spec_params_wf(b.spec_params()),
                        spec_search_forest(nodes@, point@, 0, init) == spec_search_forest(
                            nodes@,
                            point@,
                            i as int,
                            spec_opt_deref(best),
                        ),
                    decreases n - i,
                {
                    proof {
                        lemma_forest_wf_at(nodes@, 0, i as int);
                    }
                    let node: &BiomeTree = &nodes[i];
                    let node_distance: i64 = node.get_squared_distance(point);
                    if dist > node_distance {
                        let cand: Option<&BiomeTree> = node.get_resulting_node(point, best);
                        let cand_dist: i64 = match cand {
                            Option::Some(c) => c.get_squared_distance(point),
                            Option::None => i64::MAX,
                        };
                        if dist > cand_dist {
                            best = cand;
                            dist = cand_dist;
                        }
                    }
                    i = i + 1;
                }
                best
            },
        }
    }
}

impl BiomeTree {
    /// An owned copy of a leaf node.
    fn leaf_copy(&self) -> (r: BiomeTree)
        requires
            *self is Leaf,
        ensures
            r == *self,
    {
        match self {
            BiomeTree::Leaf { parameters, biome } => BiomeTree::Leaf {
                parameters: *parameters,
                biome: *biome,
            },
            BiomeTree::Branch { .. } => vstd::pervasive::unreached(),
        }
    }

    /// Resolves a climate point to a biome. The slot behind
    /// `previous_result_node` carries the leaf the previous query found, as a
    /// warm start; it is advisory only ([`lemma_hint_independence`]) and is
    /// refilled with the winning leaf.
    pub fn get(&self, point: &[i64; 7], previous_result_node: &mut Option<BiomeTree>) -> (r: u8)
        requires
            self.wf(),
            spec_point_wf(point@),
            *old(previous_result_node) matches Option::Some(h) ==> h is Leaf && spec_params_wf(
                h.spec_params(),
            ),
        ensures
            ({
                let res = spec_search(*self, point@, *old(previous_result_node));
                &&& res is Some
                &&& r == res->0.spec_biome()
                &&& *final(previous_result_node) == Option::Some(res->0)
            }),
    {
        proof {
            lemma_search_exact(*self, point@, *old(previous_result_node));
            if *self is Branch {
                lemma_min_leaf_bounds(*self, point@);
            }
        }
        let hint: Option<&BiomeTree> = previous_result_node.as_ref();
        let found: Option<&BiomeTree> = self.get_resulting_node(point, hint);
        match found {
            Option::Some(node) => {
                let biome: u8 = match node {
                    BiomeTree::Leaf { biome, .. } => *biome,
                    BiomeTree::Branch { .. } => vstd::pervasive::unreached(),
                };
                *previous_result_node = Option::Some(node.leaf_copy());
                biome
            },
            Option::None => vstd::pervasive::unreached(),
        }
    }
}

/// The optional node behind an optional reference.
pub open spec fn spec_opt_deref(o: Option<&BiomeTree>) -> Option<BiomeTree> {
    match o {
        Option::Some(t) => Option::Some(*t),
        Option::None => Option::None,
    }
}

/// Validity of a forest member follows from validity of the forest.
pub proof fn lemma_forest_wf_at(nodes: Seq<BiomeTree>, i: int, k: int)
    requires
        spec_forest_wf(nodes, i),
        i <= k < nodes.len(),
        0 <= i,
    ensures
        nodes[k].wf(),
    decreases k - i,
{
    if i < k {
        lemma_forest_wf_at(nodes, i + 1, k);
    }
}

/// Axis distances are non-negative, and an enclosing interval is never
/// farther from a coordinate than an enclosed one.
proof fn lemma_axis_distance_monotone(outer: ParameterRange, inner: ParameterRange, x: i64)
    requires
        outer.min <= inner.min,
        inner.max <= outer.max,
        inner.min <= inner.max,
    ensures
        0 <= outer.spec_distance(x) <= inner.spec_distance(x),
{
}

/// Squaring preserves order on non-negatives.
proof fn lemma_square_monotone(a: int, b: int)
    by (nonlinear_arith)
    requires
        0 <= a <= b,
    ensures
        0 <= a * a <= b * b,
{
}

/// Distance prefixes are non-negative and, under well-formed axes and a
/// well-formed point, bounded well below the ceiling.
proof fn lemma_dist_prefix_bounds(params: Seq<ParameterRange>, p: Seq<i64>, n: int)
    requires
        spec_params_wf(params),
        spec_point_wf(p),
        0 <= n <= 7,
    ensures
        0 <= spec_dist_prefix(params, p, n) <= n * 0x1000_0000_0000_0000,
    decreases n,
{
    if n > 0 {
        lemma_dist_prefix_bounds(params, p, n - 1);
        let d = params[n - 1].spec_distance(p[n - 1]);
        assert(0 <= d <= 0x4000_0000);
        lemma_square_monotone(d, 0x4000_0000);
    }
}

/// A node enclosing another is never farther from the point.
proof fn lemma_dist_prefix_monotone(
    outer: Seq<ParameterRange>,
    inner: Seq<ParameterRange>,
    p: Seq<i64>,
    n: int,
)
    requires
        spec_encloses(outer, inner),
        spec_params_wf(inner),
        p.len() == 7,
        0 <= n <= 7,
    ensures
        spec_dist_prefix(outer, p, n) <= spec_dist_prefix(inner, p, n),
    decreases n,
{
    if n > 0 {
        lemma_dist_prefix_monotone(outer, inner, p, n - 1);
        lemma_axis_distance_monotone(outer[n - 1], inner[n - 1], p[n - 1]);
        lemma_square_monotone(
            outer[n - 1].spec_distance(p[n - 1]),
            inner[n - 1].spec_distance(p[n - 1]),
        );
    }
}

/// A branch's bounding distance is a lower bound on every leaf distance in
/// its subtree, and the least leaf distance is within the ceiling.
proof fn lemma_min_leaf_bounds(t: BiomeTree, p: Seq<i64>)
    requires
        t.wf(),
        spec_point_wf(p),
    ensures
        t.spec_distance(p) <= spec_min_leaf_distance(t, p),
        0 <= spec_min_leaf_distance(t, p) <= 7 * 0x1000_0000_0000_0000,
    decreases t, 0int,
{
    lemma_dist_prefix_bounds(t.spec_params(), p, 7);
    match t {
        BiomeTree::Leaf { .. } => {},
        BiomeTree::Branch { parameters, nodes } => {
            lemma_min_leaf_forest_bounds(t, nodes@, p, 0);
        },
    }
}

/// Forest version of [`lemma_min_leaf_bounds`]: the branch's distance bounds
/// every suffix minimum, and a non-empty suffix stays within the ceiling.
proof fn lemma_min_leaf_forest_bounds(parent: BiomeTree, nodes: Seq<BiomeTree>, p: Seq<i64>, i: int)
    requires
        parent.wf(),
        parent matches BiomeTree::Branch { nodes: nn, .. } && nn@ == nodes,
        spec_point_wf(p),
        0 <= i <= nodes.len(),
    ensures
        parent.spec_distance(p) <= spec_min_leaf_forest(nodes, p, i),
        0 <= spec_min_leaf_forest(nodes, p, i),
        i < nodes.len() ==> spec_min_leaf_forest(nodes, p, i) <= 7 * 0x1000_0000_0000_0000,
    decreases nodes, nodes.len() - i,
{
    lemma_dist_prefix_bounds(parent.spec_params(), p, 7);
    if i < nodes.len() {
        lemma_min_leaf_forest_bounds(parent, nodes, p, i + 1);
        lemma_forest_wf_at(nodes, 0, i);
        lemma_min_leaf_bounds(nodes[i], p);
        lemma_dist_prefix_monotone(parent.spec_params(), nodes[i].spec_params(), p, 7);
    }
}

/// Leaf membership implies the node really is a leaf with valid axes, no
/// closer to the point than the subtree minimum.
proof fn lemma_leaf_in_props(x: BiomeTree, t: BiomeTree, p: Seq<i64>)
    requires
        t.wf(),
        spec_leaf_in(x, t),
    ensures
        x is Leaf,
        spec_params_wf(x.spec_params()),
        spec_min_leaf_distance(t, p) <= x.spec_distance(p),
    decreases t, 0int,
{
    match t {
        BiomeTree::Leaf { .. } => {},
        BiomeTree::Branch { nodes, .. } => {
            lemma_leaf_in_forest_props(x, t, nodes@, p, 0);
        },
    }
}

proof fn lemma_leaf_in_forest_props(
    x: BiomeTree,
    parent: BiomeTree,
    nodes: Seq<BiomeTree>,
    p: Seq<i64>,
    i: int,
)
    requires
        parent.wf(),
        parent matches BiomeTree::Branch { nodes: nn, .. } && nn@ == nodes,
        spec_leaf_in_forest(x, nodes, i),
        0 <= i <= nodes.len(),
    ensures
        x is Leaf,
        spec_params_wf(x.spec_params()),
        spec_min_leaf_forest(nodes, p, i) <= x.spec_distance(p),
    decreases nodes, nodes.len() - i,
{
    if i < nodes.len() {
        if spec_leaf_in(x, nodes[i]) {
            lemma_forest_wf_at(nodes, 0, i);
            lemma_leaf_in_props(x, nodes[i], p);
        } else {
            lemma_leaf_in_forest_props(x, parent, nodes, p, i + 1);
        }
    }
}

/// Exactness of the search: on a branch, the winner's distance is exactly
/// the smaller of the hint's distance and the least leaf distance, and the
/// winner is a leaf of the tree unless the hint itself stands.
pub proof fn lemma_search_exact(t: BiomeTree, p: Seq<i64>, best: Option<BiomeTree>)
    requires
        t.wf(),
        spec_point_wf(p),
        best matches Option::Some(b) ==> spec_params_wf(b.spec_params()),
    ensures
        t is Leaf ==> spec_search(t, p, best) == Option::Some(t),
        t is Branch ==> spec_best_distance(spec_search(t, p, best), p) == spec_min(
            spec_best_distance(best, p),
            spec_min_leaf_distance(t, p),
        ),
        spec_search(t, p, best) matches Option::Some(x) ==> spec_leaf_in(x, t) || best
            == Option::Some(x),
        spec_search(t, p, best) matches Option::Some(x) ==> spec_params_wf(x.spec_params()),
        (best is None || (best matches Option::Some(b) && b is Leaf)) ==> (spec_search(t, p, best)
            matches Option::Some(x) ==> x is Leaf),
    decreases t, 0int,
{
    match t {
        BiomeTree::Leaf { .. } => {},
        BiomeTree::Branch { nodes, .. } => {
            lemma_search_forest_exact(t, nodes@, p, 0, best);
        },
    }
}

pub open spec fn spec_min(a: int, b: int) -> int {
    if a < b {
        a
    } else {
        b
    }
}

proof fn lemma_search_forest_exact(
    parent: BiomeTree,
    nodes: Seq<BiomeTree>,
    p: Seq<i64>,
    i: int,
    best: Option<BiomeTree>,
)
    requires
        parent.wf(),
        parent matches BiomeTree::Branch { nodes: nn, .. } && nn@ == nodes,
        spec_point_wf(p),
        0 <= i <= nodes.len(),
        best matches Option::Some(b) ==> spec_params_wf(b.spec_params()),
    ensures
        spec_best_distance(spec_search_forest(nodes, p, i, best), p) == spec_min(
            spec_best_distance(best, p),
            spec_min_leaf_forest(nodes, p, i),
        ),
        spec_search_forest(nodes, p, i, best) matches Option::Some(x) ==> spec_leaf_in_forest(
            x,
            nodes,
            i,
        ) || best == Option::Some(x),
        spec_search_forest(nodes, p, i, best) matches Option::Some(x) ==> spec_params_wf(
            x.spec_params(),
        ),
        (best is None || (best matches Option::Some(b) && b is Leaf)) ==> (spec_search_forest(
            nodes,
            p,
            i,
            best,
        ) matches Option::Some(x) ==> x is Leaf),
    decreases nodes, nodes.len() - i,
{
    match best {
        Option::Some(b) => lemma_dist_prefix_bounds(b.spec_params(), p, 7),
        Option::None => {},
    }
    if i < nodes.len() {
        let child = nodes[i];
        lemma_forest_wf_at(nodes, 0, i);
        lemma_min_leaf_bounds(child, p);
        let d = spec_best_distance(best, p);
        let next = if d > child.spec_distance(p) {
            let cand = spec_search(child, p, best);
            if d > spec_best_distance(cand, p) {
                cand
            } else {
                best
            }
        } else {
            best
        };
        if d > child.spec_distance(p) {
            lemma_search_exact(child, p, best);
            let cand = spec_search(child, p, best);
            // A child is a branch or a leaf; either way the candidate's
            // distance is the smaller of the running best and the child's
            // least leaf distance.
            if child is Leaf {
                assert(spec_best_distance(cand, p) == child.spec_distance(p));
            }
            assert(spec_min(d, spec_min_leaf_distance(child, p)) == spec_best_distance(next, p));
        } else {
            // The skipped child's subtree cannot beat the running best: its
            // bounding distance already fails to.
            assert(spec_best_distance(next, p) == spec_min(d, spec_min_leaf_distance(child, p)));
        }
        lemma_search_forest_exact(parent, nodes, p, i + 1, next);
        assert forall|x: BiomeTree|
            next == Option::<BiomeTree>::Some(x) implies spec_leaf_in_forest(x, nodes, i) || best
            == Option::<BiomeTree>::Some(x) by {
            if best != Option::<BiomeTree>::Some(x) {
                assert(spec_leaf_in(x, child));
            }
        }
    }
}

/// The warm-start hint never changes the biome a query resolves to, as long
/// as every leaf at the minimal distance carries the same biome. A point
/// equidistant from two leaves of different biomes is the one family of
/// inputs the reference semantics itself leaves traversal-order-dependent.
pub proof fn lemma_hint_independence(t: BiomeTree, p: Seq<i64>, h: BiomeTree)
    requires
        t.wf(),
        spec_point_wf(p),
        h is Leaf,
        spec_leaf_in(h, t),
        forall|l1: BiomeTree, l2: BiomeTree|
            #[trigger] spec_leaf_in(l1, t) && #[trigger] spec_leaf_in(l2, t) && l1.spec_distance(p)
                == spec_min_leaf_distance(t, p) && l2.spec_distance(p) == spec_min_leaf_distance(
                t,
                p,
            ) ==> l1.spec_biome() == l2.spec_biome(),
    ensures
        ({
            let with_hint = spec_search(t, p, Option::Some(h));
            let without = spec_search(t, p, Option::None);
            &&& with_hint is Some
            &&& without is Some
            &&& with_hint->0.spec_biome() == without->0.spec_biome()
        }),
{
    match t {
        BiomeTree::Leaf { .. } => {},
        BiomeTree::Branch { .. } => {
            lemma_leaf_in_props(h, t, p);
            lemma_min_leaf_bounds(t, p);
            lemma_search_exact(t, p, Option::Some(h));
            lemma_search_exact(t, p, Option::None);
            let m = spec_min_leaf_distance(t, p);
            let with_hint = spec_search(t, p, Option::Some(h));
            assert(spec_best_distance(with_hint, p) == m);
            assert(with_hint is Some);
            let x1 = with_hint->0;
            assert(spec_leaf_in(x1, t));
            let without = spec_search(t, p, Option::None);
            assert(spec_best_distance(without, p) == m);
            assert(without is Some);
            let x0 = without->0;
            assert(spec_leaf_in(x0, t));
            assert(x1.spec_biome() == x0.spec_biome());
        },
    }
}


/// The biome supplier that resolves multi-noise climate points through the
/// parameter tree.
pub struct MultiNoiseBiomeSupplier;

impl MultiNoiseBiomeSupplier {
    /// Resolves a sampled climate point against a dimension's tree,
    /// threading the caller's last-result slot as the warm-start hint.
    pub fn biome(
        source: &BiomeTree,
        point: &[i64; 7],
        last_result: &mut Option<BiomeTree>,
    ) -> (r: u8)
        requires
            source.wf(),
            spec_point_wf(point@),
            *old(last_result) matches Option::Some(h) ==> h is Leaf && spec_params_wf(
                h.spec_params(),
            ),
        ensures
            ({
                let res = spec_search(*source, point@, *old(last_result));
                &&& res is Some
                &&& r == res->0.spec_biome()
                &&& *final(last_result) == Option::Some(res->0)
            }),
    {
        source.get(point, last_result)
    }
}

} // verus!
