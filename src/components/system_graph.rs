use petgraph::graph::{DiGraph, NodeIndex};
use vstd::prelude::*;

use super::distribution::DistributionType;
use super::graph_store::{
    edge_at, edge_ends, edge_total, graph_edges, graph_nodes, new_graph, node_at, node_index_at, node_total,
    push_edge, push_node, set_node_levels,
};

verus! {

/// 100 percent, in thousandths of a percent.
pub const FULL_LEVEL: u32 = 100_000;

/// 1, in thousandths.
pub const UNIT: u32 = 1000;

/// A component of the simulated system.
#[derive(Debug, Clone)]
pub struct SystemNode {
    pub name: String,
    pub node_type: String,
    /// Percentage in thousandths, at most `FULL_LEVEL`.
    pub health: u32,
    /// Percentage in thousandths, at most `FULL_LEVEL`.
    pub tech_debt: u32,
    pub complexity: u32,
    /// Fraction in thousandths, at most `UNIT`.
    pub contagion_risk: u32,
    /// Cost per second, in thousandths.
    pub operating_cost: u64,
    pub critical_path: bool,
    pub attributes: Vec<String>,
    pub latency: DistributionType,
    pub failure_rate: DistributionType,
    /// Defects per tick, in thousandths, at most `UNIT`.
    pub defect_rate: u32,
}

/// A directed dependency between two components.
#[derive(Debug, Clone)]
pub struct SystemEdge {
    pub name: String,
    /// Fraction in thousandths, at most `UNIT`.
    pub reliability: u32,
    pub latency: DistributionType,
    /// Fraction of the source's debt passed on per tick, in thousandths, at
    /// most `UNIT`.
    pub tech_debt_spread: u32,
    pub bandwidth: u64,
    pub failure_rate: DistributionType,
}

impl SystemNode {
    /// Every bounded metric lies in its range.
    pub open spec fn wf(&self) -> bool {
        &&& self.health <= FULL_LEVEL
        &&& self.tech_debt <= FULL_LEVEL
        &&& self.contagion_risk <= UNIT
        &&& self.defect_rate <= UNIT
    }
}

impl SystemEdge {
    /// Every bounded metric lies in its range.
    pub open spec fn wf(&self) -> bool {
        &&& self.reliability <= UNIT
        &&& self.tech_debt_spread <= UNIT
    }
}

/// Debt, in thousandths of a percent, that one edge carries into its target in
/// a contagion step: the source's debt times the edge's spread factor times the
/// target's contagion risk, amplified by `1 + complexity / 10` of the source,
/// rounded down.
pub open spec fn contagion_amount(source: SystemNode, edge: SystemEdge, risk: u32) -> nat {
    (source.tech_debt * edge.tech_debt_spread * risk * (10 + source.complexity) / 10_000_000) as nat
}

/// Debt that the first `j` edges carry into node `k` in a contagion step.
pub open spec fn contagion_inflow(
    nodes: Seq<SystemNode>,
    edges: Seq<(usize, usize, SystemEdge)>,
    k: int,
    j: int,
) -> nat
    decreases j,
{
    if j <= 0 {
        0
    } else {
        let e = edges[j - 1];
        let before = contagion_inflow(nodes, edges, k, j - 1);
        if e.1 == k {
            before + contagion_amount(nodes[e.0 as int], e.2, nodes[k].contagion_risk)
        } else {
            before
        }
    }
}

/// `v` held to at most 100 percent.
pub open spec fn capped(v: int) -> u32 {
    if v < FULL_LEVEL {
        v as u32
    } else {
        FULL_LEVEL
    }
}

/// `node` with its debt and health replaced.
pub open spec fn with_levels(node: SystemNode, health: u32, tech_debt: u32) -> SystemNode {
    SystemNode { health, tech_debt, ..node }
}

/// The nodes after one contagion step: each node's debt grows by the debt its
/// incoming edges carry, all computed from the debts before the step, and is
/// capped at 100 percent.
pub open spec fn contagion_step(nodes: Seq<SystemNode>, edges: Seq<(usize, usize, SystemEdge)>) -> Seq<
    SystemNode,
> {
    Seq::new(
        nodes.len(),
        |k: int|
            with_levels(
                nodes[k],
                nodes[k].health,
                capped(nodes[k].tech_debt + contagion_inflow(nodes, edges, k, edges.len() as int)),
            ),
    )
}

/// Whether some edge ends at node `k`.
pub open spec fn has_incoming(edges: Seq<(usize, usize, SystemEdge)>, k: int) -> bool {
    exists|j: int| 0 <= j < edges.len() && edges[j].1 == k
}

fn contagion_amount_exec(source: &SystemNode, edge: &SystemEdge, risk: u32) -> (r: u64)
    requires
        source.wf(),
        edge.wf(),
        risk <= UNIT,
    ensures
        r == contagion_amount(*source, *edge, risk),
        r <= 42_949_673_050_000,
{
    let a = source.tech_debt as u128;
    let b = edge.tech_debt_spread as u128;
    let c = risk as u128;
    let d = 10 + source.complexity as u128;
    assert(a * b <= 100_000_000) by (nonlinear_arith)
        requires a <= 100_000, b <= 1000;
    assert(a * b * c <= 100_000_000_000) by (nonlinear_arith)
        requires a * b <= 100_000_000, c <= 1000;
    assert(a * b * c * d <= 100_000_000_000 * 4_294_967_305) by (nonlinear_arith)
        requires a * b * c <= 100_000_000_000, d <= 4_294_967_305;
    let r = a * b * c * d / 10_000_000;
    assert(r <= 100_000_000_000 * 4_294_967_305 / 10_000_000) by (nonlinear_arith)
        requires r == a * b * c * d / 10_000_000, a * b * c * d <= 100_000_000_000 * 4_294_967_305;
    r as u64
}

proof fn lemma_no_inflow(nodes: Seq<SystemNode>, edges: Seq<(usize, usize, SystemEdge)>, k: int, j: int)
    requires
        0 <= j <= edges.len(),
        !has_incoming(edges, k),
    ensures
        contagion_inflow(nodes, edges, k, j) == 0,
    decreases j,
{
    if j > 0 {
        assert(edges[j - 1].1 != k);
        lemma_no_inflow(nodes, edges, k, j - 1);
    }
}

/// Position of the node that a name designates: the last node added under that
/// name, since each addition overwrites the name's entry.
pub open spec fn named_position(nodes: Seq<SystemNode>, name: Seq<char>) -> Option<usize>
    decreases nodes.len(),
{
    if nodes.len() == 0 {
        None
    } else if nodes.last().name@ == name {
        Some((nodes.len() - 1) as usize)
    } else {
        named_position(nodes.drop_last(), name)
    }
}

/// Sum of the complexities of `nodes`.
pub open spec fn complexity_sum(nodes: Seq<SystemNode>) -> nat
    decreases nodes.len(),
{
    if nodes.len() == 0 {
        0
    } else {
        complexity_sum(nodes.drop_last()) + nodes.last().complexity as nat
    }
}

/// Sum of the debts of `nodes`.
pub open spec fn tech_debt_sum(nodes: Seq<SystemNode>) -> nat
    decreases nodes.len(),
{
    if nodes.len() == 0 {
        0
    } else {
        tech_debt_sum(nodes.drop_last()) + nodes.last().tech_debt as nat
    }
}

/// Mean debt of `nodes`, rounded down; zero when there are none.
pub open spec fn mean_tech_debt(nodes: Seq<SystemNode>) -> nat {
    if nodes.len() == 0 {
        0
    } else {
        tech_debt_sum(nodes) / nodes.len()
    }
}

/// Defects a node produces in one tick: its defect rate scaled by the square of
/// `1 + debt` and by `1 + complexity / 10`, rounded down.
pub open spec fn defect_count(node: SystemNode) -> nat {
    (node.defect_rate * (100_000 + node.tech_debt) * (100_000 + node.tech_debt) * (10 + node.complexity)
        / 100_000_000_000_000) as nat
}

/// The (name, count) pairs of the nodes that produce at least one defect, in
/// node order.
pub open spec fn defect_report(nodes: Seq<SystemNode>) -> Seq<(Seq<char>, u32)>
    decreases nodes.len(),
{
    if nodes.len() == 0 {
        Seq::empty()
    } else {
        let before = defect_report(nodes.drop_last());
        let n = nodes.last();
        if defect_count(n) > 0 {
            before.push((n.name@, defect_count(n) as u32))
        } else {
            before
        }
    }
}

fn defect_count_exec(node: &SystemNode) -> (r: u32)
    requires
        node.wf(),
    ensures
        r == defect_count(*node),
{
    let rate = node.defect_rate as u128;
    let level = 100_000 + node.tech_debt as u128;
    let scale = 10 + node.complexity as u128;
    assert(rate * level <= 200_000_000) by (nonlinear_arith)
        requires rate <= 1000, level <= 200_000;
    assert(rate * level * level <= 40_000_000_000_000) by (nonlinear_arith)
        requires rate * level <= 200_000_000, level <= 200_000;
    assert(rate * level * level * scale <= 40_000_000_000_000 * 4_294_967_305) by (nonlinear_arith)
        requires rate * level * level <= 40_000_000_000_000, scale <= 4_294_967_305;
    let count = rate * level * level * scale / 100_000_000_000_000;
    assert(count <= 40_000_000_000_000 * 4_294_967_305 / 100_000_000_000_000) by (nonlinear_arith)
        requires
            count == rate * level * level * scale / 100_000_000_000_000,
            rate * level * level * scale <= 40_000_000_000_000 * 4_294_967_305,
    ;
    count as u32
}

proof fn lemma_named_position_bound(nodes: Seq<SystemNode>, name: Seq<char>)
    ensures
        named_position(nodes, name) matches Some(p) ==> p < nodes.len(),
    decreases nodes.len(),
{
    if nodes.len() > 0 {
        lemma_named_position_bound(nodes.drop_last(), name);
    }
}

/// A directed multigraph of components and dependencies.
///
/// Nodes are found by name: a name designates the last node added under it
/// (`named_position`), so a node whose name is reused stays in the graph but
/// can no longer be reached by name. Nodes are never removed.
pub struct SystemGraph {
    pub graph: DiGraph<SystemNode, SystemEdge>,
}

impl SystemGraph {
    pub open spec fn nodes(&self) -> Seq<SystemNode> {
        graph_nodes(self.graph)
    }

    pub open spec fn edges(&self) -> Seq<(usize, usize, SystemEdge)> {
        graph_edges(self.graph)
    }

    /// Indices fit petgraph's `u32` index space, every edge joins two nodes of
    /// the graph, and every metric lies in its range.
    pub open spec fn wf(&self) -> bool {
        &&& self.nodes().len() <= u32::MAX
        &&& self.edges().len() <= u32::MAX
        &&& forall|i: int| 0 <= i < self.nodes().len() ==> #[trigger] self.nodes()[i].wf()
        &&& forall|j: int|
            0 <= j < self.edges().len() ==> {
                let e = #[trigger] self.edges()[j];
                &&& e.0 < self.nodes().len()
                &&& e.1 < self.nodes().len()
                &&& e.2.wf()
            }
    }

    pub fn new() -> (r: Self)
        ensures
            r.wf(),
            r.nodes() == Seq::<SystemNode>::empty(),
            r.edges() == Seq::<(usize, usize, SystemEdge)>::empty(),
    {
        SystemGraph { graph: new_graph() }
    }

    /// Position of the node that `name` designates.
    fn position_of(&self, name: &String) -> (r: Option<usize>)
        requires
            self.wf(),
        ensures
            r == named_position(self.nodes(), name@),
    {
        let ghost nodes = self.nodes();
        let mut i = node_total(&self.graph);
        assert(nodes.subrange(0, i as int) =~= nodes);
        while i > 0
            invariant
                i <= nodes.len(),
                self.wf(),
                self.nodes() == nodes,
                named_position(nodes, name@) == named_position(nodes.subrange(0, i as int), name@),
            decreases i,
        {
            let node = node_at(&self.graph, i - 1);
            if node.name == *name {
                return Some(i - 1);
            }
            assert(nodes.subrange(0, i as int).drop_last() =~= nodes.subrange(0, i - 1));
            i -= 1;
        }
        None
    }

    /// Adds a component and indexes it by its name, replacing any earlier entry
    /// for that name.
    pub fn add_node(&mut self, node: SystemNode) -> (r: NodeIndex)
        requires
            old(self).wf(),
            node.wf(),
            old(self).nodes().len() < u32::MAX,
        ensures
            final(self).wf(),
            final(self).nodes() == old(self).nodes().push(node),
            final(self).edges() == old(self).edges(),
            r == node_index_at(old(self).nodes().len()),
            named_position(final(self).nodes(), node.name@) == Some(old(self).nodes().len() as usize),
    {
        let ghost name = node.name@;
        let r = push_node(&mut self.graph, node);
        assert(self.nodes().drop_last() =~= old(self).nodes());
        r
    }

    /// Adds a dependency between the nodes that `from` and `to` name; `None`,
    /// with the graph unchanged, when either name designates no node.
    pub fn add_edge(&mut self, from: &str, to: &str, edge: SystemEdge) -> (r: Option<()>)
        requires
            old(self).wf(),
            edge.wf(),
            old(self).edges().len() < u32::MAX,
        ensures
            final(self).wf(),
            final(self).nodes() == old(self).nodes(),
            match (named_position(old(self).nodes(), from@), named_position(old(self).nodes(), to@)) {
                (Some(a), Some(b)) => {
                    &&& r == Some(())
                    &&& final(self).edges() == old(self).edges().push((a, b, edge))
                },
                _ => {
                    &&& r == None::<()>
                    &&& final(self).edges() == old(self).edges()
                },
            },
    {
        let from_name = from.to_owned();
        let to_name = to.to_owned();
        let a = match self.position_of(&from_name) {
            Some(a) => a,
            None => return None,
        };
        let b = match self.position_of(&to_name) {
            Some(b) => b,
            None => return None,
        };
        proof {
            lemma_named_position_bound(self.nodes(), from@);
            lemma_named_position_bound(self.nodes(), to@);
        }
        push_edge(&mut self.graph, a, b, edge);
        assert forall|j: int| 0 <= j < self.edges().len() implies {
            let e = #[trigger] self.edges()[j];
            &&& e.0 < self.nodes().len()
            &&& e.1 < self.nodes().len()
            &&& e.2.wf()
        } by {
            if j < old(self).edges().len() {
                assert(self.edges()[j] == old(self).edges()[j]);
            }
        }
        Some(())
    }

    /// Sum of the complexities of all nodes.
    pub fn total_complexity(&self) -> (r: u64)
        requires
            self.wf(),
        ensures
            r == complexity_sum(self.nodes()),
    {
        let ghost nodes = self.nodes();
        let n = node_total(&self.graph);
        let mut total: u64 = 0;
        let mut i: usize = 0;
        while i < n
            invariant
                i <= n,
                n == nodes.len(),
                n <= u32::MAX,
                self.nodes() == nodes,
                total == complexity_sum(nodes.subrange(0, i as int)),
                total <= i * 4_294_967_295,
            decreases n - i,
        {
            let c = node_at(&self.graph, i).complexity;
            assert(nodes.subrange(0, i + 1).drop_last() =~= nodes.subrange(0, i as int));
            assert((i + 1) * 4_294_967_295 <= 4_294_967_295 * 4_294_967_295) by (nonlinear_arith)
                requires i + 1 <= 4_294_967_295;
            total = total + c as u64;
            i += 1;
        }
        assert(nodes.subrange(0, n as int) =~= nodes);
        total
    }

    /// Mean debt over all nodes, rounded down; zero for a graph without nodes.
    pub fn average_tech_debt(&self) -> (r: u32)
        requires
            self.wf(),
        ensures
            r == mean_tech_debt(self.nodes()),
            self.nodes().len() == 0 ==> r == 0,
            r <= FULL_LEVEL,
    {
        let ghost nodes = self.nodes();
        let n = node_total(&self.graph);
        if n == 0 {
            return 0;
        }
        let mut total: u64 = 0;
        let mut i: usize = 0;
        while i < n
            invariant
                i <= n,
                n == nodes.len(),
                n <= u32::MAX,
                self.wf(),
                self.nodes() == nodes,
                total == tech_debt_sum(nodes.subrange(0, i as int)),
                total <= i * 100_000,
            decreases n - i,
        {
            let node = node_at(&self.graph, i);
            assert(nodes[i as int].wf());
            assert(nodes.subrange(0, i + 1).drop_last() =~= nodes.subrange(0, i as int));
            total = total + node.tech_debt as u64;
            i += 1;
        }
        assert(nodes.subrange(0, n as int) =~= nodes);
        let mean = total / n as u64;
        assert(mean <= 100_000) by (nonlinear_arith)
            requires mean == total / n as u64, total <= n * 100_000, n > 0;
        mean as u32
    }

    /// The nodes that produce defects in this tick, with their counts; nodes
    /// without defects are left out. No node changes.
    pub fn generate_defects(&mut self) -> (r: Vec<(String, u32)>)
        requires
            old(self).wf(),
        ensures
            *final(self) == *old(self),
            r@.map_values(|p: (String, u32)| (p.0@, p.1)) == defect_report(old(self).nodes()),
    {
        let ghost nodes = self.nodes();
        let n = node_total(&self.graph);
        let mut report: Vec<(String, u32)> = Vec::new();
        let mut i: usize = 0;
        while i < n
            invariant
                i <= n,
                n == nodes.len(),
                self.wf(),
                self.nodes() == nodes,
                report@.map_values(|p: (String, u32)| (p.0@, p.1)) == defect_report(nodes.subrange(0, i as int)),
            decreases n - i,
        {
            let node = node_at(&self.graph, i);
            assert(nodes[i as int].wf());
            assert(nodes.subrange(0, i + 1).drop_last() =~= nodes.subrange(0, i as int));
            let count = defect_count_exec(node);
            if count > 0 {
                let ghost before = report@;
                report.push((node.name.clone(), count));
                assert(report@.map_values(|p: (String, u32)| (p.0@, p.1)) =~= before.map_values(
                    |p: (String, u32)| (p.0@, p.1),
                ).push((node.name@, count)));
            }
            i += 1;
        }
        assert(nodes.subrange(0, n as int) =~= nodes);
        report
    }

    /// One contagion step: every node absorbs debt from the sources of its
    /// incoming edges, as they stood before the step.
    pub fn simulate_tech_debt_spread(&mut self)
        requires
            old(self).wf(),
        ensures
            final(self).wf(),
            final(self).nodes() == contagion_step(old(self).nodes(), old(self).edges()),
            final(self).edges() == old(self).edges(),
            forall|k: int|
                0 <= k < old(self).nodes().len() ==> {
                    &&& #[trigger] final(self).nodes()[k].tech_debt <= FULL_LEVEL
                    &&& final(self).nodes()[k].health <= FULL_LEVEL
                },
            forall|k: int|
                0 <= k < old(self).nodes().len() && !has_incoming(old(self).edges(), k)
                    ==> #[trigger] final(self).nodes()[k] == old(self).nodes()[k],
    {
        let ghost nodes = self.nodes();
        let ghost edges = self.edges();
        let n = node_total(&self.graph);
        let m = edge_total(&self.graph);
        let mut inflow: Vec<u32> = Vec::new();
        let mut i: usize = 0;
        while i < n
            invariant
                i <= n,
                n == nodes.len(),
                inflow@.len() == i,
                forall|k: int| 0 <= k < i ==> inflow@[k] == 0,
            decreases n - i,
        {
            inflow.push(0);
            i += 1;
        }
        let mut j: usize = 0;
        while j < m
            invariant
                self.wf(),
                self.nodes() == nodes,
                self.edges() == edges,
                j <= m,
                n == nodes.len(),
                m == edges.len(),
                inflow@.len() == n,
                forall|k: int| 0 <= k < n ==> inflow@[k] == capped(contagion_inflow(nodes, edges, k, j as int) as int),
            decreases m - j,
        {
            let ends = edge_ends(&self.graph, j);
            if let Some((from, to)) = ends {
                assert(self.edges()[j as int].0 == from && self.edges()[j as int].1 == to);
                assert(self.nodes()[from as int].wf() && self.nodes()[to as int].wf());
                let edge = edge_at(&self.graph, j);
                let source = node_at(&self.graph, from);
                let target = node_at(&self.graph, to);
                let amount = contagion_amount_exec(source, edge, target.contagion_risk);
                let sum = inflow[to] as u64 + amount;
                let next: u32 = if sum < FULL_LEVEL as u64 { sum as u32 } else { FULL_LEVEL };
                inflow.set(to, next);
                assert forall|k: int| 0 <= k < n implies inflow@[k] == capped(
                    contagion_inflow(nodes, edges, k, j + 1) as int,
                ) by {
                    assert(edges[j as int].0 == from && edges[j as int].1 == to);
                }
            }
            j += 1;
        }
        let mut i: usize = 0;
        while i < n
            invariant
                i <= n,
                n == nodes.len(),
                n <= u32::MAX,
                m == edges.len(),
                inflow@.len() == n,
                forall|k: int| 0 <= k < n ==> inflow@[k] == capped(contagion_inflow(nodes, edges, k, m as int) as int),
                self.nodes().len() == n,
                self.edges() == edges,
                forall|k: int| 0 <= k < i ==> self.nodes()[k] == contagion_step(nodes, edges)[k],
                forall|k: int| i <= k < n ==> self.nodes()[k] == nodes[k],
                forall|k: int| 0 <= k < n ==> nodes[k].wf(),
            decreases n - i,
        {
            let node = node_at(&self.graph, i);
            let health = node.health;
            let sum = node.tech_debt + inflow[i];
            let debt: u32 = if sum < FULL_LEVEL { sum } else { FULL_LEVEL };
            set_node_levels(&mut self.graph, i, health, debt);
            i += 1;
        }
        assert(self.nodes() =~= contagion_step(nodes, edges));
        assert forall|k: int| 0 <= k < n && !has_incoming(edges, k) implies self.nodes()[k] == nodes[k] by {
            lemma_no_inflow(nodes, edges, k, m as int);
            assert(self.nodes()[k] =~= nodes[k]);
        }
    }
}

} // verus!
