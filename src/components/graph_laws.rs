//! Properties that relate several operations of a system graph, stated over the
//! spec functions its methods are specified with.
use vstd::arithmetic::div_mod::lemma_div_is_ordered;
use vstd::prelude::*;

use super::system_graph::{
    complexity_sum, contagion_inflow, contagion_step, defect_count, SystemEdge, SystemNode,
};

verus! {

/// Adding a node raises the total complexity by exactly that node's
/// complexity, so the total over a graph built by successive additions is the
/// sum over the nodes added; edges play no part in it.
pub proof fn lemma_complexity_conservation(nodes: Seq<SystemNode>, node: SystemNode)
    ensures
        complexity_sum(nodes.push(node)) == complexity_sum(nodes) + node.complexity,
{
    assert(nodes.push(node).drop_last() =~= nodes);
}

/// On a three-node cycle whose nodes share debt, contagion risk and complexity
/// and whose edges share the spread factor, one contagion step leaves every
/// node with the same debt: no node gains from the order of evaluation.
pub proof fn lemma_cycle_symmetry(nodes: Seq<SystemNode>, edges: Seq<(usize, usize, SystemEdge)>)
    requires
        nodes.len() == 3,
        edges.len() == 3,
        edges[0].0 == 0 && edges[0].1 == 1,
        edges[1].0 == 1 && edges[1].1 == 2,
        edges[2].0 == 2 && edges[2].1 == 0,
        nodes[0].tech_debt == nodes[1].tech_debt && nodes[1].tech_debt == nodes[2].tech_debt,
        nodes[0].contagion_risk == nodes[1].contagion_risk && nodes[1].contagion_risk
            == nodes[2].contagion_risk,
        nodes[0].complexity == nodes[1].complexity && nodes[1].complexity == nodes[2].complexity,
        edges[0].2.tech_debt_spread == edges[1].2.tech_debt_spread && edges[1].2.tech_debt_spread
            == edges[2].2.tech_debt_spread,
    ensures
        contagion_step(nodes, edges)[0].tech_debt == contagion_step(nodes, edges)[1].tech_debt,
        contagion_step(nodes, edges)[1].tech_debt == contagion_step(nodes, edges)[2].tech_debt,
{
    reveal_with_fuel(contagion_inflow, 4);
}

/// With its defect rate and complexity held, a node with more debt never
/// produces fewer defects.
pub proof fn lemma_defects_monotone(less: SystemNode, more: SystemNode)
    requires
        less.defect_rate == more.defect_rate,
        less.complexity == more.complexity,
        less.tech_debt <= more.tech_debt,
    ensures
        defect_count(less) <= defect_count(more),
{
    let r = less.defect_rate as int;
    let c = 10 + less.complexity as int;
    let x = 100_000 + less.tech_debt as int;
    let y = 100_000 + more.tech_debt as int;
    assert(r * x * x * c <= r * y * y * c) by (nonlinear_arith)
        requires 0 <= r, 0 <= c, 0 <= x <= y;
    assert(r * x * x * c >= 0) by (nonlinear_arith)
        requires 0 <= r, 0 <= c, 0 <= x;
    lemma_div_is_ordered(r * x * x * c, r * y * y * c, 100_000_000_000_000);
}

} // verus!
