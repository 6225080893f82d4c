use vstd::prelude::*;

use crate::components::graph_store::{edge_at, edge_ends, edge_total, node_at, node_total, set_node_levels};
use crate::components::system_graph::{capped, with_levels, SystemEdge, SystemGraph, SystemNode, FULL_LEVEL};
use crate::game_state::GameState;
use crate::resources::GameResources;

verus! {

/// Health below this level, in thousandths of a percent, costs reputation on a
/// critical node.
pub const CRITICAL_HEALTH: u32 = 50_000;

/// Health lost over `delta` milliseconds: a tenth of the debt per second.
pub open spec fn health_decay(node: SystemNode, delta: u32) -> nat {
    (node.tech_debt * delta / 10_000) as nat
}

/// Health after decay, floored at zero.
pub open spec fn decayed_health(node: SystemNode, delta: u32) -> u32 {
    if health_decay(node, delta) < node.health {
        (node.health - health_decay(node, delta)) as u32
    } else {
        0
    }
}

/// Operating cost over `delta` milliseconds, raised by up to double with debt.
pub open spec fn running_cost(node: SystemNode, delta: u32) -> nat {
    (node.operating_cost * (100_000 + node.tech_debt) * delta / 100_000_000) as nat
}

/// Reputation lost over `delta` milliseconds by a critical node whose decayed
/// health is below the critical level.
pub open spec fn reputation_loss(node: SystemNode, delta: u32) -> nat {
    let h = decayed_health(node, delta);
    if node.critical_path && h < CRITICAL_HEALTH {
        ((CRITICAL_HEALTH - h) * delta / 10_000) as nat
    } else {
        0
    }
}

/// Cost of the first `i` nodes.
pub open spec fn total_cost(nodes: Seq<SystemNode>, delta: u32, i: int) -> nat
    decreases i,
{
    if i <= 0 {
        0
    } else {
        total_cost(nodes, delta, i - 1) + running_cost(nodes[i - 1], delta)
    }
}

/// Reputation lost through the first `i` nodes.
pub open spec fn total_reputation_loss(nodes: Seq<SystemNode>, delta: u32, i: int) -> nat
    decreases i,
{
    if i <= 0 {
        0
    } else {
        total_reputation_loss(nodes, delta, i - 1) + reputation_loss(nodes[i - 1], delta)
    }
}

/// Debt that one edge carries over `delta` milliseconds.
pub open spec fn drift_amount(source: SystemNode, edge: SystemEdge, delta: u32) -> nat {
    (source.tech_debt * edge.tech_debt_spread * delta / 1_000_000) as nat
}

/// Debt that the first `j` edges carry into node `k` over `delta` milliseconds.
pub open spec fn drift_inflow(
    nodes: Seq<SystemNode>,
    edges: Seq<(usize, usize, SystemEdge)>,
    delta: u32,
    k: int,
    j: int,
) -> nat
    decreases j,
{
    if j <= 0 {
        0
    } else {
        let e = edges[j - 1];
        let before = drift_inflow(nodes, edges, delta, k, j - 1);
        if e.1 == k {
            before + drift_amount(nodes[e.0 as int], e.2, delta)
        } else {
            before
        }
    }
}

/// The nodes after one tick: health decays, and each node's debt grows by what
/// its incoming edges carry from the debts at the start of the tick, capped at
/// 100 percent.
pub open spec fn tick_nodes(nodes: Seq<SystemNode>, edges: Seq<(usize, usize, SystemEdge)>, delta: u32) -> Seq<
    SystemNode,
> {
    Seq::new(
        nodes.len(),
        |k: int|
            with_levels(
                nodes[k],
                decayed_health(nodes[k], delta),
                capped(nodes[k].tech_debt + drift_inflow(nodes, edges, delta, k, edges.len() as int)),
            ),
    )
}

/// Money left after one tick, floored at zero.
pub open spec fn money_after(money: u64, nodes: Seq<SystemNode>, delta: u32) -> u64 {
    let cost = total_cost(nodes, delta, nodes.len() as int);
    if cost < money {
        (money - cost) as u64
    } else {
        0
    }
}

/// Reputation after one tick, clamped to [0, 100] percent.
pub open spec fn reputation_after(reputation: u32, nodes: Seq<SystemNode>, delta: u32) -> u32 {
    let loss = total_reputation_loss(nodes, delta, nodes.len() as int);
    if loss < reputation {
        capped(reputation - loss)
    } else {
        0
    }
}

/// Advances the simulation by `delta` milliseconds while the game is running:
/// decays health, charges operating costs and reputation, and spreads debt
/// along every edge. In any other phase nothing changes.
pub fn tick_system(delta: u32, state: GameState, resources: &mut GameResources, system: &mut SystemGraph)
    requires
        old(system).wf(),
    ensures
        final(system).wf(),
        final(system).edges() == old(system).edges(),
        forall|k: int|
            0 <= k < final(system).nodes().len() ==> {
                &&& #[trigger] final(system).nodes()[k].tech_debt <= FULL_LEVEL
                &&& final(system).nodes()[k].health <= FULL_LEVEL
            },
        state != GameState::Running ==> {
            &&& final(system).nodes() == old(system).nodes()
            &&& *final(resources) == *old(resources)
        },
        state == GameState::Running ==> {
            &&& final(system).nodes() == tick_nodes(old(system).nodes(), old(system).edges(), delta)
            &&& final(resources).money == money_after(old(resources).money, old(system).nodes(), delta)
            &&& final(resources).reputation == reputation_after(
                old(resources).reputation,
                old(system).nodes(),
                delta,
            )
            &&& final(resources).sprint == old(resources).sprint
            &&& final(resources).current_architecture == old(resources).current_architecture
        },
{
    if state != GameState::Running {
        assert forall|k: int| 0 <= k < system.nodes().len() implies {
            &&& #[trigger] system.nodes()[k].tech_debt <= FULL_LEVEL
            &&& system.nodes()[k].health <= FULL_LEVEL
        } by {
            assert(system.nodes()[k].wf());
        }
        return;
    }
    let ghost nodes = system.nodes();
    let ghost edges = system.edges();
    let n = node_total(&system.graph);
    let m = edge_total(&system.graph);
    let mut money: u64 = resources.money;
    let mut reputation: u64 = resources.reputation as u64;
    let mut i: usize = 0;
    while i < n
        invariant
            i <= n,
            n == nodes.len(),
            n <= u32::MAX,
            system.edges() == edges,
            system.nodes().len() == n,
            forall|k: int| 0 <= k < n ==> nodes[k].wf(),
            forall|k: int|
                0 <= k < i ==> system.nodes()[k] == with_levels(
                    nodes[k],
                    decayed_health(nodes[k], delta),
                    nodes[k].tech_debt,
                ),
            forall|k: int| i <= k < n ==> system.nodes()[k] == nodes[k],
            money == if total_cost(nodes, delta, i as int) < resources.money {
                resources.money - total_cost(nodes, delta, i as int)
            } else {
                0
            },
            reputation == if total_reputation_loss(nodes, delta, i as int) < resources.reputation {
                resources.reputation - total_reputation_loss(nodes, delta, i as int)
            } else {
                0
            },
        decreases n - i,
    {
        let node = node_at(&system.graph, i);
        assert(node.wf());
        let debt = node.tech_debt;
        assert(debt as u64 * delta as u64 <= 100_000 * 4_294_967_295) by (nonlinear_arith)
            requires debt <= 100_000;
        let decay: u64 = debt as u64 * delta as u64 / 10_000;
        let health: u32 = if decay < node.health as u64 {
            node.health - decay as u32
        } else {
            0
        };
        let c = node.operating_cost as u128;
        let f = 100_000 + debt as u128;
        let d = delta as u128;
        assert(c * f <= 18_446_744_073_709_551_615 * 200_000) by (nonlinear_arith)
            requires c <= 18_446_744_073_709_551_615, f <= 200_000;
        assert(c * f * d <= 18_446_744_073_709_551_615 * 200_000 * 4_294_967_295) by (nonlinear_arith)
            requires c * f <= 18_446_744_073_709_551_615 * 200_000, d <= 4_294_967_295;
        let cost: u128 = c * f * d / 100_000_000;
        money = if cost < money as u128 {
            money - cost as u64
        } else {
            0
        };
        if node.critical_path && health < CRITICAL_HEALTH {
            let gap: u64 = (CRITICAL_HEALTH - health) as u64;
            assert(gap * delta as u64 <= 50_000 * 4_294_967_295) by (nonlinear_arith)
                requires gap <= 50_000;
            let loss: u64 = gap * delta as u64 / 10_000;
            reputation = if loss < reputation {
                reputation - loss
            } else {
                0
            };
        }
        set_node_levels(&mut system.graph, i, health, debt);
        i += 1;
    }
    resources.money = money;
    resources.reputation = if reputation < FULL_LEVEL as u64 {
        reputation as u32
    } else {
        FULL_LEVEL
    };
    let ghost decayed = system.nodes();
    let mut inflow: Vec<u32> = Vec::new();
    let mut i: usize = 0;
    while i < n
        invariant
            i <= n,
            inflow@.len() == i,
            forall|k: int| 0 <= k < i ==> inflow@[k] == 0,
        decreases n - i,
    {
        inflow.push(0);
        i += 1;
    }
    let mut j: usize = 0;
    while j < m
        invariant
            j <= m,
            n == nodes.len(),
            m == edges.len(),
            m <= u32::MAX,
            n <= u32::MAX,
            system.nodes() == decayed,
            system.edges() == edges,
            decayed.len() == n,
            forall|k: int| 0 <= k < n ==> #[trigger] decayed[k].tech_debt == nodes[k].tech_debt,
            forall|k: int| 0 <= k < n ==> nodes[k].wf(),
            forall|e: int|
                0 <= e < m ==> {
                    let x = #[trigger] edges[e];
                    &&& x.0 < n
                    &&& x.1 < n
                    &&& x.2.wf()
                },
            inflow@.len() == n,
            forall|k: int| 0 <= k < n ==> inflow@[k] == capped(drift_inflow(nodes, edges, delta, k, j as int) as int),
        decreases m - j,
    {
        let ends = edge_ends(&system.graph, j);
        if let Some((from, to)) = ends {
            assert(edges[j as int].0 == from && edges[j as int].1 == to);
            let edge = edge_at(&system.graph, j);
            let source = node_at(&system.graph, from);
            assert(nodes[from as int].wf());
            let a = source.tech_debt as u128;
            let b = edge.tech_debt_spread as u128;
            let d = delta as u128;
            assert(a * b <= 100_000_000) by (nonlinear_arith)
                requires a <= 100_000, b <= 1000;
            assert(a * b * d <= 100_000_000 * 4_294_967_295) by (nonlinear_arith)
                requires a * b <= 100_000_000, d <= 4_294_967_295;
            let amount: u128 = a * b * d / 1_000_000;
            let sum: u128 = inflow[to] as u128 + amount;
            let next: u32 = if sum < FULL_LEVEL as u128 {
                sum as u32
            } else {
                FULL_LEVEL
            };
            inflow.set(to, next);
            assert forall|k: int| 0 <= k < n implies inflow@[k] == capped(
                drift_inflow(nodes, edges, delta, k, j + 1) as int,
            ) by {}
        }
        j += 1;
    }
    let mut i: usize = 0;
    while i < n
        invariant
            i <= n,
            n == nodes.len(),
            n <= u32::MAX,
            m == edges.len(),
            decayed.len() == n,
            forall|k: int| 0 <= k < n ==> decayed[k] == with_levels(
                nodes[k],
                decayed_health(nodes[k], delta),
                nodes[k].tech_debt,
            ),
            inflow@.len() == n,
            forall|k: int| 0 <= k < n ==> inflow@[k] == capped(drift_inflow(nodes, edges, delta, k, m as int) as int),
            system.nodes().len() == n,
            system.edges() == edges,
            forall|k: int| 0 <= k < i ==> system.nodes()[k] == tick_nodes(nodes, edges, delta)[k],
            forall|k: int| i <= k < n ==> system.nodes()[k] == decayed[k],
            forall|k: int| 0 <= k < n ==> nodes[k].wf(),
        decreases n - i,
    {
        let node = node_at(&system.graph, i);
        assert(node == decayed[i as int]);
        assert(nodes[i as int].wf());
        let health = node.health;
        let sum = node.tech_debt + inflow[i];
        let debt: u32 = if sum < FULL_LEVEL {
            sum
        } else {
            FULL_LEVEL
        };
        set_node_levels(&mut system.graph, i, health, debt);
        i += 1;
    }
    assert(system.nodes() =~= tick_nodes(nodes, edges, delta));
}

} // verus!
