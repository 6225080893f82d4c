use devops_entropy::components::system_graph::FULL_LEVEL;
use devops_entropy::components::{DistributionType, SystemEdge, SystemGraph, SystemNode};
use devops_entropy::resources::GameResources;
use devops_entropy::systems::game_loop::tick_system;
use devops_entropy::systems::phases::{planning_transition, ExecutionPhase};
use devops_entropy::GameState;

fn node(name: &str, health: u32, tech_debt: u32, operating_cost: u64, critical_path: bool) -> SystemNode {
    SystemNode {
        name: name.to_string(),
        node_type: String::new(),
        health,
        tech_debt,
        complexity: 0,
        contagion_risk: 0,
        operating_cost,
        critical_path,
        attributes: vec![],
        latency: DistributionType::Normal { mean: 0, std_dev: 0 },
        failure_rate: DistributionType::Normal { mean: 0, std_dev: 0 },
        defect_rate: 0,
    }
}

fn spread_edge(tech_debt_spread: u32) -> SystemEdge {
    SystemEdge {
        name: String::new(),
        reliability: 0,
        latency: DistributionType::Normal { mean: 0, std_dev: 0 },
        tech_debt_spread,
        bandwidth: 0,
        failure_rate: DistributionType::Normal { mean: 0, std_dev: 0 },
    }
}

fn create_test_graph() -> SystemGraph {
    let mut graph = SystemGraph::new();
    graph.add_node(node("test_node_1", 100_000, 10_000, 100_000, true));
    graph.add_node(node("test_node_2", 100_000, 0, 50_000, false));
    graph.add_edge("test_node_1", "test_node_2", spread_edge(100));
    graph
}

fn find<'a>(g: &'a SystemGraph, name: &str) -> &'a SystemNode {
    g.graph.node_weights().find(|n| n.name == name).unwrap()
}

#[test]
fn test_simulation_paused() {
    let mut resources = GameResources::default();
    let mut system = create_test_graph();
    let initial_money = resources.money;
    let initial_reputation = resources.reputation;
    tick_system(16, GameState::Paused, &mut resources, &mut system);
    assert_eq!(resources.money, initial_money);
    assert_eq!(resources.reputation, initial_reputation);
    assert_eq!(find(&system, "test_node_2").tech_debt, 0);
    assert_eq!(find(&system, "test_node_1").health, 100_000);
}

#[test]
fn test_simulation_running() {
    let mut resources = GameResources::default();
    let mut system = create_test_graph();
    let initial_money = resources.money;
    tick_system(16, GameState::Running, &mut resources, &mut system);
    assert!(resources.money < initial_money, "Operating costs should reduce money");
    assert!(find(&system, "test_node_2").tech_debt > 0, "Tech debt should spread to second node");
}

#[test]
fn tick_end_to_end_scenario() {
    let mut resources = GameResources::default();
    let mut system = SystemGraph::new();
    system.add_node(node("A", 100_000, 50_000, 100_000, true));
    system.add_node(node("B", 100_000, 0, 50_000, false));
    system.add_edge("A", "B", spread_edge(100)).unwrap();
    tick_system(1000, GameState::Running, &mut resources, &mut system);
    assert_eq!(find(&system, "A").health, 95_000);
    assert_eq!(find(&system, "B").tech_debt, 5_000);
    assert_eq!(resources.money, 10_000_000 - 200_000);
    assert_eq!(resources.reputation, 50_000);
    assert_eq!(resources.sprint, 1);
}

#[test]
fn tick_charges_reputation_for_weak_critical_node() {
    let mut resources = GameResources::default();
    let mut system = SystemGraph::new();
    system.add_node(node("weak", 40_000, 0, 0, true));
    system.add_node(node("weak_but_optional", 10_000, 0, 0, false));
    tick_system(1000, GameState::Running, &mut resources, &mut system);
    assert_eq!(resources.reputation, 49_000);
    assert_eq!(resources.money, 10_000_000);
}

#[test]
fn tick_floors_money_and_reputation_at_zero() {
    let mut resources = GameResources::default();
    resources.money = 100;
    resources.reputation = 10;
    let mut system = SystemGraph::new();
    system.add_node(node("sink", 0, 100_000, 1_000_000, true));
    tick_system(60_000, GameState::Running, &mut resources, &mut system);
    assert_eq!(resources.money, 0);
    assert_eq!(resources.reputation, 0);
    assert_eq!(find(&system, "sink").health, 0);
}

#[test]
fn tick_caps_reputation_at_full() {
    let mut resources = GameResources::default();
    resources.reputation = 250_000;
    let mut system = SystemGraph::new();
    system.add_node(node("fine", 100_000, 0, 0, true));
    tick_system(1000, GameState::Running, &mut resources, &mut system);
    assert_eq!(resources.reputation, FULL_LEVEL);
}

#[test]
fn tick_with_huge_delta_keeps_bounds() {
    let mut resources = GameResources::default();
    let mut system = create_test_graph();
    system.add_node(node("third", 100_000, 99_000, u64::MAX, true));
    system.add_edge("third", "test_node_1", spread_edge(1000)).unwrap();
    system.add_edge("third", "third", spread_edge(1000)).unwrap();
    for _ in 0..3 {
        tick_system(u32::MAX, GameState::Running, &mut resources, &mut system);
        system.simulate_tech_debt_spread();
    }
    for n in system.graph.node_weights() {
        assert!(n.tech_debt <= FULL_LEVEL);
        assert!(n.health <= FULL_LEVEL);
    }
    assert_eq!(find(&system, "third").tech_debt, FULL_LEVEL);
    assert_eq!(resources.money, 0);
}

#[test]
fn tick_spread_uses_debts_from_start_of_tick() {
    let mut resources = GameResources::default();
    let mut system = SystemGraph::new();
    system.add_node(node("a", 100_000, 20_000, 0, false));
    system.add_node(node("b", 100_000, 0, 0, false));
    system.add_node(node("c", 100_000, 0, 0, false));
    system.add_edge("b", "c", spread_edge(1000)).unwrap();
    system.add_edge("a", "b", spread_edge(500)).unwrap();
    tick_system(1000, GameState::Running, &mut resources, &mut system);
    assert_eq!(find(&system, "b").tech_debt, 10_000);
    assert_eq!(find(&system, "c").tech_debt, 0);
    assert_eq!(find(&system, "a").health, 98_000);
}

#[test]
fn default_resources_and_state() {
    let r = GameResources::default();
    assert_eq!(r.money, 10_000_000);
    assert_eq!(r.sprint, 1);
    assert_eq!(r.reputation, 50_000);
    assert_eq!(GameState::default(), GameState::Loading);
}

#[test]
fn planning_hands_over_in_first_sprint_only() {
    assert_eq!(planning_transition(1), Some(GameState::Running));
    assert_eq!(planning_transition(2), None);
}

#[test]
fn execution_phase_returns_to_planning_after_ten_seconds() {
    let mut phase = ExecutionPhase::new();
    assert_eq!(phase.steps.len(), 5);
    assert_eq!(phase.advance(6_000), None);
    assert_eq!(phase.elapsed, 6_000);
    assert_eq!(phase.advance(4_000), Some(GameState::Planning));
    assert_eq!(phase.elapsed, 0);
    phase.elapsed = u64::MAX - 1;
    assert_eq!(phase.advance(u32::MAX), Some(GameState::Planning));
}
