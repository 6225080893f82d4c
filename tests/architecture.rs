use devops_entropy::components::architecture::{
    create_architecture, create_event_driven, create_microservices, create_monolith,
};
use devops_entropy::components::ArchitectureType;
use devops_entropy::resources::create_initial_system;

#[test]
fn test_architecture_creation() {
    let monolith = create_monolith();
    assert_eq!(monolith.graph.node_count(), 3);
    assert_eq!(monolith.graph.edge_count(), 2);
    assert!(monolith.graph.node_weights().any(|n| n.node_type == "monolith"));

    let microservices = create_microservices();
    assert_eq!(microservices.graph.node_count(), 3);
    assert_eq!(microservices.graph.edge_count(), 3);
    assert!(microservices.graph.node_weights().any(|n| n.name == "api_gateway"));

    let event_driven = create_event_driven();
    assert_eq!(event_driven.graph.node_count(), 3);
    assert_eq!(event_driven.graph.edge_count(), 2);
    assert!(event_driven.graph.node_weights().any(|n| n.name == "event_bus"));
}

#[test]
fn test_architecture_type_cycle() {
    let mut arch = ArchitectureType::Monolith;
    arch = arch.next();
    assert_eq!(arch, ArchitectureType::Microservices);
    arch = arch.next();
    assert_eq!(arch, ArchitectureType::EventDriven);
    arch = arch.next();
    assert_eq!(arch, ArchitectureType::Monolith);
}

#[test]
fn test_initial_system_creation() {
    let graph = create_initial_system();
    assert_eq!(graph.graph.node_count(), 3);
    assert_eq!(graph.graph.edge_count(), 2);
    assert!(graph.graph.node_weights().all(|node| node.name != "coffee_machine"));
}

#[test]
fn architecture_names() {
    assert_eq!(ArchitectureType::Monolith.name(), "Monolith");
    assert_eq!(ArchitectureType::Microservices.name(), "Microservices");
    assert_eq!(ArchitectureType::EventDriven.name(), "Event-Driven");
}

#[test]
fn create_architecture_matches_each_builder() {
    let g = create_architecture(ArchitectureType::Microservices);
    assert_eq!(g.graph.edge_count(), 3);
    let g = create_architecture(ArchitectureType::EventDriven);
    assert_eq!(g.graph.raw_nodes()[0].weight.name, "event_bus");
    let g = create_architecture(ArchitectureType::Monolith);
    assert_eq!(g.graph.raw_nodes()[0].weight.name, "core_service");
}

#[test]
fn monolith_topology_and_metrics() {
    let g = create_monolith();
    let names: Vec<&str> = g.graph.node_weights().map(|n| n.name.as_str()).collect();
    assert_eq!(names, vec!["core_service", "database", "cache"]);
    let ends: Vec<(usize, usize)> = g
        .graph
        .raw_edges()
        .iter()
        .map(|e| (e.source().index(), e.target().index()))
        .collect();
    assert_eq!(ends, vec![(0, 1), (0, 2)]);
    let core = &g.graph.raw_nodes()[0].weight;
    assert_eq!(core.tech_debt, 30_000);
    assert_eq!(core.complexity, 15);
    assert_eq!(core.contagion_risk, 500);
    assert_eq!(g.graph.raw_edges()[0].weight.tech_debt_spread, 300);
}

#[test]
fn event_driven_topology() {
    let g = create_event_driven();
    let ends: Vec<(usize, usize)> = g
        .graph
        .raw_edges()
        .iter()
        .map(|e| (e.source().index(), e.target().index()))
        .collect();
    assert_eq!(ends, vec![(1, 0), (0, 2)]);
}
