use vstd::prelude::*;

use super::distribution::DistributionType;
use super::graph_store::push_edge;
use super::system_graph::{SystemEdge, SystemGraph, SystemNode, FULL_LEVEL};

verus! {

/// The three canned topologies a simulation can start from.
#[derive(Debug, Clone, Copy, PartialEq, Eq, Structural)]
pub enum ArchitectureType {
    Monolith,
    Microservices,
    EventDriven,
}

impl ArchitectureType {
    /// The archetype that follows `self` in the selection cycle.
    pub open spec fn spec_next(self) -> ArchitectureType {
        match self {
            ArchitectureType::Monolith => ArchitectureType::Microservices,
            ArchitectureType::Microservices => ArchitectureType::EventDriven,
            ArchitectureType::EventDriven => ArchitectureType::Monolith,
        }
    }

    pub fn next(&self) -> (r: Self)
        ensures
            r == self.spec_next(),
    {
        match self {
            Self::Monolith => Self::Microservices,
            Self::Microservices => Self::EventDriven,
            Self::EventDriven => Self::Monolith,
        }
    }

    /// Display name of the archetype.
    pub fn name(&self) -> (r: &'static str)
        ensures
            *self == ArchitectureType::Monolith ==> r@ == "Monolith"@,
            *self == ArchitectureType::Microservices ==> r@ == "Microservices"@,
            *self == ArchitectureType::EventDriven ==> r@ == "Event-Driven"@,
    {
        match self {
            Self::Monolith => "Monolith",
            Self::Microservices => "Microservices",
            Self::EventDriven => "Event-Driven",
        }
    }
}

/// `n` carries the given identity and simulation metrics, at full health.
pub open spec fn node_profile(
    n: SystemNode,
    name: Seq<char>,
    node_type: Seq<char>,
    tech_debt: u32,
    complexity: u32,
    contagion_risk: u32,
    operating_cost: u64,
    critical_path: bool,
    defect_rate: u32,
) -> bool {
    &&& n.name@ == name
    &&& n.node_type@ == node_type
    &&& n.health == FULL_LEVEL
    &&& n.tech_debt == tech_debt
    &&& n.complexity == complexity
    &&& n.contagion_risk == contagion_risk
    &&& n.operating_cost == operating_cost
    &&& n.critical_path == critical_path
    &&& n.defect_rate == defect_rate
}

/// `e` runs from node `from` to node `to` under the given name and spread.
pub open spec fn edge_profile(
    e: (usize, usize, SystemEdge),
    from: usize,
    to: usize,
    name: Seq<char>,
    tech_debt_spread: u32,
) -> bool {
    &&& e.0 == from
    &&& e.1 == to
    &&& e.2.name@ == name
    &&& e.2.tech_debt_spread == tech_debt_spread
}

fn component(
    name: &str,
    node_type: &str,
    tech_debt: u32,
    complexity: u32,
    contagion_risk: u32,
    operating_cost: u64,
    critical_path: bool,
    attributes: Vec<String>,
    latency: DistributionType,
    failure_rate: DistributionType,
    defect_rate: u32,
) -> (r: SystemNode)
    ensures
        node_profile(
            r,
            name@,
            node_type@,
            tech_debt,
            complexity,
            contagion_risk,
            operating_cost,
            critical_path,
            defect_rate,
        ),
{
    SystemNode {
        name: name.to_owned(),
        node_type: node_type.to_owned(),
        health: FULL_LEVEL,
        tech_debt,
        complexity,
        contagion_risk,
        operating_cost,
        critical_path,
        attributes,
        latency,
        failure_rate,
        defect_rate,
    }
}

fn dependency(
    name: &str,
    reliability: u32,
    latency: DistributionType,
    tech_debt_spread: u32,
    bandwidth: u64,
    failure_rate: DistributionType,
) -> (r: SystemEdge)
    ensures
        r.name@ == name@,
        r.reliability == reliability,
        r.tech_debt_spread == tech_debt_spread,
{
    SystemEdge { name: name.to_owned(), reliability, latency, tech_debt_spread, bandwidth, failure_rate }
}

/// The graph of an archetype.
pub fn create_architecture(arch_type: ArchitectureType) -> (r: SystemGraph)
    ensures
        r.wf(),
        r.nodes().len() == 3,
        arch_type == ArchitectureType::Monolith ==> is_monolith(r),
        arch_type == ArchitectureType::Microservices ==> r.edges().len() == 3 && r.nodes()[0].name@
            == "api_gateway"@,
        arch_type == ArchitectureType::EventDriven ==> r.edges().len() == 2 && r.nodes()[0].name@
            == "event_bus"@,
{
    match arch_type {
        ArchitectureType::Monolith => create_monolith(),
        ArchitectureType::Microservices => create_microservices(),
        ArchitectureType::EventDriven => create_event_driven(),
    }
}

/// `g` is the monolith archetype: a core service that depends on a database
/// and a cache.
pub open spec fn is_monolith(g: SystemGraph) -> bool {
    &&& g.wf()
    &&& g.nodes().len() == 3
    &&& node_profile(g.nodes()[0], "core_service"@, "monolith"@, 30_000, 15, 500, 500_000, true, 200)
    &&& node_profile(g.nodes()[1], "database"@, "storage"@, 20_000, 5, 300, 300_000, true, 100)
    &&& node_profile(g.nodes()[2], "cache"@, "cache"@, 10_000, 3, 200, 100_000, false, 50)
    &&& g.edges().len() == 2
    &&& edge_profile(g.edges()[0], 0, 1, "db_connection"@, 300)
    &&& edge_profile(g.edges()[1], 0, 2, "cache_connection"@, 100)
}

/// A core service that depends on a database and a cache.
pub fn create_monolith() -> (r: SystemGraph)
    ensures
        is_monolith(r),
{
    let mut graph = SystemGraph::new();
    let core = component(
        "core_service",
        "monolith",
        30_000,
        15,
        500,
        500_000,
        true,
        vec!["monolithic".to_owned(), "legacy".to_owned()],
        DistributionType::Normal { mean: 200_000, std_dev: 50_000 },
        DistributionType::LogNormal { location: -3000, scale: 500 },
        200,
    );
    let db = component(
        "database",
        "storage",
        20_000,
        5,
        300,
        300_000,
        true,
        vec!["data_critical".to_owned()],
        DistributionType::Normal { mean: 50_000, std_dev: 10_000 },
        DistributionType::LogNormal { location: -4000, scale: 300 },
        100,
    );
    let cache = component(
        "cache",
        "cache",
        10_000,
        3,
        200,
        100_000,
        false,
        vec!["performance".to_owned()],
        DistributionType::Normal { mean: 5000, std_dev: 1000 },
        DistributionType::LogNormal { location: -2000, scale: 800 },
        50,
    );
    graph.add_node(core);
    graph.add_node(db);
    graph.add_node(cache);
    let core_to_db = dependency(
        "db_connection",
        999,
        DistributionType::Normal { mean: 10_000, std_dev: 2000 },
        300,
        1_000_000,
        DistributionType::LogNormal { location: -5000, scale: 200 },
    );
    let core_to_cache = dependency(
        "cache_connection",
        990,
        DistributionType::Normal { mean: 2000, std_dev: 500 },
        100,
        5_000_000,
        DistributionType::LogNormal { location: -3000, scale: 500 },
    );
    push_edge(&mut graph.graph, 0, 1, core_to_db);
    push_edge(&mut graph.graph, 0, 2, core_to_cache);
    graph
}

/// A gateway in front of an authentication service and a user service, the
/// latter also used by authentication.
pub fn create_microservices() -> (r: SystemGraph)
    ensures
        r.wf(),
        r.nodes().len() == 3,
        node_profile(r.nodes()[0], "api_gateway"@, "gateway"@, 15_000, 8, 400, 200_000, true, 100),
        node_profile(r.nodes()[1], "auth_service"@, "service"@, 20_000, 6, 300, 150_000, true, 150),
        node_profile(r.nodes()[2], "user_service"@, "service"@, 25_000, 7, 300, 180_000, true, 120),
        r.edges().len() == 3,
        edge_profile(r.edges()[0], 0, 1, "gateway_to_auth"@, 200),
        edge_profile(r.edges()[1], 0, 2, "gateway_to_users"@, 200),
        edge_profile(r.edges()[2], 1, 2, "auth_to_users"@, 300),
{
    let mut graph = SystemGraph::new();
    let gateway = component(
        "api_gateway",
        "gateway",
        15_000,
        8,
        400,
        200_000,
        true,
        vec!["entry_point".to_owned()],
        DistributionType::Normal { mean: 50_000, std_dev: 10_000 },
        DistributionType::LogNormal { location: -4000, scale: 300 },
        100,
    );
    let auth = component(
        "auth_service",
        "service",
        20_000,
        6,
        300,
        150_000,
        true,
        vec!["security".to_owned()],
        DistributionType::Normal { mean: 100_000, std_dev: 20_000 },
        DistributionType::LogNormal { location: -4500, scale: 200 },
        150,
    );
    let users = component(
        "user_service",
        "service",
        25_000,
        7,
        300,
        180_000,
        true,
        vec!["core_service".to_owned()],
        DistributionType::Normal { mean: 80_000, std_dev: 15_000 },
        DistributionType::LogNormal { location: -4000, scale: 300 },
        120,
    );
    graph.add_node(gateway);
    graph.add_node(auth);
    graph.add_node(users);
    let gateway_to_auth = dependency(
        "gateway_to_auth",
        999,
        DistributionType::Normal { mean: 20_000, std_dev: 5000 },
        200,
        1_000_000,
        DistributionType::LogNormal { location: -5000, scale: 200 },
    );
    let gateway_to_users = dependency(
        "gateway_to_users",
        999,
        DistributionType::Normal { mean: 20_000, std_dev: 5000 },
        200,
        1_000_000,
        DistributionType::LogNormal { location: -5000, scale: 200 },
    );
    let auth_to_users = dependency(
        "auth_to_users",
        999,
        DistributionType::Normal { mean: 30_000, std_dev: 8000 },
        300,
        500_000,
        DistributionType::LogNormal { location: -4500, scale: 300 },
    );
    push_edge(&mut graph.graph, 0, 1, gateway_to_auth);
    push_edge(&mut graph.graph, 0, 2, gateway_to_users);
    push_edge(&mut graph.graph, 1, 2, auth_to_users);
    graph
}

/// A producer that publishes to an event bus, which feeds a consumer.
pub fn create_event_driven() -> (r: SystemGraph)
    ensures
        r.wf(),
        r.nodes().len() == 3,
        node_profile(r.nodes()[0], "event_bus"@, "messaging"@, 15_000, 10, 600, 400_000, true, 100),
        node_profile(r.nodes()[1], "producer_service"@, "service"@, 20_000, 6, 300, 200_000, true, 150),
        node_profile(r.nodes()[2], "consumer_service"@, "service"@, 25_000, 7, 400, 250_000, true, 200),
        r.edges().len() == 2,
        edge_profile(r.edges()[0], 1, 0, "to_bus"@, 400),
        edge_profile(r.edges()[1], 0, 2, "from_bus"@, 400),
{
    let mut graph = SystemGraph::new();
    let event_bus = component(
        "event_bus",
        "messaging",
        15_000,
        10,
        600,
        400_000,
        true,
        vec!["backbone".to_owned(), "distributed".to_owned()],
        DistributionType::Normal { mean: 30_000, std_dev: 10_000 },
        DistributionType::LogNormal { location: -5000, scale: 200 },
        100,
    );
    let producer = component(
        "producer_service",
        "service",
        20_000,
        6,
        300,
        200_000,
        true,
        vec!["event_source".to_owned()],
        DistributionType::Normal { mean: 50_000, std_dev: 15_000 },
        DistributionType::LogNormal { location: -4000, scale: 300 },
        150,
    );
    let consumer = component(
        "consumer_service",
        "service",
        25_000,
        7,
        400,
        250_000,
        true,
        vec!["event_sink".to_owned()],
        DistributionType::Normal { mean: 70_000, std_dev: 20_000 },
        DistributionType::LogNormal { location: -3500, scale: 400 },
        200,
    );
    graph.add_node(event_bus);
    graph.add_node(producer);
    graph.add_node(consumer);
    let to_bus = dependency(
        "to_bus",
        999,
        DistributionType::Normal { mean: 15_000, std_dev: 5000 },
        400,
        2_000_000,
        DistributionType::LogNormal { location: -4500, scale: 300 },
    );
    let from_bus = dependency(
        "from_bus",
        999,
        DistributionType::Normal { mean: 15_000, std_dev: 5000 },
        400,
        2_000_000,
        DistributionType::LogNormal { location: -4500, scale: 300 },
    );
    push_edge(&mut graph.graph, 1, 0, to_bus);
    push_edge(&mut graph.graph, 0, 2, from_bus);
    graph
}

} // verus!
