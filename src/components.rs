pub mod architecture;
pub mod distribution;
pub mod graph_laws;
pub mod graph_store;
pub mod system_graph;

pub use architecture::ArchitectureType;
pub use distribution::DistributionType;
pub use system_graph::{SystemEdge, SystemGraph, SystemNode};
