use vstd::prelude::*;

use crate::components::architecture::{create_architecture, is_monolith, ArchitectureType};
use crate::components::system_graph::SystemGraph;

verus! {

/// The economy the simulation charges: money in thousandths of a currency
/// unit and reputation in thousandths of a percent.
#[derive(Debug, Clone, Copy)]
pub struct GameResources {
    pub money: u64,
    pub sprint: u32,
    pub reputation: u32,
    pub current_architecture: ArchitectureType,
}

impl Default for GameResources {
    /// 10000 of money, the first sprint, 50 percent reputation, a monolith.
    fn default() -> (r: Self)
        ensures
            r.money == 10_000_000,
            r.sprint == 1,
            r.reputation == 50_000,
            r.current_architecture == ArchitectureType::Monolith,
    {
        GameResources {
            money: 10_000_000,
            sprint: 1,
            reputation: 50_000,
            current_architecture: ArchitectureType::Monolith,
        }
    }
}

/// The graph a new game starts from: the monolith archetype.
pub fn create_initial_system() -> (r: SystemGraph)
    ensures
        is_monolith(r),
{
    create_architecture(ArchitectureType::Monolith)
}

} // verus!
