//! Simulation core for a software architecture modelled as a directed graph of
//! services and dependencies whose quality metrics evolve tick by tick.
//!
//! Every real-valued quantity is held as an integer count of thousandths of its
//! unit: a percentage of `50.0` is `50_000`, a fraction of `0.1` is `100`, a
//! cost of `100.0` per second is `100_000`, and a time step of one second is
//! `1000` milliseconds.
pub mod components;
pub mod game_state;
pub mod resources;
pub mod systems;

pub use game_state::GameState;
