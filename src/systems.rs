pub mod game_loop;
pub mod phases;
