pub mod api_types;
pub mod game_of_life_grid;
pub mod runner;

pub use runner::{run_gol, run_gol_for, Observer};
