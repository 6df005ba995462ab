pub mod game;
pub mod laws;
