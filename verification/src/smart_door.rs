pub mod detection;
pub mod kernel;
pub mod laws;
pub mod main;
pub mod model;
pub mod render;
pub mod replay;
pub mod run_effect;
