pub mod context;
pub mod runner;
