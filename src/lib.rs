pub mod app;
pub mod environment;
pub mod keyed;
pub mod phase;
pub mod providers;
pub mod registry;
pub mod plan;
pub mod laws;
