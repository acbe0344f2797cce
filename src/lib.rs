pub mod api;
pub mod laws;
pub mod segment;
