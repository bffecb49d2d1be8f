//! Supervisory control loop that drives a coding agent toward a stated goal,
//! one tick at a time.

pub mod agents;
pub mod clock;
pub mod cost;
pub mod llm;
pub mod state;
pub mod supervisor;
pub mod text;
