//! The simulation loop and its bookkeeping.

pub mod accounting;
pub mod engine;
pub mod state;

pub use engine::{SimulationEngine, SimulationError};
pub use state::{SimulationState, TickEvents};
