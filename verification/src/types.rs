//! Plain data that goes into and comes out of a simulation.

pub mod config;
pub mod result;
