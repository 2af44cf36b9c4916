//! Core logic of a stochastic circle-packing picture generator.
//!
//! The packing driver decides, round by round, whether a sampled point may
//! host a new circle and when the run is over; the scene module turns the
//! resulting shape tree into an ordered list of drawable records.  All
//! geometry lives on a fixed integer grid so that every rule is exact.

pub mod audit;
pub mod config;
pub mod driver;
pub mod geometry;
pub mod scene;
