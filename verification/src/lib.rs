//! A verified core for a bounded Game of Life simulator.
//!
//! The `grid` module owns the cell buffer and the B3/S23 transition rule;
//! `driver` paces the simulation and handles control events; `cli` pairs up
//! command-line coordinates; `laws` states and proves the library's global
//! properties.

pub mod cli;
pub mod driver;
pub mod grid;
pub mod laws;
