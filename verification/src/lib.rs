//! Simulation-state orchestrator for a steady-state heat-diffusion service.
//!
//! Distributed temperature sensors report readings for points of a fixed
//! `width x height` grid; named solver backends ("spaces") estimate the
//! steady-state temperature field implied by those readings.  The library
//! owns the authoritative grid, validates and applies incoming readings,
//! drives an arbitrary set of solver backends against a consistent snapshot
//! of the grid, and aggregates per-backend success or failure into one
//! coherent response.
//!
//! Temperatures are carried as the IEEE 754 single-precision bit pattern of
//! the measured value (a `u32`); the transport layer converts to and from
//! `f32` at the process boundary.  This keeps every rule of the orchestrator
//! free of floating-point arithmetic, which the verifier does not admit.

pub mod engine;
pub mod grid;
pub mod laws;
pub mod sensor;
pub mod server;
pub mod types;

pub use engine::{Engine, StubEngine, StubSpace};
pub use grid::Grid;
pub use server::Server;
pub use types::{
    GlobalInfo, LocalInfo, LocalInfoType, ServerError, SimulationResult, SimulationResults,
    SpaceInfo,
};
