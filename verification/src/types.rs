//! Data model shared by the orchestrator and its callers.
//!
//! A temperature is always the IEEE 754 single-precision bit pattern of the
//! measured value (`u32`); NaN patterns are legal and mean "no valid
//! reading".  The orchestrator stores and forwards these bits unchanged.

use vstd::prelude::*;

verus! {

/// The role a grid point plays in the computation.
#[derive(Clone, Copy, Debug, PartialEq, Eq, Structural)]
pub enum LocalInfoType {
    /// A boundary point: its reading is a fixed edge condition for solving.
    Boundary,
    /// An internal reference point: its reading is compared with solver
    /// output rather than driving it.
    GroundTruth,
    /// A point excluded from the computation; its temperature is ignored.
    OutOfRange,
}

/// One reading: temperature bits and point kind at a coordinate.
#[derive(Clone, Copy, Debug, PartialEq, Eq, Structural)]
pub struct LocalInfo {
    /// x-coordinate of the point
    pub x: u16,
    /// y-coordinate of the point
    pub y: u16,
    /// temperature at the point, as IEEE 754 single-precision bits
    pub temp: u32,
    /// role of the point
    pub kind: LocalInfoType,
}

/// A resolved temperature field produced by one solver backend.
#[derive(Debug, PartialEq, Eq)]
pub struct SpaceInfo {
    /// width of the point matrix
    pub width: u16,
    /// height of the point matrix
    pub height: u16,
    /// label of the backend that produced the field
    pub name: Option<String>,
    /// temperature bits per point, one inner vector per row
    pub temp: Vec<Vec<u32>>,
}

/// The current readings of every grid point.
#[derive(Debug, PartialEq, Eq)]
pub struct GlobalInfo {
    /// temperature bits, one inner vector per row
    pub temp: Vec<Vec<u32>>,
    /// point kinds, one inner vector per row
    pub kind: Vec<Vec<LocalInfoType>>,
}

/// Outcome of asking one space to solve: a field, or an error — never both.
#[derive(Debug, PartialEq, Eq)]
pub enum SimulationResult {
    /// The space solved; carries its resolved field.
    Success(SpaceInfo),
    /// The space failed; carries its nonzero error code and a message.
    Failure {
        /// backend-defined failure code, never zero
        error_code: u32,
        /// human-readable description of the failure
        message: String,
    },
}

/// One coherent snapshot: grid readings plus one outcome per space, in
/// space-index order.
#[derive(Debug, PartialEq, Eq)]
pub struct SimulationResults {
    /// the grid readings the outcomes were computed from
    pub info: GlobalInfo,
    /// per-space outcomes, indexed by space
    pub results: Vec<SimulationResult>,
}

/// Why an orchestrator operation was refused.
#[derive(Clone, Copy, Debug, PartialEq, Eq, Structural)]
pub enum ServerError {
    /// The coordinate of a reading lies outside the grid; nothing was stored.
    InvalidCoordinate,
    /// The orchestrator was torn down; no further operation is served.
    Closed,
}

/// A solver field has one row per grid row and one entry per grid column.
pub open spec fn space_info_wf(si: SpaceInfo, width: nat, height: nat) -> bool {
    &&& si.width as nat == width
    &&& si.height as nat == height
    &&& si.temp@.len() == height
    &&& forall|y: int| 0 <= y < height ==> (#[trigger] si.temp@[y])@.len() == width
}

/// A per-space outcome is well formed for a `width x height` domain:
/// a success carries a full field, a failure carries a nonzero code.
pub open spec fn result_wf(r: SimulationResult, width: nat, height: nat) -> bool {
    match r {
        SimulationResult::Success(si) => space_info_wf(si, width, height) && si.name is Some,
        SimulationResult::Failure { error_code, message } => error_code != 0,
    }
}

} // verus!
