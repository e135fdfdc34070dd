//! The capability contract expected from solver backends, and an in-memory
//! implementation of it.
//!
//! Solver implementations are external collaborators: the orchestrator only
//! needs the `Engine` contract from them.  `StubEngine` is a deterministic
//! in-memory engine scripted per space; it lets the orchestrator run with no
//! native boundary at all.

use vstd::prelude::*;

use crate::grid::{Grid, GridView};
use crate::types::LocalInfoType;

verus! {

/// One or more named solver backends ("spaces") bound to a grid domain.
///
/// Spaces are enumerated by the engine, not created or destroyed by the
/// caller.  The number of spaces may change over the engine's lifetime, so
/// it is re-queried per snapshot; an index is meaningful only against the
/// count it was read with.
pub trait Engine {
    /// Number of spaces the engine currently offers.
    spec fn spaces(&self) -> nat;

    /// Label of one space: stable for a given engine state.
    spec fn name_spec(&self, space_idx: nat) -> Seq<char>;

    /// Text for one space's failure code: a pure lookup in the engine.
    spec fn message_spec(&self, space_idx: nat, error_code: u32) -> Seq<char>;

    /// Outcome code of resolving one space against a grid: zero when the
    /// space can solve it, an engine-defined failure code otherwise.  A
    /// space's failure is a property of the input data, not of timing, so
    /// the outcome is a function of engine state and grid alone.
    spec fn solve_code(&self, space_idx: nat, grid: GridView) -> u32;

    /// The row-major field the space resolves for a grid, meaningful when
    /// `solve_code` is zero for that grid.
    spec fn solve_field(&self, space_idx: nat, grid: GridView) -> Seq<u32>;

    /// Reports the current number of spaces.
    fn space_count(&self) -> (r: u32)
        ensures
            r as nat == self.spaces(),
    ;

    /// Human-readable label of one space.
    fn space_name(&self, space_idx: u32) -> (r: String)
        requires
            (space_idx as nat) < self.spaces(),
        ensures
            r@ == self.name_spec(space_idx as nat),
    ;

    /// Mirrors one accepted reading into the engine's own state, for
    /// engines that keep one.  Solving itself always works on the grid
    /// handed to `solve`, so every space of one snapshot sees the same
    /// captured state.
    fn set_point(&mut self, x: u16, y: u16, temp: u32, kind: LocalInfoType);

    /// Resolves one space against the given grid into a caller-provided
    /// row-major buffer sized to the domain.  Returns exactly the space's
    /// outcome code for that grid — zero for success, an engine-defined
    /// failure code otherwise — and on success fills the buffer with
    /// exactly the resolved field; the buffer keeps its size either way.
    fn solve(&self, space_idx: u32, grid: &Grid, out: &mut Vec<u32>) -> (r: u32)
        requires
            (space_idx as nat) < self.spaces(),
            grid.wf(),
            old(out)@.len() == grid@.width * grid@.height,
        ensures
            final(out)@.len() == old(out)@.len(),
            r == self.solve_code(space_idx as nat, grid@),
            r == 0 ==> final(out)@ == self.solve_field(space_idx as nat, grid@),
    ;

    /// Human-readable text for one space's failure code.
    fn error_message(&self, space_idx: u32, error_code: u32) -> (r: String)
        requires
            (space_idx as nat) < self.spaces(),
            error_code != 0,
        ensures
            r@ == self.message_spec(space_idx as nat, error_code),
    ;
}

/// The script of one `StubEngine` space: either it always fails with
/// `error_code` and `message`, or (`error_code` zero) it always succeeds and
/// fills every cell of the field with the bits `fill`.
pub struct StubSpace {
    /// label the space reports
    pub name: String,
    /// zero for a space that succeeds, the failure code otherwise
    pub error_code: u32,
    /// message reported for the failure code
    pub message: String,
    /// temperature bits written to every cell on success
    pub fill: u32,
}

/// A deterministic in-memory engine, one scripted `StubSpace` per space.
pub struct StubEngine {
    /// the scripted spaces, in index order
    pub entries: Vec<StubSpace>,
}

impl Engine for StubEngine {
    /// One space per scripted entry, capped at what a count can report.
    open spec fn spaces(&self) -> nat {
        if self.entries@.len() > u32::MAX as nat {
            u32::MAX as nat
        } else {
            self.entries@.len()
        }
    }

    /// The scripted name of the entry.
    open spec fn name_spec(&self, space_idx: nat) -> Seq<char> {
        self.entries@[space_idx as int].name@
    }

    /// The scripted message of the entry, whatever the code.
    open spec fn message_spec(&self, space_idx: nat, error_code: u32) -> Seq<char> {
        self.entries@[space_idx as int].message@
    }

    /// The scripted code of the entry, whatever the grid.
    open spec fn solve_code(&self, space_idx: nat, grid: GridView) -> u32 {
        self.entries@[space_idx as int].error_code
    }

    /// The constant field of the entry: every cell of the domain holds
    /// `fill`.
    open spec fn solve_field(&self, space_idx: nat, grid: GridView) -> Seq<u32> {
        Seq::new(grid.width * grid.height, |i: int| self.entries@[space_idx as int].fill)
    }

    fn space_count(&self) -> (r: u32) {
        let n: usize = self.entries.len();
        if n > u32::MAX as usize {
            u32::MAX
        } else {
            n as u32
        }
    }

    fn space_name(&self, space_idx: u32) -> (r: String) {
        self.entries[space_idx as usize].name.clone()
    }

    fn set_point(&mut self, x: u16, y: u16, temp: u32, kind: LocalInfoType) {
        // the stub solves from the grid handed to `solve`; it keeps no mirror
    }

    fn solve(&self, space_idx: u32, grid: &Grid, out: &mut Vec<u32>) -> (r: u32) {
        let entry = &self.entries[space_idx as usize];
        if entry.error_code != 0 {
            return entry.error_code;
        }
        let fill: u32 = entry.fill;
        let len: usize = out.len();
        let mut j: usize = 0;
        while j < len
            invariant
                j <= len,
                out@.len() == len,
                len == old(out)@.len(),
                (space_idx as nat) < self.spaces(),
                fill == self.entries@[space_idx as int].fill,
                forall|k: int|
                    0 <= k < j ==> #[trigger] out@[k] == self.entries@[space_idx as int].fill,
            decreases len - j,
        {
            out[j] = fill;
            j = j + 1;
        }
        proof {
            assert(out@ =~= self.solve_field(space_idx as nat, grid@));
        }
        0
    }

    fn error_message(&self, space_idx: u32, error_code: u32) -> (r: String) {
        self.entries[space_idx as usize].message.clone()
    }
}

} // verus!
