//! The simulation-state orchestrator.
//!
//! `Server` is the single authoritative owner of simulation state: it holds
//! the grid of point readings and the engine, multiplexes reads and writes
//! of the grid, drives every space of the engine against one consistent
//! grid snapshot, and aggregates per-space success or failure into one
//! coherent `SimulationResults`.
//!
//! The orchestrator has two steady states.  While `Ready` it accepts
//! readings and serves snapshots; once closed it has released the engine,
//! and the operations that would touch it fail fast with
//! `ServerError::Closed`.  Exclusive ownership (`&mut` for writes) keeps
//! every point write and every full-grid read serialized, so a snapshot can
//! never observe a half-written point or a mixture of two write
//! generations; a transport layer that serves concurrent traffic wraps the
//! orchestrator in a lock.

use vstd::prelude::*;

use crate::engine::Engine;
use crate::grid::{
    filled, global_info_eq, info_matches, rows_from_flat, rows_of_flat, Grid, GridView,
};
use crate::laws::{lemma_recorded_point_visible, lemma_snapshot_grid_deterministic};
use crate::types::{
    GlobalInfo, LocalInfoType, ServerError, SimulationResult, SimulationResults, SpaceInfo,
    result_wf, space_info_wf,
};

verus! {

/// The orchestrator: authoritative grid, engine capability, and a logical
/// write-generation counter that advances with each accepted reading.
pub struct Server<E: Engine> {
    grid: Grid,
    engine: Option<E>,
    generation: Ghost<nat>,
}

impl<E: Engine> Server<E> {
    /// Current value of the grid of readings.
    pub closed spec fn grid_view(&self) -> GridView {
        self.grid@
    }

    /// The owned grid covers its domain exactly.
    pub open spec fn wf(&self) -> bool {
        self.grid_view().wf()
    }

    /// The orchestrator has been torn down and the engine released.
    pub closed spec fn is_closed(&self) -> bool {
        self.engine is None
    }

    /// Number of accepted readings so far: the grid's write generation.
    pub closed spec fn current_generation(&self) -> nat {
        self.generation@
    }

    /// The owned engine.  Meaningful only while the orchestrator is not
    /// closed.
    pub closed spec fn engine_state(&self) -> E {
        self.engine->Some_0
    }

    /// Number of spaces the owned engine currently offers.
    pub open spec fn engine_spaces(&self) -> nat {
        self.engine_state().spaces()
    }

    /// The owned engine's label for one space.
    pub open spec fn engine_name(&self, space_idx: nat) -> Seq<char> {
        self.engine_state().name_spec(space_idx)
    }

    /// The owned engine's text for one space's failure code.
    pub open spec fn engine_message(&self, space_idx: nat, error_code: u32) -> Seq<char> {
        self.engine_state().message_spec(space_idx, error_code)
    }

    /// The owned engine's outcome code for one space against the current
    /// grid: zero when the space can solve it.
    pub open spec fn engine_solve_code(&self, space_idx: nat) -> u32 {
        self.engine_state().solve_code(space_idx, self.grid_view())
    }

    /// The row-major field the owned engine resolves for one space against
    /// the current grid, meaningful when its outcome code is zero.
    pub open spec fn engine_solve_field(&self, space_idx: nat) -> Seq<u32> {
        self.engine_state().solve_field(space_idx, self.grid_view())
    }

    /// Creates an orchestrator owning a fresh all-`OutOfRange` grid of the
    /// given domain and the injected engine, at write generation zero.
    pub fn new(width: u16, height: u16, engine: E) -> (r: Server<E>)
        ensures
            r.wf(),
            !r.is_closed(),
            r.grid_view() == GridView::init(width as nat, height as nat),
            r.current_generation() == 0,
            r.engine_state() == engine,
    {
        Server { grid: Grid::new(width, height), engine: Some(engine), generation: Ghost(0) }
    }

    /// Reports the domain as `(width, height)`.
    pub fn size(&self) -> (r: (u16, u16))
        ensures
            r.0 as nat == self.grid_view().width,
            r.1 as nat == self.grid_view().height,
    {
        self.grid.size()
    }

    /// Records one reading.
    ///
    /// An in-bounds reading overwrites its point unconditionally (last
    /// write wins), advances the write generation, and is mirrored into the
    /// engine; an out-of-bounds reading is rejected with
    /// `InvalidCoordinate` and mutates nothing.  A closed orchestrator
    /// rejects every reading with `Closed` and never touches the released
    /// engine.
    pub fn set(&mut self, x: u16, y: u16, temp: u32, kind: LocalInfoType) -> (r: Result<
        (),
        ServerError,
    >)
        requires
            old(self).wf(),
        ensures
            final(self).wf(),
            old(self).is_closed() ==> r == Err::<(), ServerError>(ServerError::Closed)
                && *final(self) == *old(self),
            !old(self).is_closed() && old(self).grid_view().in_bounds(x as int, y as int) ==> {
                &&& r == Ok::<(), ServerError>(())
                &&& final(self).grid_view() == old(self).grid_view().write(
                    x as int,
                    y as int,
                    temp,
                    kind,
                )
                &&& final(self).current_generation() == old(self).current_generation() + 1
                &&& !final(self).is_closed()
            },
            !old(self).is_closed() && !old(self).grid_view().in_bounds(x as int, y as int)
                ==> r == Err::<(), ServerError>(ServerError::InvalidCoordinate)
                && *final(self) == *old(self),
    {
        if self.engine.is_none() {
            return Err(ServerError::Closed);
        }
        let (width, height) = self.grid.size();
        if x >= width || y >= height {
            return Err(ServerError::InvalidCoordinate);
        }
        self.grid.set_point(x, y, temp, kind);
        self.generation = Ghost(self.generation@ + 1);
        match &mut self.engine {
            Some(e) => e.set_point(x, y, temp, kind),
            None => {},
        }
        Ok(())
    }

    /// Copies the current readings into two flat row-major buffers sized to
    /// the domain.
    pub fn get_raw(&self, temp: &mut Vec<u32>, kind: &mut Vec<LocalInfoType>)
        requires
            self.wf(),
            old(temp)@.len() == self.grid_view().width * self.grid_view().height,
            old(kind)@.len() == self.grid_view().width * self.grid_view().height,
        ensures
            final(temp)@ == self.grid_view().temp,
            final(kind)@ == self.grid_view().kind,
    {
        self.grid.read_flat(temp, kind);
    }

    /// Returns the current readings of every point, row by row: one
    /// tear-free read of a single point-in-time grid state.
    pub fn get(&self) -> (r: GlobalInfo)
        requires
            self.wf(),
        ensures
            info_matches(r, self.grid_view()),
    {
        let (width, height) = self.grid.size();
        proof {
            assert((width as int) * (height as int) < 0x1_0000_0000) by (nonlinear_arith)
                requires
                    width <= 0xffff,
                    height <= 0xffff,
            ;
        }
        let area: usize = width as usize * height as usize;
        let mut temp: Vec<u32> = filled(0u32, area);
        let mut kind: Vec<LocalInfoType> = filled(LocalInfoType::OutOfRange, area);
        self.get_raw(&mut temp, &mut kind);
        let info = GlobalInfo {
            temp: rows_from_flat(&temp, width, height),
            kind: rows_from_flat(&kind, width, height),
        };
        info
    }

    /// Reports the number of spaces the engine currently offers; re-queried
    /// per snapshot, since it may change over the engine's lifetime.
    pub fn get_num_spaces(&self) -> (r: u32)
        requires
            !self.is_closed(),
        ensures
            r as nat == self.engine_spaces(),
    {
        match &self.engine {
            Some(e) => e.space_count(),
            None => vstd::pervasive::unreached(),
        }
    }

    /// Reports the label of the space with the given index.
    pub fn get_space_name(&self, space_idx: u32) -> (r: String)
        requires
            !self.is_closed(),
            (space_idx as nat) < self.engine_spaces(),
        ensures
            r@ == self.engine_name(space_idx as nat),
    {
        match &self.engine {
            Some(e) => e.space_name(space_idx),
            None => vstd::pervasive::unreached(),
        }
    }

    /// Reports the engine's text for one space's failure code.
    pub fn get_error_message(&self, space_idx: u32, error_code: u32) -> (r: String)
        requires
            !self.is_closed(),
            (space_idx as nat) < self.engine_spaces(),
            error_code != 0,
        ensures
            r@ == self.engine_message(space_idx as nat, error_code),
    {
        match &self.engine {
            Some(e) => e.error_message(space_idx, error_code),
            None => vstd::pervasive::unreached(),
        }
    }

    /// Resolves one space against the current grid into a caller-provided
    /// flat buffer sized to the domain.  Returns exactly the space's
    /// outcome code — zero for success, its failure code otherwise — and
    /// on success the buffer holds exactly the resolved field; the buffer
    /// keeps its size either way.
    pub fn get_result_raw(&self, space_idx: u32, temp: &mut Vec<u32>) -> (r: u32)
        requires
            self.wf(),
            !self.is_closed(),
            (space_idx as nat) < self.engine_spaces(),
            old(temp)@.len() == self.grid_view().width * self.grid_view().height,
        ensures
            final(temp)@.len() == old(temp)@.len(),
            r == self.engine_solve_code(space_idx as nat),
            r == 0 ==> final(temp)@ == self.engine_solve_field(space_idx as nat),
    {
        match &self.engine {
            Some(e) => e.solve(space_idx, &self.grid, temp),
            None => vstd::pervasive::unreached(),
        }
    }

    /// Resolves one space against the current grid.  Succeeds exactly when
    /// the space's outcome code is zero, returning its resolved field —
    /// reshaped row by row — with the space's label and the exact domain
    /// shape; otherwise returns exactly that nonzero code.
    pub fn get_result(&self, space_idx: u32) -> (r: Result<SpaceInfo, u32>)
        requires
            self.wf(),
            !self.is_closed(),
            (space_idx as nat) < self.engine_spaces(),
        ensures
            self.engine_solve_code(space_idx as nat) == 0 ==> (r matches Ok(si) && {
                &&& space_info_wf(si, self.grid_view().width, self.grid_view().height)
                &&& (si.name matches Some(n) && n@ == self.engine_name(space_idx as nat))
                &&& rows_of_flat(
                    si.temp@,
                    self.engine_solve_field(space_idx as nat),
                    self.grid_view().width,
                    self.grid_view().height,
                )
            }),
            self.engine_solve_code(space_idx as nat) != 0 ==> r == Err::<SpaceInfo, u32>(
                self.engine_solve_code(space_idx as nat),
            ),
    {
        let (width, height) = self.grid.size();
        proof {
            assert((width as int) * (height as int) < 0x1_0000_0000) by (nonlinear_arith)
                requires
                    width <= 0xffff,
                    height <= 0xffff,
            ;
        }
        let area: usize = width as usize * height as usize;
        let mut buff: Vec<u32> = filled(0u32, area);
        let result: u32 = self.get_result_raw(space_idx, &mut buff);
        if result != 0 {
            Err(result)
        } else {
            Ok(
                SpaceInfo {
                    width,
                    height,
                    name: Some(self.get_space_name(space_idx)),
                    temp: rows_from_flat(&buff, width, height),
                },
            )
        }
    }

    /// Produces one coherent snapshot: the current readings plus exactly
    /// one outcome per space of the engine's current count, in space-index
    /// order.  Every space is resolved against the same captured grid
    /// state, and its outcome is propagated faithfully: a success carrying
    /// exactly the resolved field and the space's label when its outcome
    /// code is zero, else a failure carrying exactly that code and its
    /// message — so a failing space never aborts the snapshot.  A closed
    /// orchestrator fails fast with `Closed` and never touches the
    /// released engine.
    pub fn get_simulation_results(&self) -> (r: Result<SimulationResults, ServerError>)
        requires
            self.wf(),
        ensures
            self.is_closed() ==> r == Err::<SimulationResults, ServerError>(ServerError::Closed),
            !self.is_closed() ==> (r matches Ok(s) && {
                &&& info_matches(s.info, self.grid_view())
                &&& s.results@.len() == self.engine_spaces()
                &&& forall|i: int|
                    0 <= i < s.results@.len() ==> result_wf(
                        #[trigger] s.results@[i],
                        self.grid_view().width,
                        self.grid_view().height,
                    )
                &&& forall|i: int|
                    0 <= i < s.results@.len() ==> match #[trigger] s.results@[i] {
                        SimulationResult::Success(si) => {
                            &&& self.engine_solve_code(i as nat) == 0
                            &&& si.name->Some_0@ == self.engine_name(i as nat)
                            &&& rows_of_flat(
                                si.temp@,
                                self.engine_solve_field(i as nat),
                                self.grid_view().width,
                                self.grid_view().height,
                            )
                        },
                        SimulationResult::Failure { error_code, message } => {
                            &&& self.engine_solve_code(i as nat) != 0
                            &&& error_code == self.engine_solve_code(i as nat)
                            &&& message@ == self.engine_message(i as nat, error_code)
                        },
                    }
            }),
    {
        if self.engine.is_none() {
            return Err(ServerError::Closed);
        }
        let info = self.get();
        let num: u32 = self.get_num_spaces();
        let mut results: Vec<SimulationResult> = Vec::new();
        let mut i: u32 = 0;
        while i < num
            invariant
                self.wf(),
                !self.is_closed(),
                num as nat == self.engine_spaces(),
                i <= num,
                results@.len() == i as nat,
                forall|j: int|
                    0 <= j < i as nat ==> result_wf(
                        #[trigger] results@[j],
                        self.grid_view().width,
                        self.grid_view().height,
                    ),
                forall|j: int|
                    0 <= j < i as nat ==> match #[trigger] results@[j] {
                        SimulationResult::Success(si) => {
                            &&& self.engine_solve_code(j as nat) == 0
                            &&& si.name->Some_0@ == self.engine_name(j as nat)
                            &&& rows_of_flat(
                                si.temp@,
                                self.engine_solve_field(j as nat),
                                self.grid_view().width,
                                self.grid_view().height,
                            )
                        },
                        SimulationResult::Failure { error_code, message } => {
                            &&& self.engine_solve_code(j as nat) != 0
                            &&& error_code == self.engine_solve_code(j as nat)
                            &&& message@ == self.engine_message(j as nat, error_code)
                        },
                    },
            decreases num - i,
        {
            let outcome = self.get_result(i);
            let message: String = match &outcome {
                Ok(_) => String::new(),
                Err(code) => self.get_error_message(i, *code),
            };
            results.push(simulation_result_from(outcome, message));
            i = i + 1;
        }
        Ok(SimulationResults { info, results })
    }

    /// Tears the orchestrator down: releases the engine and moves to the
    /// closed state, irreversibly.  The grid and its write generation are
    /// kept, and closing an already closed orchestrator changes nothing.
    pub fn close(&mut self)
        ensures
            final(self).is_closed(),
            final(self).grid_view() == old(self).grid_view(),
            final(self).current_generation() == old(self).current_generation(),
            old(self).wf() ==> final(self).wf(),
    {
        self.engine = None;
    }
}

/// Law: a reading accepted by `set` — moving the orchestrator from `pre`
/// to `post` as its contract states — is visible at exactly `(x, y)` in
/// the grid portion of any snapshot `get_simulation_results` then
/// produces, until a later reading of the same coordinate supersedes it.
pub proof fn lemma_record_then_snapshot<E: Engine>(
    pre: Server<E>,
    post: Server<E>,
    snap: SimulationResults,
    x: u16,
    y: u16,
    temp: u32,
    kind: LocalInfoType,
)
    requires
        pre.wf(),
        pre.grid_view().in_bounds(x as int, y as int),
        post.grid_view() == pre.grid_view().write(x as int, y as int, temp, kind),
        info_matches(snap.info, post.grid_view()),
    ensures
        snap.info.temp@[y as int]@[x as int] == temp,
        snap.info.kind@[y as int]@[x as int] == kind,
{
    lemma_recorded_point_visible(pre.grid_view(), snap.info, x as int, y as int, temp, kind);
}

/// Law: a space's success-versus-failure classification is a function of
/// orchestrator state alone — the snapshot contract ties each entry to
/// `engine_solve_code`, so two snapshot entries produced for one space
/// from one state agree on it, with no timing dependence.
pub proof fn lemma_classification_deterministic<E: Engine>(
    s: Server<E>,
    a: SimulationResult,
    b: SimulationResult,
    space_idx: nat,
)
    requires
        a is Success <==> s.engine_solve_code(space_idx) == 0,
        b is Success <==> s.engine_solve_code(space_idx) == 0,
    ensures
        a is Success <==> b is Success,
{
}

/// Law: two snapshots taken from the same orchestrator state — in
/// particular, with no intervening accepted reading — carry identical
/// grid contents, whatever the engine reported to each.
pub proof fn lemma_snapshot_idempotent<E: Engine>(
    s: Server<E>,
    a: SimulationResults,
    b: SimulationResults,
)
    requires
        s.wf(),
        info_matches(a.info, s.grid_view()),
        info_matches(b.info, s.grid_view()),
    ensures
        global_info_eq(a.info, b.info),
{
    lemma_snapshot_grid_deterministic(s.grid_view(), a.info, b.info);
}

/// Turns one space's solve outcome into its snapshot entry, faithfully: a
/// resolved field becomes `Success` carrying exactly that field, a failure
/// code becomes `Failure` carrying exactly that code and message.
pub fn simulation_result_from(outcome: Result<SpaceInfo, u32>, message: String) -> (r:
    SimulationResult)
    requires
        outcome matches Err(code) ==> code != 0,
    ensures
        outcome matches Ok(si) ==> r == SimulationResult::Success(si),
        outcome matches Err(code) ==> r == (SimulationResult::Failure {
            error_code: code,
            message: message,
        }),
{
    match outcome {
        Ok(si) => SimulationResult::Success(si),
        Err(code) => SimulationResult::Failure { error_code: code, message },
    }
}

} // verus!
