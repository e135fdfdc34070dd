//! The grid-consistency laws of the orchestrator, stated and proved once
//! over the specification-level model.
//!
//! Together with the contracts of `Server::set` and
//! `Server::get_simulation_results`, these laws pin down how readings and
//! snapshots relate: an accepted reading is visible at exactly its
//! coordinate in every later snapshot until it is superseded, and the grid
//! portion of a snapshot is a function of grid state alone.

use vstd::prelude::*;

use crate::grid::{
    global_info_eq, info_matches, lemma_row_major_bounds, lemma_row_major_injective, GridView,
};
use crate::types::{GlobalInfo, LocalInfoType};

verus! {

/// Law: after an accepted reading of `(x, y)`, the snapshot readings taken
/// from the written grid show exactly that temperature and kind at
/// `(x, y)` — until a later write to the same coordinate supersedes it.
pub proof fn lemma_recorded_point_visible(
    gv: GridView,
    info: GlobalInfo,
    x: int,
    y: int,
    temp: u32,
    kind: LocalInfoType,
)
    requires
        gv.wf(),
        gv.in_bounds(x, y),
        info_matches(info, gv.write(x, y, temp, kind)),
    ensures
        info.temp@[y]@[x] == temp,
        info.kind@[y]@[x] == kind,
{
    let gw = gv.write(x, y, temp, kind);
    lemma_row_major_bounds(x, y, gv.width as int, gv.height as int);
    assert(gw.temp_at(x, y) == temp);
    assert(gw.kind_at(x, y) == kind);
}

/// Law: a fresh grid defaults every point to `OutOfRange` with temperature
/// bits zero; readings are the only way a point changes.
pub proof fn lemma_fresh_grid_defaults(width: nat, height: nat, x: int, y: int)
    requires
        GridView::init(width, height).in_bounds(x, y),
    ensures
        GridView::init(width, height).temp_at(x, y) == 0u32,
        GridView::init(width, height).kind_at(x, y) == LocalInfoType::OutOfRange,
{
    lemma_row_major_bounds(x, y, width as int, height as int);
}

/// Law: a later accepted reading of the same coordinate supersedes an
/// earlier one — after both writes the point shows the later temperature
/// and kind.
pub proof fn lemma_later_write_supersedes(
    gv: GridView,
    x: int,
    y: int,
    temp1: u32,
    kind1: LocalInfoType,
    temp2: u32,
    kind2: LocalInfoType,
)
    requires
        gv.wf(),
        gv.in_bounds(x, y),
    ensures
        gv.write(x, y, temp1, kind1).write(x, y, temp2, kind2).temp_at(x, y) == temp2,
        gv.write(x, y, temp1, kind1).write(x, y, temp2, kind2).kind_at(x, y) == kind2,
{
    lemma_row_major_bounds(x, y, gv.width as int, gv.height as int);
}

/// Law: an accepted reading of `(x, y)` leaves every other coordinate of
/// the grid exactly as it was.
pub proof fn lemma_write_preserves_other_points(
    gv: GridView,
    x: int,
    y: int,
    temp: u32,
    kind: LocalInfoType,
    x2: int,
    y2: int,
)
    requires
        gv.wf(),
        gv.in_bounds(x, y),
        gv.in_bounds(x2, y2),
        !(x2 == x && y2 == y),
    ensures
        gv.write(x, y, temp, kind).temp_at(x2, y2) == gv.temp_at(x2, y2),
        gv.write(x, y, temp, kind).kind_at(x2, y2) == gv.kind_at(x2, y2),
{
    lemma_row_major_bounds(x, y, gv.width as int, gv.height as int);
    lemma_row_major_bounds(x2, y2, gv.width as int, gv.height as int);
    if gv.index_of(x2, y2) == gv.index_of(x, y) {
        lemma_row_major_injective(x2, y2, x, y, gv.width as int, gv.height as int);
    }
}

/// Law: the readings of a snapshot are determined by grid state alone, so
/// two snapshots taken with no intervening accepted reading carry
/// identical grid contents.
pub proof fn lemma_snapshot_grid_deterministic(gv: GridView, a: GlobalInfo, b: GlobalInfo)
    requires
        gv.wf(),
        info_matches(a, gv),
        info_matches(b, gv),
    ensures
        global_info_eq(a, b),
{
    assert forall|yy: int| 0 <= yy < a.temp@.len() implies (#[trigger] a.temp@[yy])@
        == b.temp@[yy]@ by {
        assert(a.temp@[yy]@.len() == gv.width);
        assert(b.temp@[yy]@.len() == gv.width);
        assert forall|xx: int| 0 <= xx < gv.width implies a.temp@[yy]@[xx] == b.temp@[yy]@[xx] by {
            assert(gv.in_bounds(xx, yy));
            assert(a.temp@[yy]@[xx] == gv.temp_at(xx, yy));
            assert(b.temp@[yy]@[xx] == gv.temp_at(xx, yy));
        }
        assert(a.temp@[yy]@ =~= b.temp@[yy]@);
    }
    assert forall|yy: int| 0 <= yy < a.kind@.len() implies (#[trigger] a.kind@[yy])@
        == b.kind@[yy]@ by {
        assert(a.kind@[yy]@.len() == gv.width);
        assert(b.kind@[yy]@.len() == gv.width);
        assert forall|xx: int| 0 <= xx < gv.width implies a.kind@[yy]@[xx] == b.kind@[yy]@[xx] by {
            assert(gv.in_bounds(xx, yy));
            assert(a.kind@[yy]@[xx] == gv.kind_at(xx, yy));
            assert(b.kind@[yy]@[xx] == gv.kind_at(xx, yy));
        }
        assert(a.kind@[yy]@ =~= b.kind@[yy]@);
    }
}

/// Law: a rejected reading changes nothing, so the snapshot readings taken
/// before and after it are identical.  (`Server::set` ensures the grid is
/// unchanged on rejection; this law carries that to snapshot contents.)
pub proof fn lemma_rejected_write_invisible(gv: GridView, before: GlobalInfo, after: GlobalInfo)
    requires
        gv.wf(),
        info_matches(before, gv),
        info_matches(after, gv),
    ensures
        global_info_eq(before, after),
{
    lemma_snapshot_grid_deterministic(gv, before, after);
}

} // verus!
