//! The authoritative point grid and its mathematical model.
//!
//! `GridView` is the specification-level value of a grid: a `width x height`
//! matrix of temperature bits and point kinds, stored row-major.  `Grid` is
//! the executable structure; its view is a `GridView`, and every operation
//! is specified against that model.

use vstd::prelude::*;

use crate::types::{GlobalInfo, LocalInfoType};

verus! {

/// Specification-level value of a grid: row-major `width x height` matrices
/// of temperature bits and point kinds.
#[verifier::ext_equal]
pub struct GridView {
    /// number of columns
    pub width: nat,
    /// number of rows
    pub height: nat,
    /// temperature bits, row-major: point `(x, y)` is entry `y * width + x`
    pub temp: Seq<u32>,
    /// point kinds, in the same layout
    pub kind: Seq<LocalInfoType>,
}

impl GridView {
    /// Both matrices hold exactly one entry per point of the domain.
    pub open spec fn wf(self) -> bool {
        &&& self.temp.len() == self.width * self.height
        &&& self.kind.len() == self.width * self.height
    }

    /// The coordinate lies inside the domain.
    pub open spec fn in_bounds(self, x: int, y: int) -> bool {
        0 <= x < self.width && 0 <= y < self.height
    }

    /// Row-major position of the point `(x, y)`.
    pub open spec fn index_of(self, x: int, y: int) -> int {
        y * self.width + x
    }

    /// Temperature bits currently stored at `(x, y)`.
    pub open spec fn temp_at(self, x: int, y: int) -> u32 {
        self.temp[self.index_of(x, y)]
    }

    /// Point kind currently stored at `(x, y)`.
    pub open spec fn kind_at(self, x: int, y: int) -> LocalInfoType {
        self.kind[self.index_of(x, y)]
    }

    /// The grid after one accepted reading: the point `(x, y)` is
    /// overwritten, every other point keeps its value.
    pub open spec fn write(self, x: int, y: int, temp: u32, kind: LocalInfoType) -> GridView {
        GridView {
            width: self.width,
            height: self.height,
            temp: self.temp.update(self.index_of(x, y), temp),
            kind: self.kind.update(self.index_of(x, y), kind),
        }
    }

    /// The grid an orchestrator starts from: every point defaulted to
    /// `OutOfRange` with temperature bits zero.
    pub open spec fn init(width: nat, height: nat) -> GridView {
        GridView {
            width,
            height,
            temp: Seq::new(width * height, |i: int| 0u32),
            kind: Seq::new(width * height, |i: int| LocalInfoType::OutOfRange),
        }
    }
}

/// An in-bounds coordinate has a row-major position inside the matrix.
pub proof fn lemma_row_major_bounds(x: int, y: int, w: int, h: int)
    requires
        0 <= x < w,
        0 <= y < h,
    ensures
        0 <= y * w + x < w * h,
{
    assert(0 <= y * w + x < w * h) by (nonlinear_arith)
        requires
            0 <= x < w,
            0 <= y < h,
    ;
}

/// Distinct in-bounds coordinates have distinct row-major positions.
pub proof fn lemma_row_major_injective(x1: int, y1: int, x2: int, y2: int, w: int, h: int)
    requires
        0 <= x1 < w,
        0 <= y1 < h,
        0 <= x2 < w,
        0 <= y2 < h,
        y1 * w + x1 == y2 * w + x2,
    ensures
        x1 == x2,
        y1 == y2,
{
    assert(x1 == x2 && y1 == y2) by (nonlinear_arith)
        requires
            0 <= x1 < w,
            0 <= y1 < h,
            0 <= x2 < w,
            0 <= y2 < h,
            y1 * w + x1 == y2 * w + x2,
    ;
}

/// The readings of a snapshot mirror a grid exactly: one inner vector per
/// row, one entry per column, and every point equal to the grid's value.
pub open spec fn info_matches(info: GlobalInfo, gv: GridView) -> bool {
    &&& info.temp@.len() == gv.height
    &&& info.kind@.len() == gv.height
    &&& forall|y: int| 0 <= y < gv.height ==> (#[trigger] info.temp@[y])@.len() == gv.width
    &&& forall|y: int| 0 <= y < gv.height ==> (#[trigger] info.kind@[y])@.len() == gv.width
    &&& forall|y: int, x: int|
        gv.in_bounds(x, y) ==> (#[trigger] info.temp@[y]@[x]) == gv.temp_at(x, y)
    &&& forall|y: int, x: int|
        gv.in_bounds(x, y) ==> (#[trigger] info.kind@[y]@[x]) == gv.kind_at(x, y)
}

/// Two snapshots carry the same readings: equal shapes and, row by row,
/// equal contents.
pub open spec fn global_info_eq(a: GlobalInfo, b: GlobalInfo) -> bool {
    &&& a.temp@.len() == b.temp@.len()
    &&& a.kind@.len() == b.kind@.len()
    &&& forall|y: int| 0 <= y < a.temp@.len() ==> (#[trigger] a.temp@[y])@ == b.temp@[y]@
    &&& forall|y: int| 0 <= y < a.kind@.len() ==> (#[trigger] a.kind@[y])@ == b.kind@[y]@
}

/// The executable grid: exclusively owned by the orchestrator, sized once,
/// mutated in place by accepted readings, never resized.
pub struct Grid {
    width: u16,
    height: u16,
    temp: Vec<u32>,
    kind: Vec<LocalInfoType>,
}

impl View for Grid {
    type V = GridView;

    closed spec fn view(&self) -> GridView {
        GridView {
            width: self.width as nat,
            height: self.height as nat,
            temp: self.temp@,
            kind: self.kind@,
        }
    }
}

impl Grid {
    /// The stored matrices cover the domain exactly.
    pub open spec fn wf(&self) -> bool {
        self@.wf()
    }

    /// Creates the grid of a fresh orchestrator: every point `OutOfRange`
    /// with temperature bits zero.
    pub fn new(width: u16, height: u16) -> (g: Grid)
        ensures
            g.wf(),
            g@ == GridView::init(width as nat, height as nat),
    {
        proof {
            assert((width as int) * (height as int) < 0x1_0000_0000) by (nonlinear_arith)
                requires
                    width <= 0xffff,
                    height <= 0xffff,
            ;
        }
        let area: usize = width as usize * height as usize;
        let mut temp: Vec<u32> = Vec::new();
        let mut kind: Vec<LocalInfoType> = Vec::new();
        let mut i: usize = 0;
        while i < area
            invariant
                i <= area,
                temp@.len() == i,
                kind@.len() == i,
                forall|j: int| 0 <= j < i ==> temp@[j] == 0u32,
                forall|j: int| 0 <= j < i ==> kind@[j] == LocalInfoType::OutOfRange,
            decreases area - i,
        {
            temp.push(0u32);
            kind.push(LocalInfoType::OutOfRange);
            i = i + 1;
        }
        let g = Grid { width, height, temp, kind };
        proof {
            assert(g@.temp =~= GridView::init(width as nat, height as nat).temp);
            assert(g@.kind =~= GridView::init(width as nat, height as nat).kind);
            assert(g@ =~= GridView::init(width as nat, height as nat));
        }
        g
    }

    /// Reports the domain as `(width, height)`.
    pub fn size(&self) -> (r: (u16, u16))
        ensures
            r.0 as nat == self@.width,
            r.1 as nat == self@.height,
    {
        (self.width, self.height)
    }

    /// Overwrites the point `(x, y)` with one reading; every other point and
    /// the domain itself are untouched.
    pub fn set_point(&mut self, x: u16, y: u16, temp: u32, kind: LocalInfoType)
        requires
            old(self).wf(),
            old(self)@.in_bounds(x as int, y as int),
        ensures
            final(self).wf(),
            final(self)@ == old(self)@.write(x as int, y as int, temp, kind),
    {
        proof {
            lemma_row_major_bounds(x as int, y as int, self@.width as int, self@.height as int);
            assert((self@.width as int) * (self@.height as int) < 0x1_0000_0000) by (nonlinear_arith)
                requires
                    self@.width <= 0xffff,
                    self@.height <= 0xffff,
            ;
        }
        let idx: usize = y as usize * self.width as usize + x as usize;
        self.temp[idx] = temp;
        self.kind[idx] = kind;
        proof {
            assert(self@ =~= old(self)@.write(x as int, y as int, temp, kind));
        }
    }

    /// Copies the whole grid into two flat row-major buffers sized to the
    /// domain, giving a tear-free read of a single point-in-time state.
    pub fn read_flat(&self, temp: &mut Vec<u32>, kind: &mut Vec<LocalInfoType>)
        requires
            self.wf(),
            old(temp)@.len() == self@.width * self@.height,
            old(kind)@.len() == self@.width * self@.height,
        ensures
            final(temp)@ == self@.temp,
            final(kind)@ == self@.kind,
    {
        let area: usize = self.temp.len();
        let mut i: usize = 0;
        while i < area
            invariant
                i <= area,
                area == self@.temp.len(),
                self.wf(),
                temp@.len() == self@.width * self@.height,
                kind@.len() == self@.width * self@.height,
                forall|j: int| 0 <= j < i ==> temp@[j] == self@.temp[j],
                forall|j: int| 0 <= j < i ==> kind@[j] == self@.kind[j],
            decreases area - i,
        {
            temp[i] = self.temp[i];
            kind[i] = self.kind[i];
            i = i + 1;
        }
        proof {
            assert(temp@ =~= self@.temp);
            assert(kind@ =~= self@.kind);
        }
    }
}

/// `rows` is the row-major `flat` reshaped for a `width x height` domain:
/// one vector per row, one entry per column, and entry `(x, y)` equal to
/// `flat[y * width + x]`.
pub open spec fn rows_of_flat<T>(rows: Seq<Vec<T>>, flat: Seq<T>, width: nat, height: nat) -> bool {
    &&& rows.len() == height
    &&& forall|y: int| 0 <= y < height ==> (#[trigger] rows[y])@.len() == width
    &&& forall|y: int, x: int|
        0 <= y < height && 0 <= x < width ==> (#[trigger] rows[y]@[x]) == flat[y * width + x]
}

/// Reshapes a flat row-major buffer into one vector per row: entry `(x, y)`
/// of the result is entry `y * width + x` of the buffer.
pub fn rows_from_flat<T: Copy>(flat: &Vec<T>, width: u16, height: u16) -> (r: Vec<Vec<T>>)
    requires
        flat@.len() == width as nat * height as nat,
    ensures
        rows_of_flat(r@, flat@, width as nat, height as nat),
{
    let w: usize = width as usize;
    let h: usize = height as usize;
    let flen: usize = flat.len();
    let mut rows: Vec<Vec<T>> = Vec::new();
    let mut y: usize = 0;
    while y < h
        invariant
            y <= h,
            w == width as nat,
            h == height as nat,
            flat@.len() == w * h,
            flat@.len() <= usize::MAX,
            rows@.len() == y,
            forall|yy: int| 0 <= yy < y ==> (#[trigger] rows@[yy])@.len() == w,
            forall|yy: int, xx: int|
                0 <= yy < y && 0 <= xx < w ==> (#[trigger] rows@[yy]@[xx]) == flat@[yy * w + xx],
        decreases h - y,
    {
        let mut row: Vec<T> = Vec::new();
        let mut x: usize = 0;
        while x < w
            invariant
                x <= w,
                y < h,
                w == width as nat,
                h == height as nat,
                flat@.len() == w * h,
                flat@.len() <= usize::MAX,
                row@.len() == x,
                forall|xx: int| 0 <= xx < x ==> (#[trigger] row@[xx]) == flat@[y * w + xx],
            decreases w - x,
        {
            proof {
                lemma_row_major_bounds(x as int, y as int, w as int, h as int);
            }
            let idx: usize = y * w + x;
            row.push(flat[idx]);
            x = x + 1;
        }
        rows.push(row);
        y = y + 1;
    }
    rows
}

/// Builds a flat buffer of `n` copies of one value.
pub fn filled<T: Copy>(value: T, n: usize) -> (r: Vec<T>)
    ensures
        r@.len() == n,
        forall|j: int| 0 <= j < n ==> (#[trigger] r@[j]) == value,
{
    let mut v: Vec<T> = Vec::new();
    let mut i: usize = 0;
    while i < n
        invariant
            i <= n,
            v@.len() == i,
            forall|j: int| 0 <= j < i ==> (#[trigger] v@[j]) == value,
        decreases n - i,
    {
        v.push(value);
        i = i + 1;
    }
    v
}

} // verus!
