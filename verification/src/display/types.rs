//! Rows, frames and brightness levels of the LED matrix.

use vstd::prelude::*;

verus! {

/// Whether bit `k` of `data` is one.
pub open spec fn bit_of(data: u8, k: u8) -> bool {
    (data >> k) & 1u8 == 1u8
}

/// One row of up to eight cells. The leftmost cell is the highest of the
/// row's `nbits` bits.
#[derive(Clone, Copy, Debug)]
pub struct Bitmap {
    data: u8,
    nbits: usize,
}

impl Bitmap {
    /// The bits of the row.
    pub closed spec fn data(self) -> u8 {
        self.data
    }

    /// The number of cells in the row.
    pub closed spec fn nbits(self) -> usize {
        self.nbits
    }

    /// A row has at most eight cells.
    pub open spec fn wf(self) -> bool {
        self.nbits() <= 8
    }

    /// Whether cell `bit`, counted from the left, is lit.
    pub open spec fn lit(self, bit: int) -> bool {
        0 <= bit < self.nbits() && bit_of(self.data(), (self.nbits() - 1 - bit) as u8)
    }

    /// A row of `nbits` cells lit as the low `nbits` bits of `data` say.
    pub fn new(data: u8, nbits: usize) -> (row: Bitmap)
        requires
            nbits <= 8,
        ensures
            row.wf(),
            row.nbits() == nbits,
            row.data() == data,
    {
        Bitmap { data, nbits }
    }

    /// A dark row of `nbits` cells.
    pub fn empty(nbits: usize) -> (row: Bitmap)
        requires
            nbits <= 8,
        ensures
            row.wf(),
            row.nbits() == nbits,
            forall|bit: int| !row.lit(bit),
    {
        let row = Bitmap { data: 0, nbits };
        assert forall|bit: int| !row.lit(bit) by {
            if 0 <= bit < nbits {
                let k: u8 = (nbits - 1 - bit) as u8;
                assert((0u8 >> k) & 1u8 == 0u8) by (bit_vector);
            }
        }
        row
    }

    /// Lights cell `bit`. A `bit` outside the row changes nothing.
    pub fn set(&mut self, bit: usize)
        requires
            old(self).wf(),
        ensures
            final(self).wf(),
            final(self).nbits() == old(self).nbits(),
            forall|b: int|
                #![trigger final(self).lit(b)]
                final(self).lit(b) == (old(self).lit(b) || (b == bit && bit < old(self).nbits())),
    {
        if bit < self.nbits {
            let k: u8 = (self.nbits - 1 - bit) as u8;
            let data: u8 = self.data;
            self.data = data | (1u8 << k);
            assert forall|b: int| self.lit(b) == (old(self).lit(b) || b == bit) by {
                if 0 <= b < self.nbits {
                    let j: u8 = (self.nbits - 1 - b) as u8;
                    assert(k < 8 && j < 8 ==> (((data | (1u8 << k)) >> j) & 1u8 == 1u8) == (((data >> j) & 1u8
                        == 1u8) || j == k)) by (bit_vector);
                }
            }
        }
    }

    /// Darkens cell `bit`. A `bit` outside the row changes nothing.
    pub fn clear(&mut self, bit: usize)
        requires
            old(self).wf(),
        ensures
            final(self).wf(),
            final(self).nbits() == old(self).nbits(),
            forall|b: int|
                #![trigger final(self).lit(b)]
                final(self).lit(b) == (old(self).lit(b) && b != bit),
    {
        if bit < self.nbits {
            let k: u8 = (self.nbits - 1 - bit) as u8;
            let data: u8 = self.data;
            self.data = data & !(1u8 << k);
            assert forall|b: int| self.lit(b) == (old(self).lit(b) && b != bit) by {
                if 0 <= b < self.nbits {
                    let j: u8 = (self.nbits - 1 - b) as u8;
                    assert(k < 8 && j < 8 ==> (((data & !(1u8 << k)) >> j) & 1u8 == 1u8) == (((data >> j) & 1u8
                        == 1u8) && j != k)) by (bit_vector);
                }
            }
        }
    }

    /// Whether cell `bit` is lit. No cell outside the row is.
    pub fn is_set(&self, bit: usize) -> (lit: bool)
        requires
            self.wf(),
        ensures
            lit == self.lit(bit as int),
    {
        if bit < self.nbits {
            let k: u8 = (self.nbits - 1 - bit) as u8;
            (self.data >> k) & 1u8 == 1u8
        } else {
            false
        }
    }
}

/// A picture for the matrix: `YSIZE` rows of `XSIZE` cells.
#[derive(Clone, Copy, Debug)]
pub struct Frame<const XSIZE: usize, const YSIZE: usize> {
    bitmap: [Bitmap; YSIZE],
}

impl<const XSIZE: usize, const YSIZE: usize> Frame<XSIZE, YSIZE> {
    /// The rows from top to bottom.
    pub closed spec fn rows(self) -> Seq<Bitmap> {
        self.bitmap@
    }

    /// Every row has `XSIZE` cells, and a row has room for them.
    pub open spec fn wf(self) -> bool {
        &&& XSIZE <= 8
        &&& self.rows().len() == YSIZE
        &&& forall|y: int| 0 <= y < YSIZE ==> (#[trigger] self.rows()[y]).nbits() == XSIZE
    }

    /// Whether the cell in column `x` of row `y` is lit. No cell outside
    /// the frame is.
    pub open spec fn lit(self, x: int, y: int) -> bool {
        0 <= y < YSIZE && self.rows()[y].lit(x)
    }

    /// Whether no cell is lit.
    pub open spec fn dark(self) -> bool {
        forall|x: int, y: int| !self.lit(x, y)
    }

    /// Whether `(x, y)` is a cell of the frame.
    pub open spec fn holds(x: int, y: int) -> bool {
        0 <= x < XSIZE && 0 <= y < YSIZE
    }

    /// A dark frame.
    pub fn empty() -> (frame: Self)
        requires
            XSIZE <= 8,
        ensures
            frame.wf(),
            frame.dark(),
    {
        let row = Bitmap::empty(XSIZE);
        Frame { bitmap: [row;YSIZE] }
    }

    /// The frame of the given rows.
    pub fn new(bitmap: [Bitmap; YSIZE]) -> (frame: Self)
        requires
            XSIZE <= 8,
            forall|y: int| 0 <= y < YSIZE ==> (#[trigger] bitmap@[y]).nbits() == XSIZE,
        ensures
            frame.wf(),
            frame.rows() == bitmap@,
    {
        Frame { bitmap }
    }

    /// Darkens every cell.
    pub fn clear(&mut self)
        requires
            old(self).wf(),
        ensures
            final(self).wf(),
            final(self).dark(),
    {
        let row = Bitmap::empty(XSIZE);
        self.bitmap = [row;YSIZE];
    }

    /// Lights the cell in column `x` of row `y`. A place outside the frame
    /// changes nothing.
    pub fn set(&mut self, x: usize, y: usize)
        requires
            old(self).wf(),
        ensures
            final(self).wf(),
            forall|i: int, j: int|
                #![trigger final(self).lit(i, j)]
                final(self).lit(i, j) == (old(self).lit(i, j) || (i == x && j == y && Self::holds(i, j))),
    {
        if y < YSIZE {
            let mut row = self.bitmap[y];
            row.set(x);
            self.bitmap[y] = row;
        }
    }

    /// Darkens the cell in column `x` of row `y`. A place outside the frame
    /// changes nothing.
    pub fn unset(&mut self, x: usize, y: usize)
        requires
            old(self).wf(),
        ensures
            final(self).wf(),
            forall|i: int, j: int|
                #![trigger final(self).lit(i, j)]
                final(self).lit(i, j) == (old(self).lit(i, j) && !(i == x && j == y)),
    {
        if y < YSIZE {
            let mut row = self.bitmap[y];
            row.clear(x);
            self.bitmap[y] = row;
        }
    }

    /// Whether the cell in column `x` of row `y` is lit.
    pub fn is_set(&self, x: usize, y: usize) -> (lit: bool)
        requires
            self.wf(),
        ensures
            lit == self.lit(x as int, y as int),
    {
        if y < YSIZE {
            self.bitmap[y].is_set(x)
        } else {
            false
        }
    }
}

/// The brightest level.
pub const MAX_LEVEL: u8 = 10;

/// The darkest level.
pub const MIN_LEVEL: u8 = 0;

/// How bright the matrix shines: a level from `MIN_LEVEL` to `MAX_LEVEL`.
#[derive(Clone, Copy, Debug)]
pub struct Brightness(u8);

impl Brightness {
    #[verifier::type_invariant]
    spec fn in_range(self) -> bool {
        MIN_LEVEL <= self.0 <= MAX_LEVEL
    }

    /// The brightest level.
    pub fn max() -> (b: Brightness)
        ensures
            b.spec_level() == MAX_LEVEL,
    {
        Brightness(MAX_LEVEL)
    }

    /// The darkest level.
    pub fn min() -> (b: Brightness)
        ensures
            b.spec_level() == MIN_LEVEL,
    {
        Brightness(MIN_LEVEL)
    }

    /// The level as a number.
    pub closed spec fn spec_level(self) -> u8 {
        self.0
    }

    /// `level` brought into the range from `MIN_LEVEL` to `MAX_LEVEL`.
    pub open spec fn clamped(level: int) -> int {
        if level < MIN_LEVEL {
            MIN_LEVEL as int
        } else if level > MAX_LEVEL {
            MAX_LEVEL as int
        } else {
            level
        }
    }

    /// The brightness of `level`, or the nearest there is.
    pub fn new(level: u8) -> (b: Brightness)
        ensures
            b.spec_level() == Self::clamped(level as int),
    {
        if level > MAX_LEVEL {
            Brightness(MAX_LEVEL)
        } else {
            Brightness(level)
        }
    }

    /// The level as a number.
    pub fn level(&self) -> (level: u8)
        ensures
            level == self.spec_level(),
            MIN_LEVEL <= level <= MAX_LEVEL,
    {
        proof {
            use_type_invariant(self);
        }
        self.0
    }

    /// The brightness `by` levels up, or the brightest where that is nearer.
    pub fn increased(self, by: u8) -> (b: Brightness)
        ensures
            b.spec_level() == Self::clamped(self.spec_level() + by),
    {
        proof {
            use_type_invariant(self);
        }
        if by > MAX_LEVEL - self.0 {
            Brightness(MAX_LEVEL)
        } else {
            Brightness(self.0 + by)
        }
    }

    /// The brightness `by` levels down, or the darkest where that is nearer.
    pub fn decreased(self, by: u8) -> (b: Brightness)
        ensures
            b.spec_level() == Self::clamped(self.spec_level() - by),
    {
        proof {
            use_type_invariant(self);
        }
        if by > self.0 - MIN_LEVEL {
            Brightness(MIN_LEVEL)
        } else {
            Brightness(self.0 - by)
        }
    }
}

/// The levels saturate: stepping up from the brightest level gives the
/// brightest level, stepping down from the darkest gives the darkest, and
/// no step leads out of the range.
pub proof fn levels_saturate(level: u8, by: u8)
    ensures
        Brightness::clamped(MAX_LEVEL + by) == MAX_LEVEL,
        Brightness::clamped(MIN_LEVEL - by) == MIN_LEVEL,
        MIN_LEVEL <= Brightness::clamped(level + by) <= MAX_LEVEL,
        MIN_LEVEL <= Brightness::clamped(level - by) <= MAX_LEVEL,
{
}

impl Default for Brightness {
    /// The middle level.
    fn default() -> (b: Self)
        ensures
            b.spec_level() == 5,
    {
        Brightness(5)
    }
}

} // verus!
