//! The row-scanned LED matrix: its frame buffer, scan cursor and brightness.
//!
//! Only one row of the matrix is driven at a time. [`LedMatrix::render`]
//! says which lines to drive for the row under the cursor and for how long
//! to keep the matrix dark first; the caller drives the pins.

use vstd::prelude::*;

pub mod bitmaps;
pub mod types;

pub use types::{Bitmap, Brightness, Frame, MAX_LEVEL, MIN_LEVEL};

verus! {

/// Microseconds between two calls of `render` while a frame is shown.
pub const REFRESH_INTERVAL_MICROS: u64 = 500;

/// Microseconds that a row is kept dark at the darkest level.
pub const BLANK_UNIT_MICROS: u64 = 6000;

/// Microseconds that a row is kept dark before it is lit, at `level`.
pub open spec fn blank_micros(level: u8) -> int {
    (MAX_LEVEL - level) * BLANK_UNIT_MICROS / (MAX_LEVEL as int)
}

/// The brighter the level, the shorter the dark time: none at all at the
/// brightest level, a whole unit at the darkest.
pub proof fn brighter_levels_blank_shorter(dim: u8, bright: u8)
    requires
        MIN_LEVEL <= dim <= bright <= MAX_LEVEL,
    ensures
        blank_micros(bright) <= blank_micros(dim),
        blank_micros(MAX_LEVEL) == 0,
        blank_micros(MIN_LEVEL) == BLANK_UNIT_MICROS,
        0 <= blank_micros(bright) <= BLANK_UNIT_MICROS,
{
    assert(blank_micros(bright) == (MAX_LEVEL - bright) * 600);
    assert(blank_micros(dim) == (MAX_LEVEL - dim) * 600);
}

/// What to drive for one row of the scan.
#[derive(Clone, Copy, Debug, PartialEq, Eq)]
pub struct ScanStep<const COLS: usize> {
    /// The row to light once the dark time is over. Every row is switched
    /// off before the columns are set.
    pub row: usize,
    /// For each column, whether its cell in that row is lit.
    pub columns: [bool; COLS],
    /// Microseconds to keep every row off before `row` is lit.
    pub blank_micros: u64,
}

/// The state of a row-scanned LED matrix of `ROWS` rows and `COLS` columns:
/// the frame that is shown, the row that is scanned next, and the
/// brightness.
///
/// NOTE: Currently restricted by 8 bits width
#[derive(Clone, Copy, Debug)]
pub struct LedMatrix<const ROWS: usize, const COLS: usize> {
    frame_buffer: Frame<COLS, ROWS>,
    row_p: usize,
    brightness: Brightness,
}

impl<const ROWS: usize, const COLS: usize> LedMatrix<ROWS, COLS> {
    /// The frame that is being shown.
    pub closed spec fn frame(self) -> Frame<COLS, ROWS> {
        self.frame_buffer
    }

    /// The row that the next `render` drives.
    pub closed spec fn cursor(self) -> usize {
        self.row_p
    }

    /// The brightness level.
    pub closed spec fn level(self) -> u8 {
        self.brightness.spec_level()
    }

    /// The buffer is a frame of the matrix's size and the cursor is on one
    /// of its rows.
    pub open spec fn wf(self) -> bool {
        &&& self.frame().wf()
        &&& self.cursor() < ROWS
        &&& MIN_LEVEL <= self.level() <= MAX_LEVEL
    }

    /// The scan step for the row under the cursor.
    pub open spec fn scans(self, step: ScanStep<COLS>) -> bool {
        &&& step.row == self.cursor()
        &&& step.blank_micros == blank_micros(self.level())
        &&& forall|x: int| 0 <= x < COLS ==> step.columns@[x] == self.frame().lit(x, self.cursor() as int)
    }

    /// Create a new instance of an LED matrix: dark, with the cursor on the
    /// first row, at the middle brightness.
    pub fn new() -> (matrix: Self)
        requires
            0 < ROWS,
            COLS <= 8,
        ensures
            matrix.wf(),
            matrix.frame().dark(),
            matrix.cursor() == 0,
            matrix.level() == 5,
    {
        LedMatrix { frame_buffer: Frame::empty(), row_p: 0, brightness: Brightness::default() }
    }

    /// The frame that is being shown.
    pub fn frame_buffer(&self) -> (frame: Frame<COLS, ROWS>)
        ensures
            frame == self.frame(),
    {
        self.frame_buffer
    }

    /// The row that the next `render` drives.
    pub fn row(&self) -> (row: usize)
        ensures
            row == self.cursor(),
    {
        self.row_p
    }

    /// The brightness level.
    pub fn brightness(&self) -> (brightness: Brightness)
        ensures
            brightness.spec_level() == self.level(),
    {
        self.brightness
    }

    /// Clear all LEDs
    pub fn clear(&mut self)
        requires
            old(self).wf(),
        ensures
            final(self).wf(),
            final(self).frame().dark(),
            final(self).cursor() == old(self).cursor(),
            final(self).level() == old(self).level(),
    {
        self.frame_buffer.clear();
    }

    /// Turn on point (x,y) in the frame buffer
    pub fn on(&mut self, x: usize, y: usize)
        requires
            old(self).wf(),
        ensures
            final(self).wf(),
            forall|i: int, j: int|
                #![trigger final(self).frame().lit(i, j)]
                final(self).frame().lit(i, j) == (old(self).frame().lit(i, j) || (i == x && j == y && Frame::<
                    COLS,
                    ROWS,
                >::holds(i, j))),
            final(self).cursor() == old(self).cursor(),
            final(self).level() == old(self).level(),
    {
        self.frame_buffer.set(x, y);
    }

    /// Turn off point (x,y) in the frame buffer
    pub fn off(&mut self, x: usize, y: usize)
        requires
            old(self).wf(),
        ensures
            final(self).wf(),
            forall|i: int, j: int|
                #![trigger final(self).frame().lit(i, j)]
                final(self).frame().lit(i, j) == (old(self).frame().lit(i, j) && !(i == x && j == y)),
            final(self).cursor() == old(self).cursor(),
            final(self).level() == old(self).level(),
    {
        self.frame_buffer.unset(x, y);
    }

    /// Apply the provided frame onto the frame buffer
    pub fn apply(&mut self, frame: Frame<COLS, ROWS>)
        requires
            old(self).wf(),
            frame.wf(),
        ensures
            final(self).wf(),
            final(self).frame() == frame,
            final(self).cursor() == old(self).cursor(),
            final(self).level() == old(self).level(),
    {
        self.frame_buffer = frame;
    }

    /// Adjust the brightness level
    pub fn set_brightness(&mut self, brightness: Brightness)
        requires
            old(self).wf(),
        ensures
            final(self).wf(),
            final(self).level() == brightness.spec_level(),
            final(self).frame() == old(self).frame(),
            final(self).cursor() == old(self).cursor(),
    {
        // Reading the level brings its range, which `wf` speaks of.
        let _level: u8 = brightness.level();
        self.brightness = brightness;
    }

    /// Increase brightness relative to current setting
    pub fn increase_brightness(&mut self)
        requires
            old(self).wf(),
        ensures
            final(self).wf(),
            final(self).level() == Brightness::clamped(old(self).level() + 1),
            final(self).frame() == old(self).frame(),
            final(self).cursor() == old(self).cursor(),
    {
        self.brightness = self.brightness.increased(1);
    }

    /// Decrease brightness relative to current setting
    pub fn decrease_brightness(&mut self)
        requires
            old(self).wf(),
        ensures
            final(self).wf(),
            final(self).level() == Brightness::clamped(old(self).level() - 1),
            final(self).frame() == old(self).frame(),
            final(self).cursor() == old(self).cursor(),
    {
        self.brightness = self.brightness.decreased(1);
    }

    /// Perform a full refresh of the display based on the current frame
    /// buffer: the step for the row under the cursor, which then moves on
    /// to the next row and from the last row to the first.
    pub fn render(&mut self) -> (step: ScanStep<COLS>)
        requires
            old(self).wf(),
        ensures
            final(self).wf(),
            old(self).scans(step),
            final(self).cursor() == (old(self).cursor() + 1) % (ROWS as int),
            final(self).frame() == old(self).frame(),
            final(self).level() == old(self).level(),
    {
        let mut columns = [false;COLS];
        let mut cid: usize = 0;
        while cid < COLS
            invariant
                self.wf(),
                *self == *old(self),
                cid <= COLS,
                forall|x: int| 0 <= x < cid ==> columns@[x] == self.frame().lit(x, self.cursor() as int),
            decreases COLS - cid,
        {
            columns[cid] = self.frame_buffer.is_set(cid, self.row_p);
            cid += 1;
        }
        let level: u8 = self.brightness.level();
        let blank: u64 = ((MAX_LEVEL - level) as u64) * BLANK_UNIT_MICROS / (MAX_LEVEL as u64);
        let step = ScanStep { row: self.row_p, columns, blank_micros: blank };
        self.row_p = (self.row_p + 1) % ROWS;
        step
    }

    /// Begins to display the provided frame for `length` microseconds: the
    /// frame is applied, and the instant at which it has been shown long
    /// enough is returned. `now` is the clock's reading in microseconds.
    pub fn display(&mut self, frame: Frame<COLS, ROWS>, now: u64, length: u64) -> (end: u64)
        requires
            old(self).wf(),
            frame.wf(),
            now + length <= u64::MAX,
        ensures
            final(self).wf(),
            end == now + length,
            final(self).frame() == frame,
            final(self).cursor() == old(self).cursor(),
            final(self).level() == old(self).level(),
    {
        self.apply(frame);
        now + length
    }

    /// One turn of the refresh loop of a frame shown until `end`. Before
    /// `end` the next row is rendered, and the caller comes back after
    /// `REFRESH_INTERVAL_MICROS`. From `end` on the matrix is cleared and
    /// `None` says that the showing is over.
    pub fn refresh(&mut self, now: u64, end: u64) -> (step: Option<ScanStep<COLS>>)
        requires
            old(self).wf(),
        ensures
            final(self).wf(),
            final(self).level() == old(self).level(),
            match step {
                Some(scan) => {
                    &&& now < end
                    &&& old(self).scans(scan)
                    &&& final(self).cursor() == (old(self).cursor() + 1) % (ROWS as int)
                    &&& final(self).frame() == old(self).frame()
                },
                None => {
                    &&& now >= end
                    &&& final(self).frame().dark()
                    &&& final(self).cursor() == old(self).cursor()
                },
            },
    {
        if now < end {
            Some(self.render())
        } else {
            self.clear();
            None
        }
    }
}

} // verus!
