//! The glyphs that the timer shows, drawn as five rows of five bits.

use vstd::prelude::*;
use crate::display::types::{bit_of, Bitmap, Frame};

verus! {

/// A check-mark bitmap
pub const CHECK_MARK: [u8; 5] = [
    0b00000,
    0b00001,
    0b00010,
    0b10100,
    0b01000,
];

/// A cross-mark bitmap
pub const CROSS_MARK: [u8; 5] = [
    0b00000,
    0b01010,
    0b00100,
    0b01010,
    0b00000,
];

/// A left arrow bitmap
pub const ARROW_LEFT: [u8; 5] = [
    0b00100,
    0b01000,
    0b11111,
    0b01000,
    0b00100,
];

/// A right arrow bitmap
pub const ARROW_RIGHT: [u8; 5] = [
    0b00100,
    0b00010,
    0b11111,
    0b00010,
    0b00100,
];

/// Whether a drawing of five rows lights the cell in column `x` of row
/// `y`: bit 4 of a row is its leftmost cell, bit 0 its rightmost.
pub open spec fn drawn(rows: Seq<u8>, x: int, y: int) -> bool {
    0 <= x < 5 && 0 <= y < 5 && y < rows.len() && bit_of(rows[y], (4 - x) as u8)
}

/// Whether `frame` lights exactly the cells that the drawing `rows` does.
pub open spec fn shows<const XSIZE: usize, const YSIZE: usize>(
    frame: Frame<XSIZE, YSIZE>,
    rows: Seq<u8>,
) -> bool {
    &&& frame.wf()
    &&& forall|x: int, y: int|
        #![trigger frame.lit(x, y)]
        #![trigger drawn(rows, x, y)]
        frame.lit(x, y) == drawn(rows, x, y)
}

/// Construct a 5x5 frame from a byte slice
pub fn frame_5x5<const XSIZE: usize, const YSIZE: usize>(input: &[u8; 5]) -> (frame: Frame<
    XSIZE,
    YSIZE,
>)
    requires
        XSIZE == 5,
        YSIZE >= 5,
    ensures
        shows(frame, input@),
{
    let mut data = [Bitmap::empty(5);YSIZE];
    data[0] = Bitmap::new(input[0], 5);
    data[1] = Bitmap::new(input[1], 5);
    data[2] = Bitmap::new(input[2], 5);
    data[3] = Bitmap::new(input[3], 5);
    data[4] = Bitmap::new(input[4], 5);
    Frame::new(data)
}

} // verus!
