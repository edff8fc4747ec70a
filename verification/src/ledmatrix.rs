//! The LED matrix: its draw data are filled with white, byte by byte.

use vstd::prelude::*;

verus! {

pub const DISPLAY_WIDTH: usize = 64;

pub const DISPLAY_HEIGHT: usize = 32;

/// Bytes of one picture: two pixels to a byte, and two bytes more.
pub const DRAW_DATA_SIZE: usize = 1026;

/// Time for which the line is held at the break speed, in milliseconds.
pub const BREAK_DELAY_MS: u64 = 10;

/// The line of the matrix and the pace of the filling.
#[derive(Debug, Clone)]
pub struct LedmatrixConfig {
    pub driver: String,
    pub fill_delay: u32,
}

/// The size of the draw data follows from the size of the display.
pub proof fn lemma_draw_data_size()
    ensures
        DRAW_DATA_SIZE == DISPLAY_HEIGHT * DISPLAY_WIDTH / 2 + 2,
{
}

/// The place that is filled after place `i`: the next one, and the first
/// after the last.
pub open spec fn next_fill_spec(i: usize) -> usize {
    if i + 1 >= DRAW_DATA_SIZE {
        0
    } else {
        (i + 1) as usize
    }
}

/// Fills place `i` of the draw data with white and gives the place to fill
/// next. A place outside the draw data fills nothing and starts over.
pub fn fill_step(buf: &mut Vec<u8>, i: usize) -> (next: usize)
    ensures
        i < old(buf)@.len() ==> final(buf)@ == old(buf)@.update(i as int, 0xFFu8),
        i >= old(buf)@.len() ==> final(buf)@ == old(buf)@,
        i < old(buf)@.len() ==> next == next_fill_spec(i),
        i >= old(buf)@.len() ==> next == 0,
        next < DRAW_DATA_SIZE,
{
    if i < buf.len() {
        buf[i] = 0xFF;
        if i >= DRAW_DATA_SIZE - 1 {
            0
        } else {
            i + 1
        }
    } else {
        0
    }
}

/// Draw data of the right size, all dark.
pub fn blank_draw_data() -> (buf: Vec<u8>)
    ensures
        buf@.len() == DRAW_DATA_SIZE,
        forall|i: int| 0 <= i < buf@.len() ==> buf@[i] == 0,
{
    let mut buf: Vec<u8> = Vec::new();
    let mut i: usize = 0;
    while i < DRAW_DATA_SIZE
        invariant
            i <= DRAW_DATA_SIZE,
            buf@.len() == i,
            forall|j: int| 0 <= j < buf@.len() ==> buf@[j] == 0,
        decreases DRAW_DATA_SIZE - i,
    {
        buf.push(0);
        i = i + 1;
    }
    buf
}

} // verus!
