//! The LED panel: sixteen steps of a filling pattern, two bytes each.

use vstd::prelude::*;
use crate::intio::PinLevel;

verus! {

/// Level of the chip-select line while nothing is sent.
pub const CS_NORMAL: PinLevel = PinLevel::High;

/// Level of the chip-select line while a pattern is sent.
pub const CS_ACTIVE: PinLevel = PinLevel::Low;

/// Steps of the pattern.
pub const STEPS: usize = 16;

/// The line of the panel and the pace of the pattern.
#[derive(Debug, Clone)]
pub struct LedpanelConfig {
    pub driver: String,
    pub pin_cs: u16,
    pub speed: u32,
    pub led_delay: u32,
}

/// The pattern of step `pos`: each of the two bytes has its lowest bit set
/// once the step has passed the first of its eight places, and no other bit.
pub open spec fn pattern_spec(pos: usize) -> Seq<u8> {
    seq![
        if pos > 0 {
            1u8
        } else {
            0u8
        },
        if pos > 8 {
            1u8
        } else {
            0u8
        },
    ]
}

/// The step after `pos`; after the last step the first follows.
pub open spec fn next_pos_spec(pos: usize) -> usize {
    if pos + 1 >= STEPS {
        0
    } else {
        (pos + 1) as usize
    }
}

/// What place `i` adds to its byte.
fn place_bit(i: usize) -> (bit: u8)
    ensures
        bit == (if i % 8 == 0 {
            1u8
        } else {
            0u8
        }),
{
    let shift: u8 = (i % 8) as u8;
    assert(1u8 >> shift == (if shift == 0 {
        1u8
    } else {
        0u8
    })) by (bit_vector)
        requires
            shift < 8,
    ;
    1u8 >> shift
}

/// Builds the pattern of step `pos`. Places beyond the sixteenth do not exist
/// and add nothing.
pub fn pattern(pos: usize) -> (buf: [u8; 2])
    ensures
        buf@ == pattern_spec(pos),
{
    let mut buf: [u8; 2] = [0;2];
    let places = if pos < STEPS {
        pos
    } else {
        STEPS
    };
    let mut i: usize = 0;
    while i < places
        invariant
            i <= places <= 16,
            places == (if pos < STEPS {
                pos
            } else {
                STEPS
            }),
            buf@ =~= pattern_spec(i),
        decreases places - i,
    {
        let bit = place_bit(i);
        let old_byte = buf[i / 8];
        assert(old_byte | 0u8 == old_byte) by (bit_vector);
        assert(0u8 | 1u8 == 1u8 && 1u8 | 1u8 == 1u8) by (bit_vector);
        buf[i / 8] = old_byte | bit;
        i = i + 1;
    }
    buf
}

/// The step that follows `pos`.
pub fn next_pos(pos: usize) -> (next: usize)
    ensures
        next == next_pos_spec(pos),
        next < STEPS,
{
    if pos >= STEPS - 1 {
        0
    } else {
        pos + 1
    }
}

} // verus!
