//! Settings of the card reader.

use vstd::prelude::*;
use crate::intio::PinLevel;

verus! {

/// The two wires of the reader and the timing of its decoder.
#[derive(Debug, Clone, Copy, PartialEq, Eq, Structural)]
pub struct WiegandConfig {
    pub pin_0: u16,
    pub pin_1: u16,
    pub poll_delay_us: u64,
    pub cutoff_time_ms: u64,
    pub active_level: PinLevel,
}

} // verus!
