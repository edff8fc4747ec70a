//! Settings of the coin acceptor.

use vstd::prelude::*;

verus! {

/// The line of the coin acceptor and the pace of polling.
#[derive(Debug, Clone)]
pub struct CctalkDevConfig {
    pub driver: String,
    pub addr: u8,
    pub poll_period_ms: u64,
}

} // verus!
