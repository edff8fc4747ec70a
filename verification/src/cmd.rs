//! Command codes of the bill-validator link.

use vstd::prelude::*;

verus! {

pub const GET_STATUS: u8 = 0x31;

pub const POLL: u8 = 0x33;

pub const STACK: u8 = 0x35;

pub const RETURN: u8 = 0x36;

pub const EXT_IDENT: u8 = 0x3E;

pub const GET_BILL_TABLE: u8 = 0x41;

pub const REC_CASSETTE_STATUS: u8 = 0x70;

} // verus!
