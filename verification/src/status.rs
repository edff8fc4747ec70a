//! Status codes: the first byte of a device's answer to a poll.

use vstd::prelude::*;

verus! {

pub const POWER_UP: u8 = 0x10;

pub const INITIALIZE: u8 = 0x13;

pub const IDLING: u8 = 0x14;

pub const ACCEPTING: u8 = 0x15;

pub const STACKING: u8 = 0x17;

pub const RETURNING: u8 = 0x18;

pub const DISABLED: u8 = 0x19;

pub const HOLDING: u8 = 0x1A;

pub const BUSY: u8 = 0x1B;

pub const REJECTING: u8 = 0x1C;

pub const DISPENSING: u8 = 0x1D;

pub const UPLOADING: u8 = 0x1E;

pub const SETTING_TYPE_CASSETTE: u8 = 0x21;

pub const DISPENSED: u8 = 0x25;

pub const UNLOADED: u8 = 0x26;

pub const INVALID_BILL_NUMBER: u8 = 0x28;

pub const SET_CASSETTE_TYPE: u8 = 0x29;

pub const INVALID_COMMAND: u8 = 0x30;

pub const DROP_CASSETTE_FULL: u8 = 0x41;

pub const DROP_CASSETTE_REMOVED: u8 = 0x42;

pub const JAM_IN_ACCEPTOR: u8 = 0x43;

pub const JAM_IN_STACKER: u8 = 0x44;

pub const CHEATED: u8 = 0x45;

pub const ESCROW: u8 = 0x80;

pub const PACKED: u8 = 0x81;

pub const RETURNED: u8 = 0x82;

} // verus!
