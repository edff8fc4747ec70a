//! The operator's side of a bill-validator session: a bill in escrow is
//! shown, and a key decides what becomes of it.

use vstd::prelude::*;
use crate::ccnet::BaudRate;
use crate::cmd;

verus! {

/// The line of the bill validator and the pace of polling.
#[derive(Debug, Clone)]
pub struct CcnetDevConfig {
    pub driver: String,
    pub addr: u8,
    pub poll_period_ms: u64,
    pub baudrate: BaudRate,
}

/// What the operator said of a bill in escrow.
#[derive(Debug, Clone, Copy, PartialEq, Eq, Structural)]
pub enum Answer {
    /// `y`: take the bill.
    Yes,
    /// `n`: do not take it.
    No,
    /// Any other key: ask again at the next poll.
    Unclear,
}

/// Reads the operator's key.
pub fn answer(key: char) -> (a: Answer)
    ensures
        key == 'y' <==> a == Answer::Yes,
        key == 'n' <==> a == Answer::No,
{
    if key == 'y' {
        Answer::Yes
    } else if key == 'n' {
        Answer::No
    } else {
        Answer::Unclear
    }
}

/// The command that follows an answer. Both clear answers end the escrow
/// with the stack command; an unclear one sends nothing.
pub fn answer_command(a: Answer) -> (command: Option<u8>)
    ensures
        a == Answer::Unclear <==> command is None,
        command matches Some(c) ==> c == cmd::STACK,
{
    match a {
        Answer::Yes => Some(cmd::STACK),
        Answer::No => Some(cmd::STACK),
        Answer::Unclear => None,
    }
}

/// Whether the key, if one was pressed, ends the session: `q` does.
pub fn quit_requested(key: Option<char>) -> (quit: bool)
    ensures
        quit == (key == Some('q')),
{
    match key {
        Some(c) => c == 'q',
        None => false,
    }
}

} // verus!
