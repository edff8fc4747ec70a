//! What the device sessions share: the settings of all devices, and the
//! signal that ends a session.

use vstd::prelude::*;
use std::sync::mpsc::Receiver;
use std::sync::mpsc::TryRecvError;
use crate::ccnet_dev::CcnetDevConfig;
use crate::cctalk_dev::CctalkDevConfig;
use crate::intio::IntioConfig;
use crate::iobus::IobusConfig;
use crate::ledmatrix::LedmatrixConfig;
use crate::ledpanel::LedpanelConfig;
use crate::wiegand_dev::WiegandConfig;

verus! {

/// Declares `std::sync::mpsc::Receiver`, the receiving end of a channel, so
/// that it can stand in a field. Nothing is known of what it holds.
#[verifier::external_type_specification]
#[verifier::external_body]
#[verifier::reject_recursive_types(T)]
pub struct ExReceiver<T>(Receiver<T>);

/// Declares `std::sync::mpsc::TryRecvError`, the reason why a channel gave
/// no value, with its two variants `Empty` and `Disconnected` as the
/// standard library defines them.
#[verifier::external_type_specification]
pub struct ExTryRecvError(TryRecvError);

/// The settings of all devices.
#[derive(Debug, Clone)]
pub struct Config {
    pub intio: IntioConfig,
    pub iobus: IobusConfig,
    pub ledmatrix: LedmatrixConfig,
    pub ledpanel: LedpanelConfig,
    pub rfid: WiegandConfig,
    pub ccnet: CcnetDevConfig,
    pub cctalk: CctalkDevConfig,
}

/// Ends a session when the other end of its channel is gone: the thread
/// that holds that end drops it once the operator has pressed Enter.
pub struct Exiter {
    rx: Receiver<()>,
}

/// Calls `Receiver::try_recv` of the standard library. Nothing is claimed of
/// what it returns: that depends on the other end of the channel.
#[verifier::external_body]
fn try_recv(rx: &Receiver<()>) -> (outcome: Result<(), TryRecvError>) {
    rx.try_recv()
}

/// Whether what the channel returned ends the session: only a channel whose
/// other end is gone does. A value or an empty channel does not.
pub fn exit_requested(outcome: Result<(), TryRecvError>) -> (exit: bool)
    ensures
        exit == (outcome == Err::<(), TryRecvError>(TryRecvError::Disconnected)),
{
    match outcome {
        Ok(()) => false,
        Err(TryRecvError::Empty) => false,
        Err(TryRecvError::Disconnected) => true,
    }
}

impl Exiter {
    /// An exiter that watches `rx`.
    pub fn new(rx: Receiver<()>) -> (exiter: Exiter)
        ensures
            exiter.channel() == rx,
    {
        Exiter { rx }
    }

    /// Whether the session is to end now: asks the channel once and decides
    /// as `exit_requested` does. What the channel answers is not known
    /// beforehand, so nothing is promised of the result.
    pub fn check(&self) -> (exit: bool) {
        exit_requested(try_recv(&self.rx))
    }

    /// The channel that the exiter watches.
    pub closed spec fn channel(self) -> Receiver<()> {
        self.rx
    }
}

} // verus!
