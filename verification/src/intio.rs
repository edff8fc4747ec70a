//! Digital inputs wired through to digital outputs.

use vstd::prelude::*;
use gpio::GpioValue;

verus! {

/// Declares `gpio::GpioValue`, the level of a line as the GPIO layer states
/// it, with its two variants `Low` and `High` as that crate defines them.
#[verifier::external_type_specification]
pub struct ExGpioValue(GpioValue);

/// Pause between two rounds of the wiring loop, in milliseconds.
pub const CYCLE_DELAY_MS: u64 = 10;

/// Logic level of a digital line.
#[derive(Debug, Clone, Copy, PartialEq, Eq, Structural)]
pub enum PinLevel {
    High,
    Low,
}

impl PinLevel {
    /// The same level in the terms of the GPIO layer.
    pub open spec fn as_gpioval_spec(self) -> GpioValue {
        match self {
            PinLevel::High => GpioValue::High,
            PinLevel::Low => GpioValue::Low,
        }
    }

    /// The opposite level.
    pub open spec fn inverse_spec(self) -> PinLevel {
        match self {
            PinLevel::High => PinLevel::Low,
            PinLevel::Low => PinLevel::High,
        }
    }

    /// The same level in the terms of the GPIO layer.
    pub fn as_gpioval(&self) -> (value: GpioValue)
        ensures
            value == self.as_gpioval_spec(),
    {
        match self {
            PinLevel::High => GpioValue::High,
            PinLevel::Low => GpioValue::Low,
        }
    }

    /// The level that the GPIO layer states.
    pub fn from_gpioval(value: GpioValue) -> (level: PinLevel)
        ensures
            level.as_gpioval_spec() == value,
    {
        match value {
            GpioValue::High => PinLevel::High,
            GpioValue::Low => PinLevel::Low,
        }
    }

    /// The opposite level.
    pub fn inverse(&self) -> (level: PinLevel)
        ensures
            level == self.inverse_spec(),
    {
        match self {
            PinLevel::High => PinLevel::Low,
            PinLevel::Low => PinLevel::High,
        }
    }
}

/// The opposite of the opposite is the level itself, and no level is its
/// own opposite.
pub proof fn lemma_inverse_involution(level: PinLevel)
    ensures
        level.inverse_spec().inverse_spec() == level,
        level.inverse_spec() != level,
{
}

/// The two levels and the two values of the GPIO layer stand for each other
/// one to one.
pub proof fn lemma_gpioval_one_to_one(a: PinLevel, b: PinLevel)
    ensures
        a.as_gpioval_spec() == b.as_gpioval_spec() <==> a == b,
{
}

/// Which pins are wired through, and which level counts as active.
#[derive(Debug, Clone, Copy, PartialEq, Eq, Structural)]
pub struct IntioConfig {
    pub pin_i1: u16,
    pub pin_o1: u16,
    pub pin_i2: u16,
    pub pin_o2: u16,
    pub active_input: PinLevel,
    pub active_output: PinLevel,
}

/// The level that an output takes for a reading of its input: its active
/// level while the input is active, the opposite otherwise.
pub open spec fn apply_io_spec(
    reading: GpioValue,
    active_input: PinLevel,
    active_output: PinLevel,
) -> GpioValue {
    if reading == active_input.as_gpioval_spec() {
        active_output.as_gpioval_spec()
    } else {
        active_output.inverse_spec().as_gpioval_spec()
    }
}

/// Decides the value to set on an output from the value read on its input.
pub fn apply_io(reading: GpioValue, active_input: &PinLevel, active_output: &PinLevel) -> (value:
    GpioValue)
    ensures
        value == apply_io_spec(reading, *active_input, *active_output),
{
    if PinLevel::from_gpioval(reading) == *active_input {
        active_output.as_gpioval()
    } else {
        active_output.inverse().as_gpioval()
    }
}

} // verus!
