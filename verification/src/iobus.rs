//! Expander boards on the I2C bus: a button on the input pins of a board
//! drives its output pins.

use vstd::prelude::*;
use crate::intio::PinLevel;

verus! {

/// Pause between two rounds over the boards, in milliseconds.
pub const CYCLE_DELAY_MS: u64 = 2;

/// Pause after a transfer on the bus, in milliseconds.
pub const DELAY_AFTER_TRANSFER_MS: u64 = 10;

/// The expander chips that are known.
#[derive(Debug, Clone, Copy, PartialEq, Eq, Structural)]
pub enum Chip {
    PCF8574,
}

/// One expander board.
#[derive(Debug, Clone, Copy, PartialEq, Eq, Structural)]
pub struct IoBusDevice {
    pub chip: Chip,
    pub addr: u8,
    pub active_input: PinLevel,
    pub active_output: PinLevel,
    pub input_mask: u8,
    pub output_mask: u8,
}

/// The bus and the boards on it.
#[derive(Debug, Clone)]
pub struct IobusConfig {
    pub driver: String,
    pub devices: Vec<IoBusDevice>,
}

/// The byte that sets up a board. A PCF8574 reads a pin that is written
/// high, so the byte is the mask of the input pins.
pub fn init(dev: &IoBusDevice) -> (byte: u8)
    ensures
        byte == dev.input_mask,
{
    match dev.chip {
        Chip::PCF8574 => dev.input_mask,
    }
}

/// The byte that switches the outputs of a PCF8574 on (`val`) or off: the
/// pins of `output_mask` take the active level or its opposite, every other
/// pin the opposite of that, and the pins of `input_mask` stay high.
pub open spec fn write_pcf8574_spec(
    active_out: PinLevel,
    output_mask: u8,
    input_mask: u8,
    val: bool,
) -> u8 {
    let drive_high = val == (active_out == PinLevel::High);
    (if drive_high {
        output_mask
    } else {
        !output_mask
    }) | input_mask
}

/// Each pin on its own: an input pin is written high; an output pin is
/// written high exactly when it is to be driven high; any other pin gets the
/// opposite of the output pins.
pub proof fn lemma_write_pcf8574_by_pin(
    active_out: PinLevel,
    output_mask: u8,
    input_mask: u8,
    val: bool,
    pin: u8,
)
    requires
        pin < 8,
    ensures
        ({
            let byte = write_pcf8574_spec(active_out, output_mask, input_mask, val);
            let drive_high = val == (active_out == PinLevel::High);
            let is_input = (input_mask >> pin) & 1 == 1;
            let is_output = (output_mask >> pin) & 1 == 1;
            ((byte >> pin) & 1 == 1) == (is_input || (is_output == drive_high))
        }),
{
    let drive_high = val == (active_out == PinLevel::High);
    if drive_high {
        assert((((output_mask | input_mask) >> pin) & 1 == 1) == ((input_mask >> pin) & 1 == 1 || (
        output_mask >> pin) & 1 == 1)) by (bit_vector)
            requires
                pin < 8,
        ;
    } else {
        assert(((((!output_mask) | input_mask) >> pin) & 1 == 1) == ((input_mask >> pin) & 1 == 1
            || !((output_mask >> pin) & 1 == 1))) by (bit_vector)
            requires
                pin < 8,
        ;
    }
}

/// Computes the byte to write to a PCF8574.
pub fn write_pcf8574(active_out: &PinLevel, output_mask: u8, input_mask: u8, val: bool) -> (byte:
    u8)
    ensures
        byte == write_pcf8574_spec(*active_out, output_mask, input_mask, val),
{
    let buf = if val {
        match active_out {
            PinLevel::High => output_mask,
            PinLevel::Low => !output_mask,
        }
    } else {
        match active_out {
            PinLevel::High => !output_mask,
            PinLevel::Low => output_mask,
        }
    };
    buf | input_mask
}

/// Whether the button of a PCF8574 is pushed, given the byte read from the
/// chip: some pin of `input_mask` is high, for an input that is active
/// high; none is, for one that is active low.
pub open spec fn read_pcf8574_spec(byte: u8, active_in: PinLevel, input_mask: u8) -> bool {
    let is_high = byte & input_mask > 0;
    match active_in {
        PinLevel::High => is_high,
        PinLevel::Low => !is_high,
    }
}

/// Whether bit `pin` is set in both `byte` and `mask`.
pub open spec fn high_input(byte: u8, mask: u8, pin: u8) -> bool {
    (byte >> pin) & 1 == 1 && (mask >> pin) & 1 == 1
}

/// Each pin on its own: the inputs read high exactly when some pin of the
/// mask is high in the byte.
pub proof fn lemma_read_pcf8574_by_pin(byte: u8, input_mask: u8)
    ensures
        (byte & input_mask > 0) == (high_input(byte, input_mask, 0) || high_input(
            byte,
            input_mask,
            1,
        ) || high_input(byte, input_mask, 2) || high_input(byte, input_mask, 3) || high_input(
            byte,
            input_mask,
            4,
        ) || high_input(byte, input_mask, 5) || high_input(byte, input_mask, 6) || high_input(
            byte,
            input_mask,
            7,
        )),
{
    assert((byte & input_mask > 0) == (((byte >> 0u8) & 1 == 1 && (input_mask >> 0u8) & 1 == 1) || ((
    byte >> 1u8) & 1 == 1 && (input_mask >> 1u8) & 1 == 1) || ((byte >> 2u8) & 1 == 1 && (input_mask
        >> 2u8) & 1 == 1) || ((byte >> 3u8) & 1 == 1 && (input_mask >> 3u8) & 1 == 1) || ((byte
        >> 4u8) & 1 == 1 && (input_mask >> 4u8) & 1 == 1) || ((byte >> 5u8) & 1 == 1 && (input_mask
        >> 5u8) & 1 == 1) || ((byte >> 6u8) & 1 == 1 && (input_mask >> 6u8) & 1 == 1) || ((byte
        >> 7u8) & 1 == 1 && (input_mask >> 7u8) & 1 == 1))) by (bit_vector);
}

/// Reads the state of the button out of the byte read from a PCF8574.
pub fn read_pcf8574(byte: u8, active_in: &PinLevel, input_mask: u8) -> (pushed: bool)
    ensures
        pushed == read_pcf8574_spec(byte, *active_in, input_mask),
{
    let but_is_high = (byte & input_mask) > 0;
    match active_in {
        PinLevel::High => but_is_high,
        PinLevel::Low => !but_is_high,
    }
}

/// The byte to write to a board to switch its outputs.
pub fn write_dev(dev: &IoBusDevice, val: bool) -> (byte: u8)
    ensures
        byte == write_pcf8574_spec(dev.active_output, dev.output_mask, dev.input_mask, val),
{
    match dev.chip {
        Chip::PCF8574 => write_pcf8574(&dev.active_output, dev.output_mask, dev.input_mask, val),
    }
}

/// The state of a board's button, given the byte read from the board.
pub fn read_dev(dev: &IoBusDevice, byte: u8) -> (pushed: bool)
    ensures
        pushed == read_pcf8574_spec(byte, dev.active_input, dev.input_mask),
{
    match dev.chip {
        Chip::PCF8574 => read_pcf8574(byte, &dev.active_input, dev.input_mask),
    }
}

} // verus!
