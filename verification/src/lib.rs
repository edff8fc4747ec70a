//! Drivers and diagnostics for the devices of a self-service kiosk.
//!
//! The heart of the crate is the link to the bill validator: `crc` and
//! `frame` lay out and read frames, `receiver` collects a response byte by
//! byte, `payload` reads the message of each command, `exchange` holds the
//! rules of an exchange, and `ccnet` runs them and keeps requests apart in
//! time. Nothing here touches a device: every function works on bytes,
//! levels and times that its caller hands in, and says what the caller has
//! to do next.
//!
//! The other modules hold the rules of the smaller devices: inputs wired to
//! outputs (`intio`), expander boards (`iobus`), the LED matrix and panel
//! (`ledmatrix`, `ledpanel`) and the card reader (`wiegand`).

pub mod bits;
pub mod ccnet;
pub mod ccnet_dev;
pub mod cctalk_dev;
pub mod cmd;
pub mod crc;
pub mod error;
pub mod exchange;
pub mod frame;
pub mod intio;
pub mod iobus;
pub mod ledmatrix;
pub mod ledpanel;
pub mod payload;
pub mod receiver;
pub mod status;
pub mod text;
pub mod utils;
pub mod wiegand;
pub mod wiegand_dev;
