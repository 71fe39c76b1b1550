//! Driver and channel model for WS281x-family addressable LED strips on
//! Raspberry Pi boards.
//!
//! The library covers the part of the stack that can be reasoned about as
//! plain values: the closed sets of valid peripheral pins, the color-layout
//! bit packing of pixel words, the channel and configuration builders with
//! their validation rules, the error taxonomy, and the driver's render
//! lifecycle (unopened, active, stopped) with its idempotent teardown.
//! The privileged memory-mapped hardware access itself lives outside this
//! crate; callers perform those calls and feed each hardware outcome back
//! into the [`driver::Driver`] state machine.

pub mod channel;
pub mod driver;
pub mod error;
pub mod pins;
pub mod platform;
pub mod strip;

pub use channel::Channel;
pub use driver::{Driver, DriverBuilder, DriverState};
pub use error::ErrorCode;
pub use pins::{PcmPin, PwmPin, SpiPin};
pub use platform::PiInfo;
pub use strip::StripType;
