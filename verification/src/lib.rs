//! Board logic for the Pimoroni Pico Explorer base (RP2040): the button
//! wiring, the scaling of analogue readings, the rounding of delays and the
//! settings of the display's SPI bus, each with a proved contract.
use vstd::prelude::*;

pub mod adc;
pub mod buttons;
pub mod delay;
pub mod display;

verus! {

/// Frequency of the external crystal oscillator fitted to the board, in Hz.
pub const XOSC_CRYSTAL_FREQ: u32 = 12_000_000;

/// The two motor drivers. Motor 1 is driven from GPIO 8 (negative) and
/// GPIO 9 (positive), motor 2 from GPIO 10 and GPIO 11.
#[derive(Clone, Copy, Debug, PartialEq, Eq, Structural)]
pub enum Motor {
    _1,
    _2,
}

} // verus!
