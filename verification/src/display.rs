//! Settings of the ST7789 LCD and of the SPI bus that drives it.
use vstd::prelude::*;
use fugit::RateExtU32;

verus! {

/// Width of the LCD, in pixels.
pub const DISPLAY_WIDTH: u16 = 240;

/// Height of the LCD, in pixels.
pub const DISPLAY_HEIGHT: u16 = 240;

/// Length of the buffer through which pixel data is sent over SPI, in bytes.
pub const SPI_BUFFER_LEN: usize = 1024;

/// Frequency of the clock that feeds the SPI peripheral, in MHz.
pub const SPI_PERIPHERAL_MHZ: u32 = 125;

/// Bit rate requested for the display's SPI bus, in MHz.
pub const SPI_BAUDRATE_MHZ: u32 = 16;

/// The two frequencies, in Hz, with which the SPI bus is initialised.
#[derive(Clone, Copy, Debug, PartialEq, Eq, Structural)]
pub struct SpiClocks {
    /// Frequency of the clock that feeds the SPI peripheral.
    pub peripheral_hz: u32,
    /// Bit rate requested for the bus.
    pub baudrate_hz: u32,
}

/// Calls fugit's `RateExtU32::MHz` on a `u32`, giving a `Rate<u32, 1, 1>`
/// (a rate counted in hertz), and reads it back with `Rate::to_Hz`. In
/// fugit 0.3 that `MHz` stores `1_000_000 * mhz`, computed in `u32` (so it
/// overflows above 4294 MHz, which `requires` leaves out), and `to_Hz` on a
/// rate counted in hertz returns the stored count unchanged. The contract
/// claims exactly that: the result is `mhz` times one million.
#[verifier::external_body]
fn megahertz_to_hertz(mhz: u32) -> (hz: u32)
    requires
        mhz * 1_000_000 <= u32::MAX,
    ensures
        hz == mhz * 1_000_000,
{
    mhz.MHz::<1, 1>().to_Hz()
}

/// The frequencies with which the display's SPI bus is set up: a 125 MHz
/// peripheral clock and a 16 MHz bit rate.
pub fn spi_clocks() -> (clocks: SpiClocks)
    ensures
        clocks.peripheral_hz == SPI_PERIPHERAL_MHZ * 1_000_000,
        clocks.baudrate_hz == SPI_BAUDRATE_MHZ * 1_000_000,
        clocks.peripheral_hz == 125_000_000,
        clocks.baudrate_hz == 16_000_000,
{
    SpiClocks {
        peripheral_hz: megahertz_to_hertz(SPI_PERIPHERAL_MHZ),
        baudrate_hz: megahertz_to_hertz(SPI_BAUDRATE_MHZ),
    }
}

} // verus!
