//! The ADS1262: ADC1 only.
use vstd::prelude::*;
use embedded_hal::blocking::spi::{Transfer, Write};
use embedded_hal::digital::v2::OutputPin;

use super::{Ads126x, Sealed};

verus! {

/// Marker of the ADS1262 variant.
pub struct _Ads1262;

impl Sealed for _Ads1262 {}

impl<SPI, CS, DRDY, RST> Ads126x<SPI, CS, DRDY, RST, _Ads1262> where
    SPI: Transfer<u8> + Write<u8>,
    CS: OutputPin,
    RST: OutputPin,
 {
    /// A handle over the given bus and pins, holding the interface register's reset value.
    pub fn new(spi: SPI, cs: CS, drdy: DRDY, rst: RST) -> (r: Self)
        ensures
            r.config() == 0x05,
    {
        Self::from_parts(spi, cs, drdy, rst)
    }
}

} // verus!
