//! Register-level driver for the ADS1262 / ADS1263 family of 32-bit delta-sigma converters.
use vstd::prelude::*;

pub mod commands;
pub mod crc8;
pub mod device;
pub mod registers;

use device::ads1262::_Ads1262;
use device::ads1263::_Ads1263;
use device::Ads126x;

verus! {

/// An ADS1262 device.
pub type Ads1262<SPI, CS, DRDY, RST> = Ads126x<SPI, CS, DRDY, RST, _Ads1262>;

/// An ADS1263 device.
pub type Ads1263<SPI, CS, DRDY, RST> = Ads126x<SPI, CS, DRDY, RST, _Ads1263>;

/// Stands for the DRDY pin where it is not connected.
pub struct DrdyNoConnection;

} // verus!
