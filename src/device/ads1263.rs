//! The ADS1263: ADC1 and the auxiliary ADC2.
use vstd::prelude::*;
use embedded_hal::blocking::spi::{Transfer, Write};
use embedded_hal::digital::v2::OutputPin;

use crate::commands::Command;
use crate::registers::{ADC2FSC0, ADC2OFC0};
use super::frame::{block_read_frame, decode_i16, decode_u16, integrity_mode, status_enabled};
use super::{hal_failure, Ads126x, Ads126xError, Data, DeviceError, Sealed};

verus! {

/// Marker of the ADS1263 variant.
pub struct _Ads1263;

impl Sealed for _Ads1263 {}

impl<SPI, CS, DRDY, RST> Ads126x<SPI, CS, DRDY, RST, _Ads1263> where
    SPI: Transfer<u8> + Write<u8>,
    CS: OutputPin,
    RST: OutputPin,
 {
    /// A handle over the given bus and pins, holding the interface register's reset value.
    pub fn new(spi: SPI, cs: CS, drdy: DRDY, rst: RST) -> (r: Self)
        ensures
            r.config() == 0x05,
    {
        Self::from_parts(spi, cs, drdy, rst)
    }

    /// Sends START2 to start ADC2 conversions.
    pub fn start2(&mut self) -> (r: Result<(), DeviceError>)
        ensures
            final(self).config() == old(self).config(),
            hal_failure(r),
    {
        self.send_command(Command::Start2)
    }

    /// Sends STOP2 to stop ADC2 conversions.
    pub fn stop2(&mut self) -> (r: Result<(), DeviceError>)
        ensures
            final(self).config() == old(self).config(),
            hal_failure(r),
    {
        self.send_command(Command::Stop2)
    }

    /// Reads ADC2 data with the RDATA2 command.
    pub fn read_adc2(&mut self) -> (r: Result<Data, DeviceError>)
        ensures
            final(self).config() == old(self).config(),
            r matches Err(Ads126xError::Crc) ==> integrity_mode(old(self).config()) != 0,
            !(r matches Err(Ads126xError::Crc)) && !(r matches Err(Ads126xError::Other)) ==> hal_failure(r),
            !status_enabled(old(self).config()) ==> (r matches Ok(d) ==> d.status.0 == 0),
    {
        self.read_data(Some(Command::RData2))
    }

    /// Reads the two ADC2 offset calibration registers as a signed 16-bit value.
    pub fn read_offs_cal2(&mut self) -> (r: Result<i16, DeviceError>)
        ensures
            final(self).config() == old(self).config(),
            hal_failure(r),
    {
        let mut data = block_read_frame(ADC2OFC0, 2);
        match self.exchange(&mut data) {
            Ok(_) => Ok(decode_i16(data[2], data[3])),
            Err(e) => Err(e),
        }
    }

    /// Reads the two ADC2 full-scale calibration registers as an unsigned 16-bit value.
    pub fn read_fs_cal2(&mut self) -> (r: Result<u16, DeviceError>)
        ensures
            final(self).config() == old(self).config(),
            hal_failure(r),
    {
        let mut data = block_read_frame(ADC2FSC0, 2);
        match self.exchange(&mut data) {
            Ok(_) => Ok(decode_u16(data[2], data[3])),
            Err(e) => Err(e),
        }
    }
}

} // verus!
