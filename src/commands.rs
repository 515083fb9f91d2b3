//! The command opcodes of the device.
use vstd::prelude::*;

verus! {

/// A command of the serial interface.
#[derive(Debug, Clone, Copy, PartialEq, Eq, Structural)]
pub enum Command {
    /// No operation.
    Nop,
    /// Resets the converter and its registers to their defaults.
    Reset,
    /// Starts conversions of ADC1.
    Start1,
    /// Stops conversions of ADC1.
    Stop1,
    /// Starts conversions of ADC2.
    Start2,
    /// Stops conversions of ADC2.
    Stop2,
    /// Reads the ADC1 data holding buffer.
    RData1,
    /// Reads the ADC2 data holding buffer.
    RData2,
    /// ADC1 system offset calibration.
    Syocal1,
    /// ADC1 system gain calibration.
    Sygcal1,
    /// ADC1 self offset calibration.
    Sfocal1,
    /// ADC2 system offset calibration.
    Syocal2,
    /// ADC2 system gain calibration.
    Sygcal2,
    /// ADC2 self offset calibration.
    Sfocal2,
    /// Reads registers; the register address is added to the opcode.
    RReg,
    /// Writes registers; the register address is added to the opcode.
    WReg,
}

impl Command {
    /// The base opcode of the command.
    pub open spec fn opcode_spec(&self) -> u8 {
        match self {
            Command::Nop => 0x00,
            Command::Reset => 0x06,
            Command::Start1 => 0x08,
            Command::Stop1 => 0x0A,
            Command::Start2 => 0x0C,
            Command::Stop2 => 0x0E,
            Command::RData1 => 0x12,
            Command::RData2 => 0x14,
            Command::Syocal1 => 0x16,
            Command::Sygcal1 => 0x17,
            Command::Sfocal1 => 0x19,
            Command::Syocal2 => 0x1B,
            Command::Sygcal2 => 0x1C,
            Command::Sfocal2 => 0x1E,
            Command::RReg => 0x20,
            Command::WReg => 0x40,
        }
    }

    /// The base opcode of the command.
    pub fn opcode(&self) -> (r: u8)
        ensures
            r == self.opcode_spec(),
    {
        match self {
            Command::Nop => 0x00,
            Command::Reset => 0x06,
            Command::Start1 => 0x08,
            Command::Stop1 => 0x0A,
            Command::Start2 => 0x0C,
            Command::Stop2 => 0x0E,
            Command::RData1 => 0x12,
            Command::RData2 => 0x14,
            Command::Syocal1 => 0x16,
            Command::Sygcal1 => 0x17,
            Command::Sfocal1 => 0x19,
            Command::Syocal2 => 0x1B,
            Command::Sygcal2 => 0x1C,
            Command::Sfocal2 => 0x1E,
            Command::RReg => 0x20,
            Command::WReg => 0x40,
        }
    }

    /// The opcode that addresses register `reg`: the base opcode plus the address.
    pub fn reg(&self, reg: u8) -> (r: u8)
        requires
            self.opcode_spec() + reg <= 0xFF,
        ensures
            r == self.opcode_spec() + reg,
    {
        self.opcode() + reg
    }
}

} // verus!
