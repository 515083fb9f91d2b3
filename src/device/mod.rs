//! The device handle and the bus transactions it performs.
use vstd::prelude::*;
use core::marker::PhantomData;
use embedded_hal::blocking::delay::{DelayMs, DelayUs};
use embedded_hal::blocking::spi::{Transfer, Write};
use embedded_hal::digital::v2::{InputPin, OutputPin};

pub mod ads1262;
pub mod ads1263;
pub mod frame;
mod hal;

use crate::commands::Command;
use crate::registers::{bit, bit_of, Interface, Register, FSCAL0, INTERFACE, OFCAL0};
use self::frame::{
    integrity_mode, status_enabled, block_read_frame, data_request, decode_data, decode_i24, decode_u24, read_reg_frame,
    write_reg_frame,
};
use self::hal::{pause_ms, pause_us, pin_high, pin_is_low, pin_low, spi_transfer, spi_write};

verus! {

/// Status byte that leads a conversion read when the interface register enables it.
#[derive(Debug, Clone, Copy, PartialEq, Eq, Structural)]
pub struct Status(pub u8);

impl Status {
    /// A reset has occurred.
    pub fn reset(&self) -> (r: bool)
        ensures
            r == bit_of(self.0, 0),
    {
        bit(self.0, 0)
    }

    /// Amplifier differential output alarm.
    pub fn pgad_alm(&self) -> (r: bool)
        ensures
            r == bit_of(self.0, 1),
    {
        bit(self.0, 1)
    }

    /// Amplifier high-side alarm.
    pub fn pgah_alm(&self) -> (r: bool)
        ensures
            r == bit_of(self.0, 2),
    {
        bit(self.0, 2)
    }

    /// Amplifier low-side alarm.
    pub fn pgal_alm(&self) -> (r: bool)
        ensures
            r == bit_of(self.0, 3),
    {
        bit(self.0, 3)
    }

    /// Low reference alarm.
    pub fn ref_alm(&self) -> (r: bool)
        ensures
            r == bit_of(self.0, 4),
    {
        bit(self.0, 4)
    }

    /// The external clock is in use.
    pub fn extclk(&self) -> (r: bool)
        ensures
            r == bit_of(self.0, 5),
    {
        bit(self.0, 5)
    }

    /// ADC1 has new data.
    pub fn adc1(&self) -> (r: bool)
        ensures
            r == bit_of(self.0, 6),
    {
        bit(self.0, 6)
    }

    /// ADC2 has new data.
    pub fn adc2(&self) -> (r: bool)
        ensures
            r == bit_of(self.0, 7),
    {
        bit(self.0, 7)
    }

    /// Any of the four alarm bits is set.
    pub fn alarm(&self) -> (r: bool)
        ensures
            r == (bit_of(self.0, 1) || bit_of(self.0, 2) || bit_of(self.0, 3) || bit_of(self.0, 4)),
    {
        self.pgad_alm() || self.pgah_alm() || self.pgal_alm() || self.ref_alm()
    }
}

/// The marker of a device variant; only the variants of this crate have it.
pub trait Sealed {}

/// Result of a conversion read of ADC1 or ADC2.
#[derive(Debug)]
pub struct Data {
    /// The status byte, zero where the interface register disables it.
    pub status: Status,
    /// The conversion code.
    pub code: i32,
}

impl Data {
    /// Pairs a status with a code.
    pub fn new(status: Status, code: i32) -> (r: Self)
        ensures
            r.status == status,
            r.code == code,
    {
        Self { status, code }
    }
}

/// Errors of the driver.
#[derive(Debug)]
pub enum Ads126xError<SpiErr, IoErr> {
    /// The bus exchange failed.
    SpiErr(SpiErr),
    /// Setting or reading a pin failed.
    IoErr(IoErr),
    /// The integrity byte of a conversion read did not match its code bytes.
    Crc,
    /// The response was too short to decode.
    Other,
}

/// The errors of the driver: which kind of call failed, the outside error value dropped.
pub type DeviceError = Ads126xError<(), ()>;

/// The operation failed, if at all, on the bus or on a pin.
pub open spec fn hal_failure<T>(r: Result<T, DeviceError>) -> bool {
    r is Err ==> (r->Err_0 is SpiErr || r->Err_0 is IoErr)
}

/// The operation failed, if at all, on a pin.
pub open spec fn pin_failure<T>(r: Result<T, DeviceError>) -> bool {
    r is Err ==> r->Err_0 is IoErr
}

/// What a bounded wait for DRDY does after a poll.
#[derive(Debug, Clone, Copy, PartialEq, Eq, Structural)]
pub enum PollStep {
    /// DRDY is active: stop, ready.
    Ready,
    /// DRDY is inactive and polls are left: sleep, then poll again.
    Sleep,
    /// DRDY is inactive and that was the last poll: stop, not ready.
    GiveUp,
}

/// The decision after poll number `polls_done + 1` of at most `max_polls`, which found DRDY
/// active (`ready`) or not.
pub fn after_poll(ready: bool, polls_done: u32, max_polls: u32) -> (r: PollStep)
    ensures
        ready ==> r == PollStep::Ready,
        !ready && polls_done + 1 < max_polls ==> r == PollStep::Sleep,
        !ready && polls_done + 1 >= max_polls ==> r == PollStep::GiveUp,
{
    if ready {
        PollStep::Ready
    } else if (polls_done as u64) + 1 < max_polls as u64 {
        PollStep::Sleep
    } else {
        PollStep::GiveUp
    }
}

/// One step of the reset sequence.
#[derive(Debug, Clone, Copy, PartialEq, Eq, Structural)]
pub enum ResetStep {
    /// Drive the reset line high (`true`) or low.
    Drive(bool),
    /// Wait this many milliseconds.
    WaitMs(u32),
}

/// The reset sequence: high, low, high, each held for 100 ms.
pub open spec fn reset_sequence_spec() -> Seq<ResetStep> {
    seq![
        ResetStep::Drive(true),
        ResetStep::WaitMs(100),
        ResetStep::Drive(false),
        ResetStep::WaitMs(100),
        ResetStep::Drive(true),
        ResetStep::WaitMs(100),
    ]
}

/// The reset sequence: high, low, high, each held for 100 ms.
pub fn reset_sequence() -> (r: Vec<ResetStep>)
    ensures
        r@ == reset_sequence_spec(),
{
    let v = vec![
        ResetStep::Drive(true),
        ResetStep::WaitMs(100),
        ResetStep::Drive(false),
        ResetStep::WaitMs(100),
        ResetStep::Drive(true),
        ResetStep::WaitMs(100),
    ];
    assert(v@ =~= reset_sequence_spec());
    v
}

/// Generic ADS126x device; use `Ads1262` or `Ads1263`.
pub struct Ads126x<SPI, CS, DRDY, RST, X> where X: Sealed {
    _x: PhantomData<X>,
    spi: SPI,
    cs: CS,
    drdy: DRDY,
    rst: RST,
    interface: Interface,
}

impl<SPI, CS, DRDY, RST, X> Ads126x<SPI, CS, DRDY, RST, X> where X: Sealed {
    /// The interface register as last written, which decides the framing of conversion reads.
    pub closed spec fn config(&self) -> u8 {
        self.interface.0
    }

    /// The interface register as last written.
    pub fn interface(&self) -> (r: Interface)
        ensures
            r.0 == self.config(),
    {
        self.interface
    }
}

impl<SPI, CS, DRDY, RST, X> Ads126x<SPI, CS, DRDY, RST, X> where
    SPI: Transfer<u8> + Write<u8>,
    CS: OutputPin,
    RST: OutputPin,
    X: Sealed,
 {
    /// A handle over the given bus and pins, holding the interface register's reset value.
    pub(crate) fn from_parts(spi: SPI, cs: CS, drdy: DRDY, rst: RST) -> (r: Self)
        ensures
            r.config() == 0x05,
    {
        Self { _x: PhantomData, spi, cs, drdy, rst, interface: Interface(0x05) }
    }

    /// Resets the device: the reset line goes high, low and high again, 100 ms each.
    pub fn reset<DELAY>(&mut self, mut delay: DELAY) -> (r: Result<(), DeviceError>) where
        DELAY: DelayMs<u32>,
        ensures
            final(self).config() == old(self).config(),
            pin_failure(r),
    {
        let steps = reset_sequence();
        let mut i: usize = 0;
        while i < steps.len()
            invariant
                self.config() == old(self).config(),
                steps@ == reset_sequence_spec(),
            decreases steps.len() - i,
        {
            match steps[i] {
                ResetStep::Drive(true) => {
                    if pin_high(&mut self.rst).is_err() {
                        return Err(Ads126xError::IoErr(()));
                    }
                },
                ResetStep::Drive(false) => {
                    if pin_low(&mut self.rst).is_err() {
                        return Err(Ads126xError::IoErr(()));
                    }
                },
                ResetStep::WaitMs(ms) => {
                    pause_ms(&mut delay, ms);
                },
            }
            i = i + 1;
        }
        Ok(())
    }

    /// Selects the device, exchanges `buf` and deselects it; the words received come back.
    fn exchange(&mut self, buf: &mut Vec<u8>) -> (r: Result<Vec<u8>, DeviceError>)
        ensures
            final(self).config() == old(self).config(),
            final(buf)@.len() == old(buf)@.len(),
            hal_failure(r),
    {
        if pin_low(&mut self.cs).is_err() {
            return Err(Ads126xError::IoErr(()));
        }
        let resp = match spi_transfer(&mut self.spi, buf) {
            Ok(w) => w,
            Err(_) => return Err(Ads126xError::SpiErr(())),
        };
        if pin_high(&mut self.cs).is_err() {
            return Err(Ads126xError::IoErr(()));
        }
        Ok(resp)
    }

    /// Selects the device, sends `words` and deselects it.
    fn send(&mut self, words: &[u8]) -> (r: Result<(), DeviceError>)
        ensures
            final(self).config() == old(self).config(),
            hal_failure(r),
    {
        if pin_low(&mut self.cs).is_err() {
            return Err(Ads126xError::IoErr(()));
        }
        if spi_write(&mut self.spi, words).is_err() {
            return Err(Ads126xError::SpiErr(()));
        }
        if pin_high(&mut self.cs).is_err() {
            return Err(Ads126xError::IoErr(()));
        }
        Ok(())
    }

    /// Reads register `REG`: three bytes are exchanged and the third one received is its value.
    pub fn read_reg<REG>(&mut self) -> (r: Result<REG, DeviceError>) where
        REG: Register,
        ensures
            final(self).config() == old(self).config(),
            hal_failure(r),
    {
        let mut data = read_reg_frame(REG::address());
        match self.exchange(&mut data) {
            Ok(_) => Ok(REG::from_byte(data[2])),
            Err(e) => Err(e),
        }
    }

    /// Writes `reg` to its register. Writing the interface register also updates the copy of
    /// it that the handle keeps, as soon as the bus has taken the bytes, so that later
    /// conversion reads are framed by it.
    pub fn write_reg<REG>(&mut self, reg: REG) -> (r: Result<(), DeviceError>) where
        REG: Register,
        ensures
            hal_failure(r),
            REG::address_spec() != INTERFACE ==> final(self).config() == old(self).config(),
            REG::address_spec() == INTERFACE && r is Ok ==> final(self).config() == reg.byte(),
            r matches Err(Ads126xError::SpiErr(_)) ==> final(self).config() == old(self).config(),
            final(self).config() == old(self).config() || final(self).config() == reg.byte(),
    {
        let addr = REG::address();
        let byte = reg.into_byte();
        let data = write_reg_frame(addr, byte);
        if pin_low(&mut self.cs).is_err() {
            return Err(Ads126xError::IoErr(()));
        }
        if spi_write(&mut self.spi, data.as_slice()).is_err() {
            return Err(Ads126xError::SpiErr(()));
        }
        if addr == INTERFACE {
            self.interface = Interface(byte);
        }
        if pin_high(&mut self.cs).is_err() {
            return Err(Ads126xError::IoErr(()));
        }
        Ok(())
    }

    /// Sends the opcode of `cmd`, alone.
    fn send_command(&mut self, cmd: Command) -> (r: Result<(), DeviceError>)
        ensures
            final(self).config() == old(self).config(),
            hal_failure(r),
    {
        let data = vec![cmd.opcode()];
        self.send(data.as_slice())
    }

    /// Reads a conversion result, after the opcode of `cmd` if there is one; the length and
    /// layout of the exchange follow the interface register as last written.
    fn read_data(&mut self, cmd: Option<Command>) -> (r: Result<Data, DeviceError>)
        ensures
            final(self).config() == old(self).config(),
            r matches Err(Ads126xError::Crc) ==> integrity_mode(old(self).config()) != 0,
            !(r matches Err(Ads126xError::Crc)) && !(r matches Err(Ads126xError::Other)) ==> hal_failure(r),
            !status_enabled(old(self).config()) ==> (r matches Ok(d) ==> d.status.0 == 0),
    {
        let mut buf = data_request(&self.interface, cmd);
        let resp = match self.exchange(&mut buf) {
            Ok(w) => w,
            Err(e) => return Err(e),
        };
        decode_data(&self.interface, cmd.is_some(), resp.as_slice())
    }

    /// Sends START1 to start ADC1 conversions.
    pub fn start1(&mut self) -> (r: Result<(), DeviceError>)
        ensures
            final(self).config() == old(self).config(),
            hal_failure(r),
    {
        self.send_command(Command::Start1)
    }

    /// Sends STOP1 to stop ADC1 conversions.
    pub fn stop1(&mut self) -> (r: Result<(), DeviceError>)
        ensures
            final(self).config() == old(self).config(),
            hal_failure(r),
    {
        self.send_command(Command::Stop1)
    }

    /// Reads ADC1 data with the RDATA1 command.
    pub fn read_adc1(&mut self) -> (r: Result<Data, DeviceError>)
        ensures
            final(self).config() == old(self).config(),
            r matches Err(Ads126xError::Crc) ==> integrity_mode(old(self).config()) != 0,
            !(r matches Err(Ads126xError::Crc)) && !(r matches Err(Ads126xError::Other)) ==> hal_failure(r),
            !status_enabled(old(self).config()) ==> (r matches Ok(d) ==> d.status.0 == 0),
    {
        self.read_data(Some(Command::RData1))
    }

    /// Reads ADC1 data directly, with no command. Only valid once DRDY has gone low after a
    /// conversion was started; otherwise the data are stale.
    pub fn read_direct(&mut self) -> (r: Result<Data, DeviceError>)
        ensures
            final(self).config() == old(self).config(),
            r matches Err(Ads126xError::Crc) ==> integrity_mode(old(self).config()) != 0,
            !(r matches Err(Ads126xError::Crc)) && !(r matches Err(Ads126xError::Other)) ==> hal_failure(r),
            !status_enabled(old(self).config()) ==> (r matches Ok(d) ==> d.status.0 == 0),
    {
        self.read_data(None)
    }

    /// Reads the three ADC1 offset calibration registers as a signed 24-bit value.
    pub fn read_offs_cal1(&mut self) -> (r: Result<i32, DeviceError>)
        ensures
            final(self).config() == old(self).config(),
            r matches Ok(v) ==> -0x80_0000 <= v < 0x80_0000,
            hal_failure(r),
    {
        let mut data = block_read_frame(OFCAL0, 3);
        match self.exchange(&mut data) {
            Ok(_) => Ok(decode_i24(data[2], data[3], data[4])),
            Err(e) => Err(e),
        }
    }

    /// Reads the three ADC1 full-scale calibration registers as an unsigned 24-bit value.
    pub fn read_fs_cal1(&mut self) -> (r: Result<u32, DeviceError>)
        ensures
            final(self).config() == old(self).config(),
            r matches Ok(v) ==> v < 0x100_0000,
            hal_failure(r),
    {
        let mut data = block_read_frame(FSCAL0, 3);
        match self.exchange(&mut data) {
            Ok(_) => Ok(decode_u24(data[2], data[3], data[4])),
            Err(e) => Err(e),
        }
    }
}

impl<SPI, CS, DRDY, RST, X> Ads126x<SPI, CS, DRDY, RST, X> where
    SPI: Transfer<u8> + Write<u8>,
    CS: OutputPin,
    DRDY: InputPin,
    RST: OutputPin,
    X: Sealed,
 {
    /// Whether DRDY is active, that is low.
    pub fn drdy(&mut self) -> (r: Result<bool, DeviceError>)
        ensures
            final(self).config() == old(self).config(),
            pin_failure(r),
    {
        match pin_is_low(&self.drdy) {
            Ok(b) => Ok(b),
            Err(_) => Err(Ads126xError::IoErr(())),
        }
    }

    /// Polls DRDY up to `max_polls` times, sleeping `us` microseconds between polls, as
    /// `after_poll` decides. `Ok(true)` once DRDY is active, `Ok(false)` if no poll found it so.
    pub fn wait_drdy_bounded<DELAY>(&mut self, mut delay: DELAY, us: u32, max_polls: u32) -> (r: Result<bool, DeviceError>) where
        DELAY: DelayUs<u32>,
        ensures
            final(self).config() == old(self).config(),
            pin_failure(r),
            max_polls == 0 ==> r == Ok::<bool, DeviceError>(false),
            r == Ok::<bool, DeviceError>(true) ==> max_polls > 0,
    {
        if max_polls == 0 {
            return Ok(false);
        }
        let mut n: u32 = 0;
        loop
            invariant
                n < max_polls,
                self.config() == old(self).config(),
            decreases max_polls - n,
        {
            let ready = match self.drdy() {
                Ok(b) => b,
                Err(e) => return Err(e),
            };
            match after_poll(ready, n, max_polls) {
                PollStep::Ready => return Ok(true),
                PollStep::GiveUp => return Ok(false),
                PollStep::Sleep => {
                    pause_us(&mut delay, us);
                    n = n + 1;
                },
            }
        }
    }
}

} // verus!
