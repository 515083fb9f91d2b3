use std::cell::RefCell;
use std::collections::VecDeque;
use std::rc::Rc;

use ads126x::device::frame::{
    block_read_frame, data_len, data_request, decode_data, decode_i16, decode_i24, read_reg_frame,
    write_reg_frame,
};
use ads126x::device::{after_poll, reset_sequence, Ads126xError, DeviceError, PollStep, ResetStep, Status};
use ads126x::registers::{Interface, Mode2};
use ads126x::commands::Command;
use ads126x::{Ads1262, Ads1263};
use embedded_hal::blocking::delay::{DelayMs, DelayUs};
use embedded_hal::blocking::spi::{Transfer, Write};
use embedded_hal::digital::v2::{InputPin, OutputPin};

#[derive(Debug, Clone, PartialEq)]
enum Event {
    Cs(bool),
    Rst(bool),
    Sent(Vec<u8>),
    Ms(u32),
    Us(u32),
}

type Log = Rc<RefCell<Vec<Event>>>;

struct Bus {
    log: Log,
    replies: VecDeque<Vec<u8>>,
    fail: bool,
}

impl Transfer<u8> for Bus {
    type Error = ();
    fn transfer<'w>(&mut self, words: &'w mut [u8]) -> Result<&'w [u8], ()> {
        if self.fail {
            return Err(());
        }
        self.log.borrow_mut().push(Event::Sent(words.to_vec()));
        if let Some(reply) = self.replies.pop_front() {
            for (w, r) in words.iter_mut().zip(reply.iter()) {
                *w = *r;
            }
        }
        Ok(words)
    }
}

impl Write<u8> for Bus {
    type Error = ();
    fn write(&mut self, words: &[u8]) -> Result<(), ()> {
        if self.fail {
            return Err(());
        }
        self.log.borrow_mut().push(Event::Sent(words.to_vec()));
        Ok(())
    }
}

struct Cs(Log);

impl OutputPin for Cs {
    type Error = ();
    fn set_low(&mut self) -> Result<(), ()> {
        self.0.borrow_mut().push(Event::Cs(false));
        Ok(())
    }
    fn set_high(&mut self) -> Result<(), ()> {
        self.0.borrow_mut().push(Event::Cs(true));
        Ok(())
    }
}

struct Rst(Log);

impl OutputPin for Rst {
    type Error = ();
    fn set_low(&mut self) -> Result<(), ()> {
        self.0.borrow_mut().push(Event::Rst(false));
        Ok(())
    }
    fn set_high(&mut self) -> Result<(), ()> {
        self.0.borrow_mut().push(Event::Rst(true));
        Ok(())
    }
}

struct Drdy {
    levels: RefCell<VecDeque<bool>>,
}

impl InputPin for Drdy {
    type Error = ();
    fn is_high(&self) -> Result<bool, ()> {
        Ok(self.levels.borrow_mut().pop_front().unwrap_or(true))
    }
    fn is_low(&self) -> Result<bool, ()> {
        self.is_high().map(|h| !h)
    }
}

struct Delay(Log);

impl DelayMs<u32> for Delay {
    fn delay_ms(&mut self, ms: u32) {
        self.0.borrow_mut().push(Event::Ms(ms));
    }
}

impl DelayUs<u32> for Delay {
    fn delay_us(&mut self, us: u32) {
        self.0.borrow_mut().push(Event::Us(us));
    }
}

fn device(replies: Vec<Vec<u8>>, levels: Vec<bool>) -> (Ads1263<Bus, Cs, Drdy, Rst>, Log) {
    let log: Log = Rc::new(RefCell::new(Vec::new()));
    let bus = Bus { log: log.clone(), replies: replies.into(), fail: false };
    let drdy = Drdy { levels: RefCell::new(levels.into()) };
    let dev = Ads1263::new(bus, Cs(log.clone()), drdy, Rst(log.clone()));
    (dev, log)
}

fn sent(log: &Log) -> Vec<Vec<u8>> {
    log.borrow()
        .iter()
        .filter_map(|e| match e {
            Event::Sent(b) => Some(b.clone()),
            _ => None,
        })
        .collect()
}

#[test]
fn frame_lengths_follow_the_interface_configuration() {
    // status off, no integrity byte
    assert_eq!(data_len(&Interface(0x00), false), 4);
    assert_eq!(data_len(&Interface(0x00), true), 5);
    // status on, checksum
    assert_eq!(data_len(&Interface(0x05), false), 6);
    assert_eq!(data_len(&Interface(0x05), true), 7);
    // status off, checksum
    assert_eq!(data_len(&Interface(0x01), false), 5);
    assert_eq!(data_len(&Interface(0x01), true), 6);
    // status on, no integrity byte
    assert_eq!(data_len(&Interface(0x04), false), 5);
    assert_eq!(data_len(&Interface(0x04), true), 6);
    // status off, CRC-8
    assert_eq!(data_len(&Interface(0x02), false), 5);
    assert_eq!(data_request(&Interface(0x06), Some(Command::RData1)), vec![0x12, 0, 0, 0, 0, 0, 0]);
    assert_eq!(data_request(&Interface(0x00), None), vec![0, 0, 0, 0]);
}

#[test]
fn register_frames() {
    assert_eq!(read_reg_frame(0x02), vec![0x22, 0x00, 0x00]);
    assert_eq!(write_reg_frame(0x05, 0xA4), vec![0x45, 0x00, 0xA4]);
    assert_eq!(block_read_frame(0x07, 3), vec![0x27, 0x02, 0x00, 0x00, 0x00]);
    assert_eq!(block_read_frame(0x19, 2), vec![0x39, 0x01, 0x00, 0x00]);
}

#[test]
fn decode_with_status_and_checksum() {
    let d: Result<_, DeviceError> =
        decode_data(&Interface(0x05), true, &[0x12, 0x41, 0x12, 0x34, 0x56, 0x78, 0xAF]);
    let d = d.unwrap();
    assert_eq!(d.code, 0x12345678);
    assert_eq!(d.status, Status(0x41));
    assert!(d.status.adc1());
    assert!(!d.status.alarm());
}

#[test]
fn decode_with_crc_and_negative_code() {
    let d: Result<_, DeviceError> = decode_data(&Interface(0x02), false, &[0x80, 0x00, 0x00, 0x01, 0x9F]);
    let d = d.unwrap();
    assert_eq!(d.code, -2147483647);
    assert_eq!(d.status, Status(0));
}

#[test]
fn decode_without_status_or_integrity() {
    let d: Result<_, DeviceError> = decode_data(&Interface(0x00), false, &[0x7F, 0xFF, 0xFF, 0xFF]);
    assert_eq!(d.unwrap().code, 2147483647);
    let z: Result<_, DeviceError> = decode_data(&Interface(0x00), false, &[0, 0, 0, 0]);
    assert_eq!(z.unwrap().code, 0);
}

#[test]
fn integrity_mismatch_is_an_integrity_error() {
    let c: Result<_, DeviceError> =
        decode_data(&Interface(0x05), true, &[0x12, 0x41, 0x12, 0x34, 0x56, 0x78, 0xAE]);
    assert!(matches!(c, Err(Ads126xError::Crc)));
    let r: Result<_, DeviceError> = decode_data(&Interface(0x02), false, &[0x80, 0x00, 0x00, 0x01, 0x1C]);
    assert!(matches!(r, Err(Ads126xError::Crc)));
}

#[test]
fn short_response_is_a_decode_error() {
    let d: Result<_, DeviceError> = decode_data(&Interface(0x05), true, &[0x12, 0x41, 0x12]);
    assert!(matches!(d, Err(Ads126xError::Other)));
}

#[test]
fn alarm_is_any_of_the_four_alarm_bits() {
    assert!(!Status(0xE1).alarm());
    assert!(Status(0x02).alarm());
    assert!(Status(0x10).alarm());
}

#[test]
fn calibration_decoding() {
    assert_eq!(decode_i24(0x01, 0x00, 0x00), 1);
    assert_eq!(decode_i24(0xFF, 0xFF, 0xFF), -1);
    assert_eq!(decode_i24(0x00, 0x00, 0x80), -8388608);
    assert_eq!(decode_i16(0xFE, 0xFF), -2);
    assert_eq!(decode_i16(0x34, 0x12), 0x1234);
}

#[test]
fn reset_drives_high_low_high_with_three_waits() {
    assert_eq!(
        reset_sequence(),
        vec![
            ResetStep::Drive(true),
            ResetStep::WaitMs(100),
            ResetStep::Drive(false),
            ResetStep::WaitMs(100),
            ResetStep::Drive(true),
            ResetStep::WaitMs(100),
        ]
    );
    let (mut dev, log) = device(vec![], vec![]);
    dev.reset(Delay(log.clone())).unwrap();
    assert_eq!(
        *log.borrow(),
        vec![
            Event::Rst(true),
            Event::Ms(100),
            Event::Rst(false),
            Event::Ms(100),
            Event::Rst(true),
            Event::Ms(100),
        ]
    );
}

#[test]
fn drdy_is_true_when_the_pin_is_low() {
    let (mut dev, _log) = device(vec![], vec![true, false]);
    assert_eq!(dev.drdy().unwrap(), false);
    assert_eq!(dev.drdy().unwrap(), true);
}

#[test]
fn bounded_wait_polls_until_ready() {
    let (mut dev, log) = device(vec![], vec![true, true, false]);
    assert_eq!(dev.wait_drdy_bounded(Delay(log.clone()), 50, 10).unwrap(), true);
    assert_eq!(*log.borrow(), vec![Event::Us(50), Event::Us(50)]);
    let (mut dev, log) = device(vec![], vec![true, true, true]);
    assert_eq!(dev.wait_drdy_bounded(Delay(log.clone()), 5, 2).unwrap(), false);
}

#[test]
fn register_read_and_write_transactions() {
    let (mut dev, log) = device(vec![vec![0xFF, 0xFF, 0x64]], vec![]);
    let m: Mode2 = dev.read_reg().unwrap();
    assert_eq!(m.0, 0x64);
    dev.write_reg(Mode2(0x57)).unwrap();
    assert_eq!(sent(&log), vec![vec![0x25, 0x00, 0x00], vec![0x45, 0x00, 0x57]]);
    assert_eq!(
        *log.borrow(),
        vec![
            Event::Cs(false),
            Event::Sent(vec![0x25, 0x00, 0x00]),
            Event::Cs(true),
            Event::Cs(false),
            Event::Sent(vec![0x45, 0x00, 0x57]),
            Event::Cs(true),
        ]
    );
}

#[test]
fn writing_the_interface_register_reframes_reads() {
    let (mut dev, log) = device(vec![vec![0x00, 0x00, 0x00, 0x2A]], vec![]);
    assert_eq!(dev.interface().0, 0x05);
    dev.write_reg(Interface(0x00)).unwrap();
    assert_eq!(dev.interface().0, 0x00);
    let d = dev.read_direct().unwrap();
    assert_eq!(d.code, 42);
    assert_eq!(sent(&log)[1], vec![0, 0, 0, 0]);
}

#[test]
fn conversion_reads_and_commands() {
    let reply = vec![0x00, 0x41, 0x12, 0x34, 0x56, 0x78, 0xAF];
    let (mut dev, log) = device(vec![reply.clone(), reply], vec![]);
    dev.start1().unwrap();
    dev.stop2().unwrap();
    let a = dev.read_adc1().unwrap();
    let b = dev.read_adc2().unwrap();
    assert_eq!(a.code, 0x12345678);
    assert_eq!(b.status, Status(0x41));
    let s = sent(&log);
    assert_eq!(s[0], vec![0x08]);
    assert_eq!(s[1], vec![0x0E]);
    assert_eq!(s[2], vec![0x12, 0, 0, 0, 0, 0, 0]);
    assert_eq!(s[3], vec![0x14, 0, 0, 0, 0, 0, 0]);
}

#[test]
fn calibration_reads() {
    let (mut dev, log) = device(
        vec![vec![0, 0, 0xFF, 0xFF, 0xFF], vec![0, 0, 0x00, 0x00, 0x40], vec![0, 0, 0x02, 0x80], vec![0, 0, 0x00, 0x40]],
        vec![],
    );
    assert_eq!(dev.read_offs_cal1().unwrap(), -1);
    assert_eq!(dev.read_fs_cal1().unwrap(), 0x400000);
    assert_eq!(dev.read_offs_cal2().unwrap(), -32766);
    assert_eq!(dev.read_fs_cal2().unwrap(), 0x4000);
    let s = sent(&log);
    assert_eq!(s[0], vec![0x27, 0x02, 0, 0, 0]);
    assert_eq!(s[1], vec![0x2A, 0x02, 0, 0, 0]);
    assert_eq!(s[2], vec![0x37, 0x01, 0, 0]);
    assert_eq!(s[3], vec![0x39, 0x01, 0, 0]);
}

#[test]
fn bus_failure_is_a_transport_error() {
    let log: Log = Rc::new(RefCell::new(Vec::new()));
    let bus = Bus { log: log.clone(), replies: VecDeque::new(), fail: true };
    let drdy = Drdy { levels: RefCell::new(VecDeque::new()) };
    let mut dev = Ads1262::new(bus, Cs(log.clone()), drdy, Rst(log.clone()));
    assert!(matches!(dev.start1(), Err(Ads126xError::SpiErr(()))));
    assert!(matches!(dev.read_adc1(), Err(Ads126xError::SpiErr(()))));
}

struct FailingPin {
    fail_low: bool,
    fail_high: bool,
}

impl OutputPin for FailingPin {
    type Error = ();
    fn set_low(&mut self) -> Result<(), ()> {
        if self.fail_low { Err(()) } else { Ok(()) }
    }
    fn set_high(&mut self) -> Result<(), ()> {
        if self.fail_high { Err(()) } else { Ok(()) }
    }
}

struct FailingInput;

impl InputPin for FailingInput {
    type Error = ();
    fn is_high(&self) -> Result<bool, ()> {
        Err(())
    }
    fn is_low(&self) -> Result<bool, ()> {
        Err(())
    }
}

#[test]
fn poll_decisions() {
    assert_eq!(after_poll(true, 0, 1), PollStep::Ready);
    assert_eq!(after_poll(true, 9, 10), PollStep::Ready);
    assert_eq!(after_poll(false, 0, 2), PollStep::Sleep);
    assert_eq!(after_poll(false, 1, 2), PollStep::GiveUp);
    assert_eq!(after_poll(false, u32::MAX, u32::MAX), PollStep::GiveUp);
}

#[test]
fn bounded_wait_with_no_polls_gives_up_at_once() {
    let (mut dev, log) = device(vec![], vec![false]);
    assert_eq!(dev.wait_drdy_bounded(Delay(log.clone()), 5, 0).unwrap(), false);
    assert!(log.borrow().is_empty());
    let (mut dev, log) = device(vec![], vec![true, true, true]);
    assert_eq!(dev.wait_drdy_bounded(Delay(log.clone()), 5, 3).unwrap(), false);
    assert_eq!(*log.borrow(), vec![Event::Us(5), Event::Us(5)]);
}

#[test]
fn interface_cache_follows_a_write_the_bus_took() {
    let log: Log = Rc::new(RefCell::new(Vec::new()));
    let bus = Bus { log: log.clone(), replies: VecDeque::new(), fail: false };
    let drdy = Drdy { levels: RefCell::new(VecDeque::new()) };
    let cs = FailingPin { fail_low: false, fail_high: true };
    let mut dev = Ads1263::new(bus, cs, drdy, Rst(log.clone()));
    assert!(matches!(dev.write_reg(Interface(0x02)), Err(Ads126xError::IoErr(()))));
    assert_eq!(dev.interface().0, 0x02);
}

#[test]
fn pin_failures_are_io_errors() {
    let log: Log = Rc::new(RefCell::new(Vec::new()));
    let bus = Bus { log: log.clone(), replies: VecDeque::new(), fail: false };
    let cs = FailingPin { fail_low: true, fail_high: false };
    let rst = FailingPin { fail_low: true, fail_high: false };
    let mut dev = Ads1263::new(bus, cs, FailingInput, rst);
    assert!(matches!(dev.write_reg(Interface(0x00)), Err(Ads126xError::IoErr(()))));
    assert_eq!(dev.interface().0, 0x05);
    assert!(matches!(dev.read_adc1(), Err(Ads126xError::IoErr(()))));
    assert!(matches!(dev.drdy(), Err(Ads126xError::IoErr(()))));
    let log2 = log.clone();
    assert!(matches!(dev.reset(Delay(log2)), Err(Ads126xError::IoErr(()))));
    assert!(sent(&log).is_empty());
    assert_eq!(*log.borrow(), vec![Event::Ms(100)]);
}

#[test]
fn longer_block_read_frame() {
    assert_eq!(block_read_frame(0x00, 4), vec![0x20, 0x03, 0, 0, 0, 0]);
}
