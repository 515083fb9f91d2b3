//! The bus, pin and delay calls the driver makes, each through one embedded-hal method.
//! The error types of embedded-hal's traits are associated types the driver cannot name in
//! its contracts, so a failed call is reported by its kind alone: the error value is dropped.
use vstd::prelude::*;
use embedded_hal::blocking::delay::{DelayMs, DelayUs};
use embedded_hal::blocking::spi::{Transfer, Write};
use embedded_hal::digital::v2::{InputPin, OutputPin};

verus! {

/// Relies on embedded-hal's `OutputPin::set_low`, which drives the pin low.
#[verifier::external_body]
pub(crate) fn pin_low<P>(pin: &mut P) -> (r: Result<(), ()>)
    where
        P: OutputPin,
{
    pin.set_low().map_err(|_| ())
}

/// Relies on embedded-hal's `OutputPin::set_high`, which drives the pin high.
#[verifier::external_body]
pub(crate) fn pin_high<P>(pin: &mut P) -> (r: Result<(), ()>)
    where
        P: OutputPin,
{
    pin.set_high().map_err(|_| ())
}

/// Relies on embedded-hal's `InputPin::is_low`, which reads the level of the pin.
#[verifier::external_body]
pub(crate) fn pin_is_low<P>(pin: &P) -> (r: Result<bool, ()>)
    where
        P: InputPin,
{
    pin.is_low().map_err(|_| ())
}

/// Relies on embedded-hal's blocking `Transfer::transfer`: the words in `buf` are sent while
/// the words received are written over them in place, so the buffer keeps its length; the
/// received words come back as a vector.
#[verifier::external_body]
pub(crate) fn spi_transfer<S>(spi: &mut S, buf: &mut Vec<u8>) -> (r: Result<Vec<u8>, ()>)
    where
        S: Transfer<u8>,
    ensures
        final(buf)@.len() == old(buf)@.len(),
{
    spi.transfer(buf.as_mut_slice()).map(|words| words.to_vec()).map_err(|_| ())
}

/// Relies on embedded-hal's blocking `Write::write`, which sends the words and ignores what
/// comes back.
#[verifier::external_body]
pub(crate) fn spi_write<S>(spi: &mut S, words: &[u8]) -> (r: Result<(), ()>)
    where
        S: Write<u8>,
{
    spi.write(words).map_err(|_| ())
}

/// Relies on embedded-hal's `DelayMs::delay_ms`, which blocks for at least `ms` milliseconds.
#[verifier::external_body]
pub(crate) fn pause_ms<D>(delay: &mut D, ms: u32)
    where
        D: DelayMs<u32>,
{
    delay.delay_ms(ms)
}

/// Relies on embedded-hal's `DelayUs::delay_us`, which blocks for at least `us` microseconds.
#[verifier::external_body]
pub(crate) fn pause_us<D>(delay: &mut D, us: u32)
    where
        D: DelayUs<u32>,
{
    delay.delay_us(us)
}

} // verus!
