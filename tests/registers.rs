use ads126x::commands::Command;
use ads126x::registers::{
    GpioCon, GpioDat, GpioDir, InpMux, InpMuxMuxx, Interface, Mode0, Mode0Chop, Mode0Delay,
    Mode1, Mode1Filter, Mode1SBMag, Mode2, Mode2Dr, Mode2Gain, Power, Register,
};

#[test]
fn opcodes_and_register_offsets() {
    assert_eq!(Command::Nop.opcode(), 0x00);
    assert_eq!(Command::Reset.opcode(), 0x06);
    assert_eq!(Command::Start1.opcode(), 0x08);
    assert_eq!(Command::Stop2.opcode(), 0x0E);
    assert_eq!(Command::RData2.opcode(), 0x14);
    assert_eq!(Command::Sfocal2.opcode(), 0x1E);
    assert_eq!(Command::RReg.reg(0x02), 0x22);
    assert_eq!(Command::WReg.reg(0x19), 0x59);
}

#[test]
fn power_with_sets_the_three_flags() {
    assert_eq!(Power::with(true, true, true).0, 0x13);
    assert_eq!(Power::with(false, true, false).0, 0x02);
    let p = Power::with(true, false, true);
    assert!(p.intref() && !p.vbias() && p.reset());
}

#[test]
fn mode_registers_pack_their_fields() {
    let m0 = Mode0::with(Mode0Delay::Us35, Mode0Chop::Idac, true, false);
    assert_eq!(m0.0, 0x63);
    assert_eq!(m0.delay(), 3);
    assert_eq!(m0.chop(), 2);
    let m1 = Mode1::with(Mode1SBMag::Ua10, true, false, Mode1Filter::Fir);
    assert_eq!(m1.0, 0x8B);
    let m2 = Mode2::with(Mode2Dr::Sps38400, Mode2Gain::Gain32, true);
    assert_eq!(m2.0, 0xDF);
    assert_eq!(Mode2Gain::Gain32.gain(), 32);
}

#[test]
fn setters_keep_the_other_bits() {
    let mut i = Interface(0xF8);
    i.set_crc(2);
    assert_eq!(i.0, 0xFA);
    i.set_status(true);
    assert_eq!(i.0, 0xFE);
    assert_eq!(i.crc(), 2);
    assert!(i.status());
}

#[test]
fn input_mux_constructors() {
    assert_eq!(InpMux::differential(InpMuxMuxx::Ain3, InpMuxMuxx::Ain2).0, 0x32);
    assert_eq!(InpMux::singleended(InpMuxMuxx::Ain5).0, 0x5A);
    assert_eq!(InpMux::temperature().0, 0xBB);
    assert_eq!(InpMux::analog_power().0, 0xCC);
    assert_eq!(InpMux::digital_power().0, 0xDD);
    assert_eq!(InpMux::tdac().0, 0xEE);
}

#[test]
fn gpio_bits() {
    let mut c = GpioCon(0);
    c.set_connected(3);
    c.set_connected(7);
    assert_eq!(c.0, 0x88);
    c.set_unconnected(3);
    assert_eq!(c.0, 0x80);
    let mut d = GpioDir(0xFF);
    d.set_output(0);
    assert_eq!(d.0, 0xFE);
    d.set_input(0);
    assert_eq!(d.0, 0xFF);
    let mut g = GpioDat(0x04);
    assert!(g.is_high(2));
    assert!(g.is_low(1));
}

#[test]
fn register_bytes_round_trip() {
    let m = Mode2::from_byte(0xA5);
    assert_eq!(m.into_byte(), 0xA5);
    assert_eq!(<Interface as Register>::address(), 0x02);
    assert_eq!(Interface::default().0, 0x05);
}
