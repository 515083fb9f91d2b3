//! Register addresses, bit-field layouts and the named settings of each field.
use vstd::prelude::*;

verus! {

/// The low `width` bits set.
pub open spec fn mask_of(width: u8) -> u8 {
    (0xFFu8 >> ((8 - width) as u8)) as u8
}

/// The field of `width` bits that starts at bit `lo` of `v`.
pub open spec fn field_of(v: u8, lo: u8, width: u8) -> u8 {
    ((v >> lo) & mask_of(width)) as u8
}

/// `v` with the field of `width` bits at `lo` replaced by the low bits of `x`.
pub open spec fn with_field(v: u8, lo: u8, width: u8, x: u8) -> u8 {
    ((v & !((mask_of(width) << lo) as u8)) | (((x & mask_of(width)) << lo) as u8)) as u8
}

/// Bit `i` of `v`.
pub open spec fn bit_of(v: u8, i: u8) -> bool {
    field_of(v, i, 1) == 1
}

/// `v` with bit `i` set to `b`.
pub open spec fn with_bit(v: u8, i: u8, b: bool) -> u8 {
    with_field(v, i, 1, if b { 1u8 } else { 0u8 })
}

/// Two bit ranges share no bit.
pub open spec fn disjoint(lo1: u8, w1: u8, lo2: u8, w2: u8) -> bool {
    lo1 + w1 <= lo2 || lo2 + w2 <= lo1
}

/// A field lies within one byte.
pub open spec fn in_byte(lo: u8, width: u8) -> bool {
    1 <= width && lo + width <= 8
}

/// Writing a field and reading it back gives the written bits; fields elsewhere are kept.
pub proof fn lemma_with_field(v: u8, lo: u8, w: u8, x: u8, lo2: u8, w2: u8)
    requires
        in_byte(lo, w),
        in_byte(lo2, w2),
    ensures
        field_of(with_field(v, lo, w, x), lo, w) == x & mask_of(w),
        disjoint(lo, w, lo2, w2) ==> field_of(with_field(v, lo, w, x), lo2, w2) == field_of(v, lo2, w2),
{
    assert(((((v & !((((0xFFu8 >> ((8 - w) as u8)) as u8) << lo) as u8)) | ((((x & ((0xFFu8 >> ((8 - w) as u8)) as u8)) << lo) as u8))) as u8) >> lo) & ((0xFFu8 >> ((8 - w) as u8)) as u8)
        == x & ((0xFFu8 >> ((8 - w) as u8)) as u8)) by (bit_vector)
        requires
            1 <= w && lo + w <= 8,
    ;
    assert((lo + w <= lo2 || lo2 + w2 <= lo) ==> ((((v & !((((0xFFu8 >> ((8 - w) as u8)) as u8) << lo) as u8)) | ((((x & ((0xFFu8 >> ((8 - w) as u8)) as u8)) << lo) as u8))) as u8) >> lo2) & ((0xFFu8 >> ((8 - w2) as u8)) as u8)
        == (v >> lo2) & ((0xFFu8 >> ((8 - w2) as u8)) as u8)) by (bit_vector)
        requires
            1 <= w && lo + w <= 8,
            1 <= w2 && lo2 + w2 <= 8,
    ;
}

/// Reading back a field just written gives the written bits.
pub broadcast proof fn lemma_field_written(v: u8, lo: u8, w: u8, x: u8)
    requires
        in_byte(lo, w),
    ensures
        #[trigger] field_of(with_field(v, lo, w, x), lo, w) == x & mask_of(w),
{
    lemma_with_field(v, lo, w, x, lo, w);
}

/// Writing a field leaves every field that shares no bit with it as it was.
pub broadcast proof fn lemma_field_kept(v: u8, lo: u8, w: u8, x: u8, lo2: u8, w2: u8)
    requires
        in_byte(lo, w),
        in_byte(lo2, w2),
        disjoint(lo, w, lo2, w2),
    ensures
        #[trigger] field_of(with_field(v, lo, w, x), lo2, w2) == field_of(v, lo2, w2),
{
    lemma_with_field(v, lo, w, x, lo2, w2);
}

/// The masks of the field widths that the registers use.
pub proof fn lemma_mask_values()
    ensures
        mask_of(1) == 1,
        mask_of(2) == 3,
        mask_of(3) == 7,
        mask_of(4) == 15,
        1u8 & 1u8 == 1u8,
        0u8 & 1u8 == 0u8,
{
    assert(1u8 & 1u8 == 1u8) by (bit_vector);
    assert(0u8 & 1u8 == 0u8) by (bit_vector);
    assert((0xFFu8 >> ((8 - 1u8) as u8)) as u8 == 1u8) by (bit_vector);
    assert((0xFFu8 >> ((8 - 2u8) as u8)) as u8 == 3u8) by (bit_vector);
    assert((0xFFu8 >> ((8 - 3u8) as u8)) as u8 == 7u8) by (bit_vector);
    assert((0xFFu8 >> ((8 - 4u8) as u8)) as u8 == 15u8) by (bit_vector);
}

/// A value below `2^w` is kept whole by the mask of `w` bits.
pub proof fn lemma_fits(x: u8, w: u8)
    requires
        1 <= w <= 4,
        w == 1 ==> x < 2,
        w == 2 ==> x < 4,
        w == 3 ==> x < 8,
        w == 4 ==> x < 16,
    ensures
        x & mask_of(w) == x,
{
    lemma_mask_values();
    if w == 1 {
        assert(x & 1 == x) by (bit_vector)
            requires
                x < 2,
        ;
    } else if w == 2 {
        assert(x & 3 == x) by (bit_vector)
            requires
                x < 4,
        ;
    } else if w == 3 {
        assert(x & 7 == x) by (bit_vector)
            requires
                x < 8,
        ;
    } else {
        assert(x & 15 == x) by (bit_vector)
            requires
                x < 16,
        ;
    }
}

/// The field of `width` bits at `lo`.
pub fn field(v: u8, lo: u8, width: u8) -> (r: u8)
    requires
        in_byte(lo, width),
    ensures
        r == field_of(v, lo, width),
{
    (v >> lo) & (0xFFu8 >> (8 - width))
}

/// `v` with the field of `width` bits at `lo` replaced by the low bits of `x`.
pub fn set_field(v: u8, lo: u8, width: u8, x: u8) -> (r: u8)
    requires
        in_byte(lo, width),
    ensures
        r == with_field(v, lo, width, x),
        field_of(r, lo, width) == x & mask_of(width),
        forall|lo2: u8, w2: u8|
            in_byte(lo2, w2) && disjoint(lo, width, lo2, w2) ==> #[trigger] field_of(r, lo2, w2)
                == field_of(v, lo2, w2),
{
    let m: u8 = 0xFFu8 >> (8 - width);
    proof {
        lemma_with_field(v, lo, width, x, lo, width);
        assert forall|lo2: u8, w2: u8|
            in_byte(lo2, w2) && disjoint(lo, width, lo2, w2) implies #[trigger] field_of(
                with_field(v, lo, width, x),
                lo2,
                w2,
            ) == field_of(v, lo2, w2) by {
            lemma_with_field(v, lo, width, x, lo2, w2);
        }
    }
    (v & !(m << lo)) | ((x & m) << lo)
}

/// Bit `i` of `v`.
pub fn bit(v: u8, i: u8) -> (r: bool)
    requires
        i < 8,
    ensures
        r == bit_of(v, i),
{
    field(v, i, 1) == 1
}

/// `v` with bit `i` set to `b`.
pub fn set_bit(v: u8, i: u8, b: bool) -> (r: u8)
    requires
        i < 8,
    ensures
        r == with_bit(v, i, b),
        bit_of(r, i) == b,
        forall|lo2: u8, w2: u8|
            in_byte(lo2, w2) && disjoint(i, 1, lo2, w2) ==> #[trigger] field_of(r, lo2, w2)
                == field_of(v, lo2, w2),
{
    let x: u8 = if b {
        1
    } else {
        0
    };
    proof {
        lemma_fits(x, 1);
    }
    set_field(v, i, 1, x)
}

/// An 8-bit register of the device, at a fixed address.
pub trait Register: Sized {
    /// The address of the register.
    spec fn address_spec() -> u8;

    /// The byte the value stands for.
    spec fn byte(&self) -> u8;

    /// The address of the register.
    fn address() -> (r: u8)
        ensures
            r == Self::address_spec(),
            r <= 0x1A,
    ;

    /// The value that `b` encodes, every bit kept.
    fn from_byte(b: u8) -> (r: Self)
        ensures
            r.byte() == b,
    ;

    /// The byte that encodes the value.
    fn into_byte(&self) -> (r: u8)
        ensures
            r == self.byte(),
    ;
}

/// Address of the first of the three ADC1 offset calibration registers.
pub const OFCAL0: u8 = 0x07;

/// Address of the first of the three ADC1 full-scale calibration registers.
pub const FSCAL0: u8 = 0x0A;

/// Address of the first of the two ADC2 offset calibration registers.
pub const ADC2OFC0: u8 = 0x17;

/// Address of the first of the two ADC2 full-scale calibration registers.
pub const ADC2FSC0: u8 = 0x19;

/// Address of the ID register.
pub const ID: u8 = 0x00;

/// Address of the POWER register.
pub const POWER: u8 = 0x01;

/// Address of the INTERFACE register.
pub const INTERFACE: u8 = 0x02;

/// Address of the MODE0 register.
pub const MODE0: u8 = 0x03;

/// Address of the MODE1 register.
pub const MODE1: u8 = 0x04;

/// Address of the MODE2 register.
pub const MODE2: u8 = 0x05;

/// Address of the INPMUX register.
pub const INPMUX: u8 = 0x06;

/// Address of the IDACMUX register.
pub const IDACMUX: u8 = 0x0D;

/// Address of the IDACMAG register.
pub const IDACMAG: u8 = 0x0E;

/// Address of the REFMUX register.
pub const REFMUX: u8 = 0x0F;

/// Address of the TDACP register.
pub const TDACP: u8 = 0x10;

/// Address of the TDACN register.
pub const TDACN: u8 = 0x11;

/// Address of the GPIOCON register.
pub const GPIOCON: u8 = 0x12;

/// Address of the GPIODIR register.
pub const GPIODIR: u8 = 0x13;

/// Address of the GPIODAT register.
pub const GPIODAT: u8 = 0x14;

/// Address of the ADC2CFG register.
pub const ADC2CFG: u8 = 0x15;

/// Address of the ADC2MUX register.
pub const ADC2MUX: u8 = 0x16;

/// Integrity byte appended to conversion reads.
#[derive(Debug, Clone, Copy, PartialEq, Eq, Structural)]
pub enum InterfaceCrc {
    Off,
    Checksum,
    Crc,
}

impl InterfaceCrc {
    /// The field code of this setting.
    pub open spec fn code_spec(&self) -> u8 {
        match self {
            InterfaceCrc::Off => 0u8,
            InterfaceCrc::Checksum => 1u8,
            InterfaceCrc::Crc => 2u8,
        }
    }

    /// The field code of this setting.
    pub fn code(&self) -> (r: u8)
        ensures
            r == self.code_spec(),
            r < 3,
    {
        match self {
            InterfaceCrc::Off => 0,
            InterfaceCrc::Checksum => 1,
            InterfaceCrc::Crc => 2,
        }
    }
}

/// Conversion start delay.
#[derive(Debug, Clone, Copy, PartialEq, Eq, Structural)]
pub enum Mode0Delay {
    NoDelay,
    Us8_7,
    Us17,
    Us35,
    Us69,
    Us139,
    Us278,
    Us555,
    Ms1_1,
    Ms2_2,
    Ms4_4,
    Ms8_8,
}

impl Mode0Delay {
    /// The field code of this setting.
    pub open spec fn code_spec(&self) -> u8 {
        match self {
            Mode0Delay::NoDelay => 0u8,
            Mode0Delay::Us8_7 => 1u8,
            Mode0Delay::Us17 => 2u8,
            Mode0Delay::Us35 => 3u8,
            Mode0Delay::Us69 => 4u8,
            Mode0Delay::Us139 => 5u8,
            Mode0Delay::Us278 => 6u8,
            Mode0Delay::Us555 => 7u8,
            Mode0Delay::Ms1_1 => 8u8,
            Mode0Delay::Ms2_2 => 9u8,
            Mode0Delay::Ms4_4 => 10u8,
            Mode0Delay::Ms8_8 => 11u8,
        }
    }

    /// The field code of this setting.
    pub fn code(&self) -> (r: u8)
        ensures
            r == self.code_spec(),
            r < 12,
    {
        match self {
            Mode0Delay::NoDelay => 0,
            Mode0Delay::Us8_7 => 1,
            Mode0Delay::Us17 => 2,
            Mode0Delay::Us35 => 3,
            Mode0Delay::Us69 => 4,
            Mode0Delay::Us139 => 5,
            Mode0Delay::Us278 => 6,
            Mode0Delay::Us555 => 7,
            Mode0Delay::Ms1_1 => 8,
            Mode0Delay::Ms2_2 => 9,
            Mode0Delay::Ms4_4 => 10,
            Mode0Delay::Ms8_8 => 11,
        }
    }
}

/// Chop and current-rotation mode.
#[derive(Debug, Clone, Copy, PartialEq, Eq, Structural)]
pub enum Mode0Chop {
    Disabled,
    Input,
    Idac,
    InputAndIdac,
}

impl Mode0Chop {
    /// The field code of this setting.
    pub open spec fn code_spec(&self) -> u8 {
        match self {
            Mode0Chop::Disabled => 0u8,
            Mode0Chop::Input => 1u8,
            Mode0Chop::Idac => 2u8,
            Mode0Chop::InputAndIdac => 3u8,
        }
    }

    /// The field code of this setting.
    pub fn code(&self) -> (r: u8)
        ensures
            r == self.code_spec(),
            r < 4,
    {
        match self {
            Mode0Chop::Disabled => 0,
            Mode0Chop::Input => 1,
            Mode0Chop::Idac => 2,
            Mode0Chop::InputAndIdac => 3,
        }
    }
}

/// Digital filter of ADC1.
#[derive(Debug, Clone, Copy, PartialEq, Eq, Structural)]
pub enum Mode1Filter {
    Sinc1,
    Sinc2,
    Sinc3,
    Sinc4,
    Fir,
}

impl Mode1Filter {
    /// The field code of this setting.
    pub open spec fn code_spec(&self) -> u8 {
        match self {
            Mode1Filter::Sinc1 => 0u8,
            Mode1Filter::Sinc2 => 1u8,
            Mode1Filter::Sinc3 => 2u8,
            Mode1Filter::Sinc4 => 3u8,
            Mode1Filter::Fir => 4u8,
        }
    }

    /// The field code of this setting.
    pub fn code(&self) -> (r: u8)
        ensures
            r == self.code_spec(),
            r < 5,
    {
        match self {
            Mode1Filter::Sinc1 => 0,
            Mode1Filter::Sinc2 => 1,
            Mode1Filter::Sinc3 => 2,
            Mode1Filter::Sinc4 => 3,
            Mode1Filter::Fir => 4,
        }
    }
}

/// Sensor bias magnitude.
#[derive(Debug, Clone, Copy, PartialEq, Eq, Structural)]
pub enum Mode1SBMag {
    Off,
    Ua0_5,
    Ua2,
    Ua10,
    Ua50,
    Ua200,
    Res,
}

impl Mode1SBMag {
    /// The field code of this setting.
    pub open spec fn code_spec(&self) -> u8 {
        match self {
            Mode1SBMag::Off => 0u8,
            Mode1SBMag::Ua0_5 => 1u8,
            Mode1SBMag::Ua2 => 2u8,
            Mode1SBMag::Ua10 => 3u8,
            Mode1SBMag::Ua50 => 4u8,
            Mode1SBMag::Ua200 => 5u8,
            Mode1SBMag::Res => 6u8,
        }
    }

    /// The field code of this setting.
    pub fn code(&self) -> (r: u8)
        ensures
            r == self.code_spec(),
            r < 7,
    {
        match self {
            Mode1SBMag::Off => 0,
            Mode1SBMag::Ua0_5 => 1,
            Mode1SBMag::Ua2 => 2,
            Mode1SBMag::Ua10 => 3,
            Mode1SBMag::Ua50 => 4,
            Mode1SBMag::Ua200 => 5,
            Mode1SBMag::Res => 6,
        }
    }
}

/// Gain of the ADC1 amplifier.
#[derive(Debug, Clone, Copy, PartialEq, Eq, Structural)]
pub enum Mode2Gain {
    Gain1,
    Gain2,
    Gain4,
    Gain8,
    Gain16,
    Gain32,
}

impl Mode2Gain {
    /// The field code of this setting.
    pub open spec fn code_spec(&self) -> u8 {
        match self {
            Mode2Gain::Gain1 => 0u8,
            Mode2Gain::Gain2 => 1u8,
            Mode2Gain::Gain4 => 2u8,
            Mode2Gain::Gain8 => 3u8,
            Mode2Gain::Gain16 => 4u8,
            Mode2Gain::Gain32 => 5u8,
        }
    }

    /// The field code of this setting.
    pub fn code(&self) -> (r: u8)
        ensures
            r == self.code_spec(),
            r < 6,
    {
        match self {
            Mode2Gain::Gain1 => 0,
            Mode2Gain::Gain2 => 1,
            Mode2Gain::Gain4 => 2,
            Mode2Gain::Gain8 => 3,
            Mode2Gain::Gain16 => 4,
            Mode2Gain::Gain32 => 5,
        }
    }
}

/// Data rate of ADC1.
#[derive(Debug, Clone, Copy, PartialEq, Eq, Structural)]
pub enum Mode2Dr {
    Sps2_5,
    Sps5,
    Sps10,
    Sps16_6,
    Sps20,
    Sps50,
    Sps60,
    Sps100,
    Sps400,
    Sps1200,
    Sps2400,
    Sps4800,
    Sps7200,
    Sps14400,
    Sps19200,
    Sps38400,
}

impl Mode2Dr {
    /// The field code of this setting.
    pub open spec fn code_spec(&self) -> u8 {
        match self {
            Mode2Dr::Sps2_5 => 0u8,
            Mode2Dr::Sps5 => 1u8,
            Mode2Dr::Sps10 => 2u8,
            Mode2Dr::Sps16_6 => 3u8,
            Mode2Dr::Sps20 => 4u8,
            Mode2Dr::Sps50 => 5u8,
            Mode2Dr::Sps60 => 6u8,
            Mode2Dr::Sps100 => 7u8,
            Mode2Dr::Sps400 => 8u8,
            Mode2Dr::Sps1200 => 9u8,
            Mode2Dr::Sps2400 => 10u8,
            Mode2Dr::Sps4800 => 11u8,
            Mode2Dr::Sps7200 => 12u8,
            Mode2Dr::Sps14400 => 13u8,
            Mode2Dr::Sps19200 => 14u8,
            Mode2Dr::Sps38400 => 15u8,
        }
    }

    /// The field code of this setting.
    pub fn code(&self) -> (r: u8)
        ensures
            r == self.code_spec(),
            r < 16,
    {
        match self {
            Mode2Dr::Sps2_5 => 0,
            Mode2Dr::Sps5 => 1,
            Mode2Dr::Sps10 => 2,
            Mode2Dr::Sps16_6 => 3,
            Mode2Dr::Sps20 => 4,
            Mode2Dr::Sps50 => 5,
            Mode2Dr::Sps60 => 6,
            Mode2Dr::Sps100 => 7,
            Mode2Dr::Sps400 => 8,
            Mode2Dr::Sps1200 => 9,
            Mode2Dr::Sps2400 => 10,
            Mode2Dr::Sps4800 => 11,
            Mode2Dr::Sps7200 => 12,
            Mode2Dr::Sps14400 => 13,
            Mode2Dr::Sps19200 => 14,
            Mode2Dr::Sps38400 => 15,
        }
    }
}

/// Input of the ADC1 multiplexer.
#[derive(Debug, Clone, Copy, PartialEq, Eq, Structural)]
pub enum InpMuxMuxx {
    Ain0,
    Ain1,
    Ain2,
    Ain3,
    Ain4,
    Ain5,
    Ain6,
    Ain7,
    Ain8,
    Ain9,
    AinCom,
    Temperature,
    AnalogPower,
    DigitalPower,
    Tdac,
    Float,
}

impl InpMuxMuxx {
    /// The field code of this setting.
    pub open spec fn code_spec(&self) -> u8 {
        match self {
            InpMuxMuxx::Ain0 => 0u8,
            InpMuxMuxx::Ain1 => 1u8,
            InpMuxMuxx::Ain2 => 2u8,
            InpMuxMuxx::Ain3 => 3u8,
            InpMuxMuxx::Ain4 => 4u8,
            InpMuxMuxx::Ain5 => 5u8,
            InpMuxMuxx::Ain6 => 6u8,
            InpMuxMuxx::Ain7 => 7u8,
            InpMuxMuxx::Ain8 => 8u8,
            InpMuxMuxx::Ain9 => 9u8,
            InpMuxMuxx::AinCom => 10u8,
            InpMuxMuxx::Temperature => 11u8,
            InpMuxMuxx::AnalogPower => 12u8,
            InpMuxMuxx::DigitalPower => 13u8,
            InpMuxMuxx::Tdac => 14u8,
            InpMuxMuxx::Float => 15u8,
        }
    }

    /// The field code of this setting.
    pub fn code(&self) -> (r: u8)
        ensures
            r == self.code_spec(),
            r < 16,
    {
        match self {
            InpMuxMuxx::Ain0 => 0,
            InpMuxMuxx::Ain1 => 1,
            InpMuxMuxx::Ain2 => 2,
            InpMuxMuxx::Ain3 => 3,
            InpMuxMuxx::Ain4 => 4,
            InpMuxMuxx::Ain5 => 5,
            InpMuxMuxx::Ain6 => 6,
            InpMuxMuxx::Ain7 => 7,
            InpMuxMuxx::Ain8 => 8,
            InpMuxMuxx::Ain9 => 9,
            InpMuxMuxx::AinCom => 10,
            InpMuxMuxx::Temperature => 11,
            InpMuxMuxx::AnalogPower => 12,
            InpMuxMuxx::DigitalPower => 13,
            InpMuxMuxx::Tdac => 14,
            InpMuxMuxx::Float => 15,
        }
    }
}

/// Pin of an excitation current.
#[derive(Debug, Clone, Copy, PartialEq, Eq, Structural)]
pub enum IdacMuxMuxx {
    Ain0,
    Ain1,
    Ain2,
    Ain3,
    Ain4,
    Ain5,
    Ain6,
    Ain7,
    Ain8,
    Ain9,
    AinCom,
    NoConnection,
}

impl IdacMuxMuxx {
    /// The field code of this setting.
    pub open spec fn code_spec(&self) -> u8 {
        match self {
            IdacMuxMuxx::Ain0 => 0u8,
            IdacMuxMuxx::Ain1 => 1u8,
            IdacMuxMuxx::Ain2 => 2u8,
            IdacMuxMuxx::Ain3 => 3u8,
            IdacMuxMuxx::Ain4 => 4u8,
            IdacMuxMuxx::Ain5 => 5u8,
            IdacMuxMuxx::Ain6 => 6u8,
            IdacMuxMuxx::Ain7 => 7u8,
            IdacMuxMuxx::Ain8 => 8u8,
            IdacMuxMuxx::Ain9 => 9u8,
            IdacMuxMuxx::AinCom => 10u8,
            IdacMuxMuxx::NoConnection => 11u8,
        }
    }

    /// The field code of this setting.
    pub fn code(&self) -> (r: u8)
        ensures
            r == self.code_spec(),
            r < 12,
    {
        match self {
            IdacMuxMuxx::Ain0 => 0,
            IdacMuxMuxx::Ain1 => 1,
            IdacMuxMuxx::Ain2 => 2,
            IdacMuxMuxx::Ain3 => 3,
            IdacMuxMuxx::Ain4 => 4,
            IdacMuxMuxx::Ain5 => 5,
            IdacMuxMuxx::Ain6 => 6,
            IdacMuxMuxx::Ain7 => 7,
            IdacMuxMuxx::Ain8 => 8,
            IdacMuxMuxx::Ain9 => 9,
            IdacMuxMuxx::AinCom => 10,
            IdacMuxMuxx::NoConnection => 11,
        }
    }
}

/// Magnitude of an excitation current.
#[derive(Debug, Clone, Copy, PartialEq, Eq, Structural)]
pub enum IdacMagMagx {
    Off,
    Ua50,
    Ua100,
    Ua250,
    Ua500,
    Ua750,
    Ua1000,
    Ua1500,
    Ua2000,
    Ua2500,
    Ua3000,
}

impl IdacMagMagx {
    /// The field code of this setting.
    pub open spec fn code_spec(&self) -> u8 {
        match self {
            IdacMagMagx::Off => 0u8,
            IdacMagMagx::Ua50 => 1u8,
            IdacMagMagx::Ua100 => 2u8,
            IdacMagMagx::Ua250 => 3u8,
            IdacMagMagx::Ua500 => 4u8,
            IdacMagMagx::Ua750 => 5u8,
            IdacMagMagx::Ua1000 => 6u8,
            IdacMagMagx::Ua1500 => 7u8,
            IdacMagMagx::Ua2000 => 8u8,
            IdacMagMagx::Ua2500 => 9u8,
            IdacMagMagx::Ua3000 => 10u8,
        }
    }

    /// The field code of this setting.
    pub fn code(&self) -> (r: u8)
        ensures
            r == self.code_spec(),
            r < 11,
    {
        match self {
            IdacMagMagx::Off => 0,
            IdacMagMagx::Ua50 => 1,
            IdacMagMagx::Ua100 => 2,
            IdacMagMagx::Ua250 => 3,
            IdacMagMagx::Ua500 => 4,
            IdacMagMagx::Ua750 => 5,
            IdacMagMagx::Ua1000 => 6,
            IdacMagMagx::Ua1500 => 7,
            IdacMagMagx::Ua2000 => 8,
            IdacMagMagx::Ua2500 => 9,
            IdacMagMagx::Ua3000 => 10,
        }
    }
}

/// Positive reference input.
#[derive(Debug, Clone, Copy, PartialEq, Eq, Structural)]
pub enum RefMuxMuxP {
    InternalRefP,
    Ain0,
    Ain2,
    Ain4,
    Avdd,
}

impl RefMuxMuxP {
    /// The field code of this setting.
    pub open spec fn code_spec(&self) -> u8 {
        match self {
            RefMuxMuxP::InternalRefP => 0u8,
            RefMuxMuxP::Ain0 => 1u8,
            RefMuxMuxP::Ain2 => 2u8,
            RefMuxMuxP::Ain4 => 3u8,
            RefMuxMuxP::Avdd => 4u8,
        }
    }

    /// The field code of this setting.
    pub fn code(&self) -> (r: u8)
        ensures
            r == self.code_spec(),
            r < 5,
    {
        match self {
            RefMuxMuxP::InternalRefP => 0,
            RefMuxMuxP::Ain0 => 1,
            RefMuxMuxP::Ain2 => 2,
            RefMuxMuxP::Ain4 => 3,
            RefMuxMuxP::Avdd => 4,
        }
    }
}

/// Negative reference input.
#[derive(Debug, Clone, Copy, PartialEq, Eq, Structural)]
pub enum RefMuxMuxN {
    InternalRefN,
    Ain0,
    Ain2,
    Ain4,
    Avss,
}

impl RefMuxMuxN {
    /// The field code of this setting.
    pub open spec fn code_spec(&self) -> u8 {
        match self {
            RefMuxMuxN::InternalRefN => 0u8,
            RefMuxMuxN::Ain0 => 1u8,
            RefMuxMuxN::Ain2 => 2u8,
            RefMuxMuxN::Ain4 => 3u8,
            RefMuxMuxN::Avss => 4u8,
        }
    }

    /// The field code of this setting.
    pub fn code(&self) -> (r: u8)
        ensures
            r == self.code_spec(),
            r < 5,
    {
        match self {
            RefMuxMuxN::InternalRefN => 0,
            RefMuxMuxN::Ain0 => 1,
            RefMuxMuxN::Ain2 => 2,
            RefMuxMuxN::Ain4 => 3,
            RefMuxMuxN::Avss => 4,
        }
    }
}

/// Data rate of ADC2.
#[derive(Debug, Clone, Copy, PartialEq, Eq, Structural)]
pub enum Adc2CfgDr {
    Sps10,
    Sps100,
    Sps400,
    Sps800,
}

impl Adc2CfgDr {
    /// The field code of this setting.
    pub open spec fn code_spec(&self) -> u8 {
        match self {
            Adc2CfgDr::Sps10 => 0u8,
            Adc2CfgDr::Sps100 => 1u8,
            Adc2CfgDr::Sps400 => 2u8,
            Adc2CfgDr::Sps800 => 3u8,
        }
    }

    /// The field code of this setting.
    pub fn code(&self) -> (r: u8)
        ensures
            r == self.code_spec(),
            r < 4,
    {
        match self {
            Adc2CfgDr::Sps10 => 0,
            Adc2CfgDr::Sps100 => 1,
            Adc2CfgDr::Sps400 => 2,
            Adc2CfgDr::Sps800 => 3,
        }
    }
}

/// Reference of ADC2.
#[derive(Debug, Clone, Copy, PartialEq, Eq, Structural)]
pub enum Adc2CfgRef {
    InternalRef,
    Ain01,
    Ain23,
    Ain45,
    AvddAvss,
}

impl Adc2CfgRef {
    /// The field code of this setting.
    pub open spec fn code_spec(&self) -> u8 {
        match self {
            Adc2CfgRef::InternalRef => 0u8,
            Adc2CfgRef::Ain01 => 1u8,
            Adc2CfgRef::Ain23 => 2u8,
            Adc2CfgRef::Ain45 => 3u8,
            Adc2CfgRef::AvddAvss => 4u8,
        }
    }

    /// The field code of this setting.
    pub fn code(&self) -> (r: u8)
        ensures
            r == self.code_spec(),
            r < 5,
    {
        match self {
            Adc2CfgRef::InternalRef => 0,
            Adc2CfgRef::Ain01 => 1,
            Adc2CfgRef::Ain23 => 2,
            Adc2CfgRef::Ain45 => 3,
            Adc2CfgRef::AvddAvss => 4,
        }
    }
}

/// Gain of the ADC2 amplifier.
#[derive(Debug, Clone, Copy, PartialEq, Eq, Structural)]
pub enum Adc2CfgGain {
    Gain1,
    Gain2,
    Gain4,
    Gain8,
    Gain16,
    Gain32,
    Gain64,
    Gain128,
}

impl Adc2CfgGain {
    /// The field code of this setting.
    pub open spec fn code_spec(&self) -> u8 {
        match self {
            Adc2CfgGain::Gain1 => 0u8,
            Adc2CfgGain::Gain2 => 1u8,
            Adc2CfgGain::Gain4 => 2u8,
            Adc2CfgGain::Gain8 => 3u8,
            Adc2CfgGain::Gain16 => 4u8,
            Adc2CfgGain::Gain32 => 5u8,
            Adc2CfgGain::Gain64 => 6u8,
            Adc2CfgGain::Gain128 => 7u8,
        }
    }

    /// The field code of this setting.
    pub fn code(&self) -> (r: u8)
        ensures
            r == self.code_spec(),
            r < 8,
    {
        match self {
            Adc2CfgGain::Gain1 => 0,
            Adc2CfgGain::Gain2 => 1,
            Adc2CfgGain::Gain4 => 2,
            Adc2CfgGain::Gain8 => 3,
            Adc2CfgGain::Gain16 => 4,
            Adc2CfgGain::Gain32 => 5,
            Adc2CfgGain::Gain64 => 6,
            Adc2CfgGain::Gain128 => 7,
        }
    }
}

/// Device identification: revision and device code.
#[derive(Debug, Clone, Copy, PartialEq, Eq, Structural)]
pub struct Id(pub u8);

impl Register for Id {
    open spec fn address_spec() -> u8 {
        ID
    }

    open spec fn byte(&self) -> u8 {
        self.0
    }

    fn address() -> (r: u8) {
        ID
    }

    fn from_byte(b: u8) -> (r: Self) {
        Id(b)
    }

    fn into_byte(&self) -> (r: u8) {
        self.0
    }
}

impl Default for Id {
    /// The value the device holds after reset.
    fn default() -> (r: Self)
        ensures
            r.0 == 0x00,
    {
        Id(0x00)
    }
}

impl Id {
    /// Bits 4 to 0.
    pub fn rev_id(&self) -> (r: u8)
        ensures
            r == field_of(self.0, 0, 5),
    {
        field(self.0, 0, 5)
    }

    /// Bits 7 to 5.
    pub fn dev_id(&self) -> (r: u8)
        ensures
            r == field_of(self.0, 5, 3),
    {
        field(self.0, 5, 3)
    }
}

/// Power: internal reference, level-shift bias, reset flag.
#[derive(Debug, Clone, Copy, PartialEq, Eq, Structural)]
pub struct Power(pub u8);

impl Register for Power {
    open spec fn address_spec() -> u8 {
        POWER
    }

    open spec fn byte(&self) -> u8 {
        self.0
    }

    fn address() -> (r: u8) {
        POWER
    }

    fn from_byte(b: u8) -> (r: Self) {
        Power(b)
    }

    fn into_byte(&self) -> (r: u8) {
        self.0
    }
}

impl Default for Power {
    /// The value the device holds after reset.
    fn default() -> (r: Self)
        ensures
            r.0 == 0x11,
    {
        Power(0x11)
    }
}

impl Power {
    /// Bit 0.
    pub fn intref(&self) -> (r: bool)
        ensures
            r == bit_of(self.0, 0),
    {
        bit(self.0, 0)
    }

    /// Sets bit 0, leaving the others as they are.
    pub fn set_intref(&mut self, v: bool)
        ensures
            final(self).0 == with_bit(old(self).0, 0, v),
    {
        self.0 = set_bit(self.0, 0, v);
    }

    /// Bit 1.
    pub fn vbias(&self) -> (r: bool)
        ensures
            r == bit_of(self.0, 1),
    {
        bit(self.0, 1)
    }

    /// Sets bit 1, leaving the others as they are.
    pub fn set_vbias(&mut self, v: bool)
        ensures
            final(self).0 == with_bit(old(self).0, 1, v),
    {
        self.0 = set_bit(self.0, 1, v);
    }

    /// Bit 4.
    pub fn reset(&self) -> (r: bool)
        ensures
            r == bit_of(self.0, 4),
    {
        bit(self.0, 4)
    }

    /// Sets bit 4, leaving the others as they are.
    pub fn set_reset(&mut self, v: bool)
        ensures
            final(self).0 == with_bit(old(self).0, 4, v),
    {
        self.0 = set_bit(self.0, 4, v);
    }
}

/// Serial interface: integrity mode, status byte, bus time-out.
#[derive(Debug, Clone, Copy, PartialEq, Eq, Structural)]
pub struct Interface(pub u8);

impl Register for Interface {
    open spec fn address_spec() -> u8 {
        INTERFACE
    }

    open spec fn byte(&self) -> u8 {
        self.0
    }

    fn address() -> (r: u8) {
        INTERFACE
    }

    fn from_byte(b: u8) -> (r: Self) {
        Interface(b)
    }

    fn into_byte(&self) -> (r: u8) {
        self.0
    }
}

impl Default for Interface {
    /// The value the device holds after reset.
    fn default() -> (r: Self)
        ensures
            r.0 == 0x05,
    {
        Interface(0x05)
    }
}

impl Interface {
    /// Bits 1 to 0.
    pub fn crc(&self) -> (r: u8)
        ensures
            r == field_of(self.0, 0, 2),
    {
        field(self.0, 0, 2)
    }

    /// Sets bits 1 to 0 to the low bits of `v`, leaving the others as they are.
    pub fn set_crc(&mut self, v: u8)
        ensures
            final(self).0 == with_field(old(self).0, 0, 2, v),
    {
        self.0 = set_field(self.0, 0, 2, v);
    }

    /// Bit 2.
    pub fn status(&self) -> (r: bool)
        ensures
            r == bit_of(self.0, 2),
    {
        bit(self.0, 2)
    }

    /// Sets bit 2, leaving the others as they are.
    pub fn set_status(&mut self, v: bool)
        ensures
            final(self).0 == with_bit(old(self).0, 2, v),
    {
        self.0 = set_bit(self.0, 2, v);
    }

    /// Bit 3.
    pub fn time_out(&self) -> (r: bool)
        ensures
            r == bit_of(self.0, 3),
    {
        bit(self.0, 3)
    }

    /// Sets bit 3, leaving the others as they are.
    pub fn set_time_out(&mut self, v: bool)
        ensures
            final(self).0 == with_bit(old(self).0, 3, v),
    {
        self.0 = set_bit(self.0, 3, v);
    }
}

/// Mode 0: conversion delay, chop, run mode, reference reversal.
#[derive(Debug, Clone, Copy, PartialEq, Eq, Structural)]
pub struct Mode0(pub u8);

impl Register for Mode0 {
    open spec fn address_spec() -> u8 {
        MODE0
    }

    open spec fn byte(&self) -> u8 {
        self.0
    }

    fn address() -> (r: u8) {
        MODE0
    }

    fn from_byte(b: u8) -> (r: Self) {
        Mode0(b)
    }

    fn into_byte(&self) -> (r: u8) {
        self.0
    }
}

impl Default for Mode0 {
    /// The value the device holds after reset.
    fn default() -> (r: Self)
        ensures
            r.0 == 0x00,
    {
        Mode0(0x00)
    }
}

impl Mode0 {
    /// Bits 3 to 0.
    pub fn delay(&self) -> (r: u8)
        ensures
            r == field_of(self.0, 0, 4),
    {
        field(self.0, 0, 4)
    }

    /// Sets bits 3 to 0 to the low bits of `v`, leaving the others as they are.
    pub fn set_delay(&mut self, v: u8)
        ensures
            final(self).0 == with_field(old(self).0, 0, 4, v),
    {
        self.0 = set_field(self.0, 0, 4, v);
    }

    /// Bits 5 to 4.
    pub fn chop(&self) -> (r: u8)
        ensures
            r == field_of(self.0, 4, 2),
    {
        field(self.0, 4, 2)
    }

    /// Sets bits 5 to 4 to the low bits of `v`, leaving the others as they are.
    pub fn set_chop(&mut self, v: u8)
        ensures
            final(self).0 == with_field(old(self).0, 4, 2, v),
    {
        self.0 = set_field(self.0, 4, 2, v);
    }

    /// Bit 6.
    pub fn run_mode(&self) -> (r: bool)
        ensures
            r == bit_of(self.0, 6),
    {
        bit(self.0, 6)
    }

    /// Sets bit 6, leaving the others as they are.
    pub fn set_run_mode(&mut self, v: bool)
        ensures
            final(self).0 == with_bit(old(self).0, 6, v),
    {
        self.0 = set_bit(self.0, 6, v);
    }

    /// Bit 7.
    pub fn refrev(&self) -> (r: bool)
        ensures
            r == bit_of(self.0, 7),
    {
        bit(self.0, 7)
    }

    /// Sets bit 7, leaving the others as they are.
    pub fn set_refrev(&mut self, v: bool)
        ensures
            final(self).0 == with_bit(old(self).0, 7, v),
    {
        self.0 = set_bit(self.0, 7, v);
    }
}

/// Mode 1: sensor bias and digital filter.
#[derive(Debug, Clone, Copy, PartialEq, Eq, Structural)]
pub struct Mode1(pub u8);

impl Register for Mode1 {
    open spec fn address_spec() -> u8 {
        MODE1
    }

    open spec fn byte(&self) -> u8 {
        self.0
    }

    fn address() -> (r: u8) {
        MODE1
    }

    fn from_byte(b: u8) -> (r: Self) {
        Mode1(b)
    }

    fn into_byte(&self) -> (r: u8) {
        self.0
    }
}

impl Default for Mode1 {
    /// The value the device holds after reset.
    fn default() -> (r: Self)
        ensures
            r.0 == 0x80,
    {
        Mode1(0x80)
    }
}

impl Mode1 {
    /// Bits 2 to 0.
    pub fn sbmag(&self) -> (r: u8)
        ensures
            r == field_of(self.0, 0, 3),
    {
        field(self.0, 0, 3)
    }

    /// Sets bits 2 to 0 to the low bits of `v`, leaving the others as they are.
    pub fn set_sbmag(&mut self, v: u8)
        ensures
            final(self).0 == with_field(old(self).0, 0, 3, v),
    {
        self.0 = set_field(self.0, 0, 3, v);
    }

    /// Bit 3.
    pub fn sbpol(&self) -> (r: bool)
        ensures
            r == bit_of(self.0, 3),
    {
        bit(self.0, 3)
    }

    /// Sets bit 3, leaving the others as they are.
    pub fn set_sbpol(&mut self, v: bool)
        ensures
            final(self).0 == with_bit(old(self).0, 3, v),
    {
        self.0 = set_bit(self.0, 3, v);
    }

    /// Bit 4.
    pub fn sbadc(&self) -> (r: bool)
        ensures
            r == bit_of(self.0, 4),
    {
        bit(self.0, 4)
    }

    /// Sets bit 4, leaving the others as they are.
    pub fn set_sbadc(&mut self, v: bool)
        ensures
            final(self).0 == with_bit(old(self).0, 4, v),
    {
        self.0 = set_bit(self.0, 4, v);
    }

    /// Bits 7 to 5.
    pub fn filter(&self) -> (r: u8)
        ensures
            r == field_of(self.0, 5, 3),
    {
        field(self.0, 5, 3)
    }

    /// Sets bits 7 to 5 to the low bits of `v`, leaving the others as they are.
    pub fn set_filter(&mut self, v: u8)
        ensures
            final(self).0 == with_field(old(self).0, 5, 3, v),
    {
        self.0 = set_field(self.0, 5, 3, v);
    }
}

/// Mode 2: data rate, gain, amplifier bypass.
#[derive(Debug, Clone, Copy, PartialEq, Eq, Structural)]
pub struct Mode2(pub u8);

impl Register for Mode2 {
    open spec fn address_spec() -> u8 {
        MODE2
    }

    open spec fn byte(&self) -> u8 {
        self.0
    }

    fn address() -> (r: u8) {
        MODE2
    }

    fn from_byte(b: u8) -> (r: Self) {
        Mode2(b)
    }

    fn into_byte(&self) -> (r: u8) {
        self.0
    }
}

impl Default for Mode2 {
    /// The value the device holds after reset.
    fn default() -> (r: Self)
        ensures
            r.0 == 0x04,
    {
        Mode2(0x04)
    }
}

impl Mode2 {
    /// Bits 3 to 0.
    pub fn dr(&self) -> (r: u8)
        ensures
            r == field_of(self.0, 0, 4),
    {
        field(self.0, 0, 4)
    }

    /// Sets bits 3 to 0 to the low bits of `v`, leaving the others as they are.
    pub fn set_dr(&mut self, v: u8)
        ensures
            final(self).0 == with_field(old(self).0, 0, 4, v),
    {
        self.0 = set_field(self.0, 0, 4, v);
    }

    /// Bits 6 to 4.
    pub fn gain(&self) -> (r: u8)
        ensures
            r == field_of(self.0, 4, 3),
    {
        field(self.0, 4, 3)
    }

    /// Sets bits 6 to 4 to the low bits of `v`, leaving the others as they are.
    pub fn set_gain(&mut self, v: u8)
        ensures
            final(self).0 == with_field(old(self).0, 4, 3, v),
    {
        self.0 = set_field(self.0, 4, 3, v);
    }

    /// Bit 7.
    pub fn bypass(&self) -> (r: bool)
        ensures
            r == bit_of(self.0, 7),
    {
        bit(self.0, 7)
    }

    /// Sets bit 7, leaving the others as they are.
    pub fn set_bypass(&mut self, v: bool)
        ensures
            final(self).0 == with_bit(old(self).0, 7, v),
    {
        self.0 = set_bit(self.0, 7, v);
    }
}

/// Input multiplexer of ADC1.
#[derive(Debug, Clone, Copy, PartialEq, Eq, Structural)]
pub struct InpMux(pub u8);

impl Register for InpMux {
    open spec fn address_spec() -> u8 {
        INPMUX
    }

    open spec fn byte(&self) -> u8 {
        self.0
    }

    fn address() -> (r: u8) {
        INPMUX
    }

    fn from_byte(b: u8) -> (r: Self) {
        InpMux(b)
    }

    fn into_byte(&self) -> (r: u8) {
        self.0
    }
}

impl Default for InpMux {
    /// The value the device holds after reset.
    fn default() -> (r: Self)
        ensures
            r.0 == 0x01,
    {
        InpMux(0x01)
    }
}

impl InpMux {
    /// Bits 3 to 0.
    pub fn muxn(&self) -> (r: u8)
        ensures
            r == field_of(self.0, 0, 4),
    {
        field(self.0, 0, 4)
    }

    /// Sets bits 3 to 0 to the low bits of `v`, leaving the others as they are.
    pub fn set_muxn(&mut self, v: u8)
        ensures
            final(self).0 == with_field(old(self).0, 0, 4, v),
    {
        self.0 = set_field(self.0, 0, 4, v);
    }

    /// Bits 7 to 4.
    pub fn muxp(&self) -> (r: u8)
        ensures
            r == field_of(self.0, 4, 4),
    {
        field(self.0, 4, 4)
    }

    /// Sets bits 7 to 4 to the low bits of `v`, leaving the others as they are.
    pub fn set_muxp(&mut self, v: u8)
        ensures
            final(self).0 == with_field(old(self).0, 4, 4, v),
    {
        self.0 = set_field(self.0, 4, 4, v);
    }
}

/// Excitation current multiplexer.
#[derive(Debug, Clone, Copy, PartialEq, Eq, Structural)]
pub struct IdacMux(pub u8);

impl Register for IdacMux {
    open spec fn address_spec() -> u8 {
        IDACMUX
    }

    open spec fn byte(&self) -> u8 {
        self.0
    }

    fn address() -> (r: u8) {
        IDACMUX
    }

    fn from_byte(b: u8) -> (r: Self) {
        IdacMux(b)
    }

    fn into_byte(&self) -> (r: u8) {
        self.0
    }
}

impl Default for IdacMux {
    /// The value the device holds after reset.
    fn default() -> (r: Self)
        ensures
            r.0 == 0xBB,
    {
        IdacMux(0xBB)
    }
}

impl IdacMux {
    /// Bits 3 to 0.
    pub fn mux1(&self) -> (r: u8)
        ensures
            r == field_of(self.0, 0, 4),
    {
        field(self.0, 0, 4)
    }

    /// Bits 7 to 4.
    pub fn mux2(&self) -> (r: u8)
        ensures
            r == field_of(self.0, 4, 4),
    {
        field(self.0, 4, 4)
    }
}

/// Excitation current magnitude.
#[derive(Debug, Clone, Copy, PartialEq, Eq, Structural)]
pub struct IdacMag(pub u8);

impl Register for IdacMag {
    open spec fn address_spec() -> u8 {
        IDACMAG
    }

    open spec fn byte(&self) -> u8 {
        self.0
    }

    fn address() -> (r: u8) {
        IDACMAG
    }

    fn from_byte(b: u8) -> (r: Self) {
        IdacMag(b)
    }

    fn into_byte(&self) -> (r: u8) {
        self.0
    }
}

impl Default for IdacMag {
    /// The value the device holds after reset.
    fn default() -> (r: Self)
        ensures
            r.0 == 0x00,
    {
        IdacMag(0x00)
    }
}

impl IdacMag {
    /// Bits 3 to 0.
    pub fn mag1(&self) -> (r: u8)
        ensures
            r == field_of(self.0, 0, 4),
    {
        field(self.0, 0, 4)
    }

    /// Bits 7 to 4.
    pub fn mag2(&self) -> (r: u8)
        ensures
            r == field_of(self.0, 4, 4),
    {
        field(self.0, 4, 4)
    }
}

/// Reference multiplexer.
#[derive(Debug, Clone, Copy, PartialEq, Eq, Structural)]
pub struct RefMux(pub u8);

impl Register for RefMux {
    open spec fn address_spec() -> u8 {
        REFMUX
    }

    open spec fn byte(&self) -> u8 {
        self.0
    }

    fn address() -> (r: u8) {
        REFMUX
    }

    fn from_byte(b: u8) -> (r: Self) {
        RefMux(b)
    }

    fn into_byte(&self) -> (r: u8) {
        self.0
    }
}

impl Default for RefMux {
    /// The value the device holds after reset.
    fn default() -> (r: Self)
        ensures
            r.0 == 0x00,
    {
        RefMux(0x00)
    }
}

impl RefMux {
    /// Bits 2 to 0.
    pub fn rmuxn(&self) -> (r: u8)
        ensures
            r == field_of(self.0, 0, 3),
    {
        field(self.0, 0, 3)
    }

    /// Bits 5 to 3.
    pub fn rmuxp(&self) -> (r: u8)
        ensures
            r == field_of(self.0, 3, 3),
    {
        field(self.0, 3, 3)
    }
}

/// Test DAC, positive output.
#[derive(Debug, Clone, Copy, PartialEq, Eq, Structural)]
pub struct TdacP(pub u8);

impl Register for TdacP {
    open spec fn address_spec() -> u8 {
        TDACP
    }

    open spec fn byte(&self) -> u8 {
        self.0
    }

    fn address() -> (r: u8) {
        TDACP
    }

    fn from_byte(b: u8) -> (r: Self) {
        TdacP(b)
    }

    fn into_byte(&self) -> (r: u8) {
        self.0
    }
}

impl Default for TdacP {
    /// The value the device holds after reset.
    fn default() -> (r: Self)
        ensures
            r.0 == 0x00,
    {
        TdacP(0x00)
    }
}

impl TdacP {
    /// Bits 4 to 0.
    pub fn magp(&self) -> (r: u8)
        ensures
            r == field_of(self.0, 0, 5),
    {
        field(self.0, 0, 5)
    }

    /// Bit 7.
    pub fn outp(&self) -> (r: bool)
        ensures
            r == bit_of(self.0, 7),
    {
        bit(self.0, 7)
    }
}

/// Test DAC, negative output.
#[derive(Debug, Clone, Copy, PartialEq, Eq, Structural)]
pub struct TdacN(pub u8);

impl Register for TdacN {
    open spec fn address_spec() -> u8 {
        TDACN
    }

    open spec fn byte(&self) -> u8 {
        self.0
    }

    fn address() -> (r: u8) {
        TDACN
    }

    fn from_byte(b: u8) -> (r: Self) {
        TdacN(b)
    }

    fn into_byte(&self) -> (r: u8) {
        self.0
    }
}

impl Default for TdacN {
    /// The value the device holds after reset.
    fn default() -> (r: Self)
        ensures
            r.0 == 0x00,
    {
        TdacN(0x00)
    }
}

impl TdacN {
    /// Bits 4 to 0.
    pub fn magn(&self) -> (r: u8)
        ensures
            r == field_of(self.0, 0, 5),
    {
        field(self.0, 0, 5)
    }

    /// Bit 7.
    pub fn outn(&self) -> (r: bool)
        ensures
            r == bit_of(self.0, 7),
    {
        bit(self.0, 7)
    }
}

/// GPIO connection: one bit per pin.
#[derive(Debug, Clone, Copy, PartialEq, Eq, Structural)]
pub struct GpioCon(pub u8);

impl Register for GpioCon {
    open spec fn address_spec() -> u8 {
        GPIOCON
    }

    open spec fn byte(&self) -> u8 {
        self.0
    }

    fn address() -> (r: u8) {
        GPIOCON
    }

    fn from_byte(b: u8) -> (r: Self) {
        GpioCon(b)
    }

    fn into_byte(&self) -> (r: u8) {
        self.0
    }
}

impl Default for GpioCon {
    /// The value the device holds after reset.
    fn default() -> (r: Self)
        ensures
            r.0 == 0x00,
    {
        GpioCon(0x00)
    }
}

impl GpioCon {
    /// Bits 7 to 0.
    pub fn con(&self) -> (r: u8)
        ensures
            r == field_of(self.0, 0, 8),
    {
        field(self.0, 0, 8)
    }
}

/// GPIO direction: one bit per pin, set for input.
#[derive(Debug, Clone, Copy, PartialEq, Eq, Structural)]
pub struct GpioDir(pub u8);

impl Register for GpioDir {
    open spec fn address_spec() -> u8 {
        GPIODIR
    }

    open spec fn byte(&self) -> u8 {
        self.0
    }

    fn address() -> (r: u8) {
        GPIODIR
    }

    fn from_byte(b: u8) -> (r: Self) {
        GpioDir(b)
    }

    fn into_byte(&self) -> (r: u8) {
        self.0
    }
}

impl Default for GpioDir {
    /// The value the device holds after reset.
    fn default() -> (r: Self)
        ensures
            r.0 == 0x00,
    {
        GpioDir(0x00)
    }
}

impl GpioDir {
    /// Bits 7 to 0.
    pub fn dir(&self) -> (r: u8)
        ensures
            r == field_of(self.0, 0, 8),
    {
        field(self.0, 0, 8)
    }
}

/// GPIO data: one bit per pin.
#[derive(Debug, Clone, Copy, PartialEq, Eq, Structural)]
pub struct GpioDat(pub u8);

impl Register for GpioDat {
    open spec fn address_spec() -> u8 {
        GPIODAT
    }

    open spec fn byte(&self) -> u8 {
        self.0
    }

    fn address() -> (r: u8) {
        GPIODAT
    }

    fn from_byte(b: u8) -> (r: Self) {
        GpioDat(b)
    }

    fn into_byte(&self) -> (r: u8) {
        self.0
    }
}

impl Default for GpioDat {
    /// The value the device holds after reset.
    fn default() -> (r: Self)
        ensures
            r.0 == 0x00,
    {
        GpioDat(0x00)
    }
}

impl GpioDat {
    /// Bits 7 to 0.
    pub fn dat(&self) -> (r: u8)
        ensures
            r == field_of(self.0, 0, 8),
    {
        field(self.0, 0, 8)
    }
}

/// ADC2 configuration: gain, reference, data rate.
#[derive(Debug, Clone, Copy, PartialEq, Eq, Structural)]
pub struct Adc2Cfg(pub u8);

impl Register for Adc2Cfg {
    open spec fn address_spec() -> u8 {
        ADC2CFG
    }

    open spec fn byte(&self) -> u8 {
        self.0
    }

    fn address() -> (r: u8) {
        ADC2CFG
    }

    fn from_byte(b: u8) -> (r: Self) {
        Adc2Cfg(b)
    }

    fn into_byte(&self) -> (r: u8) {
        self.0
    }
}

impl Default for Adc2Cfg {
    /// The value the device holds after reset.
    fn default() -> (r: Self)
        ensures
            r.0 == 0x00,
    {
        Adc2Cfg(0x00)
    }
}

impl Adc2Cfg {
    /// Bits 2 to 0.
    pub fn gain2(&self) -> (r: u8)
        ensures
            r == field_of(self.0, 0, 3),
    {
        field(self.0, 0, 3)
    }

    /// Bits 5 to 3.
    pub fn ref2(&self) -> (r: u8)
        ensures
            r == field_of(self.0, 3, 3),
    {
        field(self.0, 3, 3)
    }

    /// Bits 7 to 6.
    pub fn dr2(&self) -> (r: u8)
        ensures
            r == field_of(self.0, 6, 2),
    {
        field(self.0, 6, 2)
    }
}

/// Input multiplexer of ADC2.
#[derive(Debug, Clone, Copy, PartialEq, Eq, Structural)]
pub struct Adc2Mux(pub u8);

impl Register for Adc2Mux {
    open spec fn address_spec() -> u8 {
        ADC2MUX
    }

    open spec fn byte(&self) -> u8 {
        self.0
    }

    fn address() -> (r: u8) {
        ADC2MUX
    }

    fn from_byte(b: u8) -> (r: Self) {
        Adc2Mux(b)
    }

    fn into_byte(&self) -> (r: u8) {
        self.0
    }
}

impl Default for Adc2Mux {
    /// The value the device holds after reset.
    fn default() -> (r: Self)
        ensures
            r.0 == 0x01,
    {
        Adc2Mux(0x01)
    }
}

impl Adc2Mux {
    /// Bits 3 to 0.
    pub fn muxn2(&self) -> (r: u8)
        ensures
            r == field_of(self.0, 0, 4),
    {
        field(self.0, 0, 4)
    }

    /// Bits 7 to 4.
    pub fn muxp2(&self) -> (r: u8)
        ensures
            r == field_of(self.0, 4, 4),
    {
        field(self.0, 4, 4)
    }
}

impl Power {
    /// A power register with the given reference, bias and reset flags.
    pub fn with(intref: bool, vbias: bool, reset: bool) -> (r: Self)
        ensures
            bit_of(r.0, 0) == intref,
            bit_of(r.0, 1) == vbias,
            bit_of(r.0, 4) == reset,
            field_of(r.0, 2, 2) == 0,
            field_of(r.0, 5, 3) == 0,
    {
        broadcast use {lemma_field_written, lemma_field_kept};
        proof {
            lemma_mask_values();
            assert((0u8 >> 2u8) & 3u8 == 0u8) by (bit_vector);
            assert((0u8 >> 5u8) & 7u8 == 0u8) by (bit_vector);
        }
        let mut this = Self(0);
        this.set_intref(intref);
        this.set_vbias(vbias);
        this.set_reset(reset);
        this
    }
}

impl Mode0 {
    /// A mode 0 register with the given delay, chop mode, run mode and reference polarity.
    pub fn with(delay: Mode0Delay, chop: Mode0Chop, oneshot: bool, refrev: bool) -> (r: Self)
        ensures
            field_of(r.0, 0, 4) == delay.code_spec(),
            field_of(r.0, 4, 2) == chop.code_spec(),
            bit_of(r.0, 6) == oneshot,
            bit_of(r.0, 7) == refrev,
    {
        broadcast use {lemma_field_written, lemma_field_kept};
        proof {
            lemma_mask_values();
        }
        let mut this = Self(0);
        this.set_delay(delay.code());
        this.set_chop(chop.code());
        this.set_run_mode(oneshot);
        this.set_refrev(refrev);
        proof {
            lemma_mask_values();
            lemma_fits(delay.code_spec(), 4);
            lemma_fits(chop.code_spec(), 2);
        }
        this
    }
}

impl Mode1 {
    /// A mode 1 register with the given sensor bias and filter.
    pub fn with(sbmag: Mode1SBMag, sbpol: bool, sbadc: bool, filter: Mode1Filter) -> (r: Self)
        ensures
            field_of(r.0, 0, 3) == sbmag.code_spec(),
            bit_of(r.0, 3) == sbpol,
            bit_of(r.0, 4) == sbadc,
            field_of(r.0, 5, 3) == filter.code_spec(),
    {
        broadcast use {lemma_field_written, lemma_field_kept};
        proof {
            lemma_mask_values();
        }
        let mut this = Self(0);
        this.set_sbmag(sbmag.code());
        this.set_sbpol(sbpol);
        this.set_sbadc(sbadc);
        this.set_filter(filter.code());
        proof {
            lemma_mask_values();
            lemma_fits(sbmag.code_spec(), 3);
            lemma_fits(filter.code_spec(), 3);
        }
        this
    }
}

impl Mode2Gain {
    /// The amplification factor.
    pub open spec fn gain_spec(&self) -> u32 {
        match self {
            Mode2Gain::Gain1 => 1,
            Mode2Gain::Gain2 => 2,
            Mode2Gain::Gain4 => 4,
            Mode2Gain::Gain8 => 8,
            Mode2Gain::Gain16 => 16,
            Mode2Gain::Gain32 => 32,
        }
    }

    /// The amplification factor.
    pub fn gain(&self) -> (r: u32)
        ensures
            r == self.gain_spec(),
    {
        match self {
            Mode2Gain::Gain1 => 1,
            Mode2Gain::Gain2 => 2,
            Mode2Gain::Gain4 => 4,
            Mode2Gain::Gain8 => 8,
            Mode2Gain::Gain16 => 16,
            Mode2Gain::Gain32 => 32,
        }
    }
}

impl Adc2CfgGain {
    /// The amplification factor.
    pub open spec fn gain_spec(&self) -> u32 {
        match self {
            Adc2CfgGain::Gain1 => 1,
            Adc2CfgGain::Gain2 => 2,
            Adc2CfgGain::Gain4 => 4,
            Adc2CfgGain::Gain8 => 8,
            Adc2CfgGain::Gain16 => 16,
            Adc2CfgGain::Gain32 => 32,
            Adc2CfgGain::Gain64 => 64,
            Adc2CfgGain::Gain128 => 128,
        }
    }

    /// The amplification factor.
    pub fn gain(&self) -> (r: u32)
        ensures
            r == self.gain_spec(),
    {
        match self {
            Adc2CfgGain::Gain1 => 1,
            Adc2CfgGain::Gain2 => 2,
            Adc2CfgGain::Gain4 => 4,
            Adc2CfgGain::Gain8 => 8,
            Adc2CfgGain::Gain16 => 16,
            Adc2CfgGain::Gain32 => 32,
            Adc2CfgGain::Gain64 => 64,
            Adc2CfgGain::Gain128 => 128,
        }
    }
}

impl Mode2 {
    /// A mode 2 register with the given data rate, gain and amplifier bypass.
    pub fn with(dr: Mode2Dr, gain: Mode2Gain, bypass: bool) -> (r: Self)
        ensures
            field_of(r.0, 0, 4) == dr.code_spec(),
            field_of(r.0, 4, 3) == gain.code_spec(),
            bit_of(r.0, 7) == bypass,
    {
        broadcast use {lemma_field_written, lemma_field_kept};
        proof {
            lemma_mask_values();
        }
        let mut this = Self(0);
        this.set_dr(dr.code());
        this.set_gain(gain.code());
        this.set_bypass(bypass);
        proof {
            lemma_mask_values();
            lemma_fits(dr.code_spec(), 4);
            lemma_fits(gain.code_spec(), 3);
        }
        this
    }
}

impl InpMux {
    /// Measures `inp` against `inn`.
    pub fn differential(inp: InpMuxMuxx, inn: InpMuxMuxx) -> (r: Self)
        ensures
            field_of(r.0, 4, 4) == inp.code_spec(),
            field_of(r.0, 0, 4) == inn.code_spec(),
    {
        broadcast use {lemma_field_written, lemma_field_kept};
        let mut this = Self(0);
        this.set_muxn(inn.code());
        this.set_muxp(inp.code());
        proof {
            lemma_fits(inp.code_spec(), 4);
            lemma_fits(inn.code_spec(), 4);
        }
        this
    }

    /// Measures `inp` against the common input.
    pub fn singleended(inp: InpMuxMuxx) -> (r: Self)
        ensures
            field_of(r.0, 4, 4) == inp.code_spec(),
            field_of(r.0, 0, 4) == InpMuxMuxx::AinCom.code_spec(),
    {
        Self::differential(inp, InpMuxMuxx::AinCom)
    }

    /// Selects the temperature sensor.
    pub fn temperature() -> (r: Self)
        ensures
            field_of(r.0, 4, 4) == InpMuxMuxx::Temperature.code_spec(),
            field_of(r.0, 0, 4) == InpMuxMuxx::Temperature.code_spec(),
    {
        Self::differential(InpMuxMuxx::Temperature, InpMuxMuxx::Temperature)
    }

    /// Selects the analog power supply monitor.
    pub fn analog_power() -> (r: Self)
        ensures
            field_of(r.0, 4, 4) == InpMuxMuxx::AnalogPower.code_spec(),
            field_of(r.0, 0, 4) == InpMuxMuxx::AnalogPower.code_spec(),
    {
        Self::differential(InpMuxMuxx::AnalogPower, InpMuxMuxx::AnalogPower)
    }

    /// Selects the digital power supply monitor.
    pub fn digital_power() -> (r: Self)
        ensures
            field_of(r.0, 4, 4) == InpMuxMuxx::DigitalPower.code_spec(),
            field_of(r.0, 0, 4) == InpMuxMuxx::DigitalPower.code_spec(),
    {
        Self::differential(InpMuxMuxx::DigitalPower, InpMuxMuxx::DigitalPower)
    }

    /// Selects the test DAC.
    pub fn tdac() -> (r: Self)
        ensures
            field_of(r.0, 4, 4) == InpMuxMuxx::Tdac.code_spec(),
            field_of(r.0, 0, 4) == InpMuxMuxx::Tdac.code_spec(),
    {
        Self::differential(InpMuxMuxx::Tdac, InpMuxMuxx::Tdac)
    }
}

impl GpioCon {
    /// Connects GPIO `idx` to its pin.
    pub fn set_connected(&mut self, idx: usize)
        requires
            idx < 8,
        ensures
            final(self).0 == with_bit(old(self).0, idx as u8, true),
    {
        self.0 = set_bit(self.0, idx as u8, true);
    }

    /// Disconnects GPIO `idx` from its pin.
    pub fn set_unconnected(&mut self, idx: usize)
        requires
            idx < 8,
        ensures
            final(self).0 == with_bit(old(self).0, idx as u8, false),
    {
        self.0 = set_bit(self.0, idx as u8, false);
    }
}

impl GpioDir {
    /// Makes GPIO `idx` an input.
    pub fn set_input(&mut self, idx: usize)
        requires
            idx < 8,
        ensures
            final(self).0 == with_bit(old(self).0, idx as u8, true),
    {
        self.0 = set_bit(self.0, idx as u8, true);
    }

    /// Makes GPIO `idx` an output.
    pub fn set_output(&mut self, idx: usize)
        requires
            idx < 8,
        ensures
            final(self).0 == with_bit(old(self).0, idx as u8, false),
    {
        self.0 = set_bit(self.0, idx as u8, false);
    }
}

impl GpioDat {
    /// Whether GPIO `idx` reads high.
    pub fn is_high(&mut self, idx: usize) -> (r: bool)
        requires
            idx < 8,
        ensures
            *final(self) == *old(self),
            r == bit_of(old(self).0, idx as u8),
    {
        bit(self.0, idx as u8)
    }

    /// Whether GPIO `idx` reads low.
    pub fn is_low(&mut self, idx: usize) -> (r: bool)
        requires
            idx < 8,
        ensures
            *final(self) == *old(self),
            r == !bit_of(old(self).0, idx as u8),
    {
        !bit(self.0, idx as u8)
    }
}

} // verus!
