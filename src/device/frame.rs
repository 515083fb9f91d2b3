//! The bytes of each bus transaction, and the decoding of what comes back.
use vstd::prelude::*;

use crate::commands::Command;
use crate::crc8::{checksum, checksum_of, crc8_of, crc_8_atm};
use crate::registers::{bit, bit_of, field, field_of, Interface, Register};
use vstd::slice::slice_subrange;
use super::{Ads126xError, Data, Status};

verus! {

/// Whether the interface configuration `cfg` puts a status byte before the code.
pub open spec fn status_enabled(cfg: u8) -> bool {
    bit_of(cfg, 2)
}

/// The integrity mode of `cfg`: 0 none, 1 additive checksum, 2 CRC-8.
pub open spec fn integrity_mode(cfg: u8) -> u8 {
    field_of(cfg, 0, 2)
}

/// One if `b`, else zero.
pub open spec fn one_if(b: bool) -> nat {
    if b {
        1
    } else {
        0
    }
}

/// Length of a conversion-data exchange: four code bytes, one more for a command prefix, one
/// for the status byte, one for the integrity byte.
pub open spec fn data_len_spec(cfg: u8, prefixed: bool) -> nat {
    4 + one_if(prefixed) + one_if(status_enabled(cfg)) + one_if(integrity_mode(cfg) != 0)
}

/// Index of the first code byte in a conversion-data response.
pub open spec fn code_start(cfg: u8, prefixed: bool) -> int {
    (one_if(prefixed) + one_if(status_enabled(cfg))) as int
}

/// The four code bytes of a conversion-data response.
pub open spec fn code_bytes(cfg: u8, prefixed: bool, resp: Seq<u8>) -> Seq<u8> {
    resp.subrange(code_start(cfg, prefixed), code_start(cfg, prefixed) + 4)
}

/// The integrity byte that mode `mode` expects after the code bytes `code`.
pub open spec fn expected_integrity(mode: u8, code: Seq<u8>) -> u8 {
    if mode == 1 {
        checksum_of(code)
    } else if mode == 2 {
        crc8_of(code)
    } else {
        0
    }
}

/// The response carries no integrity byte, or one that matches its code bytes.
pub open spec fn integrity_holds(cfg: u8, prefixed: bool, resp: Seq<u8>) -> bool {
    integrity_mode(cfg) == 0 || resp[code_start(cfg, prefixed) + 4] == expected_integrity(
        integrity_mode(cfg),
        code_bytes(cfg, prefixed, resp),
    )
}

/// The status byte of a response, or zero where the configuration has none.
pub open spec fn status_byte(cfg: u8, prefixed: bool, resp: Seq<u8>) -> u8 {
    if status_enabled(cfg) {
        resp[one_if(prefixed) as int]
    } else {
        0
    }
}

/// The unsigned value of four bytes, most significant first.
pub open spec fn be_u32(b: Seq<u8>) -> int {
    b[0] as int * 0x1000000 + b[1] as int * 0x10000 + b[2] as int * 0x100 + b[3] as int
}

/// The two's complement value of `v`, an unsigned number of `bits` bits.
pub open spec fn signed_of(v: int, bits: nat) -> int {
    if v < vstd::arithmetic::power2::pow2((bits - 1) as nat) {
        v
    } else {
        v - vstd::arithmetic::power2::pow2(bits)
    }
}

/// The signed code of four bytes, most significant first.
pub open spec fn be_i32(b: Seq<u8>) -> int {
    if be_u32(b) < 0x8000_0000 {
        be_u32(b)
    } else {
        be_u32(b) - 0x1_0000_0000
    }
}

/// Length of a conversion-data exchange under configuration `interface`.
pub fn data_len(interface: &Interface, prefixed: bool) -> (r: usize)
    ensures
        r == data_len_spec(interface.0, prefixed),
{
    let mut len: usize = 4;
    if prefixed {
        len += 1;
    }
    if bit(interface.0, 2) {
        len += 1;
    }
    if field(interface.0, 0, 2) != 0 {
        len += 1;
    }
    len
}

/// The bytes sent for a conversion-data read: the command opcode, if any, then zeros.
pub open spec fn data_request_spec(cfg: u8, cmd: Option<Command>) -> Seq<u8> {
    Seq::new(
        data_len_spec(cfg, cmd is Some),
        |i: int|
            if i == 0 && cmd is Some {
                cmd->Some_0.opcode_spec()
            } else {
                0u8
            },
    )
}

/// `n` zero bytes.
fn zeros(n: usize) -> (r: Vec<u8>)
    ensures
        r@ == Seq::new(n as nat, |i: int| 0u8),
{
    let mut v: Vec<u8> = Vec::new();
    let mut i: usize = 0;
    while i < n
        invariant
            i <= n,
            v@ == Seq::new(i as nat, |j: int| 0u8),
        decreases n - i,
    {
        v.push(0);
        i = i + 1;
        assert(v@ =~= Seq::new(i as nat, |j: int| 0u8));
    }
    v
}

/// The bytes sent for a conversion-data read under configuration `interface`.
pub fn data_request(interface: &Interface, cmd: Option<Command>) -> (r: Vec<u8>)
    ensures
        r@ == data_request_spec(interface.0, cmd),
        r@.len() == data_len_spec(interface.0, cmd is Some),
{
    let len = data_len(interface, cmd.is_some());
    let mut buf = zeros(len);
    if let Some(c) = cmd {
        buf.set(0, c.opcode());
    }
    assert(buf@ =~= data_request_spec(interface.0, cmd));
    buf
}

/// Decodes the response of a conversion-data read made under configuration `interface`,
/// `prefixed` telling whether a command byte came first. A response too short for the
/// configuration is a decode error; a wrong integrity byte is an integrity error.
pub fn decode_data<SpiErr, IoErr>(interface: &Interface, prefixed: bool, resp: &[u8]) -> (r:
    Result<Data, Ads126xError<SpiErr, IoErr>>)
    ensures
        resp@.len() < data_len_spec(interface.0, prefixed) ==> r matches Err(Ads126xError::Other),
        resp@.len() >= data_len_spec(interface.0, prefixed) && !integrity_holds(
            interface.0,
            prefixed,
            resp@,
        ) ==> r matches Err(Ads126xError::Crc),
        resp@.len() >= data_len_spec(interface.0, prefixed) && integrity_holds(
            interface.0,
            prefixed,
            resp@,
        ) ==> (r matches Ok(d) && d.code as int == be_i32(code_bytes(interface.0, prefixed, resp@))
            && d.status.0 == status_byte(interface.0, prefixed, resp@)),
{
    let len = data_len(interface, prefixed);
    if resp.len() < len {
        return Err(Ads126xError::Other);
    }
    let mut start: usize = 0;
    if prefixed {
        start = 1;
    }
    let status_on = bit(interface.0, 2);
    let status = if status_on {
        Status(resp[start])
    } else {
        Status(0)
    };
    if status_on {
        start = start + 1;
    }
    let code_slice = slice_subrange(resp, start, start + 4);
    let code = be_code(code_slice);
    let mode = field(interface.0, 0, 2);
    if mode != 0 {
        let expected = if mode == 1 {
            checksum(code_slice)
        } else if mode == 2 {
            crc_8_atm(code_slice)
        } else {
            0
        };
        if resp[start + 4] != expected {
            return Err(Ads126xError::Crc);
        }
    }
    Ok(Data::new(status, code))
}

/// The signed code of four bytes, most significant first.
fn be_code(b: &[u8]) -> (r: i32)
    requires
        b@.len() == 4,
    ensures
        r as int == be_i32(b@),
{
    let u: u32 = (b[0] as u32) * 0x1000000 + (b[1] as u32) * 0x10000 + (b[2] as u32) * 0x100
        + b[3] as u32;
    if u < 0x8000_0000 {
        u as i32
    } else {
        ((u - 0x8000_0000) as i32) - 0x7FFF_FFFF - 1
    }
}

/// The unsigned value of `b0`, `b1`, `b2`, least significant first.
pub open spec fn le_u24(b0: u8, b1: u8, b2: u8) -> int {
    b0 as int + b1 as int * 0x100 + b2 as int * 0x10000
}

/// The unsigned value of `b0`, `b1`, least significant first.
pub open spec fn le_u16(b0: u8, b1: u8) -> int {
    b0 as int + b1 as int * 0x100
}

/// Unsigned 24-bit little-endian value.
pub fn decode_u24(b0: u8, b1: u8, b2: u8) -> (r: u32)
    ensures
        r as int == le_u24(b0, b1, b2),
{
    (b0 as u32) + (b1 as u32) * 0x100 + (b2 as u32) * 0x10000
}

/// Signed 24-bit little-endian value in two's complement.
pub fn decode_i24(b0: u8, b1: u8, b2: u8) -> (r: i32)
    ensures
        r as int == signed_of(le_u24(b0, b1, b2), 24),
        -0x80_0000 <= r < 0x80_0000,
{
    proof {
        vstd::arithmetic::power2::lemma2_to64();
    }
    let u = decode_u24(b0, b1, b2);
    if u < 0x80_0000 {
        u as i32
    } else {
        (u as i32) - 0x100_0000
    }
}

/// Unsigned 16-bit little-endian value.
pub fn decode_u16(b0: u8, b1: u8) -> (r: u16)
    ensures
        r as int == le_u16(b0, b1),
{
    (b0 as u16) + (b1 as u16) * 0x100
}

/// Signed 16-bit little-endian value in two's complement.
pub fn decode_i16(b0: u8, b1: u8) -> (r: i16)
    ensures
        r as int == signed_of(le_u16(b0, b1), 16),
{
    proof {
        vstd::arithmetic::power2::lemma2_to64();
    }
    let u = decode_u16(b0, b1);
    if u < 0x8000 {
        u as i16
    } else {
        ((u as i32) - 0x1_0000) as i16
    }
}

/// The bytes sent to read register `addr`.
pub open spec fn read_reg_frame_spec(addr: u8) -> Seq<u8> {
    seq![(0x20 + addr) as u8, 0u8, 0u8]
}

/// The bytes sent to write `byte` to register `addr`.
pub open spec fn write_reg_frame_spec(addr: u8, byte: u8) -> Seq<u8> {
    seq![(0x40 + addr) as u8, 0u8, byte]
}

/// The bytes sent to read `n` consecutive registers from `addr`: the opcode, the count less
/// one, then a zero for each register.
pub open spec fn block_read_frame_spec(addr: u8, n: u8) -> Seq<u8> {
    seq![(0x20 + addr) as u8, (n - 1) as u8] + Seq::new(n as nat, |i: int| 0u8)
}

/// The bytes sent to read register `addr`.
pub fn read_reg_frame(addr: u8) -> (r: Vec<u8>)
    requires
        addr <= 0x1A,
    ensures
        r@ == read_reg_frame_spec(addr),
{
    let v = vec![Command::RReg.reg(addr), 0x00, 0x00];
    assert(v@ =~= read_reg_frame_spec(addr));
    v
}

/// The bytes sent to write `byte` to register `addr`.
pub fn write_reg_frame(addr: u8, byte: u8) -> (r: Vec<u8>)
    requires
        addr <= 0x1A,
    ensures
        r@ == write_reg_frame_spec(addr, byte),
{
    let v = vec![Command::WReg.reg(addr), 0x00, byte];
    assert(v@ =~= write_reg_frame_spec(addr, byte));
    v
}

/// The bytes sent to read `n` consecutive registers from `addr`.
pub fn block_read_frame(addr: u8, n: u8) -> (r: Vec<u8>)
    requires
        addr <= 0x1A,
        1 <= n,
    ensures
        r@ == block_read_frame_spec(addr, n),
        r@.len() == 2 + n,
{
    let mut v = vec![Command::RReg.reg(addr), n - 1];
    let mut i: u8 = 0;
    while i < n
        invariant
            i <= n,
            v@ == seq![(0x20 + addr) as u8, (n - 1) as u8] + Seq::new(i as nat, |j: int| 0u8),
        decreases n - i,
    {
        v.push(0);
        i = i + 1;
        assert(v@ =~= seq![(0x20 + addr) as u8, (n - 1) as u8] + Seq::new(i as nat, |j: int| 0u8));
    }
    v
}

/// The register value in a single-register read response: its third byte.
pub open spec fn reg_value_spec(resp: Seq<u8>) -> u8 {
    resp[2]
}

/// A register written and then read back from a device that keeps what it was given reads
/// as written, field for field: the write frame carries the value's byte third, the read
/// response is decoded from its third byte, and every field is a function of that byte.
pub proof fn lemma_register_round_trip<REG: Register>(v: REG, resp: Seq<u8>, back: REG)
    requires
        resp.len() == 3,
        resp[2] == write_reg_frame_spec(REG::address_spec(), v.byte())[2],
        back.byte() == reg_value_spec(resp),
    ensures
        back.byte() == v.byte(),
        forall|lo: u8, w: u8| #[trigger] field_of(back.byte(), lo, w) == field_of(v.byte(), lo, w),
{
}

} // verus!
