//! The two integrity codes that the converter can append to a conversion read.
use vstd::prelude::*;

verus! {

/// Generator polynomial of CRC-8/ATM (x^8 + x^2 + x + 1, top term implied).
pub const CRC8_ATM_POLY: u8 = 0x07;

/// Seed of the additive checksum.
pub const CHECKSUM_SEED: u8 = 0x9B;

/// One wrapping 8-bit addition.
pub open spec fn add_byte(acc: u8, b: u8) -> u8 {
    ((acc as int + b as int) % 256) as u8
}

/// The accumulator after adding every byte of `s`, in order, to `acc`.
pub open spec fn checksum_from(acc: u8, s: Seq<u8>) -> u8
    decreases s.len(),
{
    if s.len() == 0 {
        acc
    } else {
        add_byte(checksum_from(acc, s.drop_last()), s.last())
    }
}

/// The additive checksum of `s`: the seed plus every byte, modulo 256.
pub open spec fn checksum_of(s: Seq<u8>) -> u8 {
    checksum_from(CHECKSUM_SEED, s)
}

/// The plain sum of the bytes of `s`.
pub open spec fn byte_sum(s: Seq<u8>) -> nat
    decreases s.len(),
{
    if s.len() == 0 {
        0
    } else {
        byte_sum(s.drop_last()) + s.last() as nat
    }
}

/// One step of the bit-serial CRC: the input bit is the low bit of `byte`.
pub open spec fn crc_bit_step(crc: u8, byte: u8) -> u8 {
    if (crc >> 7u8) ^ (byte & 1u8) != 0u8 {
        ((crc << 1u8) ^ CRC8_ATM_POLY) as u8
    } else {
        (crc << 1u8) as u8
    }
}

/// The CRC after feeding the `n` lowest bits of `byte`, least significant first.
pub open spec fn crc_bits(crc: u8, byte: u8, n: nat) -> u8
    decreases n,
{
    if n == 0 {
        crc
    } else {
        crc_bits(crc_bit_step(crc, byte), byte >> 1u8, (n - 1) as nat)
    }
}

/// The CRC after feeding all eight bits of `byte`.
pub open spec fn crc_byte(crc: u8, byte: u8) -> u8 {
    crc_bits(crc, byte, 8)
}

/// The CRC of `s` started from `crc`.
pub open spec fn crc_from(crc: u8, s: Seq<u8>) -> u8
    decreases s.len(),
{
    if s.len() == 0 {
        crc
    } else {
        crc_byte(crc_from(crc, s.drop_last()), s.last())
    }
}

/// CRC-8/ATM of `s`, seeded with zero.
pub open spec fn crc8_of(s: Seq<u8>) -> u8 {
    crc_from(0, s)
}

/// The additive checksum of `data`: 0x9B plus every byte, in wrapping 8-bit arithmetic.
pub fn checksum(data: &[u8]) -> (r: u8)
    ensures
        r == checksum_of(data@),
        r as nat == (CHECKSUM_SEED as nat + byte_sum(data@)) % 256,
{
    let mut sum: u8 = CHECKSUM_SEED;
    let mut i: usize = 0;
    while i < data.len()
        invariant
            i <= data@.len(),
            sum == checksum_of(data@.subrange(0, i as int)),
            sum as nat == (CHECKSUM_SEED as nat + byte_sum(data@.subrange(0, i as int))) % 256,
        decreases data@.len() - i,
    {
        let ghost prev = data@.subrange(0, i as int);
        let ghost next = data@.subrange(0, i as int + 1);
        assert(next.drop_last() =~= prev);
        sum = sum.wrapping_add(data[i]);
        i = i + 1;
        proof {
            assert(byte_sum(next) == byte_sum(prev) + data@[i - 1] as nat);
            let a = CHECKSUM_SEED as nat + byte_sum(prev);
            let b = data@[i - 1] as nat;
            assert((a % 256 + b) % 256 == (a + b) % 256) by (nonlinear_arith);
        }
    }
    assert(data@.subrange(0, data@.len() as int) =~= data@);
    sum
}

/// One byte of CRC-8/ATM: its eight bits go in least significant first.
fn crc_update(crc: u8, byte: u8) -> (r: u8)
    ensures
        r == crc_byte(crc, byte),
{
    let mut c: u8 = crc;
    let mut b: u8 = byte;
    let mut n: u8 = 0;
    while n < 8
        invariant
            n <= 8,
            crc_bits(c, b, (8 - n) as nat) == crc_byte(crc, byte),
        decreases 8 - n,
    {
        if (c >> 7) ^ (b & 0x01) != 0 {
            c = (c << 1) ^ CRC8_ATM_POLY;
        } else {
            c = c << 1;
        }
        b = b >> 1;
        n = n + 1;
    }
    c
}

/// CRC-8/ATM of `data` (polynomial 0x07, seed 0), each byte fed least significant bit first.
pub fn crc_8_atm(data: &[u8]) -> (r: u8)
    ensures
        r == crc8_of(data@),
{
    let mut crc: u8 = 0x00;
    let mut i: usize = 0;
    while i < data.len()
        invariant
            i <= data@.len(),
            crc == crc8_of(data@.subrange(0, i as int)),
        decreases data@.len() - i,
    {
        assert(data@.subrange(0, i as int + 1).drop_last() =~= data@.subrange(0, i as int));
        crc = crc_update(crc, data[i]);
        i = i + 1;
    }
    assert(data@.subrange(0, data@.len() as int) =~= data@);
    crc
}

/// Adding bytes one run after another gives the same checksum as adding them all at once:
/// the accumulator after `a ++ b` is the accumulator after `a`, with `b` added to it.
pub proof fn lemma_checksum_concat(acc: u8, a: Seq<u8>, b: Seq<u8>)
    ensures
        checksum_from(acc, a + b) == checksum_from(checksum_from(acc, a), b),
    decreases b.len(),
{
    if b.len() == 0 {
        assert(a + b =~= a);
    } else {
        assert((a + b).drop_last() =~= a + b.drop_last());
        lemma_checksum_concat(acc, a, b.drop_last());
    }
}

/// The checksum of a concatenation is the checksum of the first part carried on over the second.
pub proof fn lemma_checksum_incremental(a: Seq<u8>, b: Seq<u8>)
    ensures
        checksum_of(a + b) == checksum_from(checksum_of(a), b),
{
    lemma_checksum_concat(CHECKSUM_SEED, a, b);
}

} // verus!
