//! The sensor's CRC-8: polynomial x^8 + x^5 + x^4 + 1, processed least
//! significant bit first, starting from zero.

use vstd::prelude::*;

verus! {

/// The generator polynomial 0x31 with its bits in reverse order.
pub const CRC8_REFLECTED_POLY: u8 = 0x8C;

/// One shift of the register: the low bit leaves, and the polynomial is
/// folded in when that bit was set.
pub open spec fn crc8_shift(reg: u8) -> u8 {
    if reg & 1 == 1 {
        (reg >> 1) ^ CRC8_REFLECTED_POLY
    } else {
        reg >> 1
    }
}

/// `n` shifts of the register.
pub open spec fn crc8_shifts(reg: u8, n: nat) -> u8
    decreases n,
{
    if n == 0 {
        reg
    } else {
        crc8_shift(crc8_shifts(reg, (n - 1) as nat))
    }
}

/// The register after one more byte of data.
pub open spec fn crc8_update(reg: u8, byte: u8) -> u8 {
    crc8_shifts(reg ^ byte, 8)
}

/// The CRC-8 of a sequence of bytes.
pub open spec fn crc8_of(data: Seq<u8>) -> u8
    decreases data.len(),
{
    if data.len() == 0 {
        0
    } else {
        crc8_update(crc8_of(data.drop_last()), data.last())
    }
}

/// Feeds one byte into the register.
pub fn crc8_step(reg: u8, byte: u8) -> (next: u8)
    ensures
        next == crc8_update(reg, byte),
{
    let mut r: u8 = reg ^ byte;
    let mut i: u8 = 0;
    while i < 8
        invariant
            i <= 8,
            r == crc8_shifts(reg ^ byte, i as nat),
        decreases 8 - i,
    {
        r = if r & 1 == 1 {
            (r >> 1) ^ CRC8_REFLECTED_POLY
        } else {
            r >> 1
        };
        i = i + 1;
    }
    r
}

/// Computes the CRC-8 of `data`.
pub fn crc8(data: &[u8]) -> (crc: u8)
    ensures
        crc == crc8_of(data@),
{
    let mut reg: u8 = 0;
    let mut i: usize = 0;
    while i < data.len()
        invariant
            i <= data.len(),
            reg == crc8_of(data@.take(i as int)),
        decreases data.len() - i,
    {
        proof {
            assert(data@.take(i + 1).drop_last() =~= data@.take(i as int));
        }
        reg = crc8_step(reg, data[i]);
        i = i + 1;
    }
    proof {
        assert(data@.take(data.len() as int) =~= data@);
    }
    reg
}

} // verus!
