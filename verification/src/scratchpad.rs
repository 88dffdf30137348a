//! Decoding the sensor's scratchpad: nine bytes, of which the first two hold
//! the temperature and the last is a CRC-8 over the eight before it.

use vstd::prelude::*;
use crate::crc::{crc8_of, crc8_step};
use crate::temperature::{le_i16, Temperature};

verus! {

/// The number of bytes in a scratchpad.
pub const SCRATCHPAD_LEN: usize = 9;

/// Why a scratchpad was rejected.
#[derive(Clone, Copy, Debug, PartialEq, Eq, Structural)]
pub enum DecodeFault {
    /// The last byte is not the CRC-8 of the eight bytes before it.
    ChecksumMismatch,
}

/// The checksum that a scratchpad with these bytes must end in.
pub open spec fn scratchpad_checksum(buf: Seq<u8>) -> u8 {
    crc8_of(buf.subrange(0, 8))
}

/// Whether the scratchpad's last byte is the CRC-8 of the others.
pub open spec fn checksum_matches(buf: Seq<u8>) -> bool {
    buf.len() == 9 && scratchpad_checksum(buf) == buf[8]
}

/// What a scratchpad decodes to: with a matching checksum the temperature in
/// its first two bytes, low byte first; without, the rejection.
pub open spec fn decoded(buf: Seq<u8>) -> Result<Temperature, DecodeFault> {
    if checksum_matches(buf) {
        Ok(Temperature { raw: le_i16(buf[0], buf[1]) as i16 })
    } else {
        Err(DecodeFault::ChecksumMismatch)
    }
}

/// Computes the checksum that belongs to the first eight bytes.
pub fn expected_checksum(buf: &[u8; 9]) -> (crc: u8)
    ensures
        crc == scratchpad_checksum(buf@),
{
    let mut reg: u8 = 0;
    let mut i: usize = 0;
    while i < 8
        invariant
            i <= 8,
            reg == crc8_of(buf@.subrange(0, i as int)),
        decreases 8 - i,
    {
        proof {
            assert(buf@.subrange(0, i + 1).drop_last() =~= buf@.subrange(0, i as int));
        }
        reg = crc8_step(reg, buf[i]);
        i = i + 1;
    }
    reg
}

/// Decodes a scratchpad.
///
/// With a matching checksum the result is the temperature in the first two
/// bytes, low byte first, in sixteenths of a degree. No range is imposed on
/// it. With any other last byte the scratchpad is rejected.
pub fn decode_scratchpad(buf: &[u8; 9]) -> (r: Result<Temperature, DecodeFault>)
    ensures
        r == decoded(buf@),
        checksum_matches(buf@) ==> r is Ok && r->Ok_0.sixteenths() == le_i16(buf[0], buf[1]),
        !checksum_matches(buf@) ==> r == Err::<Temperature, DecodeFault>(
            DecodeFault::ChecksumMismatch,
        ),
{
    if expected_checksum(buf) == buf[8] {
        Ok(Temperature::from_le_bytes(buf[0], buf[1]))
    } else {
        Err(DecodeFault::ChecksumMismatch)
    }
}

/// Eight bytes followed by their CRC-8 are a scratchpad that decodes, to
/// the temperature in the first two of them.
pub proof fn lemma_sealed_scratchpad_decodes(data: Seq<u8>)
    requires
        data.len() == 8,
    ensures
        checksum_matches(data.push(crc8_of(data))),
        decoded(data.push(crc8_of(data))) is Ok,
        decoded(data.push(crc8_of(data)))->Ok_0.sixteenths() == le_i16(data[0], data[1]),
{
    let buf = data.push(crc8_of(data));
    assert(buf.subrange(0, 8) =~= data);
}

/// A scratchpad whose last byte is replaced by any other value is rejected,
/// whatever its other bytes hold.
pub proof fn lemma_corrupted_checksum_is_rejected(buf: Seq<u8>, wrong: u8)
    requires
        checksum_matches(buf),
        wrong != buf[8],
    ensures
        decoded(buf.update(8, wrong)) == Err::<Temperature, DecodeFault>(
            DecodeFault::ChecksumMismatch,
        ),
{
    assert(buf.update(8, wrong).subrange(0, 8) =~= buf.subrange(0, 8));
}

} // verus!
