//! Little-endian numeric field decoding over payload bytes.

use vstd::prelude::*;

use byteorder::{LittleEndian, ReadBytesExt};

verus! {

/// Little-endian unsigned 16-bit value of a pair of bytes: the
/// least-significant byte comes first.
pub open spec fn le_u16_of(lo: u8, hi: u8) -> u16 {
    (lo + 256 * hi) as u16
}

/// The same pair of bytes read as a signed (two's complement) 16-bit value.
pub open spec fn le_i16_of(lo: u8, hi: u8) -> i16 {
    if le_u16_of(lo, hi) < 0x8000 {
        le_u16_of(lo, hi) as i16
    } else {
        (le_u16_of(lo, hi) - 0x10000) as i16
    }
}

/// Relies on byteorder's `ReadBytesExt::read_u16::<LittleEndian>`: an
/// unsigned 16-bit value, least-significant byte first.
#[verifier::external_body]
pub fn read_u16_le(lo: u8, hi: u8) -> (r: u16)
    ensures
        r == le_u16_of(lo, hi),
{
    let mut buf: &[u8] = &[lo, hi];
    buf.read_u16::<LittleEndian>().unwrap()
}

/// Relies on byteorder's `ReadBytesExt::read_i16::<LittleEndian>`: a two's
/// complement signed 16-bit value, least-significant byte first.
#[verifier::external_body]
pub fn read_i16_le(lo: u8, hi: u8) -> (r: i16)
    ensures
        r == le_i16_of(lo, hi),
{
    let mut buf: &[u8] = &[lo, hi];
    buf.read_i16::<LittleEndian>().unwrap()
}

} // verus!
