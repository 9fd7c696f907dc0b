//! Little-endian integer fields of the wire format.

use vstd::prelude::*;

verus! {

/// The unsigned value carried by a little-endian byte pair.
pub open spec fn le16_val(lo: u8, hi: u8) -> int {
    lo + 256 * hi
}

/// The signed 16-bit value carried by a little-endian byte pair
/// (two's complement).
pub open spec fn le16_signed(lo: u8, hi: u8) -> int {
    if le16_val(lo, hi) < 32768 {
        le16_val(lo, hi)
    } else {
        le16_val(lo, hi) - 65536
    }
}

/// The little-endian byte pair that encodes a signed 16-bit value.
pub open spec fn le16_bytes_of(v: i16) -> Seq<u8> {
    let u = if v >= 0 { v as int } else { v + 65536 };
    seq![(u % 256) as u8, (u / 256) as u8]
}

/// Encoding and decoding of a signed 16-bit value are inverse to each other.
pub proof fn lemma_le16_round_trip(v: i16)
    ensures
        le16_signed(le16_bytes_of(v)[0], le16_bytes_of(v)[1]) == v,
{
}

/// Reads the signed little-endian 16-bit value that starts at `pos`, or
/// nothing when fewer than two bytes remain there.
pub fn take_i16(bytes: &[u8], pos: usize) -> (r: Option<i16>)
    ensures
        r is Some <==> pos + 2 <= bytes@.len(),
        r is Some ==> r->0 == le16_signed(bytes@[pos as int], bytes@[pos + 1]),
{
    if pos < bytes.len() && pos + 1 < bytes.len() {
        let lo = bytes[pos];
        let hi = bytes[pos + 1];
        let v: i32 = lo as i32 + 256 * (hi as i32);
        if v < 32768 {
            Some(v as i16)
        } else {
            Some((v - 65536) as i16)
        }
    } else {
        None
    }
}

} // verus!
