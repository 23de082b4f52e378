//! Four-byte little-endian integer layout shared by both lock-time encodings.

use vstd::prelude::*;
use vstd::slice::slice_index_get;

verus! {

/// Fewer bytes were available than the four that a lock-time field occupies.
///
/// Always recoverable by the caller: retry with more data, or reject the
/// entry.
#[derive(Clone, Copy, Debug, PartialEq, Eq, Structural)]
pub struct TruncatedInputError;

/// The four little-endian bytes of `v`, least significant first.
pub open spec fn u32_le_bytes(v: u32) -> Seq<u8> {
    seq![
        (v & 0xff) as u8,
        ((v >> 8) & 0xff) as u8,
        ((v >> 16) & 0xff) as u8,
        ((v >> 24) & 0xff) as u8,
    ]
}

/// The u32 that four bytes encode in little-endian order.
pub open spec fn u32_of_le_bytes(b0: u8, b1: u8, b2: u8, b3: u8) -> u32 {
    (b0 as u32) | ((b1 as u32) << 8) | ((b2 as u32) << 16) | ((b3 as u32) << 24)
}

/// Reading a buffer as a u32: a truncated-input failure on fewer than four
/// bytes, otherwise the little-endian value of the first four.
pub open spec fn spec_read_u32_le(bytes: Seq<u8>) -> Result<u32, TruncatedInputError> {
    if bytes.len() < 4 {
        Err(TruncatedInputError)
    } else {
        Ok(u32_of_le_bytes(bytes[0], bytes[1], bytes[2], bytes[3]))
    }
}

/// Reassembling the four little-endian bytes of `v` gives back `v`.
pub proof fn lemma_u32_le_round_trip(v: u32)
    ensures
        spec_read_u32_le(u32_le_bytes(v)) == Ok::<u32, TruncatedInputError>(v),
{
    assert(((v & 0xff) as u8 as u32) | ((((v >> 8) & 0xff) as u8 as u32) << 8) | ((((v >> 16)
        & 0xff) as u8 as u32) << 16) | ((((v >> 24) & 0xff) as u8 as u32) << 24) == v)
        by (bit_vector);
}

/// Re-encoding the u32 read from four bytes gives back those bytes.
pub proof fn lemma_le_u32_round_trip(b0: u8, b1: u8, b2: u8, b3: u8)
    ensures
        u32_le_bytes(u32_of_le_bytes(b0, b1, b2, b3)) == seq![b0, b1, b2, b3],
{
    let v: u32 = u32_of_le_bytes(b0, b1, b2, b3);
    assert({
        let v: u32 = (b0 as u32) | ((b1 as u32) << 8) | ((b2 as u32) << 16) | ((b3 as u32) << 24);
        ((v & 0xff) as u8 == b0) && (((v >> 8) & 0xff) as u8 == b1) && (((v >> 16) & 0xff) as u8
            == b2) && (((v >> 24) & 0xff) as u8 == b3)
    }) by (bit_vector);
    assert(u32_le_bytes(v) =~= seq![b0, b1, b2, b3]);
}

/// Serializes `v` as four little-endian bytes.
pub fn write_u32_le(v: u32) -> (out: Vec<u8>)
    ensures
        out@ == u32_le_bytes(v),
{
    let mut out: Vec<u8> = Vec::new();
    out.push((v & 0xff) as u8);
    out.push(((v >> 8) & 0xff) as u8);
    out.push(((v >> 16) & 0xff) as u8);
    out.push(((v >> 24) & 0xff) as u8);
    proof {
        assert(out@ =~= u32_le_bytes(v));
    }
    out
}

/// Reads a u32 from the first four bytes of `bytes`, little endian; fails
/// with a truncated-input error when fewer than four are available.
pub fn read_u32_le(bytes: &[u8]) -> (value: Result<u32, TruncatedInputError>)
    ensures
        value == spec_read_u32_le(bytes@),
{
    if bytes.len() < 4 {
        Err(TruncatedInputError)
    } else {
        let b0: u32 = *slice_index_get(bytes, 0) as u32;
        let b1: u32 = *slice_index_get(bytes, 1) as u32;
        let b2: u32 = *slice_index_get(bytes, 2) as u32;
        let b3: u32 = *slice_index_get(bytes, 3) as u32;
        Ok(b0 | (b1 << 8) | (b2 << 16) | (b3 << 24))
    }
}

} // verus!
