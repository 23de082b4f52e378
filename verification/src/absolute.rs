//! Absolute lock times: a raw 32-bit consensus value split into a block
//! height or a median-time-past timestamp by a fixed threshold, with the
//! canonical four-byte little-endian encoding.

use vstd::prelude::*;

use crate::codec::{
    lemma_le_u32_round_trip, lemma_u32_le_round_trip, read_u32_le, spec_read_u32_le, u32_le_bytes,
    write_u32_le, TruncatedInputError,
};

verus! {

/// Raw values below this threshold are block heights; values at or above it
/// are median-time-past timestamps.
pub const LOCK_TIME_THRESHOLD: u32 = 500_000_000;

/// An absolute lock time: a block height or a median-time-past timestamp.
///
/// The tag is fully determined by the raw consensus value, so every u32 maps
/// onto exactly one variant and there is no invalid raw value.
#[derive(Clone, Copy, Debug, PartialEq, Eq, Structural)]
pub enum LockTime {
    /// A block height: a raw value below [`LOCK_TIME_THRESHOLD`].
    Height(u32),
    /// A median-time-past timestamp: a raw value at or above
    /// [`LOCK_TIME_THRESHOLD`].
    MedianTimePast(u32),
}

impl LockTime {
    /// The tag agrees with the numeric payload.
    pub open spec fn wf(self) -> bool {
        match self {
            LockTime::Height(h) => h < LOCK_TIME_THRESHOLD,
            LockTime::MedianTimePast(t) => t >= LOCK_TIME_THRESHOLD,
        }
    }

    /// Classification of a raw consensus value by the threshold test.
    pub open spec fn spec_from_raw(v: u32) -> LockTime {
        if v < LOCK_TIME_THRESHOLD {
            LockTime::Height(v)
        } else {
            LockTime::MedianTimePast(v)
        }
    }

    /// The raw consensus value: the payload under either tag.
    pub open spec fn spec_to_raw(self) -> u32 {
        match self {
            LockTime::Height(h) => h,
            LockTime::MedianTimePast(t) => t,
        }
    }

    /// Classifies a raw consensus value. Total: the threshold alone picks the
    /// variant, inclusive on the timestamp side.
    pub fn from_raw(v: u32) -> (lock_time: LockTime)
        ensures
            lock_time == LockTime::spec_from_raw(v),
            lock_time.wf(),
    {
        if v < LOCK_TIME_THRESHOLD {
            LockTime::Height(v)
        } else {
            LockTime::MedianTimePast(v)
        }
    }

    /// Returns the raw consensus value. Total, and the inverse of
    /// [`LockTime::from_raw`] for every input.
    pub fn to_raw(self) -> (v: u32)
        ensures
            v == self.spec_to_raw(),
    {
        match self {
            LockTime::Height(h) => h,
            LockTime::MedianTimePast(t) => t,
        }
    }

    /// The four little-endian bytes that encode this lock time.
    pub open spec fn spec_encode(self) -> Seq<u8> {
        u32_le_bytes(self.spec_to_raw())
    }

    /// Serializes the raw consensus value as four little-endian bytes.
    pub fn encode(self) -> (bytes: Vec<u8>)
        ensures
            bytes@ == self.spec_encode(),
            bytes@.len() == 4,
    {
        write_u32_le(self.to_raw())
    }

    /// Decoding: a truncated-input failure on fewer than four bytes,
    /// otherwise the classification of the first four read little-endian.
    pub open spec fn spec_decode(bytes: Seq<u8>) -> Result<LockTime, TruncatedInputError> {
        match spec_read_u32_le(bytes) {
            Ok(v) => Ok(LockTime::spec_from_raw(v)),
            Err(e) => Err(e),
        }
    }

    /// Reads an absolute lock time from the first four bytes of `bytes`.
    ///
    /// Fails exactly when fewer than four bytes are available; every four-byte
    /// pattern is a valid lock time.
    pub fn decode(bytes: &[u8]) -> (decoded: Result<LockTime, TruncatedInputError>)
        ensures
            decoded == LockTime::spec_decode(bytes@),
            decoded matches Ok(lock_time) ==> lock_time.wf(),
    {
        match read_u32_le(bytes) {
            Ok(v) => Ok(LockTime::from_raw(v)),
            Err(e) => Err(e),
        }
    }
}

/// Classifying a raw value and reading the raw value back returns the value
/// unchanged, for every u32.
pub proof fn lemma_raw_round_trip(v: u32)
    ensures
        LockTime::spec_from_raw(v).spec_to_raw() == v,
{
}

/// Every well-formed lock time is the classification of its own raw value:
/// together with [`lemma_raw_round_trip`], classification is a bijection
/// between raw u32 values and well-formed lock times.
pub proof fn lemma_from_raw_onto(lock_time: LockTime)
    requires
        lock_time.wf(),
    ensures
        LockTime::spec_from_raw(lock_time.spec_to_raw()) == lock_time,
{
}

/// Encoding a well-formed lock time and decoding the bytes returns it
/// unchanged.
pub proof fn lemma_encode_decode_round_trip(lock_time: LockTime)
    requires
        lock_time.wf(),
    ensures
        LockTime::spec_decode(lock_time.spec_encode()) == Ok::<LockTime, TruncatedInputError>(
            lock_time,
        ),
{
    lemma_u32_le_round_trip(lock_time.spec_to_raw());
}

/// Decoding any four-byte buffer succeeds, and re-encoding the decoded lock
/// time reproduces the buffer: together with the encode-decode round trip,
/// the encoding is a bijection between four-byte buffers and well-formed
/// absolute lock times.
pub proof fn lemma_decode_encode_round_trip(bytes: Seq<u8>)
    requires
        bytes.len() == 4,
    ensures
        LockTime::spec_decode(bytes) matches Ok(lock_time) && lock_time.spec_encode() == bytes,
{
    lemma_le_u32_round_trip(bytes[0], bytes[1], bytes[2], bytes[3]);
    assert(bytes =~= seq![bytes[0], bytes[1], bytes[2], bytes[3]]);
}

/// Decoding fails exactly on buffers shorter than four bytes; on any longer
/// buffer it succeeds.
pub proof fn lemma_decode_needs_four_bytes(bytes: Seq<u8>)
    ensures
        bytes.len() < 4 <==> LockTime::spec_decode(bytes) == Err::<LockTime, TruncatedInputError>(
            TruncatedInputError,
        ),
        bytes.len() >= 4 <==> LockTime::spec_decode(bytes) is Ok,
{
}

} // verus!
