//! Relative lock times: a 16-bit count of blocks or of 512-second intervals,
//! carried in the low bits of a sequence-number field, with a unit flag at
//! bit 22 and a disable flag at bit 31, and the canonical four-byte
//! little-endian encoding.

use vstd::prelude::*;

use crate::codec::{
    lemma_u32_le_round_trip, read_u32_le, spec_read_u32_le, u32_le_bytes, write_u32_le,
    TruncatedInputError,
};

verus! {

/// A sequence value with this bit set enforces no relative lock at all.
pub const DISABLE_FLAG_MASK: u32 = 0x8000_0000;

/// A sequence value with this bit set counts 512-second intervals; with it
/// clear, blocks.
pub const TYPE_FLAG_MASK: u32 = 0x0040_0000;

/// The low 16 bits of a sequence value hold the lock's count.
pub const VALUE_MASK: u32 = 0x0000_ffff;

/// An enforced relative lock time was requested from a sequence value that
/// carries the disable flag. The offending raw value is kept.
#[derive(Clone, Copy, Debug, PartialEq, Eq, Structural)]
pub struct DisabledLockTimeError(pub u32);

/// A duration in seconds too large for the 16-bit count of 512-second
/// intervals. The offending number of seconds is kept.
#[derive(Clone, Copy, Debug, PartialEq, Eq, Structural)]
pub struct TimeOverflowError {
    /// The number of seconds that does not fit.
    pub seconds: u32,
}

/// A block count too large for the 16-bit count field. The offending count is
/// kept.
#[derive(Clone, Copy, Debug, PartialEq, Eq, Structural)]
pub struct InvalidHeightError {
    /// The block count that does not fit.
    pub height: u32,
}

/// Failure to decode an enforced relative lock time from bytes.
#[derive(Clone, Copy, Debug, PartialEq, Eq, Structural)]
pub enum DecodeError {
    /// Fewer than four bytes were available.
    Truncated(TruncatedInputError),
    /// The four bytes hold a sequence value with the disable flag set, which
    /// must not be coerced into an enforced lock.
    Disabled(DisabledLockTimeError),
}

/// An enforced relative lock time: a 16-bit count of blocks or of 512-second
/// intervals. A disabled sequence value has no representation here; it is an
/// error, not a silent default.
#[derive(Clone, Copy, Debug, PartialEq, Eq, Structural)]
pub enum LockTime {
    /// A count of blocks since the referenced entry was accepted.
    NumberOfBlocks(u16),
    /// A count of 512-second intervals since the referenced entry was
    /// accepted.
    NumberOf512Seconds(u16),
}

impl LockTime {
    /// Interpretation of a sequence value: an error when the disable flag is
    /// set; otherwise bit 22 picks the unit and the low 16 bits give the
    /// count, every other bit ignored.
    pub open spec fn spec_from_sequence(v: u32) -> Result<LockTime, DisabledLockTimeError> {
        if v & DISABLE_FLAG_MASK != 0 {
            Err(DisabledLockTimeError(v))
        } else if v & TYPE_FLAG_MASK != 0 {
            Ok(LockTime::NumberOf512Seconds((v & VALUE_MASK) as u16))
        } else {
            Ok(LockTime::NumberOfBlocks((v & VALUE_MASK) as u16))
        }
    }

    /// The canonical sequence encoding: the count in the low 16 bits, bit 22
    /// set exactly for the 512-second unit, and the disable flag never set.
    pub open spec fn spec_to_sequence(self) -> u32 {
        match self {
            LockTime::NumberOfBlocks(n) => n as u32,
            LockTime::NumberOf512Seconds(n) => TYPE_FLAG_MASK | (n as u32),
        }
    }

    /// Interprets a sequence value as an enforced relative lock time.
    ///
    /// Fails exactly when the disable flag (bit 31) is set, regardless of the
    /// other bits; callers should branch on [`is_sequence_disabled`] first.
    /// Bits above the count field other than the two flags are ignored, not
    /// rejected.
    pub fn from_sequence(v: u32) -> (lock_time: Result<LockTime, DisabledLockTimeError>)
        ensures
            lock_time == LockTime::spec_from_sequence(v),
    {
        if v & DISABLE_FLAG_MASK != 0 {
            Err(DisabledLockTimeError(v))
        } else if v & TYPE_FLAG_MASK != 0 {
            Ok(LockTime::NumberOf512Seconds((v & VALUE_MASK) as u16))
        } else {
            Ok(LockTime::NumberOfBlocks((v & VALUE_MASK) as u16))
        }
    }

    /// Returns the canonical sequence encoding of this lock time: it packs
    /// the 16-bit count, sets bit 22 exactly for the 512-second unit and
    /// never sets the disable flag.
    pub fn to_sequence(self) -> (v: u32)
        ensures
            v == self.spec_to_sequence(),
    {
        match self {
            LockTime::NumberOfBlocks(n) => n as u32,
            LockTime::NumberOf512Seconds(n) => TYPE_FLAG_MASK | (n as u32),
        }
    }

    /// Constructs a lock by number of blocks. Always succeeds: the 16-bit
    /// domain fits the count field exactly.
    pub fn from_height(blocks: u16) -> (lock_time: LockTime)
        ensures
            lock_time == LockTime::NumberOfBlocks(blocks),
    {
        LockTime::NumberOfBlocks(blocks)
    }

    /// Constructs a lock by number of 512-second intervals. Always succeeds:
    /// the 16-bit domain fits the count field exactly.
    pub fn from_512_second_intervals(intervals: u16) -> (lock_time: LockTime)
        ensures
            lock_time == LockTime::NumberOf512Seconds(intervals),
    {
        LockTime::NumberOf512Seconds(intervals)
    }

    /// Conversion of a duration in seconds, rounded up to whole 512-second
    /// intervals: an overflow error when the rounded count exceeds the 16-bit
    /// field, never a silent truncation.
    pub open spec fn spec_from_seconds_ceil(seconds: u32) -> Result<LockTime, TimeOverflowError> {
        if seconds <= 0xffff * 512 {
            Ok(LockTime::NumberOf512Seconds(((seconds + 511) / 512) as u16))
        } else {
            Err(TimeOverflowError { seconds })
        }
    }

    /// Converts a duration in seconds into a lock by 512-second intervals,
    /// rounding up, or fails when the rounded count does not fit 16 bits.
    pub fn from_seconds_ceil(seconds: u32) -> (lock_time: Result<LockTime, TimeOverflowError>)
        ensures
            lock_time == LockTime::spec_from_seconds_ceil(seconds),
    {
        if seconds <= 0xffff * 512 {
            let intervals: u32 = (seconds + 511) / 512;
            assert(intervals <= 0xffff);
            Ok(LockTime::NumberOf512Seconds(intervals as u16))
        } else {
            Err(TimeOverflowError { seconds })
        }
    }

    /// Conversion of a raw block count: an invalid-height error when it
    /// exceeds the 16-bit field.
    pub open spec fn spec_from_block_count(blocks: u32) -> Result<LockTime, InvalidHeightError> {
        if blocks <= 0xffff {
            Ok(LockTime::NumberOfBlocks(blocks as u16))
        } else {
            Err(InvalidHeightError { height: blocks })
        }
    }

    /// Converts a raw block count into a lock by number of blocks, or fails
    /// when the count does not fit 16 bits.
    pub fn from_block_count(blocks: u32) -> (lock_time: Result<LockTime, InvalidHeightError>)
        ensures
            lock_time == LockTime::spec_from_block_count(blocks),
    {
        if blocks <= 0xffff {
            Ok(LockTime::NumberOfBlocks(blocks as u16))
        } else {
            Err(InvalidHeightError { height: blocks })
        }
    }

    /// The four little-endian bytes that encode this lock time's canonical
    /// sequence value.
    pub open spec fn spec_encode(self) -> Seq<u8> {
        u32_le_bytes(self.spec_to_sequence())
    }

    /// Serializes the canonical sequence value as four little-endian bytes.
    pub fn encode(self) -> (bytes: Vec<u8>)
        ensures
            bytes@ == self.spec_encode(),
            bytes@.len() == 4,
    {
        write_u32_le(self.to_sequence())
    }

    /// Decoding: a truncated-input failure on fewer than four bytes; a
    /// disabled-lock failure when the four bytes hold the disable flag;
    /// otherwise the interpretation of the value read little-endian.
    pub open spec fn spec_decode(bytes: Seq<u8>) -> Result<LockTime, DecodeError> {
        match spec_read_u32_le(bytes) {
            Err(e) => Err(DecodeError::Truncated(e)),
            Ok(v) => match LockTime::spec_from_sequence(v) {
                Err(e) => Err(DecodeError::Disabled(e)),
                Ok(lock_time) => Ok(lock_time),
            },
        }
    }

    /// Reads an enforced relative lock time from the first four bytes of
    /// `bytes`.
    ///
    /// Surfaces the disabled state as an error rather than coercing it into
    /// either enforced variant.
    pub fn decode(bytes: &[u8]) -> (decoded: Result<LockTime, DecodeError>)
        ensures
            decoded == LockTime::spec_decode(bytes@),
    {
        match read_u32_le(bytes) {
            Err(e) => Err(DecodeError::Truncated(e)),
            Ok(v) => match LockTime::from_sequence(v) {
                Err(e) => Err(DecodeError::Disabled(e)),
                Ok(lock_time) => Ok(lock_time),
            },
        }
    }
}

/// Whether a raw sequence value carries the disable flag and so enforces no
/// relative lock. Callers branch on this before constructing an enforced
/// lock.
pub fn is_sequence_disabled(v: u32) -> (disabled: bool)
    ensures
        disabled == (v & DISABLE_FLAG_MASK != 0),
{
    v & DISABLE_FLAG_MASK != 0
}

/// A sequence value with the disable flag set never yields an enforced lock,
/// whatever its other bits hold.
pub proof fn lemma_disabled_sequence_rejected(v: u32)
    requires
        v & DISABLE_FLAG_MASK != 0,
    ensures
        LockTime::spec_from_sequence(v) == Err::<LockTime, DisabledLockTimeError>(
            DisabledLockTimeError(v),
        ),
{
}

/// A canonical sequence value -- disable flag clear and no set bits outside
/// the count field and the unit flag -- round-trips through interpretation
/// and re-encoding unchanged.
pub proof fn lemma_sequence_round_trip(v: u32)
    requires
        v & 0xffbf_0000 == 0,
    ensures
        LockTime::spec_from_sequence(v) matches Ok(lock_time) && lock_time.spec_to_sequence() == v,
{
    assert(v & 0xffbf_0000 == 0 ==> v & 0x8000_0000 == 0) by (bit_vector);
    assert((v & 0xffbf_0000 == 0 && v & 0x0040_0000 != 0) ==> 0x0040_0000u32 | (((v
        & 0xffffu32) as u16) as u32) == v) by (bit_vector);
    assert((v & 0xffbf_0000 == 0 && v & 0x0040_0000 == 0) ==> (((v & 0xffffu32) as u16) as u32)
        == v) by (bit_vector);
}

/// Encoding any enforced relative lock time to bytes and decoding them
/// returns it unchanged; in particular the encoding never carries the disable
/// flag.
pub proof fn lemma_encode_decode_round_trip(lock_time: LockTime)
    ensures
        LockTime::spec_decode(lock_time.spec_encode()) == Ok::<LockTime, DecodeError>(lock_time),
{
    lemma_u32_le_round_trip(lock_time.spec_to_sequence());
    match lock_time {
        LockTime::NumberOfBlocks(n) => {
            assert((n as u32) & 0x8000_0000 == 0 && (n as u32) & 0x0040_0000 == 0 && (((n as u32)
                & 0xffffu32) as u16) == n) by (bit_vector);
        },
        LockTime::NumberOf512Seconds(n) => {
            assert((0x0040_0000u32 | (n as u32)) & 0x8000_0000 == 0 && (0x0040_0000u32 | (
            n as u32)) & 0x0040_0000 != 0 && (((0x0040_0000u32 | (n as u32)) & 0xffffu32) as u16)
                == n) by (bit_vector);
        },
    }
}

/// Decoding fails with a truncated-input error exactly on buffers shorter
/// than four bytes; on longer buffers only the disable flag can make it
/// fail.
pub proof fn lemma_decode_needs_four_bytes(bytes: Seq<u8>)
    ensures
        bytes.len() < 4 <==> LockTime::spec_decode(bytes) == Err::<LockTime, DecodeError>(
            DecodeError::Truncated(TruncatedInputError),
        ),
        bytes.len() >= 4 ==> !(LockTime::spec_decode(bytes) matches Err(DecodeError::Truncated(_))),
{
}

} // verus!
