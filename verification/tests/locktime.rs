//! Tests for the absolute and relative lock-time value types and their
//! four-byte little-endian encodings.

use consensus_core::absolute;
use consensus_core::codec::TruncatedInputError;
use consensus_core::relative;
use consensus_core::relative::{DecodeError, DisabledLockTimeError, InvalidHeightError, TimeOverflowError};

#[test]
fn absolute_raw_round_trip() {
    for v in [0u32, 1, 499_999_999, 500_000_000, 500_000_001, u32::MAX] {
        assert_eq!(absolute::LockTime::from_raw(v).to_raw(), v);
    }
}

#[test]
fn absolute_threshold_boundary() {
    assert_eq!(
        absolute::LockTime::from_raw(499_999_999),
        absolute::LockTime::Height(499_999_999)
    );
    assert_eq!(
        absolute::LockTime::from_raw(500_000_000),
        absolute::LockTime::MedianTimePast(500_000_000)
    );
    assert_eq!(absolute::LockTime::from_raw(0), absolute::LockTime::Height(0));
    assert_eq!(
        absolute::LockTime::from_raw(u32::MAX),
        absolute::LockTime::MedianTimePast(u32::MAX)
    );
}

#[test]
fn absolute_classification_matches_units_crate() {
    for v in [0u32, 144, 499_999_999, 500_000_000, 1_653_195_600, u32::MAX] {
        let ours = absolute::LockTime::from_raw(v);
        let theirs = bitcoin_units::locktime::absolute::LockTime::from_consensus(v);
        assert_eq!(
            matches!(ours, absolute::LockTime::Height(_)),
            theirs.is_block_height()
        );
        assert_eq!(ours.to_raw(), theirs.to_consensus_u32());
    }
}

#[test]
fn absolute_encode_little_endian() {
    assert_eq!(
        absolute::LockTime::from_raw(0x0102_0304).encode(),
        vec![0x04, 0x03, 0x02, 0x01]
    );
    assert_eq!(absolute::LockTime::Height(5).encode(), vec![5, 0, 0, 0]);
}

#[test]
fn absolute_decode_truncated() {
    assert_eq!(
        absolute::LockTime::decode(&[1, 2, 3]),
        Err(TruncatedInputError)
    );
    assert_eq!(absolute::LockTime::decode(&[]), Err(TruncatedInputError));
}

#[test]
fn absolute_decode_four_bytes_never_fails() {
    assert_eq!(
        absolute::LockTime::decode(&[0, 0, 0, 0]),
        Ok(absolute::LockTime::Height(0))
    );
    assert_eq!(
        absolute::LockTime::decode(&[0xff, 0xff, 0xff, 0xff]),
        Ok(absolute::LockTime::MedianTimePast(u32::MAX))
    );
    // 500_000_000 == 0x1dcd_6500, little endian on the wire.
    assert_eq!(
        absolute::LockTime::decode(&[0x00, 0x65, 0xcd, 0x1d]),
        Ok(absolute::LockTime::MedianTimePast(500_000_000))
    );
    assert_eq!(
        absolute::LockTime::decode(&[0xff, 0x64, 0xcd, 0x1d]),
        Ok(absolute::LockTime::Height(499_999_999))
    );
}

#[test]
fn absolute_encode_decode_round_trip() {
    for v in [0u32, 7, 499_999_999, 500_000_000, u32::MAX] {
        let lock_time = absolute::LockTime::from_raw(v);
        assert_eq!(absolute::LockTime::decode(&lock_time.encode()), Ok(lock_time));
    }
}

#[test]
fn relative_sequence_round_trip() {
    // Canonical encodings: a count with the unit flag either way.
    for v in [0u32, 5, 0xffff, 0x0040_0000, 0x0040_0005, 0x0040_ffff] {
        let lock_time = relative::LockTime::from_sequence(v).unwrap();
        assert_eq!(lock_time.to_sequence(), v);
    }
}

#[test]
fn relative_sequence_ignores_unused_bits() {
    // Bits between the count field and the flags are ignored on
    // interpretation, not rejected, so they do not survive a round trip.
    let lock_time = relative::LockTime::from_sequence(0x0001_0005).unwrap();
    assert_eq!(lock_time, relative::LockTime::NumberOfBlocks(5));
    assert_eq!(lock_time.to_sequence(), 5);
}

#[test]
fn relative_disabled_sequence_rejected() {
    for v in [0x8000_0000u32, 0x8000_0001, 0x8040_0005, 0xffff_ffff] {
        assert_eq!(
            relative::LockTime::from_sequence(v),
            Err(DisabledLockTimeError(v))
        );
        assert!(relative::is_sequence_disabled(v));
    }
    assert!(!relative::is_sequence_disabled(0x7fff_ffff));
}

#[test]
fn relative_interpretation_matches_units_crate() {
    for v in [0u32, 144, 0xffff, 0x0001_0005, 0x0040_0000, 0x0040_00a8, 0x7fff_ffff] {
        let ours = relative::LockTime::from_sequence(v).unwrap();
        let theirs = bitcoin_units::locktime::relative::LockTime::from_consensus(v).unwrap();
        assert_eq!(
            matches!(ours, relative::LockTime::NumberOfBlocks(_)),
            theirs.is_block_height()
        );
        assert_eq!(ours.to_sequence(), theirs.to_consensus_u32());
    }
    assert!(bitcoin_units::locktime::relative::LockTime::from_consensus(0x8000_0000).is_err());
}

#[test]
fn relative_direct_constructors() {
    assert_eq!(
        relative::LockTime::from_height(144),
        relative::LockTime::NumberOfBlocks(144)
    );
    assert_eq!(
        relative::LockTime::from_512_second_intervals(168),
        relative::LockTime::NumberOf512Seconds(168)
    );
}

#[test]
fn relative_from_seconds_ceil_rounds_up() {
    assert_eq!(
        relative::LockTime::from_seconds_ceil(0),
        Ok(relative::LockTime::NumberOf512Seconds(0))
    );
    assert_eq!(
        relative::LockTime::from_seconds_ceil(1),
        Ok(relative::LockTime::NumberOf512Seconds(1))
    );
    assert_eq!(
        relative::LockTime::from_seconds_ceil(512),
        Ok(relative::LockTime::NumberOf512Seconds(1))
    );
    assert_eq!(
        relative::LockTime::from_seconds_ceil(513),
        Ok(relative::LockTime::NumberOf512Seconds(2))
    );
    // The largest encodable duration: 65535 whole intervals.
    assert_eq!(
        relative::LockTime::from_seconds_ceil(65_535 * 512),
        Ok(relative::LockTime::NumberOf512Seconds(65_535))
    );
    assert_eq!(
        relative::LockTime::from_seconds_ceil(65_535 * 512 + 1),
        Err(TimeOverflowError { seconds: 65_535 * 512 + 1 })
    );
    assert_eq!(
        relative::LockTime::from_seconds_ceil(u32::MAX),
        Err(TimeOverflowError { seconds: u32::MAX })
    );
}

#[test]
fn relative_from_seconds_ceil_matches_units_crate() {
    for seconds in [0u32, 1, 511, 512, 513, 65_535 * 512, 65_535 * 512 + 1] {
        let ours = relative::LockTime::from_seconds_ceil(seconds);
        let theirs = bitcoin_units::locktime::relative::LockTime::from_seconds_ceil(seconds);
        match (ours, theirs) {
            (Ok(a), Ok(b)) => assert_eq!(a.to_sequence(), b.to_consensus_u32()),
            (Err(_), Err(_)) => {}
            _ => panic!("disagreement on {seconds} seconds"),
        }
    }
}

#[test]
fn relative_from_block_count_bounds() {
    assert_eq!(
        relative::LockTime::from_block_count(65_535),
        Ok(relative::LockTime::NumberOfBlocks(65_535))
    );
    assert_eq!(
        relative::LockTime::from_block_count(65_536),
        Err(InvalidHeightError { height: 65_536 })
    );
}

#[test]
fn relative_encode_little_endian() {
    assert_eq!(
        relative::LockTime::NumberOfBlocks(5).encode(),
        vec![0x05, 0x00, 0x00, 0x00]
    );
    // Bit 22 set for the 512-second unit: 0x0040_0005 little endian.
    assert_eq!(
        relative::LockTime::NumberOf512Seconds(5).encode(),
        vec![0x05, 0x00, 0x40, 0x00]
    );
}

#[test]
fn relative_decode_truncated() {
    assert_eq!(
        relative::LockTime::decode(&[1, 2, 3]),
        Err(DecodeError::Truncated(TruncatedInputError))
    );
}

#[test]
fn relative_decode_disabled() {
    // 0x8000_0000 on the wire: the disable flag is surfaced, not coerced.
    assert_eq!(
        relative::LockTime::decode(&[0x00, 0x00, 0x00, 0x80]),
        Err(DecodeError::Disabled(DisabledLockTimeError(0x8000_0000)))
    );
}

#[test]
fn relative_decode_four_bytes() {
    assert_eq!(
        relative::LockTime::decode(&[0x05, 0x00, 0x00, 0x00]),
        Ok(relative::LockTime::NumberOfBlocks(5))
    );
    assert_eq!(
        relative::LockTime::decode(&[0x05, 0x00, 0x40, 0x00]),
        Ok(relative::LockTime::NumberOf512Seconds(5))
    );
}

#[test]
fn relative_encode_decode_round_trip() {
    for lock_time in [
        relative::LockTime::NumberOfBlocks(0),
        relative::LockTime::NumberOfBlocks(65_535),
        relative::LockTime::NumberOf512Seconds(0),
        relative::LockTime::NumberOf512Seconds(65_535),
    ] {
        assert_eq!(relative::LockTime::decode(&lock_time.encode()), Ok(lock_time));
    }
}
