use chrono::{TimeZone, Utc};
use transfer_indexer::{
    in_range, resolve_block_time, screen, screen_entry, signature_text, BlockTime, IndexError,
    Screening, Signature, SignatureInfo, SkipReason, Timestamp,
};

fn at(secs: i64) -> Timestamp {
    Timestamp { secs, nanos: 0 }
}

#[test]
fn timestamps_are_ordered_by_seconds_then_nanoseconds() {
    let a = Timestamp { secs: 10, nanos: 999_999_999 };
    let b = Timestamp { secs: 11, nanos: 0 };
    let c = Timestamp { secs: 11, nanos: 1 };
    assert!(a.le(&b));
    assert!(!b.le(&a));
    assert!(b.le(&c));
    assert!(!c.le(&b));
    assert!(b.le(&b));
    let before_epoch = Timestamp { secs: -1, nanos: 500 };
    assert!(before_epoch.le(&at(0)));
    assert!(!at(0).le(&before_epoch));
}

#[test]
fn window_holds_both_of_its_ends() {
    assert!(in_range(at(100), at(100), at(200)));
    assert!(in_range(at(200), at(100), at(200)));
    assert!(in_range(at(150), at(100), at(200)));
    assert!(!in_range(at(99), at(100), at(200)));
    assert!(!in_range(at(201), at(100), at(200)));
}

#[test]
fn window_of_one_instant_holds_that_instant_only() {
    assert!(in_range(at(100), at(100), at(100)));
    assert!(!in_range(at(101), at(100), at(100)));
}

#[test]
fn window_with_its_ends_the_wrong_way_round_is_empty() {
    assert!(!in_range(at(150), at(200), at(100)));
    assert!(!in_range(at(100), at(200), at(100)));
    assert!(!in_range(at(200), at(200), at(100)));
}

#[test]
fn window_ends_count_to_the_nanosecond() {
    let start = Timestamp { secs: 100, nanos: 500_000_000 };
    let end = Timestamp { secs: 200, nanos: 500_000_000 };
    // a block time is a whole second
    assert!(!in_range(at(100), start, end));
    assert!(in_range(at(101), start, end));
    assert!(in_range(at(200), start, end));
    assert!(!in_range(at(201), start, end));
}

#[test]
fn missing_block_time_resolves_to_missing() {
    assert_eq!(resolve_block_time(None), BlockTime::Missing);
}

#[test]
fn block_time_resolves_to_its_whole_second() {
    assert_eq!(resolve_block_time(Some(1_700_000_000)), BlockTime::At(at(1_700_000_000)));
    assert_eq!(resolve_block_time(Some(0)), BlockTime::At(at(0)));
    assert_eq!(resolve_block_time(Some(-86_400)), BlockTime::At(at(-86_400)));
}

#[test]
fn block_time_beyond_the_calendar_is_invalid() {
    assert_eq!(resolve_block_time(Some(i64::MAX)), BlockTime::Invalid);
    assert_eq!(resolve_block_time(Some(i64::MIN)), BlockTime::Invalid);
}

#[test]
fn block_time_is_valid_exactly_where_the_calendar_has_it() {
    for secs in [0i64, 1, -1, 1_431_648_000, 8_000_000_000_000, 9_000_000_000_000, -9_000_000_000_000] {
        let expected = match Utc.timestamp_opt(secs, 0).single() {
            Some(instant) => BlockTime::At(Timestamp {
                secs: instant.timestamp(),
                nanos: instant.timestamp_subsec_nanos(),
            }),
            None => BlockTime::Invalid,
        };
        assert_eq!(resolve_block_time(Some(secs)), expected);
    }
}

#[test]
fn screening_fetches_inside_the_window() {
    let signature = Signature { bytes: [5u8; 64] };
    assert_eq!(
        screen(Some(signature), BlockTime::At(at(150)), at(100), at(200)),
        Screening::Fetch { signature, time: at(150) }
    );
    assert_eq!(
        screen(Some(signature), BlockTime::At(at(100)), at(100), at(200)),
        Screening::Fetch { signature, time: at(100) }
    );
    assert_eq!(
        screen(Some(signature), BlockTime::At(at(200)), at(100), at(200)),
        Screening::Fetch { signature, time: at(200) }
    );
}

#[test]
fn screening_passes_over_what_lies_outside_the_window() {
    let signature = Signature { bytes: [5u8; 64] };
    assert_eq!(
        screen(Some(signature), BlockTime::At(at(201)), at(100), at(200)),
        Screening::Skip(SkipReason::OutsideWindow)
    );
    assert_eq!(
        screen(Some(signature), BlockTime::At(at(99)), at(100), at(200)),
        Screening::Skip(SkipReason::OutsideWindow)
    );
}

#[test]
fn screening_passes_over_an_entry_without_block_time() {
    let signature = Signature { bytes: [5u8; 64] };
    assert_eq!(
        screen(Some(signature), BlockTime::Missing, at(100), at(200)),
        Screening::Skip(SkipReason::NoBlockTime)
    );
}

#[test]
fn screening_rejects_a_malformed_entry() {
    let signature = Signature { bytes: [5u8; 64] };
    assert_eq!(
        screen(Some(signature), BlockTime::Invalid, at(100), at(200)),
        Screening::Reject(IndexError::InvalidBlockTime)
    );
    // the signature is looked at first
    assert_eq!(
        screen(None, BlockTime::Invalid, at(100), at(200)),
        Screening::Reject(IndexError::InvalidSignature)
    );
    assert_eq!(
        screen(None, BlockTime::Missing, at(100), at(200)),
        Screening::Reject(IndexError::InvalidSignature)
    );
    assert_eq!(
        screen(None, BlockTime::At(at(150)), at(100), at(200)),
        Screening::Reject(IndexError::InvalidSignature)
    );
}

#[test]
fn entry_is_screened_by_its_signature_and_block_time() {
    let signature = Signature { bytes: [8u8; 64] };
    let listed = |block_time| SignatureInfo { signature: signature_text(&signature), block_time };
    assert_eq!(
        screen_entry(&listed(Some(150)), at(100), at(200)),
        Screening::Fetch { signature, time: at(150) }
    );
    assert_eq!(
        screen_entry(&listed(Some(201)), at(100), at(200)),
        Screening::Skip(SkipReason::OutsideWindow)
    );
    assert_eq!(
        screen_entry(&listed(None), at(100), at(200)),
        Screening::Skip(SkipReason::NoBlockTime)
    );
    assert_eq!(
        screen_entry(&listed(Some(i64::MAX)), at(100), at(200)),
        Screening::Reject(IndexError::InvalidBlockTime)
    );
}

#[test]
fn entry_with_a_malformed_signature_is_rejected() {
    for block_time in [None, Some(150), Some(201), Some(i64::MAX)] {
        let listed = SignatureInfo { signature: "l0O".to_string(), block_time };
        assert_eq!(
            screen_entry(&listed, at(100), at(200)),
            Screening::Reject(IndexError::InvalidSignature)
        );
    }
}
