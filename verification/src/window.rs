//! The time window of a query, and the screening of signature-list entries
//! against it.

use vstd::prelude::*;
use crate::codec::{decoded_signature, parse_signature, Signature};
use crate::model::{IndexError, SignatureInfo, Timestamp};
use chrono::{TimeZone, Utc};

verus! {

/// Whether `chrono` has an instant for the given number of whole seconds
/// since the Unix epoch.
pub uninterp spec fn utc_has_instant(secs: i64) -> bool;

/// Calls `Utc.timestamp_opt(secs, 0)` of `chrono`, takes the single instant
/// it maps to, and reads it back through `timestamp` and
/// `timestamp_subsec_nanos`.
///
/// Trusted: whether there is such an instant depends on `secs` alone, which
/// [`utc_has_instant`] names; and an instant made from whole seconds reads
/// back as those seconds and no nanoseconds, which `chrono` documents as a
/// round trip.
#[verifier::external_body]
fn utc_instant(secs: i64) -> (r: Option<Timestamp>)
    ensures
        match r {
            Some(t) => utc_has_instant(secs) && t == Timestamp::of_seconds(secs),
            None => !utc_has_instant(secs),
        },
{
    match Utc.timestamp_opt(secs, 0).single() {
        Some(instant) => Some(
            Timestamp { secs: instant.timestamp(), nanos: instant.timestamp_subsec_nanos() },
        ),
        None => None,
    }
}

/// Whether `block_time` lies in the closed interval from `start_time` to
/// `end_time`. Both ends belong to the interval.
pub fn in_range(block_time: Timestamp, start_time: Timestamp, end_time: Timestamp) -> (r: bool)
    ensures
        r == block_time.within(start_time, end_time),
{
    start_time.le(&block_time) && block_time.le(&end_time)
}

/// What a signature-list entry says of the time of its transaction.
#[derive(Clone, Copy, Debug, PartialEq, Eq, Structural)]
pub enum BlockTime {
    /// The entry carries no block time.
    Missing,
    /// The entry carries a number of seconds that is no valid instant.
    Invalid,
    /// The transaction was finalized at this instant.
    At(Timestamp),
}

/// The meaning of an entry's block time.
pub open spec fn block_time_of(block_time: Option<i64>) -> BlockTime {
    match block_time {
        None => BlockTime::Missing,
        Some(secs) => if utc_has_instant(secs) {
            BlockTime::At(Timestamp::of_seconds(secs))
        } else {
            BlockTime::Invalid
        },
    }
}

/// Turns the block time of a signature-list entry into an instant.
pub fn resolve_block_time(block_time: Option<i64>) -> (r: BlockTime)
    ensures
        r == block_time_of(block_time),
{
    match block_time {
        None => BlockTime::Missing,
        Some(secs) => match utc_instant(secs) {
            Some(t) => BlockTime::At(t),
            None => BlockTime::Invalid,
        },
    }
}

/// Why an entry of the signature list is passed over.
#[derive(Clone, Copy, Debug, PartialEq, Eq, Structural)]
pub enum SkipReason {
    /// The entry carries no block time.
    NoBlockTime,
    /// The block time lies outside the window.
    OutsideWindow,
}

/// What is to be done with one entry of the signature list.
#[derive(Clone, Copy, Debug, PartialEq, Eq)]
pub enum Screening {
    /// The entry is passed over; its transaction is not fetched.
    Skip(SkipReason),
    /// The transaction is to be fetched and reconciled.
    Fetch { signature: Signature, time: Timestamp },
    /// The entry is malformed and the whole run fails.
    Reject(IndexError),
}

/// The screening of an entry whose signature decoded to `signature` (`None`
/// where it did not decode) and whose block time means `when`.
///
/// A signature that does not decode fails the run, whatever the block time;
/// then an invalid block time does; an entry without a block time is passed
/// over; and of the others exactly those inside the window are fetched.
pub open spec fn screening_of(
    signature: Option<Signature>,
    when: BlockTime,
    start_time: Timestamp,
    end_time: Timestamp,
) -> Screening {
    match signature {
        None => Screening::Reject(IndexError::InvalidSignature),
        Some(signature) => match when {
            BlockTime::Invalid => Screening::Reject(IndexError::InvalidBlockTime),
            BlockTime::Missing => Screening::Skip(SkipReason::NoBlockTime),
            BlockTime::At(time) => if time.within(start_time, end_time) {
                Screening::Fetch { signature, time }
            } else {
                Screening::Skip(SkipReason::OutsideWindow)
            },
        },
    }
}

/// Decides what is to be done with one entry of the signature list, given
/// its decoded signature and the meaning of its block time.
pub fn screen(
    signature: Option<Signature>,
    when: BlockTime,
    start_time: Timestamp,
    end_time: Timestamp,
) -> (r: Screening)
    ensures
        r == screening_of(signature, when, start_time, end_time),
{
    match signature {
        None => Screening::Reject(IndexError::InvalidSignature),
        Some(signature) => match when {
            BlockTime::Invalid => Screening::Reject(IndexError::InvalidBlockTime),
            BlockTime::Missing => Screening::Skip(SkipReason::NoBlockTime),
            BlockTime::At(time) => if in_range(time, start_time, end_time) {
                Screening::Fetch { signature, time }
            } else {
                Screening::Skip(SkipReason::OutsideWindow)
            },
        },
    }
}

/// What is to be done with the entry `info` of a signature list, in the
/// window from `start_time` to `end_time`.
pub open spec fn entry_screening(
    info: SignatureInfo,
    start_time: Timestamp,
    end_time: Timestamp,
) -> Screening {
    screening_of(
        decoded_signature(info.signature@),
        block_time_of(info.block_time),
        start_time,
        end_time,
    )
}

/// Screens one entry of a signature list: decodes its signature, resolves
/// its block time, and decides by [`screen`]. The reason for which an entry
/// is passed over comes with the decision.
pub fn screen_entry(info: &SignatureInfo, start_time: Timestamp, end_time: Timestamp) -> (r:
    Screening)
    ensures
        r == entry_screening(*info, start_time, end_time),
{
    let decoded = match parse_signature(info.signature.as_str()) {
        Ok(signature) => {
            proof {
                signature.lemma_of_bytes();
            }
            Some(signature)
        },
        Err(_) => None,
    };
    let when = resolve_block_time(info.block_time);
    screen(decoded, when, start_time, end_time)
}

} // verus!
