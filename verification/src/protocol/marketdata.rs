//! Level-2 order-book messages of the market-data service: snapshots and the
//! differences that follow them, each with its place in a sequence.
use vstd::prelude::*;
use crate::protocol::sequence::SequenceIdAndNumber;
use crate::types::decimal::Decimal;
use crate::types::time::{UtcTime, MAX_INSTANT_SECS, MIN_INSTANT_SECS};
use crate::protocol::common::fraction_is_valid;

verus! {

/// `DateTime::<Utc>::from_timestamp`: the instant of a second count and a
/// fraction; an instant exactly where the fraction is valid and the second
/// falls on one of `chrono`'s dates.
#[verifier::external_body]
pub(crate) fn instant_from_timestamp(secs: i64, nanos: u32) -> (r: Option<UtcTime>)
    ensures
        r matches Some(t) ==> t.secs == secs && t.nanos == nanos,
        r is Some <==> (fraction_is_valid(secs as int, nanos) && MIN_INSTANT_SECS <= secs <= MAX_INSTANT_SECS),
{
    let dt = chrono::DateTime::from_timestamp(secs, nanos)?;
    Some(UtcTime { secs: dt.timestamp(), nanos: dt.timestamp_subsec_nanos() })
}

/// Asks for a level-2 snapshot of a symbol.
#[derive(Debug, Clone)]
pub struct L2BookSnapshotRequest {
    pub symbol: String,
}

/// Subscribes to the level-2 book of a symbol.
#[derive(Debug, Clone)]
pub struct SubscribeL2BookRequest {
    pub symbol: String,
}

/// A full level-2 book: price/quantity pairs of each side.
#[derive(Debug, Clone)]
pub struct L2BookSnapshot {
    pub timestamp: i64,
    pub timestamp_ns: u32,
    pub sequence: SequenceIdAndNumber,
    pub bids: Vec<(Decimal, Decimal)>,
    pub asks: Vec<(Decimal, Decimal)>,
}

impl L2BookSnapshot {
    /// The instant of the snapshot, if its timestamp names one.
    pub fn timestamp(&self) -> (r: Option<UtcTime>)
        ensures
            r matches Some(t) ==> t.secs == self.timestamp && t.nanos == self.timestamp_ns,
            r is Some <==> (fraction_is_valid(self.timestamp as int, self.timestamp_ns)
                && MIN_INSTANT_SECS <= self.timestamp <= MAX_INSTANT_SECS),
    {
        instant_from_timestamp(self.timestamp, self.timestamp_ns)
    }
}

/// The changes of a level-2 book since the previous message.
#[derive(Debug, Clone)]
pub struct L2BookDiff {
    pub timestamp: i64,
    pub timestamp_ns: u32,
    pub sequence: SequenceIdAndNumber,
    pub bids: Vec<(Decimal, Decimal)>,
    pub asks: Vec<(Decimal, Decimal)>,
}

impl L2BookDiff {
    /// The instant of the difference, if its timestamp names one.
    pub fn timestamp(&self) -> (r: Option<UtcTime>)
        ensures
            r matches Some(t) ==> t.secs == self.timestamp && t.nanos == self.timestamp_ns,
            r is Some <==> (fraction_is_valid(self.timestamp as int, self.timestamp_ns)
                && MIN_INSTANT_SECS <= self.timestamp <= MAX_INSTANT_SECS),
    {
        instant_from_timestamp(self.timestamp, self.timestamp_ns)
    }
}

/// A level-2 book message.
#[derive(Debug, Clone)]
pub enum L2BookUpdate {
    Snapshot(L2BookSnapshot),
    Diff(L2BookDiff),
}

/// The second count and fraction of a book message.
pub open spec fn update_stamp(u: L2BookUpdate) -> (i64, u32) {
    match u {
        L2BookUpdate::Snapshot(s) => (s.timestamp, s.timestamp_ns),
        L2BookUpdate::Diff(d) => (d.timestamp, d.timestamp_ns),
    }
}

impl L2BookUpdate {
    /// The instant of the message, if its timestamp names one.
    pub fn timestamp(&self) -> (r: Option<UtcTime>)
        ensures
            r matches Some(t) ==> (t.secs, t.nanos) == update_stamp(*self),
            r is Some <==> (fraction_is_valid(update_stamp(*self).0 as int, update_stamp(*self).1)
                && MIN_INSTANT_SECS <= update_stamp(*self).0 <= MAX_INSTANT_SECS),
    {
        match self {
            L2BookUpdate::Snapshot(snapshot) => snapshot.timestamp(),
            L2BookUpdate::Diff(diff) => diff.timestamp(),
        }
    }

    /// The place of the message in its sequence.
    pub fn sequence(&self) -> (r: SequenceIdAndNumber)
        ensures
            r == match self {
                L2BookUpdate::Snapshot(s) => s.sequence,
                L2BookUpdate::Diff(d) => d.sequence,
            },
    {
        match self {
            L2BookUpdate::Snapshot(snapshot) => snapshot.sequence,
            L2BookUpdate::Diff(diff) => diff.sequence,
        }
    }

    /// Whether the message is a full snapshot.
    pub fn is_snapshot(&self) -> (r: bool)
        ensures
            r == (*self is Snapshot),
    {
        match self {
            L2BookUpdate::Snapshot(_) => true,
            L2BookUpdate::Diff(_) => false,
        }
    }
}

} // verus!
