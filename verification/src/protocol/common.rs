//! Wire types shared by the APIs: second-and-nanosecond timestamps, fills,
//! error and health responses.
use vstd::prelude::*;
use crate::types::decimal::Decimal;
use crate::types::time::UtcTime;
use crate::types::trading::Side;

verus! {

/// A timestamp on the wire: seconds since the epoch and nanoseconds.
#[derive(Debug, Clone, Copy, PartialEq, Eq, Structural)]
pub struct Timestamp {
    pub ts: i32,
    pub tn: u32,
}

/// Whether a second count and a fraction name an instant: the fraction is
/// below a second, or below two in the last second of a minute (a leap
/// second).
pub open spec fn fraction_is_valid(secs: int, nanos: u32) -> bool {
    nanos < 1_000_000_000 || (nanos < 2_000_000_000 && secs % 60 == 59)
}

/// `chrono::Utc::now()`: the current instant of the system clock, as
/// seconds and nanoseconds; its fraction is below a second.
#[verifier::external_body]
pub(crate) fn current_instant() -> (r: UtcTime)
    ensures
        r.nanos < 1_000_000_000,
{
    let now = chrono::Utc::now();
    UtcTime { secs: now.timestamp(), nanos: now.timestamp_subsec_nanos() }
}

/// The timestamp of an instant: its seconds truncated to 32 bits, and its
/// fraction.
pub open spec fn timestamp_of(t: UtcTime) -> Timestamp {
    Timestamp { ts: t.secs as i32, tn: t.nanos }
}

/// The instant of a timestamp, if its fraction is in range.
pub open spec fn instant_of(ts: Timestamp) -> Option<UtcTime> {
    if fraction_is_valid(ts.ts as int, ts.tn) {
        Some(UtcTime { secs: ts.ts as i64, nanos: ts.tn })
    } else {
        None
    }
}

impl Timestamp {
    /// The current instant.
    pub fn now() -> (r: Timestamp)
        ensures
            r.tn < 1_000_000_000,
    {
        Self::from_instant(current_instant())
    }

    /// The instant on the wire: the seconds truncated to 32 bits, and the
    /// fraction.
    pub fn from_instant(t: UtcTime) -> (r: Timestamp)
        ensures
            r == timestamp_of(t),
    {
        Timestamp { ts: t.secs as i32, tn: t.nanos }
    }

    /// The instant of the timestamp, or `None` when the fraction is out of
    /// range (`DateTime::from_timestamp`).
    pub fn as_datetime(&self) -> (r: Option<UtcTime>)
        ensures
            r == instant_of(*self),
    {
        let secs = self.ts as i64;
        let last_second = secs % 60 == 59 || secs % 60 == -1;
        proof {
            assert(last_second == ((self.ts as int) % 60 == 59)) by (nonlinear_arith)
                requires
                    secs == self.ts as int,
                    last_second == (secs % 60 == 59 || secs % 60 == -1),
            {
            }
        }
        if self.tn < 1_000_000_000 || (self.tn < 2_000_000_000 && last_second) {
            Some(UtcTime { secs, nanos: self.tn })
        } else {
            None
        }
    }
}

/// The timestamp of an instant whose seconds fit in 32 bits reads back as
/// that instant.
pub proof fn lemma_timestamp_round_trip(t: UtcTime)
    requires
        i32::MIN <= t.secs <= i32::MAX,
        fraction_is_valid(t.secs as int, t.nanos),
    ensures
        instant_of(timestamp_of(t)) == Some(t),
{
}

/// A trade of the account.
#[derive(Debug, Clone)]
pub struct Fill {
    pub trade_id: String,
    pub order_id: Option<String>,
    pub user_id: String,
    pub timestamp: UtcTime,
    pub symbol: String,
    pub price: Decimal,
    pub quantity: u64,
    pub is_taker: bool,
    pub fee: Decimal,
    pub side: Side,
    pub realized_pnl: Option<Decimal>,
}

/// The body of an error response.
#[derive(Debug, Clone)]
pub struct ErrorResponse {
    pub error: String,
}

/// The body of a health response.
#[derive(Debug, Clone)]
pub struct HealthResponse {
    pub status: String,
    pub timestamp: UtcTime,
    pub version: Option<String>,
}

} // verus!
