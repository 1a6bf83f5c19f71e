//! Verified core of the ArchitectX exchange SDK: the exchange's wire types,
//! the business rules of orders, instruments and schedules, and the
//! decisions of its REST and WebSocket clients.
use vstd::prelude::*;

pub mod constants;
pub mod protocol;
pub mod routing;
pub mod session;
pub mod text;
pub mod types;

pub use types::{
    auth, days_of_week, decimal, environment, ep3, funding_rate_schedule, order_id, orderbook, rest, time,
    trading, ws,
};
pub use types::auth::{Password, Token, Username};
pub use types::days_of_week::DaysOfWeek;
pub use types::decimal::Decimal;
pub use types::funding_rate_schedule::{FundingException, FundingRateSchedule, FundingTime};
pub use types::order_id::{ClientOrderId, OrderId};
pub use types::orderbook::{Orderbook, OrderbookLevel};
pub use types::time::{CivilDate, UtcTime};
pub use types::trading::{
    Balance, BboCandle, Candle, DepositRecord, FundingHistory, Instrument, InstrumentState, InstrumentV0,
    OpenInterest, OpenInterestData, Order, OrderRejectReason, OrderState, PlaceOrder, Position, Side, TimeOfDay,
    TradingHoursSegment, TradingSchedule, WithdrawalRecord,
};

verus! {
} // verus!
