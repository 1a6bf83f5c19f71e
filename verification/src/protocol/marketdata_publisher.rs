//! Requests of the market-data WebSocket API and the levels of its order-book
//! subscriptions.
use vstd::prelude::*;
use crate::text::{json_quote, json_string_literal, push_signed_decimal, signed_decimal_text};
use crate::types::trading::{BboCandle, Candle, CandleWidth, InstrumentState, Side, candle_width_text};
use crate::types::decimal::Decimal;
use crate::protocol::common::Timestamp;
use crate::protocol::api_gateway::GetEstimatedFundingRateResponse;

verus! {

/// How much of a symbol's market data a subscription delivers.
#[derive(Debug, Clone, Copy, PartialEq, Eq, Structural)]
pub enum SubscriptionLevel {
    /// The top level of the order book.
    Level1,
    /// Price and quantity of every level of the order book.
    Level2,
    /// Price, quantity and distinct orders of every level.
    Level3,
    /// Trade prints only, with no book or ticker updates.
    Trades,
}

/// The wire name of a level.
pub open spec fn level_text(l: SubscriptionLevel) -> Seq<char> {
    match l {
        SubscriptionLevel::Level1 => "LEVEL_1"@,
        SubscriptionLevel::Level2 => "LEVEL_2"@,
        SubscriptionLevel::Level3 => "LEVEL_3"@,
        SubscriptionLevel::Trades => "TRADES"@,
    }
}

/// The flag bit of a level.
pub open spec fn level_bit(l: SubscriptionLevel) -> u8 {
    match l {
        SubscriptionLevel::Level1 => 1u8,
        SubscriptionLevel::Level2 => 2u8,
        SubscriptionLevel::Level3 => 4u8,
        SubscriptionLevel::Trades => 8u8,
    }
}

impl SubscriptionLevel {
    /// The wire name: `LEVEL_1`, `LEVEL_2`, `LEVEL_3` or `TRADES`.
    pub fn as_str(&self) -> (r: &'static str)
        ensures
            r@ == level_text(*self),
    {
        match self {
            SubscriptionLevel::Level1 => "LEVEL_1",
            SubscriptionLevel::Level2 => "LEVEL_2",
            SubscriptionLevel::Level3 => "LEVEL_3",
            SubscriptionLevel::Trades => "TRADES",
        }
    }

    /// The flag bit of the level in a set of levels.
    pub fn bits(&self) -> (r: u8)
        ensures
            r == level_bit(*self),
    {
        match self {
            SubscriptionLevel::Level1 => 1,
            SubscriptionLevel::Level2 => 2,
            SubscriptionLevel::Level3 => 4,
            SubscriptionLevel::Trades => 8,
        }
    }

    /// The set of book levels (`LEVEL_1`, `LEVEL_2`, `LEVEL_3`) as flag bits:
    /// every level that delivers book and ticker updates, as opposed to
    /// trades only.
    pub fn book_levels() -> (r: u8)
        ensures
            r == (level_bit(SubscriptionLevel::Level1) | level_bit(SubscriptionLevel::Level2) | level_bit(
                SubscriptionLevel::Level3,
            )),
            r == 7,
    {
        assert((1u8 | 2u8 | 4u8) == 7u8) by (bit_vector);
        7
    }
}

/// A request of the market-data WebSocket API.
#[derive(Debug, Clone)]
pub enum MarketdataRequest<'a> {
    /// Subscribe to a symbol at a level; `trades` and `ticker` (normally
    /// `true`) can suppress trade or ticker delivery of a book level.
    Subscribe { symbol: &'a str, level: SubscriptionLevel, trades: bool, ticker: bool },
    /// Unsubscribe from a symbol's ticker and trades.
    Unsubscribe { symbol: &'a str },
    /// Subscribe to a symbol's candles of a width.
    SubscribeCandles { symbol: &'a str, width: CandleWidth },
    /// Unsubscribe from a symbol's candles of a width.
    UnsubscribeCandles { symbol: &'a str, width: CandleWidth },
    /// Subscribe to a symbol's best-bid/offer candles of a width.
    SubscribeBboCandles { symbol: &'a str, width: CandleWidth },
    /// Unsubscribe from a symbol's best-bid/offer candles of a width.
    UnsubscribeBboCandles { symbol: &'a str, width: CandleWidth },
}

/// The abstract value of a request: its symbol as characters.
pub enum MarketdataRequestView {
    Subscribe { symbol: Seq<char>, level: SubscriptionLevel, trades: bool, ticker: bool },
    Unsubscribe { symbol: Seq<char> },
    SubscribeCandles { symbol: Seq<char>, width: CandleWidth },
    UnsubscribeCandles { symbol: Seq<char>, width: CandleWidth },
    SubscribeBboCandles { symbol: Seq<char>, width: CandleWidth },
    UnsubscribeBboCandles { symbol: Seq<char>, width: CandleWidth },
}

impl<'a> View for MarketdataRequest<'a> {
    type V = MarketdataRequestView;

    open spec fn view(&self) -> MarketdataRequestView {
        match self {
            MarketdataRequest::Subscribe { symbol, level, trades, ticker } => MarketdataRequestView::Subscribe {
                symbol: symbol@,
                level: *level,
                trades: *trades,
                ticker: *ticker,
            },
            MarketdataRequest::Unsubscribe { symbol } => MarketdataRequestView::Unsubscribe { symbol: symbol@ },
            MarketdataRequest::SubscribeCandles { symbol, width } => MarketdataRequestView::SubscribeCandles {
                symbol: symbol@,
                width: *width,
            },
            MarketdataRequest::UnsubscribeCandles { symbol, width } => MarketdataRequestView::UnsubscribeCandles {
                symbol: symbol@,
                width: *width,
            },
            MarketdataRequest::SubscribeBboCandles { symbol, width } => MarketdataRequestView::SubscribeBboCandles {
                symbol: symbol@,
                width: *width,
            },
            MarketdataRequest::UnsubscribeBboCandles { symbol, width } => MarketdataRequestView::UnsubscribeBboCandles {
                symbol: symbol@,
                width: *width,
            },
        }
    }
}

/// The JSON members of a request: its `type` tag, then its fields in order
/// (`trades` and `ticker` only when `false`).
pub open spec fn request_members_text(r: MarketdataRequestView) -> Seq<char> {
    match r {
        MarketdataRequestView::Subscribe { symbol, level, trades, ticker } => "\"type\":\"subscribe\",\"symbol\":"@
            + json_string_literal(symbol) + ",\"level\":\""@ + level_text(level) + "\""@
            + (if trades { Seq::<char>::empty() } else { ",\"trades\":false"@ })
            + (if ticker { Seq::<char>::empty() } else { ",\"ticker\":false"@ }),
        MarketdataRequestView::Unsubscribe { symbol } => "\"type\":\"unsubscribe\",\"symbol\":"@ + json_string_literal(symbol),
        MarketdataRequestView::SubscribeCandles { symbol, width } => "\"type\":\"subscribe_candles\",\"symbol\":"@
            + json_string_literal(symbol) + ",\"width\":\""@ + candle_width_text(width) + "\""@,
        MarketdataRequestView::UnsubscribeCandles { symbol, width } => "\"type\":\"unsubscribe_candles\",\"symbol\":"@
            + json_string_literal(symbol) + ",\"width\":\""@ + candle_width_text(width) + "\""@,
        MarketdataRequestView::SubscribeBboCandles { symbol, width } => "\"type\":\"subscribe_bbo_candles\",\"symbol\":"@
            + json_string_literal(symbol) + ",\"width\":\""@ + candle_width_text(width) + "\""@,
        MarketdataRequestView::UnsubscribeBboCandles { symbol, width } => "\"type\":\"unsubscribe_bbo_candles\",\"symbol\":"@
            + json_string_literal(symbol) + ",\"width\":\""@ + candle_width_text(width) + "\""@,
    }
}

/// The JSON text of a request with id `rid`: `{"rid":<rid>,<members>}`.
pub open spec fn request_text(rid: i32, r: MarketdataRequestView) -> Seq<char> {
    "{\"rid\":"@ + signed_decimal_text(rid as int) + ","@ + request_members_text(r) + "}"@
}

/// Appends the `width` member of a candle request.
fn push_width(s: &mut String, width: CandleWidth)
    ensures
        final(s)@ == old(s)@ + ",\"width\":\""@ + candle_width_text(width) + "\""@,
{
    s.append(",\"width\":\"");
    s.append(width.as_str());
    s.append("\"");
}

impl<'a> MarketdataRequest<'a> {
    /// The JSON text of the request sent with id `request_id`.
    pub fn to_request_text(&self, request_id: i32) -> (r: String)
        ensures
            r@ == request_text(request_id, self@),
    {
        let mut s = String::from_str("{\"rid\":");
        push_signed_decimal(&mut s, request_id as i64);
        s.append(",");
        match self {
            MarketdataRequest::Subscribe { symbol, level, trades, ticker } => {
                s.append("\"type\":\"subscribe\",\"symbol\":");
                let q = json_quote(symbol);
                s.append(q.as_str());
                s.append(",\"level\":\"");
                s.append(level.as_str());
                s.append("\"");
                if !*trades {
                    s.append(",\"trades\":false");
                }
                if !*ticker {
                    s.append(",\"ticker\":false");
                }
            },
            MarketdataRequest::Unsubscribe { symbol } => {
                s.append("\"type\":\"unsubscribe\",\"symbol\":");
                let q = json_quote(symbol);
                s.append(q.as_str());
            },
            MarketdataRequest::SubscribeCandles { symbol, width } => {
                s.append("\"type\":\"subscribe_candles\",\"symbol\":");
                let q = json_quote(symbol);
                s.append(q.as_str());
                push_width(&mut s, *width);
            },
            MarketdataRequest::UnsubscribeCandles { symbol, width } => {
                s.append("\"type\":\"unsubscribe_candles\",\"symbol\":");
                let q = json_quote(symbol);
                s.append(q.as_str());
                push_width(&mut s, *width);
            },
            MarketdataRequest::SubscribeBboCandles { symbol, width } => {
                s.append("\"type\":\"subscribe_bbo_candles\",\"symbol\":");
                let q = json_quote(symbol);
                s.append(q.as_str());
                push_width(&mut s, *width);
            },
            MarketdataRequest::UnsubscribeBboCandles { symbol, width } => {
                s.append("\"type\":\"unsubscribe_bbo_candles\",\"symbol\":");
                let q = json_quote(symbol);
                s.append(q.as_str());
                push_width(&mut s, *width);
            },
        }
        s.append("}");
        proof {
            assert(s@ =~= request_text(request_id, self@));
        }
        s
    }
}

/// Whether a book update is a full snapshot.
#[derive(Debug, Clone, Copy, PartialEq, Eq, Structural)]
pub struct SnapshotFlag {
    pub is_snapshot: bool,
}

/// An event of the market-data stream.
#[derive(Debug, Clone)]
pub enum MarketdataEvent {
    Heartbeat(Timestamp),
    Ticker(Ticker),
    L1BookUpdate(L1BookUpdate),
    L2BookUpdate(L2BookUpdate),
    L3BookUpdate(L3BookUpdate),
    Trade(Trade),
    Candle(Candle),
    BboCandle(BboCandle),
}

/// Low-frequency statistics of a symbol.
#[derive(Debug, Clone)]
pub struct Ticker {
    pub timestamp: Timestamp,
    pub symbol: String,
    pub last_trade_price: Option<Decimal>,
    pub last_trade_quantity: u64,
    pub session_open_price: Option<Decimal>,
    pub session_low_price: Option<Decimal>,
    pub session_high_price: Option<Decimal>,
    /// Contracts traded over 24 hours.
    pub total_volume: u64,
    pub open_interest: u64,
    pub instrument_state: InstrumentState,
    pub mark_price: Decimal,
    pub bid_price: Option<Decimal>,
    pub ask_price: Option<Decimal>,
    pub price_band_lower_limit: Option<Decimal>,
    pub price_band_upper_limit: Option<Decimal>,
    pub last_settlement_price: Option<Decimal>,
    /// Seconds since the epoch.
    pub last_settlement_time: Option<i32>,
    pub estimated_funding_rate: Option<GetEstimatedFundingRateResponse>,
}

/// An update of a symbol's order book: its levels on each side.
#[derive(Debug, Clone)]
pub struct BookUpdateData<Snapshot, Level> {
    pub timestamp: Timestamp,
    pub symbol: String,
    pub bids: Vec<Level>,
    pub asks: Vec<Level>,
    pub snapshot: Snapshot,
}

/// A top-of-book update.
pub type L1BookUpdate = BookUpdateData<(), L2BookLevel>;

/// A price-level book update.
pub type L2BookUpdate = BookUpdateData<SnapshotFlag, L2BookLevel>;

/// An order-level book update.
pub type L3BookUpdate = BookUpdateData<SnapshotFlag, L3BookLevel>;

/// A price level: price and total quantity.
#[derive(Debug, Clone, Copy)]
pub struct L2BookLevel {
    pub price: Decimal,
    pub quantity: u64,
}

/// A price level with the quantities of its orders.
#[derive(Debug, Clone)]
pub struct L3BookLevel {
    pub price: Decimal,
    pub quantity: u64,
    pub order_quantities: Vec<u64>,
}

/// A trade print.
#[derive(Debug, Clone)]
pub struct Trade {
    pub price: Decimal,
    pub quantity: u64,
    pub symbol: String,
    pub taker_side: Side,
    pub timestamp: Timestamp,
}

} // verus!
