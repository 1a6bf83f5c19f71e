//! Requests and responses of the REST API gateway, and the calendar periods
//! of its leaderboards.
use vstd::prelude::*;
use crate::protocol::common::{Fill, Timestamp};
use crate::protocol::marketdata_publisher::{Ticker, Trade};
use crate::protocol::pagination::{CursorPage, LimitOffsetPage, LimitOffsetPagination, TimeseriesPagination};
use crate::types::auth::Token;
use crate::types::decimal::Decimal;
use crate::types::time::{
    CivilDate, UtcTime, instant_is_valid, instant_tuple, is_valid_date,
    utc_date, utc_date_of, utc_instant, utc_instant_of,
};
use crate::types::trading::{BboCandle, Candle, Instrument, Side};

verus! {

// ---------------------------------------------------------------------------
// API keys and authentication
// ---------------------------------------------------------------------------

/// Asks for a new API key.
#[derive(Debug, Clone)]
pub struct CreateApiKeyRequest {
    pub allowed_ips: Option<Vec<String>>,
    pub account_ids: Option<Vec<String>>,
    /// Names of the permissions granted to the key.
    pub permissions: Option<Vec<String>>,
}

/// A new API key and its secret.
#[derive(Debug, Clone)]
pub struct CreateApiKeyResponse {
    pub api_key: String,
    pub api_secret: String,
}

/// An API key of the user.
#[derive(Debug, Clone)]
pub struct ApiKeyInfo {
    pub api_key: String,
    pub created_at: UtcTime,
    pub allowed_ips: Option<Vec<String>>,
    pub account_ids: Option<Vec<String>>,
    /// Names of the permissions granted to the key.
    pub permissions: Vec<String>,
}

/// The API keys of the user.
#[derive(Debug, Clone)]
pub struct GetApiKeysResponse {
    pub api_keys: Vec<ApiKeyInfo>,
}

/// Asks to revoke an API key.
#[derive(Debug, Clone)]
pub struct RevokeApiKeyRequest {
    pub api_key: String,
}

/// The answer to a revocation.
#[derive(Debug, Clone)]
pub struct RevokeApiKeyResponse {
    pub message: String,
}

/// Asks to replace the addresses an API key may be used from.
#[derive(Debug, Clone)]
pub struct UpdateApiKeyAllowedIpsRequest {
    pub api_key: String,
    pub allowed_ips: Vec<String>,
}

/// The answer to an address update.
#[derive(Debug, Clone)]
pub struct UpdateApiKeyAllowedIpsResponse {
    pub message: String,
}

/// Asks for a user token.
#[derive(Debug, Clone)]
pub struct AuthenticateRequest {
    pub auth: AuthenticationMethod,
    pub expiration_seconds: i32,
}

/// How a user proves who they are.
#[derive(Debug, Clone)]
pub enum AuthenticationMethod {
    /// An API key and its secret.
    ApiKeySecret { api_key: String, api_secret: String },
    /// A user name, a password and an optional one-time code.
    UsernamePassword { username: String, password: String, totp: Option<String> },
}

/// A user token.
#[derive(Clone)]
pub struct AuthenticateResponse {
    pub token: Token,
}

/// Exchanges a Clerk session token for a user token.
#[derive(Debug, Clone)]
pub struct ClerkLoginRequest {
    pub clerk_token: String,
    pub expiration_seconds: i32,
}

/// The user behind a token.
#[derive(Debug, Clone)]
pub struct WhoAmIResponse {
    pub id: String,
    pub username: String,
    pub pseudonym: String,
    pub created_at: UtcTime,
    pub is_onboarded: bool,
    pub is_frozen: bool,
    pub is_admin: bool,
    pub require_2fa: bool,
    pub fiat_deposit_code: String,
    pub accounts: Vec<WhoAmIAccount>,
}

/// An account of the user and what the user may do with it.
#[derive(Debug, Clone)]
pub struct WhoAmIAccount {
    pub id: String,
    pub name: Option<String>,
    pub is_close_only: bool,
    pub maker_fee: Decimal,
    pub taker_fee: Decimal,
    pub can_list: bool,
    pub can_read: bool,
    pub can_set_limits: bool,
    pub can_reduce_or_close: bool,
    pub can_trade: bool,
}

/// The customer record of the user.
#[derive(Debug, Clone)]
pub struct GetCustomerResponse {
    pub business_name: Option<String>,
    pub doing_business_as: Option<String>,
}

// ---------------------------------------------------------------------------
// Leaderboards
// ---------------------------------------------------------------------------

/// What a leaderboard ranks by.
#[derive(Debug, Clone, Copy, PartialEq, Eq, Structural)]
pub enum LeaderboardMetric {
    Volume,
}

impl LeaderboardMetric {
    /// The wire name: `volume`.
    pub fn as_str(&self) -> (r: &'static str)
        ensures
            r@ == "volume"@,
    {
        match self {
            LeaderboardMetric::Volume => "volume",
        }
    }
}

/// The period a leaderboard covers.
#[derive(Debug, Clone, Copy, PartialEq, Eq, Structural)]
pub enum LeaderboardCadence {
    Monthly,
}

/// The date of the first of the month after `y-m`.
pub open spec fn next_month_first(y: i32, m: u32) -> (int, int, int) {
    if m == 12 {
        (y + 1, 1, 1)
    } else {
        (y as int, m + 1, 1)
    }
}

/// The instant as an optional tuple.
pub open spec fn opt_instant_tuple(t: Option<UtcTime>) -> Option<(i64, u32)> {
    match t {
        Some(x) => Some(instant_tuple(x)),
        None => None,
    }
}

impl LeaderboardCadence {
    /// Every cadence.
    pub fn all() -> (r: Vec<LeaderboardCadence>)
        ensures
            r@ == seq![LeaderboardCadence::Monthly],
    {
        let v = vec![LeaderboardCadence::Monthly];
        assert(v@ =~= seq![LeaderboardCadence::Monthly]);
        v
    }

    /// The wire name: `monthly`.
    pub fn as_str(&self) -> (r: &'static str)
        ensures
            r@ == "monthly"@,
    {
        match self {
            LeaderboardCadence::Monthly => "monthly",
        }
    }

    /// The start of the period holding `dt`: midnight UTC of the first of
    /// its month.
    pub fn period_start(&self, dt: UtcTime) -> (r: Option<UtcTime>)
        requires
            instant_is_valid(dt),
        ensures
            ({
                let (y, m, _d) = utc_date_of(dt.secs, dt.nanos);
                &&& opt_instant_tuple(r) == utc_instant_of(y, m, 1, 0, 0, 0)
                &&& r is Some
                &&& r matches Some(s) ==> utc_date_of(s.secs, s.nanos) == (y, m, 1u32)
            }),
    {
        let d = utc_date(dt);
        let first = CivilDate { year: d.year, month: d.month, day: 1 };
        utc_instant(first, 0, 0, 0)
    }

    /// The start of the period after the one holding `dt`: midnight UTC of
    /// the first of the next month; `None` past the last year a date can hold.
    pub fn next_period_start(&self, dt: UtcTime) -> (r: Option<UtcTime>)
        requires
            instant_is_valid(dt),
        ensures
            ({
                let (y, m, _d) = utc_date_of(dt.secs, dt.nanos);
                let (ny, nm, nd) = next_month_first(y, m);
                &&& is_valid_date(ny, nm, nd) ==> opt_instant_tuple(r) == utc_instant_of(ny as i32, nm as u32, 1, 0, 0, 0)
                    && r is Some
                    && (r matches Some(s) ==> utc_date_of(s.secs, s.nanos) == (ny as i32, nm as u32, 1u32))
                &&& !is_valid_date(ny, nm, nd) ==> r is None
            }),
    {
        let d = utc_date(dt);
        let next = if d.month == 12 {
            CivilDate::from_ymd_opt(d.year + 1, 1, 1)
        } else {
            CivilDate::from_ymd_opt(d.year, d.month + 1, 1)
        };
        match next {
            Some(first) => utc_instant(first, 0, 0, 0),
            None => None,
        }
    }

    /// Whether `prev` and `now` lie in different periods: a different month
    /// or year (UTC).
    pub fn crossed_boundary(&self, prev: UtcTime, now: UtcTime) -> (r: bool)
        requires
            instant_is_valid(prev),
            instant_is_valid(now),
        ensures
            r == (utc_date_of(prev.secs, prev.nanos).1 != utc_date_of(now.secs, now.nanos).1
                || utc_date_of(prev.secs, prev.nanos).0 != utc_date_of(now.secs, now.nanos).0),
    {
        let p = utc_date(prev);
        let n = utc_date(now);
        p.month != n.month || p.year != n.year
    }
}

/// Asks for a leaderboard, optionally of an earlier period.
#[derive(Debug, Clone)]
pub struct LeaderboardRequest {
    pub metric: LeaderboardMetric,
    pub cadence: LeaderboardCadence,
    pub period_offset: Option<i64>,
}

/// A leaderboard of one period.
#[derive(Debug, Clone)]
pub struct LeaderboardResponse {
    pub metric: LeaderboardMetric,
    pub cadence: LeaderboardCadence,
    pub period_start: UtcTime,
    pub period_end: UtcTime,
    pub updated_at: UtcTime,
    pub entries: Vec<LeaderboardEntry>,
    pub your_entry: Option<LeaderboardEntry>,
}

/// A rank on a leaderboard.
#[derive(Debug, Clone)]
pub struct LeaderboardEntry {
    pub rank: u32,
    pub pseudonym: String,
    pub score: Decimal,
}

// ---------------------------------------------------------------------------
// Instruments and tickers
// ---------------------------------------------------------------------------

/// Asks for one instrument.
#[derive(Debug, Clone)]
pub struct GetInstrumentRequest {
    pub symbol: String,
}

/// One instrument; a dated contract is sent without the funding fields of
/// perpetuals.
#[derive(Debug, Clone)]
pub struct GetInstrumentResponse(pub Instrument);

impl GetInstrumentResponse {
    /// The instrument.
    pub fn into_inner(self) -> (r: Instrument)
        ensures
            r == self.0,
    {
        self.0
    }

    /// Whether the instrument is sent with its funding fields: only a
    /// perpetual is.
    pub fn carries_funding_fields(&self) -> (r: bool)
        ensures
            r == (self.0.expiration is None),
    {
        self.0.is_perpetual()
    }
}

/// Every instrument.
#[derive(Debug, Clone)]
pub struct GetInstrumentsResponse {
    pub instruments: Vec<GetInstrumentResponse>,
}

/// Asks for the ticker of a symbol.
#[derive(Debug, Clone)]
pub struct GetTickerRequest {
    pub symbol: String,
}

/// The ticker of a symbol.
#[derive(Debug, Clone)]
pub struct GetTickerResponse {
    pub ticker: Ticker,
}

/// A page of tickers.
#[derive(Debug, Clone)]
pub struct GetTickersResponse {
    pub tickers: Vec<Ticker>,
    pub page: LimitOffsetPage,
}

/// Query parameters of the ticker list.
#[derive(Debug, Clone)]
pub struct GetTickersQueryParams {
    pub pagination: LimitOffsetPagination,
}

// ---------------------------------------------------------------------------
// Transactions, positions, fills and balances
// ---------------------------------------------------------------------------

/// A kind of account transaction.
#[derive(Debug, Clone, Copy, PartialEq, Eq, Structural)]
pub enum TransactionType {
    Deposit,
    Withdrawal,
    Funding,
    Fee,
    Pnl,
    LendingCredit,
    LendingDebit,
}

/// Asks for the transactions of some kinds.
#[derive(Debug, Clone)]
pub struct GetTransactionsRequest {
    pub transaction_types: Vec<String>,
}

/// Query parameters of the transaction list.
#[derive(Debug, Clone)]
pub struct GetTransactionsQueryParams {
    pub account_id: Option<String>,
    pub request: GetTransactionsRequest,
    pub timeseries: TimeseriesPagination,
}

/// A transaction of an account.
#[derive(Debug, Clone)]
pub struct Transaction {
    pub account_id: String,
    pub event_id: String,
    pub symbol: String,
    pub timestamp: UtcTime,
    pub amount: Decimal,
    pub transaction_type: String,
    pub reference_id: Option<String>,
    pub initiated_by_user_id: Option<String>,
}

/// A page of transactions.
#[derive(Debug, Clone)]
pub struct GetTransactionsResponse {
    pub transactions: Vec<Transaction>,
    pub page: CursorPage,
}

/// A kind of settlement.
#[derive(Debug, Clone, Copy, PartialEq, Eq, Structural)]
pub enum SettlementKind {
    Funding,
    MarkToMarket,
    FinalSettlement,
}

/// A settlement of an account.
#[derive(Debug, Clone)]
pub struct FundingTransaction {
    pub account_id: String,
    pub currency: String,
    pub timestamp: UtcTime,
    pub transaction_type: SettlementKind,
    pub amount: Decimal,
    pub event_id: String,
    pub sequence_number: i32,
    pub reference_id: Option<String>,
    pub symbol: String,
    pub funding_rate: Option<Decimal>,
    pub funding_amount: Option<Decimal>,
    pub benchmark_price: Option<Decimal>,
    pub settlement_price: Decimal,
}

/// Query parameters of the settlement list.
#[derive(Debug, Clone)]
pub struct GetFundingTransactionsQueryParams {
    pub account_id: Option<String>,
    pub symbol: Option<String>,
    pub timeseries: TimeseriesPagination,
}

/// A page of settlements.
#[derive(Debug, Clone)]
pub struct GetFundingTransactionsResponse {
    pub funding_transactions: Vec<FundingTransaction>,
    pub page: CursorPage,
}

/// Asks for the settlements of an account.
#[derive(Debug, Clone)]
pub struct GetFundingTransactionsRequest {
    pub account_id: Option<String>,
}

/// A sandbox deposit.
#[derive(Debug, Clone)]
pub struct SandboxDepositRequest {
    pub account_id: Option<String>,
    pub symbol: String,
    pub amount: Decimal,
}

/// A sandbox withdrawal.
#[derive(Debug, Clone)]
pub struct SandboxWithdrawalRequest {
    pub account_id: Option<String>,
    pub symbol: String,
    pub amount: Decimal,
}

/// Asks for the positions of an account.
#[derive(Debug, Clone)]
pub struct GetPositionsRequest {
    pub account_id: Option<String>,
}

/// The positions of an account.
#[derive(Debug, Clone)]
pub struct GetPositionsResponse {
    pub positions: Vec<Position>,
}

/// A position of an account.
#[derive(Debug, Clone)]
pub struct Position {
    pub account_id: String,
    pub symbol: String,
    pub signed_quantity: i64,
    pub signed_cost_basis: Decimal,
    pub signed_notional: Decimal,
    pub timestamp: UtcTime,
    pub realized_pnl: Decimal,
}

/// Asks for the fills of an account.
#[derive(Debug, Clone)]
pub struct GetFillsRequest {
    pub account_id: Option<String>,
    pub symbol: Option<String>,
    pub timeseries: TimeseriesPagination,
}

/// A page of fills.
#[derive(Debug, Clone)]
pub struct GetFillsResponse {
    pub fills: Vec<Fill>,
    pub page: CursorPage,
}

/// A trade as the administrators see it.
#[derive(Debug, Clone)]
pub struct AdminTrade {
    pub trade_id: String,
    pub timestamp: UtcTime,
    pub symbol: String,
    pub price: Decimal,
    pub quantity: u64,
    pub maker_account_id: String,
    pub taker_account_id: String,
    pub taker_side: Side,
    pub maker_fee: Decimal,
    pub taker_fee: Decimal,
}

/// A page of administrator trades.
#[derive(Debug, Clone)]
pub struct GetAdminTradesResponse {
    pub trades: Vec<AdminTrade>,
    pub page: CursorPage,
}

/// Asks for the balances of an account.
#[derive(Debug, Clone)]
pub struct GetBalancesRequest {
    pub account_id: Option<String>,
}

/// The balances of an account.
#[derive(Debug, Clone)]
pub struct GetBalancesResponse {
    pub balances: Vec<Balance>,
    pub usd_borrow: Option<Decimal>,
}

/// A balance of an account.
#[derive(Debug, Clone)]
pub struct Balance {
    pub account_id: String,
    pub symbol: String,
    pub amount: Decimal,
}

/// The risk of a position in one symbol.
#[derive(Debug, Clone)]
pub struct SymbolRiskSnapshot {
    pub signed_quantity: i64,
    pub signed_cost_basis: Decimal,
    pub signed_notional: Decimal,
    pub mark_price: Option<Decimal>,
    pub signed_usd_notional: Option<Decimal>,
    pub average_price: Option<Decimal>,
    pub initial_margin_required_position: Decimal,
    pub initial_margin_required_open_orders: Decimal,
    pub initial_margin_required_total: Decimal,
    pub maintenance_margin_required: Decimal,
    pub unrealized_pnl: Decimal,
    pub liquidation_price: Option<Decimal>,
}

/// The risk of an account.
#[derive(Debug, Clone)]
pub struct AccountRiskSnapshot {
    pub account_id: String,
    pub timestamp_ns: UtcTime,
    /// Risk per symbol, as symbol/snapshot pairs.
    pub per_symbol: Vec<(String, SymbolRiskSnapshot)>,
    pub initial_margin_required_for_positions: Decimal,
    pub initial_margin_required_for_open_orders: Decimal,
    pub initial_margin_required_total: Decimal,
    pub maintenance_margin_required: Decimal,
    pub unrealized_pnl: Decimal,
    pub equity: Decimal,
    pub initial_margin_available: Decimal,
    pub maintenance_margin_available: Decimal,
    pub balance_usd: Decimal,
}

/// The risk of an account.
#[derive(Debug, Clone)]
pub struct GetRiskSnapshotResponse {
    pub risk_snapshot: AccountRiskSnapshot,
}

/// Asks for the risk of an account.
#[derive(Debug, Clone)]
pub struct GetRiskSnapshotRequest {
    pub account_id: Option<String>,
}

/// Asks for the traded volume over a time range.
#[derive(Debug, Clone)]
pub struct GetVolumeRequest {
    pub start_timestamp_ns: u64,
    pub end_timestamp_ns: u64,
    pub account_id: Option<String>,
}

/// A traded volume.
#[derive(Debug, Clone)]
pub struct GetVolumeResponse {
    pub volume: Decimal,
}

// ---------------------------------------------------------------------------
// Market data
// ---------------------------------------------------------------------------

/// Asks for the latest trades of a symbol.
#[derive(Debug, Clone)]
pub struct GetTradesRequest {
    pub symbol: String,
    pub limit: Option<u32>,
}

/// The latest trades of a symbol.
#[derive(Debug, Clone)]
pub struct GetTradesResponse {
    pub trades: Vec<Trade>,
}

/// Asks for the candles of a symbol over a time range.
#[derive(Debug, Clone)]
pub struct GetCandlesRequest {
    pub symbol: String,
    pub start_timestamp_ns: u64,
    pub end_timestamp_ns: u64,
    pub candle_width: String,
}

/// Candles.
#[derive(Debug, Clone)]
pub struct GetCandlesResponse {
    pub candles: Vec<Candle>,
}

/// Asks for the current candle of a symbol.
#[derive(Debug, Clone)]
pub struct GetCandleRequest {
    pub symbol: String,
    pub candle_width: String,
}

/// A candle.
#[derive(Debug, Clone)]
pub struct GetCandleResponse {
    pub candle: Candle,
}

/// Asks for the best-bid/offer candles of a symbol over a time range.
#[derive(Debug, Clone)]
pub struct GetBboCandlesRequest {
    pub symbol: String,
    pub start_timestamp_ns: u64,
    pub end_timestamp_ns: u64,
    pub candle_width: String,
}

/// Best-bid/offer candles.
#[derive(Debug, Clone)]
pub struct GetBboCandlesResponse {
    pub candles: Vec<BboCandle>,
}

/// Asks for the current best-bid/offer candle of a symbol.
#[derive(Debug, Clone)]
pub struct GetBboCandleRequest {
    pub symbol: String,
    pub candle_width: String,
}

/// A best-bid/offer candle.
#[derive(Debug, Clone)]
pub struct GetBboCandleResponse {
    pub candle: BboCandle,
}

/// Asks for the funding rates of a symbol.
#[derive(Debug, Clone)]
pub struct GetFundingRatesRequest {
    pub symbol: String,
    pub timeseries: TimeseriesPagination,
}

/// A page of funding rates.
#[derive(Debug, Clone)]
pub struct GetFundingRatesResponse {
    pub funding_rates: Vec<FundingRate>,
    pub page: CursorPage,
}

/// A funding rate applied at an instant.
#[derive(Debug, Clone)]
pub struct FundingRate {
    pub symbol: String,
    pub timestamp_ns: u64,
    pub funding_rate: Decimal,
    pub funding_amount: Option<Decimal>,
    pub benchmark_price: Option<Decimal>,
    pub settlement_price: Decimal,
}

/// Asks for the estimated funding rate of a symbol.
#[derive(Debug, Clone)]
pub struct GetEstimatedFundingRateRequest {
    pub symbol: String,
}

/// Whether an estimated funding rate is available.
#[derive(Debug, Clone, Copy, PartialEq, Eq, Structural)]
pub enum EstimatedFundingRateStatus {
    Ready,
    SettlementPending,
    Unavailable,
}

/// An estimated funding rate.
#[derive(Debug, Clone)]
pub struct GetEstimatedFundingRateResponse {
    pub symbol: String,
    pub status: EstimatedFundingRateStatus,
    pub reason: Option<String>,
    pub funding_rate: Option<Decimal>,
    pub funding_amount: Option<Decimal>,
    pub benchmark_price: Option<Decimal>,
    pub settlement_price: Option<Decimal>,
    pub timestamp: UtcTime,
}

/// Asks for the funding slots of a symbol on a date.
#[derive(Debug, Clone)]
pub struct GetFundingSlotsRequest {
    pub symbol: String,
    pub date: Option<CivilDate>,
}

/// How a funding rate is computed.
#[derive(Debug, Clone, Copy, PartialEq, Eq, Structural)]
pub enum FundingVariant {
    DailyClose,
    IntradayTwap,
}

/// The state of a funding slot.
#[derive(Debug, Clone, Copy, PartialEq, Eq, Structural)]
pub enum FundingSlotStatus {
    Realized,
    Projected,
    Skipped,
    Pending,
}

/// One funding interval of a day.
#[derive(Debug, Clone)]
pub struct FundingSlot {
    pub index: u32,
    pub funding_time: UtcTime,
    pub status: FundingSlotStatus,
    pub mark_twap: Option<Decimal>,
    pub underlying_twap: Option<Decimal>,
    pub premium_bps: Option<Decimal>,
    pub funding_rate_bps: Option<Decimal>,
    pub capped: bool,
    pub reason: Option<String>,
}

/// The funding slots of a symbol on a date.
#[derive(Debug, Clone)]
pub struct GetFundingSlotsResponse {
    pub symbol: String,
    pub date: CivilDate,
    pub timezone: String,
    pub variant: FundingVariant,
    pub interval_count: u32,
    pub cap_bps: Option<Decimal>,
    pub slots: Vec<FundingSlot>,
    pub realized_sum_bps: Decimal,
    pub projected_eod_bps: Decimal,
}

/// Asks for the equity history of an account.
#[derive(Debug, Clone)]
pub struct GetAccountEquityHistoryRequest {
    pub account_id: Option<String>,
    pub start_timestamp_ns: u64,
    pub end_timestamp_ns: u64,
    pub resolution_seconds: u32,
}

/// The equity of an account at an instant.
#[derive(Debug, Clone)]
pub struct AccountEquityPoint {
    pub timestamp_ns: u64,
    pub equity: Decimal,
}

/// An equity history.
#[derive(Debug, Clone)]
pub struct GetAccountEquityHistoryResponse {
    pub data_points: Vec<AccountEquityPoint>,
}

/// Book level asked for when none is given.
pub const DEFAULT_BOOK_LEVEL: u8 = 2;

/// Asks for the order book of a symbol.
#[derive(Debug, Clone)]
pub struct GetBookRequest {
    pub symbol: String,
    pub level: Option<u8>,
}

impl GetBookRequest {
    /// The book level asked for, `DEFAULT_BOOK_LEVEL` when none is given.
    pub fn resolved_level(&self) -> (r: u8)
        ensures
            r == match self.level {
                Some(l) => l,
                None => DEFAULT_BOOK_LEVEL,
            },
    {
        match self.level {
            Some(l) => l,
            None => DEFAULT_BOOK_LEVEL,
        }
    }
}

/// An order book.
#[derive(Debug, Clone)]
pub struct GetBookResponse {
    pub book: GetBookResponseBook,
}

/// The levels of an order book.
#[derive(Debug, Clone)]
pub struct GetBookResponseBook {
    pub symbol: String,
    pub bids: Vec<GetBookResponseBookLevel>,
    pub offers: Vec<GetBookResponseBookLevel>,
    pub timestamp: Timestamp,
}

/// A level of an order book.
#[derive(Debug, Clone)]
pub struct GetBookResponseBookLevel {
    pub price: Decimal,
    pub total_quantity: u64,
    pub orders: Option<Vec<u64>>,
}

/// Asks what an aggressive limit order of a size would do.
#[derive(Debug, Clone)]
pub struct PreviewAggressiveLimitOrderRequest {
    pub symbol: String,
    pub quantity: u64,
    pub side: Side,
}

/// What an aggressive limit order would do.
#[derive(Debug, Clone)]
pub struct PreviewAggressiveLimitOrderResponse {
    pub limit_price: Option<Decimal>,
    pub vwap: Option<Decimal>,
    pub filled_quantity: u64,
    pub remaining_quantity: u64,
}

/// Asks for the underlying (index) prices of a symbol.
#[derive(Debug, Clone)]
pub struct GetUnderlyingPricesRequest {
    pub symbol: String,
    pub timeseries: TimeseriesPagination,
}

/// A page of underlying prices.
#[derive(Debug, Clone)]
pub struct GetUnderlyingPricesResponse {
    pub underlying_prices: Vec<UnderlyingPrice>,
    pub page: CursorPage,
}

/// A page of index prices.
#[derive(Debug, Clone)]
pub struct GetIndexPricesResponse {
    pub index_prices: Vec<UnderlyingPrice>,
    pub page: CursorPage,
}

/// An underlying price at an instant.
#[derive(Debug, Clone)]
pub struct UnderlyingPrice {
    pub symbol: String,
    pub timestamp: UtcTime,
    pub price: Decimal,
}

} // verus!
