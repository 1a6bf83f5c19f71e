//! Records of the exchange's earlier REST API: orders, cancellations,
//! accounts, API keys, users, history and settlement configuration.
use vstd::prelude::*;
use crate::types::decimal::Decimal;
use crate::types::time::UtcTime;

verus! {

/// The id given to an inserted order.
#[derive(Debug, Clone)]
pub struct InsertOrderResponse {
    pub order_id: String,
}

/// Asks to cancel an order of a user.
#[derive(Debug, Clone)]
pub struct CancelOrderRequest {
    pub username: String,
    pub order_id: String,
}

/// The answer to a cancellation: an error text when it failed.
#[derive(Debug, Clone)]
pub struct CancelOrderResponse {
    pub error: Option<String>,
}

/// Asks for the open orders of a user.
#[derive(Debug, Clone)]
pub struct GetOpenOrdersRequest {
    pub username: String,
}

/// Open orders.
#[derive(Debug, Clone)]
pub struct GetOpenOrdersResponse {
    pub orders: Vec<RestOrderMessage>,
}

/// Asks to cancel every order of a user.
#[derive(Debug, Clone)]
pub struct CancelAllRequest {
    pub username: String,
}

/// The orders a cancel-all did and did not cancel.
#[derive(Debug, Clone)]
pub struct CancelAllResponse {
    pub successful_cancellations: Vec<String>,
    pub failed_cancellations: Vec<String>,
}

/// An order record.
#[derive(Debug, Clone)]
pub struct RestOrderMessage {
    pub order_id: String,
    pub username: String,
    pub symbol: String,
    pub price: String,
    pub quantity: i64,
    pub executed_quantity: i64,
    /// The same as `executed_quantity`.
    pub traded_quantity: i64,
    pub average_executed_price: Option<String>,
    pub remaining_quantity: i64,
    pub state: String,
    pub side: String,
    pub time_in_force: String,
    pub insert_time: String,
    pub insert_epoch_seconds: i64,
    pub insert_epoch_nanos: i32,
}

/// Limit/offset paging of the earlier API.
#[derive(Debug, Clone, Copy, PartialEq, Eq, Structural)]
pub struct PaginationParams {
    pub limit: Option<u32>,
    pub offset: Option<u32>,
}

/// Data with optional page metadata.
#[derive(Debug, Clone)]
pub struct ApiResponse<T> {
    pub data: T,
    pub metadata: Option<ResponseMetadata>,
}

/// Page metadata.
#[derive(Debug, Clone, Copy, PartialEq, Eq, Structural)]
pub struct ResponseMetadata {
    pub total: Option<u64>,
    pub limit: Option<u32>,
    pub offset: Option<u32>,
}

/// The standing of a user.
#[derive(Debug, Clone)]
pub struct UserStatus {
    pub user_id: i32,
    pub username: String,
    pub is_onboarded: bool,
    pub risk_score: String,
    pub compliance_risk_approved: bool,
    pub is_frozen: bool,
    pub is_close_only: bool,
}

/// Asks to liquidate a user.
#[derive(Debug, Clone)]
pub struct LiquidateRequest {
    pub username: String,
}

/// What a liquidation did and did not achieve.
#[derive(Debug, Clone)]
pub struct LiquidateResponse {
    pub successful_cancellations: Vec<String>,
    pub failed_cancellations: Vec<String>,
    pub successful_liquidations: Vec<String>,
    pub failed_liquidations: Vec<String>,
}

/// Asks for an API key with a user's credentials.
#[derive(Debug, Clone)]
pub struct CreateApiKeyRequest {
    pub username: String,
    pub password: String,
}

/// A new API key and its secret.
#[derive(Debug, Clone)]
pub struct ApiKeyResponse {
    pub api_key: String,
    pub secret: String,
}

/// Asks to revoke an API key.
#[derive(Debug, Clone)]
pub struct RevokeApiKeyRequest {
    pub api_key: String,
}

/// Asks for the API keys of a user.
#[derive(Debug, Clone)]
pub struct GetApiKeysRequest {
    pub username: String,
}

/// The API keys of a user.
#[derive(Debug, Clone)]
pub struct GetApiKeysResponse {
    pub api_keys: Vec<String>,
}

/// The answer to a revocation.
#[derive(Debug, Clone)]
pub struct RevokeApiKeyResponse {
    pub message: String,
}

/// Asks to create a user.
#[derive(Debug, Clone)]
pub struct CreateUserRequest {
    pub username: String,
    pub password: String,
    pub email: Option<String>,
    /// Extra attributes as name/value pairs.
    pub metadata: Option<Vec<(String, String)>>,
}

/// The answer to a user creation.
#[derive(Debug, Clone)]
pub struct CreateUserResponse {
    pub message: String,
}

/// An order of the history.
#[derive(Debug, Clone)]
pub struct HistoricalOrder {
    pub order_id: String,
    pub username: String,
    pub symbol: String,
    pub price: String,
    pub quantity: i32,
    pub executed_quantity: i32,
    pub average_executed_price: Option<String>,
    pub remaining_quantity: i32,
    pub state: String,
    pub side: String,
    pub time_in_force: String,
    pub insert_epoch_seconds: i64,
    pub insert_epoch_nanos: i32,
}

/// A page of the order history.
#[derive(Debug, Clone)]
pub struct HistoryResponse {
    pub orders: Vec<HistoricalOrder>,
    pub total: u64,
    pub limit: usize,
    pub offset: usize,
}

/// How settlements are run.
#[derive(Debug, Clone)]
pub struct SettlementConfig {
    /// For example `daily` or `weekly`.
    pub settlement_frequency: String,
    /// For example `16:00:00`.
    pub settlement_time: String,
    pub enabled_symbols: Vec<String>,
    /// Risk parameters as name/value pairs.
    pub risk_parameters: Vec<(String, String)>,
}

/// A time range; either bound may be open.
#[derive(Debug, Clone, Copy)]
pub struct DateRangeParams {
    pub start_time: Option<UtcTime>,
    pub end_time: Option<UtcTime>,
}

/// Paging, time range and filters of a history query.
#[derive(Debug, Clone)]
pub struct HistoryParams {
    pub pagination: Option<PaginationParams>,
    pub date_range: Option<DateRangeParams>,
    /// Filters as name/value pairs.
    pub filters: Option<Vec<(String, String)>>,
}

/// Asks to deposit an amount of an asset for a user.
#[derive(Debug, Clone)]
pub struct DepositRequest {
    pub username: String,
    pub symbol: String,
    pub amount: Decimal,
}

/// The state of a deposit.
#[derive(Debug, Clone)]
pub struct DepositResponse {
    pub deposit_id: String,
    pub status: String,
    pub expected_confirmation_time: Option<UtcTime>,
}

/// Asks to withdraw an amount of an asset for a user.
#[derive(Debug, Clone)]
pub struct WithdrawRequest {
    pub username: String,
    pub symbol: String,
    pub amount: Decimal,
}

/// The state of a withdrawal.
#[derive(Debug, Clone)]
pub struct WithdrawResponse {
    pub withdrawal_id: String,
    pub status: String,
    pub expected_confirmation_time: Option<UtcTime>,
}

/// Totals of the exchange for its administrators.
#[derive(Debug, Clone)]
pub struct AdminResponse {
    pub deposits: Decimal,
    pub withdrawals: Decimal,
    pub commissions: Decimal,
    pub trading_volume: Decimal,
    pub deposits_count: i32,
    pub withdrawals_count: i32,
    pub users: Vec<String>,
    pub open_interest: Decimal,
}

/// The traded volume of a user over a period.
#[derive(Debug, Clone)]
pub struct TradingVolumeStats {
    pub username: String,
    pub total_volume: Decimal,
    /// Volume per symbol, as symbol/volume pairs.
    pub volume_by_symbol: Vec<(String, Decimal)>,
    pub period_start: UtcTime,
    pub period_end: UtcTime,
}

/// Deposit totals.
#[derive(Debug, Clone)]
pub struct DepositStats {
    pub total_deposits: Decimal,
    pub deposits_count: Decimal,
}

/// Withdrawal totals.
#[derive(Debug, Clone)]
pub struct WithdrawalStats {
    pub total_withdrawals: Decimal,
    pub withdrawals_count: Decimal,
}

/// Exchange statistics over a period.
#[derive(Debug, Clone)]
pub struct AdminStats {
    pub total_users: u64,
    pub active_users: u64,
    pub total_volume: Decimal,
    pub total_deposits: Decimal,
    pub total_withdrawals: Decimal,
    pub period_start: UtcTime,
    pub period_end: UtcTime,
}

/// Whether a token is valid, for whom, and until when.
#[derive(Debug, Clone)]
pub struct TokenValidation {
    pub valid: bool,
    pub username: Option<String>,
    pub expires_at: Option<UtcTime>,
}

/// The risk of a user's account at an instant.
#[derive(Debug, Clone)]
pub struct RiskSnapshot {
    pub username: String,
    pub timestamp: UtcTime,
    pub total_exposure: Decimal,
    pub margin_requirement: Decimal,
    pub available_margin: Decimal,
    pub positions: Vec<RiskPosition>,
    pub risk_metrics: RiskMetrics,
}

/// The risk of an account as the risk service reports it.
#[derive(Debug, Clone)]
pub struct PythonRiskSnapshot {
    /// The service sends the timestamp as text.
    pub timestamp: String,
    pub username: String,
    pub positions: Vec<PythonRiskPosition>,
    pub cash_balance: Decimal,
    pub total_realized_pnl: Decimal,
    pub total_unrealized_pnl: Decimal,
    pub total_initial_margin: Decimal,
    pub total_maintenance_margin: Decimal,
    pub total_equity: Decimal,
    pub available_initial_margin: Decimal,
    pub available_maintenance_margin: Decimal,
}

/// The risk of one position.
#[derive(Debug, Clone)]
pub struct RiskPosition {
    pub symbol: String,
    pub position: i64,
    pub notional_value: Decimal,
    pub margin_requirement: Decimal,
    pub unrealized_pnl: Decimal,
}

/// One position as the risk service reports it.
#[derive(Debug, Clone)]
pub struct PythonRiskPosition {
    pub symbol: String,
    pub net_quantity: Decimal,
    pub buy_quantity: Decimal,
    pub sell_quantity: Decimal,
    pub buy_notional: Decimal,
    pub sell_notional: Decimal,
    pub buy_vwap: Decimal,
    pub sell_vwap: Decimal,
    pub realized_pnl: Decimal,
    pub unrealized_pnl: Decimal,
    pub initial_margin: Decimal,
    pub maintenance_margin: Decimal,
    pub mark_price: Decimal,
}

/// Summary risk figures of an account.
#[derive(Debug, Clone, Copy)]
pub struct RiskMetrics {
    pub var_95: Decimal,
    pub leverage: Decimal,
    pub margin_ratio: Decimal,
    pub risk_score: Decimal,
}

/// A stress scenario: a price shock per symbol (in percent) and an optional
/// volatility multiplier.
#[derive(Debug, Clone)]
pub struct StressTestScenario {
    pub name: String,
    /// Shocks as symbol/percentage pairs.
    pub price_shocks: Vec<(String, Decimal)>,
    pub volatility_multiplier: Option<Decimal>,
}

/// A position the risk service would liquidate.
#[derive(Debug, Clone)]
pub struct Liquidation {
    pub symbol: String,
    pub quantity: Decimal,
    pub price: Decimal,
}

/// The liquidations of a user and their effect on the initial margin.
#[derive(Debug, Clone)]
pub struct LiquidationSummary {
    pub username: String,
    pub liquidations: Vec<Liquidation>,
    pub total_initial_margin_pre_liquidations: Decimal,
    pub total_initial_margin_post_liquidations: Decimal,
}

/// The outcome of a stress test.
#[derive(Debug, Clone)]
pub struct StressTestResult {
    pub risk_snapshot: PythonRiskSnapshot,
    pub liquidation_summary: LiquidationSummary,
}

/// Filters of an order-history query.
#[derive(Debug, Clone)]
pub struct OrderHistoryFilters {
    pub symbol: Option<String>,
    pub side: Option<String>,
    pub status: Option<String>,
    pub order_type: Option<String>,
    pub date_range: Option<DateRangeParams>,
    pub pagination: Option<PaginationParams>,
}

/// The state of the settlement service.
#[derive(Debug, Clone)]
pub struct SettlementStatus {
    pub status: String,
    pub last_settlement: Option<UtcTime>,
    pub next_settlement: Option<UtcTime>,
    pub active_sessions: u32,
}

/// A settlement that was run.
#[derive(Debug, Clone)]
pub struct SettlementRecord {
    pub settlement_id: String,
    pub session_id: String,
    pub timestamp: UtcTime,
    pub status: String,
    pub total_trades: u64,
    /// Settlement prices as symbol/price pairs.
    pub settlement_price: Vec<(String, Decimal)>,
}

/// The range and size of a candle query.
#[derive(Debug, Clone, Copy)]
pub struct CandleParams {
    pub start_time: Option<UtcTime>,
    pub end_time: Option<UtcTime>,
    pub limit: Option<u32>,
}

} // verus!
