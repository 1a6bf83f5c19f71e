//! Type definitions of the SDK.
pub mod auth;
pub mod days_of_week;
pub mod environment;
pub mod decimal;
pub mod ep3;
pub mod funding_rate_schedule;
pub mod order_id;
pub mod orderbook;
pub mod rest;
pub mod time;
pub mod trading;
pub mod ws;
