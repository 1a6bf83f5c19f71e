//! The decisions of the WebSocket and REST clients, apart from their I/O:
//! what to send, what an answer means, when to retry.
pub mod marketdata;
pub mod supervisor;
pub mod connection;
pub mod order_gateway;
pub mod endpoints;
pub mod auth;
pub mod urls;
