//! Wire types of the exchange's REST and WebSocket protocols.
pub mod sequence;
pub mod pagination;
pub mod ws;
pub mod marketdata_publisher;
pub mod common;
pub mod api_gateway;
pub mod order_gateway;
pub mod auth_gateway;
pub mod order_gateway_v2;
pub mod symbology;
pub mod websocket;
pub mod marketdata;
