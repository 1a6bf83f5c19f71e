//! Records of the second version of the order gateway's REST API.
use vstd::prelude::*;
use crate::types::decimal::Decimal;
use crate::types::time::UtcTime;
use crate::types::trading::{OrderState, Side};

verus! {

/// Asks to insert an order for a user.
#[derive(Debug, Clone)]
pub struct InsertOrderRequest {
    pub username: String,
    pub symbol: String,
    pub side: Side,
    pub quantity: i32,
    pub price: Decimal,
    pub time_in_force: String,
    pub post_only: bool,
    pub tag: Option<String>,
}

/// The id given to an inserted order.
#[derive(Debug, Clone)]
pub struct InsertOrderResponse {
    pub order_id: String,
}

/// Asks to cancel an order of a user.
#[derive(Debug, Clone)]
pub struct CancelOrderRequest {
    pub username: String,
    pub order_id: String,
}

/// The id of the canceled order.
#[derive(Debug, Clone)]
pub struct CancelOrderResponse {
    pub order_id: String,
}

/// Asks for the open orders of a user, optionally of one symbol.
#[derive(Debug, Clone)]
pub struct GetOpenOrdersRequest {
    pub username: String,
    pub symbol: Option<String>,
}

/// Open orders.
#[derive(Debug, Clone)]
pub struct GetOpenOrdersResponse {
    pub orders: Vec<GetOpenOrdersResponseOrder>,
}

/// An open order.
#[derive(Debug, Clone)]
pub struct GetOpenOrdersResponseOrder {
    pub order_id: String,
    pub symbol: String,
    pub side: Side,
    pub quantity: i32,
    pub price: Decimal,
    pub filled_quantity: i32,
    pub remaining_quantity: i32,
    pub order_state: OrderState,
    pub time_in_force: String,
    pub timestamp: UtcTime,
    pub tag: Option<String>,
}

/// Asks to cancel every order of a user, optionally of one symbol.
#[derive(Debug, Clone)]
pub struct CancelAllRequest {
    pub username: String,
    pub symbol: Option<String>,
}

/// The ids of the canceled orders.
#[derive(Debug, Clone)]
pub struct CancelAllResponse {
    pub canceled_orders: Vec<String>,
}

} // verus!
