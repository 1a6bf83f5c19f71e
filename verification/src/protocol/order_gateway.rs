//! Requests, responses and events of the order gateway, and the conversions
//! between its order records and the SDK's orders.
use vstd::prelude::*;
use vstd::std_specs::convert::{FromSpecImpl, TryFromSpecImpl};
use crate::protocol::api_gateway::{GetEstimatedFundingRateRequest, GetEstimatedFundingRateResponse};
use crate::protocol::common::{Fill, Timestamp, current_instant, instant_of, timestamp_of};
use crate::protocol::pagination::{CursorPage, SortDirection, LimitOffsetPagination, TimeseriesPagination};
use crate::protocol::ws;
use crate::types::decimal::Decimal;
use crate::types::order_id::{ClientOrderId, OrderId};
use crate::types::trading::{
    Order, OrderRejectReason, OrderState, PlaceOrder, SelfTradeBehavior, Side, TimeInForce,
};

verus! {

/// Query parameters of the order-gateway WebSocket.
#[derive(Debug, Clone)]
pub struct WsQueryParams {
    pub cancel_on_disconnect: bool,
    pub client_heartbeat_timeout: Option<u32>,
    pub account_id: Option<String>,
}

/// A request to the order gateway.
#[derive(Debug, Clone)]
pub enum OrderGatewayRequest {
    CancelAllOrders(CancelAllOrdersRequest),
    CancelOrder(CancelOrderRequest),
    GetOrderStatus(GetOrderStatusRequest),
    GetOpenOrders(GetOpenOrdersRequest),
    GetEstimatedFundingRate(GetEstimatedFundingRateRequest),
    PlaceOrder(PlaceOrderRequest),
    ReplaceOrder(ReplaceOrderRequest),
    Heartbeat,
}

impl OrderGatewayRequest {
    /// The kind of request, by which its answer is read; `None` for a
    /// heartbeat, which gets none.
    pub fn request_type(&self) -> (r: Option<OrderGatewayRequestType>)
        ensures
            r == request_type_of(*self),
    {
        match self {
            OrderGatewayRequest::CancelAllOrders(_) => Some(OrderGatewayRequestType::CancelAllOrders),
            OrderGatewayRequest::CancelOrder(_) => Some(OrderGatewayRequestType::CancelOrder),
            OrderGatewayRequest::GetOrderStatus(_) => Some(OrderGatewayRequestType::GetOrderStatus),
            OrderGatewayRequest::GetOpenOrders(_) => Some(OrderGatewayRequestType::GetOpenOrders),
            OrderGatewayRequest::GetEstimatedFundingRate(_) => Some(OrderGatewayRequestType::GetEstimatedFundingRate),
            OrderGatewayRequest::PlaceOrder(_) => Some(OrderGatewayRequestType::PlaceOrder),
            OrderGatewayRequest::ReplaceOrder(_) => Some(OrderGatewayRequestType::ReplaceOrder),
            OrderGatewayRequest::Heartbeat => None,
        }
    }
}

/// The kind of a request.
pub open spec fn request_type_of(r: OrderGatewayRequest) -> Option<OrderGatewayRequestType> {
    match r {
        OrderGatewayRequest::CancelAllOrders(_) => Some(OrderGatewayRequestType::CancelAllOrders),
        OrderGatewayRequest::CancelOrder(_) => Some(OrderGatewayRequestType::CancelOrder),
        OrderGatewayRequest::GetOrderStatus(_) => Some(OrderGatewayRequestType::GetOrderStatus),
        OrderGatewayRequest::GetOpenOrders(_) => Some(OrderGatewayRequestType::GetOpenOrders),
        OrderGatewayRequest::GetEstimatedFundingRate(_) => Some(OrderGatewayRequestType::GetEstimatedFundingRate),
        OrderGatewayRequest::PlaceOrder(_) => Some(OrderGatewayRequestType::PlaceOrder),
        OrderGatewayRequest::ReplaceOrder(_) => Some(OrderGatewayRequestType::ReplaceOrder),
        OrderGatewayRequest::Heartbeat => None,
    }
}

/// A request of the administrators' firehose.
#[derive(Debug, Clone)]
pub enum AdminFirehoseRequest {
    Subscribe(AdminSubscribeRequest),
}

/// The kind of an order-gateway request, by which its answer is read.
#[derive(Debug, Clone, Copy, PartialEq, Eq, Structural)]
pub enum OrderGatewayRequestType {
    CancelAllOrders,
    CancelOrder,
    GetOrderStatus,
    GetOpenOrders,
    GetEstimatedFundingRate,
    PlaceOrder,
    ReplaceOrder,
}

/// An answer of the order gateway.
#[derive(Debug, Clone)]
pub enum OrderGatewayResponse {
    CancelAllOrdersResponse(CancelAllOrdersResponse),
    CancelOrderResponse(CancelOrderResponse),
    GetOrderStatusResponse(GetOrderStatusResponse),
    GetOpenOrdersResponse(GetOpenOrdersResponse),
    GetEstimatedFundingRateResponse(GetEstimatedFundingRateResponse),
    LoginResponse(LoginResponse),
    PlaceOrderResponse(PlaceOrderResponse),
    ReplaceOrderResponse(ReplaceOrderResponse),
}

/// An answer of the administrators' firehose.
#[derive(Debug, Clone)]
pub enum AdminFirehoseResponse {
    AdminLoginResponse(AdminLoginResponse),
    AdminSubscribeResponse(AdminSubscribeResponse),
}

/// What the order-gateway connection delivers: an event, or the answer to a
/// request.
#[derive(Debug)]
pub enum OrderGatewayMessage {
    Event(OrderGatewayEvent),
    Response(ws::Response<OrderGatewayResponse>),
}

/// Why an order record could not be read as an order.
#[derive(Debug, Clone, Copy, PartialEq, Eq, Structural)]
pub enum ConversionError {
    /// Its timestamp's fraction is out of range.
    InvalidTimestamp,
}

impl ConversionError {
    /// The human-readable text of the error.
    pub fn message(&self) -> (r: &'static str)
        ensures
            r@ == "invalid timestamp"@,
    {
        "invalid timestamp"
    }
}

/// The answer to the login of a session.
#[derive(Debug, Clone)]
pub struct LoginResponse {
    pub logged_in: String,
    pub open_orders: Option<Vec<OrderDetails>>,
    pub cancel_on_disconnect: bool,
    pub client_heartbeat_timeout: Option<u32>,
}

/// Whether every order record has a valid timestamp.
pub open spec fn all_timestamps_valid(ds: Seq<OrderDetails>) -> bool {
    forall|i: int| 0 <= i < ds.len() ==> (#[trigger] instant_of(ds[i].timestamp)) is Some
}

impl LoginResponse {
    /// The open orders of the session, read as orders; the first record with
    /// an invalid timestamp makes it fail.
    pub fn into_open_orders(self) -> (r: Result<Vec<Order>, ConversionError>)
        ensures
            match self.open_orders {
                None => r matches Ok(v) && v@.len() == 0,
                Some(ds) => {
                    &&& all_timestamps_valid(ds@) ==> (r matches Ok(v) && v@.len() == ds@.len() && forall|i: int|
                        0 <= i < ds@.len() ==> Ok::<Order, ConversionError>(#[trigger] v@[i]) == order_of_details(ds@[i]))
                    &&& !all_timestamps_valid(ds@) ==> r == Err::<Vec<Order>, ConversionError>(ConversionError::InvalidTimestamp)
                },
            },
    {
        let mut out: Vec<Order> = Vec::new();
        match self.open_orders {
            None => Ok(out),
            Some(orders) => {
                let ghost ds = orders@;
                for order in it: orders.into_iter()
                    invariant
                        it.seq() == ds,
                        self.open_orders matches Some(v) && v@ == ds,
                        out@.len() == it.index(),
                        forall|i: int| 0 <= i < it.index() ==> (#[trigger] instant_of(ds[i].timestamp)) is Some,
                        forall|i: int| 0 <= i < it.index() ==> Ok::<Order, ConversionError>(#[trigger] out@[i])
                            == order_of_details(ds[i]),
                {
                    match Order::try_from(order) {
                        Ok(o) => out.push(o),
                        Err(e) => {
                            return Err(e);
                        },
                    }
                }
                Ok(out)
            },
        }
    }
}

/// The answer to the login of an administrators' session.
#[derive(Debug, Clone)]
pub struct AdminLoginResponse {
    pub logged_in: String,
}

/// An order as the gateway takes it.
#[derive(Debug, Clone)]
pub struct PlaceOrderRequest {
    pub symbol: String,
    pub side: Side,
    pub quantity: u64,
    pub price: Decimal,
    pub time_in_force: TimeInForce,
    pub post_only: bool,
    pub tag: Option<String>,
    pub clord_id: Option<ClientOrderId>,
    pub self_trade_prevention: SelfTradeBehavior,
    pub account_id: Option<String>,
}

impl PlaceOrderRequest {
    /// The order this request makes once the gateway has given it `order_id`:
    /// pending, nothing filled, booked to the request's account or else to
    /// the user's own, stamped with the current time.
    pub fn into_pending_order(self, order_id: OrderId, user_id: String) -> (r: Order)
        ensures
            r.order_id == order_id,
            r.user_id == user_id,
            r.account_id@ == match self.account_id {
                Some(a) => a@,
                None => user_id@,
            },
            r.symbol == self.symbol,
            r.side == self.side,
            r.quantity == self.quantity,
            r.price == self.price,
            r.time_in_force == self.time_in_force,
            r.tag == self.tag,
            r.clord_id == self.clord_id,
            r.post_only == self.post_only,
            r.timestamp.nanos < 1_000_000_000,
            r.order_state == OrderState::Pending,
            r.filled_quantity == 0,
            r.remaining_quantity == self.quantity,
            r.completion_time is None,
            r.reject_reason is None,
            r.reject_message is None,
    {
        let account_id = match self.account_id {
            Some(a) => a,
            None => user_id.clone(),
        };
        Order {
            order_id,
            user_id,
            account_id,
            symbol: self.symbol,
            side: self.side,
            quantity: self.quantity,
            price: self.price,
            time_in_force: self.time_in_force,
            tag: self.tag,
            clord_id: self.clord_id,
            post_only: self.post_only,
            timestamp: current_instant(),
            order_state: OrderState::Pending,
            filled_quantity: 0,
            remaining_quantity: self.quantity,
            completion_time: None,
            reject_reason: None,
            reject_message: None,
        }
    }
}

impl From<PlaceOrder> for PlaceOrderRequest {
    fn from(value: PlaceOrder) -> (r: PlaceOrderRequest) {
        PlaceOrderRequest {
            symbol: value.symbol,
            side: value.side,
            quantity: value.quantity,
            price: value.price,
            time_in_force: value.time_in_force,
            post_only: value.post_only,
            tag: value.tag,
            clord_id: value.clord_id,
            self_trade_prevention: value.self_trade_prevention,
            account_id: value.account_id,
        }
    }
}

impl FromSpecImpl<PlaceOrder> for PlaceOrderRequest {
    open spec fn obeys_from_spec() -> bool {
        true
    }

    open spec fn from_spec(value: PlaceOrder) -> PlaceOrderRequest {
        PlaceOrderRequest {
            symbol: value.symbol,
            side: value.side,
            quantity: value.quantity,
            price: value.price,
            time_in_force: value.time_in_force,
            post_only: value.post_only,
            tag: value.tag,
            clord_id: value.clord_id,
            self_trade_prevention: value.self_trade_prevention,
            account_id: value.account_id,
        }
    }
}

/// The id the gateway gave a placed order.
#[derive(Debug, Clone)]
pub struct PlaceOrderResponse {
    pub order_id: OrderId,
}

/// The initial margin an order would need.
#[derive(Debug, Clone)]
pub struct InitialMarginRequirementResponse {
    pub initial_margin_percentage: Decimal,
    pub initial_margin_requirement: Decimal,
    pub signed_position: i64,
    pub contract_multiplier: Decimal,
}

/// What placing an order would do to an account.
#[derive(Debug, Clone)]
pub struct PreviewOrderResponse {
    pub initial_margin_pct_required: Decimal,
    pub initial_margin_required: Decimal,
    pub signed_position_before: i64,
    pub signed_position_after: i64,
    pub estimated_liquidation_price: Option<Decimal>,
}

/// Asks to cancel an order.
#[derive(Debug, Clone)]
pub struct CancelOrderRequest {
    pub order: OrderReference,
    pub account_id: Option<String>,
}

/// Whether a cancel request was accepted.
#[derive(Debug, Clone)]
pub struct CancelOrderResponse {
    pub cancel_request_accepted: bool,
}

/// Asks to replace or amend an order.
#[derive(Debug, Clone)]
pub struct ReplaceOrderRequest {
    pub order: OrderReference,
    pub price: Option<Decimal>,
    pub quantity: Option<u64>,
    pub time_in_force: Option<TimeInForce>,
    pub post_only: Option<bool>,
    pub account_id: Option<String>,
}

/// The id of the replacing order.
#[derive(Debug, Clone)]
pub struct ReplaceOrderResponse {
    pub order_id: OrderId,
}

/// Asks to cancel every open order, optionally of one symbol.
#[derive(Debug, Clone)]
pub struct CancelAllOrdersRequest {
    pub symbol: Option<String>,
    pub account_id: Option<String>,
}

/// The answer to a cancel-all request.
#[derive(Debug, Clone)]
pub struct CancelAllOrdersResponse {}

/// Asks for the open orders of an account.
#[derive(Debug, Clone)]
pub struct GetOpenOrdersRequest {
    pub pagination: LimitOffsetPagination,
    pub sort_ts: Option<SortDirection>,
    pub account_id: Option<String>,
}

/// Open orders.
#[derive(Debug, Clone)]
pub struct GetOpenOrdersResponse {
    pub orders: Vec<OrderDetails>,
}

/// What the administrators' firehose should send.
#[derive(Debug, Clone, Copy, PartialEq, Eq, Structural)]
pub struct AdminSubscribeRequest {
    pub fills: bool,
    pub orders: bool,
    pub rejects: bool,
}

/// The answer to a firehose subscription.
#[derive(Debug, Clone)]
pub struct AdminSubscribeResponse {
    pub message: String,
}

/// An event of the order gateway.
#[derive(Debug, Clone)]
pub enum OrderGatewayEvent {
    Heartbeat(Timestamp),
    CancelRejected(CancelRejected),
    OrderAcked(OrderAcked),
    OrderCanceled(OrderCanceled),
    OrderReplacedOrAmended(OrderReplacedOrAmended),
    OrderRejected(OrderRejected),
    OrderExpired(OrderExpired),
    OrderDoneForDay(OrderDoneForDay),
    OrderPartiallyFilled(OrderPartiallyFilled),
    OrderFilled(OrderFilled),
}

/// The order an event is about (the replaced one for a replacement), if any.
pub open spec fn event_order_id(e: OrderGatewayEvent) -> Option<OrderId> {
    match e {
        OrderGatewayEvent::Heartbeat(..) => None,
        OrderGatewayEvent::CancelRejected(rej) => Some(rej.order_id),
        OrderGatewayEvent::OrderAcked(ack) => Some(ack.order.order_id),
        OrderGatewayEvent::OrderCanceled(ccl) => Some(ccl.order.order_id),
        OrderGatewayEvent::OrderReplacedOrAmended(roa) => Some(roa.replaced_order.order_id),
        OrderGatewayEvent::OrderRejected(rej) => Some(rej.order.order_id),
        OrderGatewayEvent::OrderExpired(exp) => Some(exp.order.order_id),
        OrderGatewayEvent::OrderDoneForDay(done) => Some(done.order.order_id),
        OrderGatewayEvent::OrderPartiallyFilled(fill) => Some(fill.order.order_id),
        OrderGatewayEvent::OrderFilled(fill) => Some(fill.order.order_id),
    }
}

/// The symbol an event is about, if it says.
pub open spec fn event_symbol(e: OrderGatewayEvent) -> Option<Seq<char>> {
    match e {
        OrderGatewayEvent::Heartbeat(..) => None,
        OrderGatewayEvent::CancelRejected(rej) => match rej.order {
            Some(o) => Some(o.symbol@),
            None => None,
        },
        OrderGatewayEvent::OrderAcked(ack) => Some(ack.order.symbol@),
        OrderGatewayEvent::OrderCanceled(ccl) => Some(ccl.order.symbol@),
        OrderGatewayEvent::OrderReplacedOrAmended(roa) => Some(roa.replaced_order.symbol@),
        OrderGatewayEvent::OrderRejected(rej) => Some(rej.order.symbol@),
        OrderGatewayEvent::OrderExpired(exp) => Some(exp.order.symbol@),
        OrderGatewayEvent::OrderDoneForDay(done) => Some(done.order.symbol@),
        OrderGatewayEvent::OrderPartiallyFilled(fill) => Some(fill.order.symbol@),
        OrderGatewayEvent::OrderFilled(fill) => Some(fill.order.symbol@),
    }
}

impl OrderGatewayEvent {
    /// The order the event is about (the replaced one for a replacement);
    /// `None` for a heartbeat.
    pub fn order_id(&self) -> (r: Option<&OrderId>)
        ensures
            match event_order_id(*self) {
                Some(id) => r matches Some(x) && *x == id,
                None => r is None,
            },
    {
        match self {
            OrderGatewayEvent::Heartbeat(..) => None,
            OrderGatewayEvent::CancelRejected(rej) => Some(&rej.order_id),
            OrderGatewayEvent::OrderAcked(ack) => Some(&ack.order.order_id),
            OrderGatewayEvent::OrderCanceled(ccl) => Some(&ccl.order.order_id),
            OrderGatewayEvent::OrderReplacedOrAmended(roa) => Some(&roa.replaced_order.order_id),
            OrderGatewayEvent::OrderRejected(rej) => Some(&rej.order.order_id),
            OrderGatewayEvent::OrderExpired(exp) => Some(&exp.order.order_id),
            OrderGatewayEvent::OrderDoneForDay(done) => Some(&done.order.order_id),
            OrderGatewayEvent::OrderPartiallyFilled(fill) => Some(&fill.order.order_id),
            OrderGatewayEvent::OrderFilled(fill) => Some(&fill.order.order_id),
        }
    }

    /// The symbol the event is about; `None` for a heartbeat and for a
    /// cancel rejection that carries no order.
    pub fn symbol(&self) -> (r: Option<&str>)
        ensures
            match event_symbol(*self) {
                Some(s) => r matches Some(x) && x@ == s,
                None => r is None,
            },
    {
        match self {
            OrderGatewayEvent::Heartbeat(..) => None,
            OrderGatewayEvent::CancelRejected(rej) => match &rej.order {
                Some(o) => Some(o.symbol.as_str()),
                None => None,
            },
            OrderGatewayEvent::OrderAcked(ack) => Some(ack.order.symbol.as_str()),
            OrderGatewayEvent::OrderCanceled(ccl) => Some(ccl.order.symbol.as_str()),
            OrderGatewayEvent::OrderReplacedOrAmended(roa) => Some(roa.replaced_order.symbol.as_str()),
            OrderGatewayEvent::OrderRejected(rej) => Some(rej.order.symbol.as_str()),
            OrderGatewayEvent::OrderExpired(exp) => Some(exp.order.symbol.as_str()),
            OrderGatewayEvent::OrderDoneForDay(done) => Some(done.order.symbol.as_str()),
            OrderGatewayEvent::OrderPartiallyFilled(fill) => Some(fill.order.symbol.as_str()),
            OrderGatewayEvent::OrderFilled(fill) => Some(fill.order.symbol.as_str()),
        }
    }
}

/// A cancel request was refused.
#[derive(Debug, Clone)]
pub struct CancelRejected {
    pub timestamp: Timestamp,
    pub order_id: OrderId,
    pub clord_id: Option<ClientOrderId>,
    pub reject_reason: String,
    pub reject_message: String,
    pub order: Option<OrderDetails>,
}

/// An order was accepted.
#[derive(Debug, Clone)]
pub struct OrderAcked {
    pub timestamp: Timestamp,
    pub execution_id: String,
    pub order: OrderDetails,
}

/// An order was canceled.
#[derive(Debug, Clone)]
pub struct OrderCanceled {
    pub timestamp: Timestamp,
    pub execution_id: String,
    pub order: OrderDetails,
    pub cancel_reason: String,
    pub cancel_message: String,
}

/// An order was replaced or amended.
#[derive(Debug, Clone)]
pub struct OrderReplacedOrAmended {
    pub timestamp: Timestamp,
    pub execution_id: String,
    pub replaced_order: OrderDetails,
    pub replacement_order_id: Option<OrderId>,
    pub replacement_order: Option<OrderDetails>,
}

/// An order was rejected.
#[derive(Debug, Clone)]
pub struct OrderRejected {
    pub timestamp: Timestamp,
    pub execution_id: String,
    pub order: OrderDetails,
    pub reject_reason: Option<OrderRejectReason>,
    pub reject_message: Option<String>,
}

/// An order expired.
#[derive(Debug, Clone)]
pub struct OrderExpired {
    pub timestamp: Timestamp,
    pub execution_id: String,
    pub order: OrderDetails,
}

/// An order is done for the day.
#[derive(Debug, Clone)]
pub struct OrderDoneForDay {
    pub timestamp: Timestamp,
    pub execution_id: String,
    pub order: OrderDetails,
}

/// Part of an order was filled.
#[derive(Debug, Clone)]
pub struct OrderPartiallyFilled {
    pub timestamp: Timestamp,
    pub execution_id: String,
    pub order: OrderDetails,
    pub fill: FillDetails,
}

/// An order was filled.
#[derive(Debug, Clone)]
pub struct OrderFilled {
    pub timestamp: Timestamp,
    pub execution_id: String,
    pub order: OrderDetails,
    pub fill: FillDetails,
}

/// An order record on the wire.
#[derive(Debug, Clone)]
pub struct OrderDetails {
    pub order_id: OrderId,
    pub user_id: String,
    pub account_id: String,
    pub symbol: String,
    pub price: Decimal,
    pub quantity: u64,
    pub filled_quantity: u64,
    pub remaining_quantity: u64,
    pub order_state: OrderState,
    pub side: Side,
    pub time_in_force: TimeInForce,
    pub clord_id: Option<ClientOrderId>,
    pub tag: Option<String>,
    pub post_only: bool,
    pub reject_reason: Option<OrderRejectReason>,
    pub reject_message: Option<String>,
    pub timestamp: Timestamp,
}

/// The order a wire record reads as: that of its fields, stamped with its
/// timestamp's instant, or an error when that is invalid.
pub open spec fn order_of_details(value: OrderDetails) -> Result<Order, ConversionError> {
        match instant_of(value.timestamp) {
            Some(timestamp) => Ok(
                Order {
                    order_id: value.order_id,
                    user_id: value.user_id,
                    account_id: value.account_id,
                    symbol: value.symbol,
                    price: value.price,
                    quantity: value.quantity,
                    filled_quantity: value.filled_quantity,
                    remaining_quantity: value.remaining_quantity,
                    order_state: value.order_state,
                    side: value.side,
                    time_in_force: value.time_in_force,
                    tag: value.tag,
                    clord_id: value.clord_id,
                    post_only: value.post_only,
                    timestamp,
                    completion_time: None,
                    reject_reason: value.reject_reason,
                    reject_message: value.reject_message,
                },
            ),
            None => Err(ConversionError::InvalidTimestamp),
        }
    }

impl TryFrom<OrderDetails> for Order {
    type Error = ConversionError;

    fn try_from(value: OrderDetails) -> (r: Result<Order, ConversionError>) {
        let timestamp = match value.timestamp.as_datetime() {
            Some(t) => t,
            None => {
                return Err(ConversionError::InvalidTimestamp);
            },
        };
        Ok(Order {
            order_id: value.order_id,
            user_id: value.user_id,
            account_id: value.account_id,
            symbol: value.symbol,
            price: value.price,
            quantity: value.quantity,
            filled_quantity: value.filled_quantity,
            remaining_quantity: value.remaining_quantity,
            order_state: value.order_state,
            side: value.side,
            time_in_force: value.time_in_force,
            tag: value.tag,
            clord_id: value.clord_id,
            post_only: value.post_only,
            timestamp,
            completion_time: None,
            reject_reason: value.reject_reason,
            reject_message: value.reject_message,
        })
    }
}

impl TryFromSpecImpl<OrderDetails> for Order {
    open spec fn obeys_try_from_spec() -> bool {
        true
    }

    open spec fn try_from_spec(value: OrderDetails) -> Result<Order, ConversionError> {
        order_of_details(value)
    }
}

/// The wire record of an order: its fields, with its timestamp's seconds
/// truncated to 32 bits.
pub open spec fn details_of_order(value: Order) -> OrderDetails {
        OrderDetails {
            order_id: value.order_id,
            user_id: value.user_id,
            account_id: value.account_id,
            symbol: value.symbol,
            price: value.price,
            quantity: value.quantity,
            filled_quantity: value.filled_quantity,
            remaining_quantity: value.remaining_quantity,
            order_state: value.order_state,
            side: value.side,
            time_in_force: value.time_in_force,
            tag: value.tag,
            clord_id: value.clord_id,
            post_only: value.post_only,
            reject_reason: value.reject_reason,
            reject_message: value.reject_message,
            timestamp: timestamp_of(value.timestamp),
        }
    }

impl From<Order> for OrderDetails {
    fn from(value: Order) -> (r: OrderDetails) {
        OrderDetails {
            order_id: value.order_id,
            user_id: value.user_id,
            account_id: value.account_id,
            symbol: value.symbol,
            price: value.price,
            quantity: value.quantity,
            filled_quantity: value.filled_quantity,
            remaining_quantity: value.remaining_quantity,
            order_state: value.order_state,
            side: value.side,
            time_in_force: value.time_in_force,
            tag: value.tag,
            clord_id: value.clord_id,
            post_only: value.post_only,
            reject_reason: value.reject_reason,
            reject_message: value.reject_message,
            timestamp: Timestamp::from_instant(value.timestamp),
        }
    }
}

impl FromSpecImpl<Order> for OrderDetails {
    open spec fn obeys_from_spec() -> bool {
        true
    }

    open spec fn from_spec(value: Order) -> OrderDetails {
        details_of_order(value)
    }
}

/// Reading a wire record as an order keeps every field of the record in the
/// field of the same name, takes the record's timestamp as its instant and
/// leaves the completion time unset; it fails exactly when the timestamp
/// names no instant. Writing an order as a wire record keeps every field the
/// same way.
pub proof fn lemma_order_details_fields(d: OrderDetails, o: Order)
    ensures
        order_of_details(d) is Err <==> instant_of(d.timestamp) is None,
        order_of_details(d) matches Ok(r) ==> {
            &&& r.order_id == d.order_id
            &&& r.user_id == d.user_id
            &&& r.account_id == d.account_id
            &&& r.symbol == d.symbol
            &&& r.price == d.price
            &&& r.quantity == d.quantity
            &&& r.filled_quantity == d.filled_quantity
            &&& r.remaining_quantity == d.remaining_quantity
            &&& r.order_state == d.order_state
            &&& r.side == d.side
            &&& r.time_in_force == d.time_in_force
            &&& r.tag == d.tag
            &&& r.clord_id == d.clord_id
            &&& r.post_only == d.post_only
            &&& r.reject_reason == d.reject_reason
            &&& r.reject_message == d.reject_message
            &&& instant_of(d.timestamp) == Some(r.timestamp)
            &&& r.completion_time is None
        },
        ({
            let w = details_of_order(o);
            &&& w.order_id == o.order_id
            &&& w.user_id == o.user_id
            &&& w.account_id == o.account_id
            &&& w.symbol == o.symbol
            &&& w.price == o.price
            &&& w.quantity == o.quantity
            &&& w.filled_quantity == o.filled_quantity
            &&& w.remaining_quantity == o.remaining_quantity
            &&& w.order_state == o.order_state
            &&& w.side == o.side
            &&& w.time_in_force == o.time_in_force
            &&& w.tag == o.tag
            &&& w.clord_id == o.clord_id
            &&& w.post_only == o.post_only
            &&& w.reject_reason == o.reject_reason
            &&& w.reject_message == o.reject_message
            &&& w.timestamp == timestamp_of(o.timestamp)
        }),
{
}

/// An order whose timestamp's seconds fit in 32 bits, without a completion
/// time, comes back unchanged from its wire record.
pub proof fn lemma_order_details_round_trip(o: Order)
    requires
        i32::MIN <= o.timestamp.secs <= i32::MAX,
        crate::protocol::common::fraction_is_valid(o.timestamp.secs as int, o.timestamp.nanos),
        o.completion_time is None,
    ensures
        order_of_details(details_of_order(o)) == Ok::<Order, ConversionError>(o),
{
    crate::protocol::common::lemma_timestamp_round_trip(o.timestamp);
}

/// A fill of an order on the wire.
#[derive(Debug, Clone)]
pub struct FillDetails {
    pub trade_id: String,
    pub account_id: String,
    pub symbol: String,
    pub quantity: u64,
    pub price: Decimal,
    pub side: String,
    pub is_taker: bool,
}

/// Asks for the orders of an account over a time range.
#[derive(Debug, Clone)]
pub struct GetOrdersRequest {
    pub symbol: Option<String>,
    pub timeseries: TimeseriesPagination,
    pub order_states: Option<Vec<OrderState>>,
    pub account_id: Option<String>,
}

/// A page of orders.
#[derive(Debug, Clone)]
pub struct GetOrdersResponse {
    pub orders: Vec<OrderDetails>,
    pub page: CursorPage,
}

/// An order named by the exchange's id or by the client's.
#[derive(Debug, Clone)]
pub enum OrderReference {
    OrderId(OrderId),
    ClientOrderId(ClientOrderId),
}

/// Why an order reference was refused.
#[derive(Debug, Clone, Copy, PartialEq, Eq, Structural)]
pub enum OrderReferenceError {
    /// Both `oid` and `cid` were given.
    BothGiven,
    /// Neither was given.
    NeitherGiven,
}

impl OrderReferenceError {
    /// The human-readable text of the error.
    pub fn message(&self) -> (r: &'static str)
        ensures
            r@ == match self {
                OrderReferenceError::BothGiven => "oid and cid are mutually exclusive; provide exactly one"@,
                OrderReferenceError::NeitherGiven => "exactly one of oid or cid must be provided"@,
            },
    {
        match self {
            OrderReferenceError::BothGiven => "oid and cid are mutually exclusive; provide exactly one",
            OrderReferenceError::NeitherGiven => "exactly one of oid or cid must be provided",
        }
    }
}

impl OrderReference {
    /// The reference given by exactly one of `oid` and `cid` (how the wire
    /// form is read).
    pub fn from_parts(oid: Option<OrderId>, cid: Option<ClientOrderId>) -> (r: Result<OrderReference, OrderReferenceError>)
        ensures
            match (oid, cid) {
                (Some(o), None) => r matches Ok(OrderReference::OrderId(x)) && x == o,
                (None, Some(c)) => r matches Ok(OrderReference::ClientOrderId(x)) && x == c,
                (Some(_), Some(_)) => r == Err::<OrderReference, OrderReferenceError>(OrderReferenceError::BothGiven),
                (None, None) => r == Err::<OrderReference, OrderReferenceError>(OrderReferenceError::NeitherGiven),
            },
    {
        match (oid, cid) {
            (Some(o), None) => Ok(OrderReference::OrderId(o)),
            (None, Some(c)) => Ok(OrderReference::ClientOrderId(c)),
            (Some(_), Some(_)) => Err(OrderReferenceError::BothGiven),
            (None, None) => Err(OrderReferenceError::NeitherGiven),
        }
    }
}

impl From<OrderId> for OrderReference {
    fn from(id: OrderId) -> (r: OrderReference) {
        OrderReference::OrderId(id)
    }
}

impl FromSpecImpl<OrderId> for OrderReference {
    open spec fn obeys_from_spec() -> bool {
        true
    }

    open spec fn from_spec(id: OrderId) -> OrderReference {
        OrderReference::OrderId(id)
    }
}

impl From<ClientOrderId> for OrderReference {
    fn from(id: ClientOrderId) -> (r: OrderReference) {
        OrderReference::ClientOrderId(id)
    }
}

impl FromSpecImpl<ClientOrderId> for OrderReference {
    open spec fn obeys_from_spec() -> bool {
        true
    }

    open spec fn from_spec(id: ClientOrderId) -> OrderReference {
        OrderReference::ClientOrderId(id)
    }
}

/// Asks for the status of an order named by exactly one of its ids.
#[derive(Debug, Clone)]
pub struct GetOrderStatusRequest {
    pub order_id: Option<OrderId>,
    pub client_order_id: Option<ClientOrderId>,
}

/// Why an order-status request was refused.
#[derive(Debug, Clone, Copy, PartialEq, Eq, Structural)]
pub enum OrderStatusRequestError {
    /// Neither id was given.
    NeitherGiven,
    /// Both ids were given.
    BothGiven,
}

impl OrderStatusRequestError {
    /// The human-readable text of the error.
    pub fn message(&self) -> (r: &'static str)
        ensures
            r@ == match self {
                OrderStatusRequestError::NeitherGiven => "exactly one of 'oid' or 'cid' must be provided"@,
                OrderStatusRequestError::BothGiven => "'oid' and 'cid' are mutually exclusive"@,
            },
    {
        match self {
            OrderStatusRequestError::NeitherGiven => "exactly one of 'oid' or 'cid' must be provided",
            OrderStatusRequestError::BothGiven => "'oid' and 'cid' are mutually exclusive",
        }
    }
}

impl GetOrderStatusRequest {
    /// The request for exactly one of the two ids (how the wire form is read).
    pub fn from_parts(order_id: Option<OrderId>, client_order_id: Option<ClientOrderId>) -> (r: Result<
        GetOrderStatusRequest,
        OrderStatusRequestError,
    >)
        ensures
            (order_id is Some) != (client_order_id is Some) ==> (r matches Ok(q) && q.order_id == order_id
                && q.client_order_id == client_order_id),
            (order_id is None && client_order_id is None) ==> r == Err::<GetOrderStatusRequest, OrderStatusRequestError>(
                OrderStatusRequestError::NeitherGiven,
            ),
            (order_id is Some && client_order_id is Some) ==> r == Err::<GetOrderStatusRequest, OrderStatusRequestError>(
                OrderStatusRequestError::BothGiven,
            ),
    {
        match (&order_id, &client_order_id) {
            (Some(_), None) | (None, Some(_)) => Ok(GetOrderStatusRequest { order_id, client_order_id }),
            (None, None) => Err(OrderStatusRequestError::NeitherGiven),
            (Some(_), Some(_)) => Err(OrderStatusRequestError::BothGiven),
        }
    }
}

/// The status of an order.
#[derive(Debug, Clone)]
pub struct OrderStatus {
    pub symbol: String,
    pub order_id: OrderId,
    pub clord_id: Option<ClientOrderId>,
    pub state: OrderState,
    pub filled_quantity: Option<u64>,
    pub remaining_quantity: Option<u64>,
    pub reject_reason: Option<OrderRejectReason>,
    pub reject_message: Option<String>,
}

/// The status of an order.
#[derive(Debug, Clone)]
pub struct GetOrderStatusResponse {
    pub status: OrderStatus,
}

/// Asks for the fills of an order.
#[derive(Debug, Clone)]
pub struct GetOrderFillsRequest {
    pub order_id: OrderId,
}

/// The fills of an order.
#[derive(Debug, Clone)]
pub struct GetOrderFillsResponse {
    pub fills: Vec<Fill>,
}

} // verus!
