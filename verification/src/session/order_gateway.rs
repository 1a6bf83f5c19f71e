//! The request book-keeping of the order-gateway WebSocket client: request
//! ids, the requests awaiting an answer, and the kind by which each answer is
//! read.
use vstd::prelude::*;
use std::collections::HashMap;
use crate::protocol::order_gateway::{
    CancelAllOrdersRequest, CancelOrderRequest, GetOpenOrdersRequest, OrderGatewayRequestType, OrderReference,
    PlaceOrderRequest, ReplaceOrderRequest,
};
use crate::protocol::pagination::LimitOffsetPagination;
use crate::types::trading::PlaceOrder;

verus! {

broadcast use vstd::std_specs::hash::group_hash_axioms;

/// Where an answer goes.
#[derive(Debug, Clone, Copy, PartialEq, Eq, Structural)]
pub enum ResponseRoute {
    /// The answer names no request; it is dropped.
    NoRequestId,
    /// The answer names a request that is not awaited; it is dropped.
    Unknown { request_id: i32 },
    /// The answer to request `request_id`, read as a `kind` answer.
    Route { request_id: i32, kind: OrderGatewayRequestType },
}

/// The ids of the requests of a session and the kinds of those awaiting an
/// answer.
#[derive(Debug)]
pub struct RequestTracker {
    next_request_id: i32,
    in_flight: HashMap<i32, OrderGatewayRequestType>,
}

impl RequestTracker {
    /// The id the next request gets.
    pub closed spec fn next_id(&self) -> i32 {
        self.next_request_id
    }

    /// The requests awaiting an answer, by id.
    pub closed spec fn awaiting(&self) -> Map<i32, OrderGatewayRequestType> {
        self.in_flight@
    }

    /// No request yet; the first gets id 1.
    pub fn new() -> (r: RequestTracker)
        ensures
            r.next_id() == 1,
            r.awaiting() == Map::<i32, OrderGatewayRequestType>::empty(),
    {
        RequestTracker { next_request_id: 1, in_flight: HashMap::new() }
    }

    /// The id the next request gets.
    pub fn peek_id(&self) -> (r: i32)
        ensures
            r == self.next_id(),
    {
        self.next_request_id
    }

    /// Takes the id of the next request.
    pub fn allocate_id(&mut self) -> (r: i32)
        requires
            old(self).next_id() < i32::MAX,
        ensures
            r == old(self).next_id(),
            final(self).next_id() == old(self).next_id() + 1,
            final(self).awaiting() == old(self).awaiting(),
    {
        let id = self.next_request_id;
        self.next_request_id = id + 1;
        id
    }

    /// Records that request `request_id`, of kind `kind`, was sent.
    pub fn record(&mut self, request_id: i32, kind: OrderGatewayRequestType)
        ensures
            final(self).next_id() == old(self).next_id(),
            final(self).awaiting() == old(self).awaiting().insert(request_id, kind),
    {
        self.in_flight.insert(request_id, kind);
    }

    /// Routes an answer by the request id it names: an awaited request is
    /// answered (and no longer awaited); other answers are dropped.
    pub fn resolve(&mut self, request_id: Option<i32>) -> (r: ResponseRoute)
        ensures
            final(self).next_id() == old(self).next_id(),
            match request_id {
                None => r == ResponseRoute::NoRequestId && final(self).awaiting() == old(self).awaiting(),
                Some(id) => if old(self).awaiting().contains_key(id) {
                    r == (ResponseRoute::Route { request_id: id, kind: old(self).awaiting()[id] })
                        && final(self).awaiting() == old(self).awaiting().remove(id)
                } else {
                    r == (ResponseRoute::Unknown { request_id: id }) && final(self).awaiting() == old(self).awaiting()
                },
            },
    {
        match request_id {
            None => ResponseRoute::NoRequestId,
            Some(id) => match self.in_flight.remove(&id) {
                Some(kind) => ResponseRoute::Route { request_id: id, kind },
                None => {
                    proof {
                        assert(self.in_flight@ =~= old(self).in_flight@);
                    }
                    ResponseRoute::Unknown { request_id: id }
                },
            },
        }
    }
}

/// A request that was recorded is routed, once, as its kind: after sending
/// request `id` of kind `k`, its answer goes to `k`, and a second answer
/// with the same id is unknown.
pub proof fn lemma_record_then_resolve(m: Map<i32, OrderGatewayRequestType>, id: i32, k: OrderGatewayRequestType)
    ensures
        m.insert(id, k).contains_key(id),
        m.insert(id, k)[id] == k,
        !m.insert(id, k).remove(id).contains_key(id),
{
}

/// The place-order request of an order on the session's connection: the
/// connection determines the account, so any account on the order is dropped.
pub fn session_place_order(place_order: PlaceOrder) -> (r: PlaceOrderRequest)
    ensures
        r.symbol == place_order.symbol,
        r.side == place_order.side,
        r.quantity == place_order.quantity,
        r.price == place_order.price,
        r.time_in_force == place_order.time_in_force,
        r.post_only == place_order.post_only,
        r.tag == place_order.tag,
        r.clord_id == place_order.clord_id,
        r.self_trade_prevention == place_order.self_trade_prevention,
        r.account_id is None,
{
    let mut p = place_order;
    p.account_id = None;
    PlaceOrderRequest {
        symbol: p.symbol,
        side: p.side,
        quantity: p.quantity,
        price: p.price,
        time_in_force: p.time_in_force,
        post_only: p.post_only,
        tag: p.tag,
        clord_id: p.clord_id,
        self_trade_prevention: p.self_trade_prevention,
        account_id: p.account_id,
    }
}

/// A replace request on the session's connection: any account on it is
/// dropped.
pub fn session_replace_order(req: ReplaceOrderRequest) -> (r: ReplaceOrderRequest)
    ensures
        r.order == req.order,
        r.price == req.price,
        r.quantity == req.quantity,
        r.time_in_force == req.time_in_force,
        r.post_only == req.post_only,
        r.account_id is None,
{
    let mut r = req;
    r.account_id = None;
    r
}

/// The cancel request of an order on the session's connection.
pub fn session_cancel_order(order: OrderReference) -> (r: CancelOrderRequest)
    ensures
        r.order == order,
        r.account_id is None,
{
    CancelOrderRequest { order, account_id: None }
}

/// The cancel-all request of the session's connection, optionally limited
/// to a symbol.
pub fn session_cancel_all_orders(symbol: Option<&str>) -> (r: CancelAllOrdersRequest)
    ensures
        match symbol {
            Some(s) => r.symbol matches Some(t) && t@ == s@,
            None => r.symbol is None,
        },
        r.account_id is None,
{
    let symbol = match symbol {
        Some(s) => Some(String::from_str(s)),
        None => None,
    };
    CancelAllOrdersRequest { symbol, account_id: None }
}

/// The open-orders request of the session's connection: default paging, no
/// sort, the session's account.
pub fn session_open_orders() -> (r: GetOpenOrdersRequest)
    ensures
        r.pagination.limit is None && r.pagination.offset is None,
        r.sort_ts is None,
        r.account_id is None,
{
    GetOpenOrdersRequest { pagination: LimitOffsetPagination::default(), sort_ts: None, account_id: None }
}

} // verus!
