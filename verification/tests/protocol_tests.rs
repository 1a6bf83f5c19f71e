use ax_exchange_sdk::decimal::Decimal;
use ax_exchange_sdk::environment::Environment;
use ax_exchange_sdk::order_id::{ClientOrderId, OrderId};
use ax_exchange_sdk::orderbook::Orderbook;
use ax_exchange_sdk::protocol::common::Timestamp;
use ax_exchange_sdk::protocol::marketdata::{L2BookDiff, L2BookSnapshot, L2BookUpdate};
use ax_exchange_sdk::protocol::marketdata_publisher::{
    BookUpdateData, L2BookLevel, L3BookLevel, MarketdataRequest, SnapshotFlag, SubscriptionLevel,
};
use ax_exchange_sdk::protocol::order_gateway::{
    ConversionError, GetOrderStatusRequest, LoginResponse, OrderDetails, OrderGatewayEvent, OrderAcked,
    OrderReference, OrderReferenceError, OrderStatusRequestError, PlaceOrderRequest,
};
use ax_exchange_sdk::protocol::sequence::SequenceIdAndNumber;
use ax_exchange_sdk::protocol::websocket::ErrorCode;
use ax_exchange_sdk::protocol::ws::{Response, ResponseError};
use ax_exchange_sdk::routing::extract_id;
use ax_exchange_sdk::time::UtcTime;
use ax_exchange_sdk::trading::{
    CandleWidth, Order, OrderState, PlaceOrder, SelfTradeBehavior, Side, TimeInForce,
};

fn dec(s: &str) -> Decimal {
    let d: rust_decimal::Decimal = s.parse().expect("valid decimal");
    Decimal::from_parts(d.mantissa(), d.scale()).expect("decimal in range")
}

#[test]
fn sequence_positions_follow_each_other() {
    let p = SequenceIdAndNumber::new(7, 41);
    let n = p.next();
    assert_eq!(n, SequenceIdAndNumber::new(7, 42));
    assert!(n.is_next_in_sequence(&p));
    assert!(!p.is_next_in_sequence(&n));
    let mut q = p;
    q.advance();
    assert_eq!(q, n);
    assert_eq!(n.partial_cmp(&p), Some(std::cmp::Ordering::Greater));
    assert_eq!(p.partial_cmp(&p), Some(std::cmp::Ordering::Equal));
    assert_eq!(p.partial_cmp(&SequenceIdAndNumber::new(8, 41)), None);
    assert!(p < n);
    assert_eq!(n.to_string(), "7:42");
    assert_eq!(SequenceIdAndNumber::new_random().sequence_number, 0);
    assert_eq!(SequenceIdAndNumber::default(), SequenceIdAndNumber::new(0, 0));
}

#[test]
fn ws_response_into_inner() {
    let ok: Response<u32> = Response::ok(3, 99);
    assert_eq!(ok.request_id, Some(3));
    assert_eq!(ok.into_inner().unwrap(), 99);
    let err: Response<u32> = Response::bad_request(Some(4), Some("bad".to_string()));
    match err.into_inner() {
        Err(ResponseError::Server(e)) => {
            assert_eq!(e.code, 400);
            assert_eq!(e.to_string(), "code: 400, message: bad");
        }
        _ => panic!("expected a server error"),
    }
    let ise: Response<u32> = Response::internal_server_error(None, None);
    let e = ise.into_inner().unwrap_err();
    assert_eq!(e.message(), "code: 500, message: unknown error");
    let with_data: Response<u32> = Response::error_with_data(Some(1), -7, None, "d".to_string());
    assert_eq!(with_data.data.as_deref(), Some("d"));
    assert_eq!(with_data.into_inner().unwrap_err().message(), "code: -7, message: unknown error");
    let empty = Response::<u32> { request_id: Some(1), response: None, error: None, data: None };
    assert_eq!(empty.into_inner().unwrap_err(), ResponseError::Malformed);
    assert_eq!(ResponseError::Malformed.message(), "malformed response");
}

#[test]
fn marketdata_request_texts() {
    let r = MarketdataRequest::Subscribe { symbol: "BTC-PERP", level: SubscriptionLevel::Level2, trades: true, ticker: true };
    assert_eq!(r.to_request_text(1), r#"{"rid":1,"type":"subscribe","symbol":"BTC-PERP","level":"LEVEL_2"}"#);
    let r = MarketdataRequest::Subscribe { symbol: "X", level: SubscriptionLevel::Level1, trades: false, ticker: false };
    assert_eq!(
        r.to_request_text(-2),
        r#"{"rid":-2,"type":"subscribe","symbol":"X","level":"LEVEL_1","trades":false,"ticker":false}"#
    );
    let r = MarketdataRequest::UnsubscribeCandles { symbol: "a\"b", width: CandleWidth::FifteenMinute };
    assert_eq!(r.to_request_text(5), r#"{"rid":5,"type":"unsubscribe_candles","symbol":"a\"b","width":"15m"}"#);
    let r = MarketdataRequest::SubscribeBboCandles { symbol: "E", width: CandleWidth::OneDay };
    assert_eq!(r.to_request_text(9), r#"{"rid":9,"type":"subscribe_bbo_candles","symbol":"E","width":"1d"}"#);
    assert_eq!(SubscriptionLevel::Trades.as_str(), "TRADES");
    assert_eq!(SubscriptionLevel::book_levels(), 7);
    assert_eq!(SubscriptionLevel::Level3.bits(), 4);
}

#[test]
fn timestamps_and_instants() {
    let t = Timestamp { ts: 1_700_000_000, tn: 5 };
    assert_eq!(t.as_datetime(), Some(UtcTime { secs: 1_700_000_000, nanos: 5 }));
    assert_eq!(Timestamp { ts: 10, tn: 1_500_000_000 }.as_datetime(), None);
    assert!(Timestamp { ts: 59, tn: 1_500_000_000 }.as_datetime().is_some());
    assert!(Timestamp { ts: -1, tn: 1_500_000_000 }.as_datetime().is_some());
    let back = Timestamp::from_instant(UtcTime { secs: 1_700_000_000, nanos: 5 });
    assert_eq!(back, t);
    assert!(Timestamp::now().tn < 1_000_000_000);
}

fn details(ts: Timestamp) -> OrderDetails {
    OrderDetails {
        order_id: OrderId::new_unchecked("ORD-1".to_string()),
        user_id: "u".to_string(),
        account_id: "a".to_string(),
        symbol: "BTC-PERP".to_string(),
        price: dec("50000"),
        quantity: 10,
        filled_quantity: 0,
        remaining_quantity: 10,
        order_state: OrderState::Accepted,
        side: Side::Buy,
        time_in_force: TimeInForce::GoodTillCanceled,
        clord_id: None,
        tag: None,
        post_only: false,
        reject_reason: None,
        reject_message: None,
        timestamp: ts,
    }
}

#[test]
fn order_details_convert_both_ways() {
    let d = details(Timestamp { ts: 1_704_067_200, tn: 0 });
    let o = Order::try_from(d.clone()).unwrap();
    assert_eq!(o.timestamp, UtcTime { secs: 1_704_067_200, nanos: 0 });
    assert_eq!(o.account_id, "a");
    assert!(o.completion_time.is_none());
    let back: OrderDetails = o.into();
    assert_eq!(back.timestamp, d.timestamp);
    assert_eq!(back.symbol, d.symbol);
    let bad = details(Timestamp { ts: 1, tn: 1_999_999_999 });
    assert_eq!(Order::try_from(bad).unwrap_err(), ConversionError::InvalidTimestamp);
    assert_eq!(ConversionError::InvalidTimestamp.message(), "invalid timestamp");
}

#[test]
fn login_open_orders() {
    let good = LoginResponse {
        logged_in: "u".to_string(),
        open_orders: Some(vec![details(Timestamp { ts: 1, tn: 0 }), details(Timestamp { ts: 2, tn: 0 })]),
        cancel_on_disconnect: false,
        client_heartbeat_timeout: None,
    };
    let orders = good.into_open_orders().unwrap();
    assert_eq!(orders.len(), 2);
    assert_eq!(orders[1].timestamp.secs, 2);
    let none = LoginResponse { logged_in: "u".to_string(), open_orders: None, cancel_on_disconnect: true, client_heartbeat_timeout: None };
    assert!(none.into_open_orders().unwrap().is_empty());
    let bad = LoginResponse {
        logged_in: "u".to_string(),
        open_orders: Some(vec![details(Timestamp { ts: 1, tn: 0 }), details(Timestamp { ts: 1, tn: 1_999_999_999 })]),
        cancel_on_disconnect: false,
        client_heartbeat_timeout: None,
    };
    assert_eq!(bad.into_open_orders().unwrap_err(), ConversionError::InvalidTimestamp);
}

fn place_order(account: Option<&str>) -> PlaceOrder {
    PlaceOrder {
        symbol: "XAU-PERP".to_string(),
        side: Side::Sell,
        quantity: 3,
        price: dec("2000.5"),
        time_in_force: TimeInForce::ImmediateOrCancel,
        post_only: true,
        tag: Some("t".to_string()),
        clord_id: Some(ClientOrderId::new("c-1".to_string())),
        self_trade_prevention: SelfTradeBehavior::CancelBoth,
        account_id: account.map(|a| a.to_string()),
    }
}

#[test]
fn pending_orders_take_the_request() {
    let req: PlaceOrderRequest = place_order(Some("acct")).into();
    assert_eq!(req.account_id.as_deref(), Some("acct"));
    let o = req.into_pending_order(OrderId::new_unchecked("O-1".to_string()), "user".to_string());
    assert_eq!(o.account_id, "acct");
    assert_eq!(o.order_state, OrderState::Pending);
    assert_eq!(o.remaining_quantity, 3);
    assert_eq!(o.filled_quantity, 0);
    let req: PlaceOrderRequest = place_order(None).into();
    let o = req.into_pending_order(OrderId::new_unchecked("O-2".to_string()), "user".to_string());
    assert_eq!(o.account_id, "user");
}

#[test]
fn order_references_need_exactly_one_id() {
    let oid = OrderId::new_unchecked("O-1".to_string());
    let cid = ClientOrderId::new("c".to_string());
    assert!(matches!(OrderReference::from_parts(Some(oid.clone()), None), Ok(OrderReference::OrderId(_))));
    assert!(matches!(OrderReference::from_parts(None, Some(cid.clone())), Ok(OrderReference::ClientOrderId(_))));
    let both = OrderReference::from_parts(Some(oid.clone()), Some(cid.clone())).unwrap_err();
    assert_eq!(both, OrderReferenceError::BothGiven);
    assert_eq!(both.message(), "oid and cid are mutually exclusive; provide exactly one");
    let neither = OrderReference::from_parts(None, None).unwrap_err();
    assert_eq!(neither.message(), "exactly one of oid or cid must be provided");
    assert!(GetOrderStatusRequest::from_parts(Some(oid.clone()), None).is_ok());
    let e = GetOrderStatusRequest::from_parts(None, None).unwrap_err();
    assert_eq!(e, OrderStatusRequestError::NeitherGiven);
    assert_eq!(e.message(), "exactly one of 'oid' or 'cid' must be provided");
    let e = GetOrderStatusRequest::from_parts(Some(oid), Some(cid)).unwrap_err();
    assert_eq!(e.message(), "'oid' and 'cid' are mutually exclusive");
}

#[test]
fn events_name_their_order() {
    let ack = OrderGatewayEvent::OrderAcked(OrderAcked {
        timestamp: Timestamp { ts: 1, tn: 0 },
        execution_id: "e".to_string(),
        order: details(Timestamp { ts: 1, tn: 0 }),
    });
    assert_eq!(ack.order_id().unwrap().as_str(), "ORD-1");
    assert_eq!(ack.symbol(), Some("BTC-PERP"));
    let hb = OrderGatewayEvent::Heartbeat(Timestamp { ts: 1, tn: 0 });
    assert!(hb.order_id().is_none());
    assert!(hb.symbol().is_none());
}

#[test]
fn orderbook_keeps_one_level_per_price() {
    let u = BookUpdateData {
        timestamp: Timestamp { ts: 1, tn: 0 },
        symbol: "X".to_string(),
        bids: vec![
            L2BookLevel { price: dec("101.5"), quantity: 1 },
            L2BookLevel { price: dec("100"), quantity: 2 },
            L2BookLevel { price: dec("101.50"), quantity: 3 },
        ],
        asks: vec![],
        snapshot: SnapshotFlag { is_snapshot: true },
    };
    let book = Orderbook::from_update(&u);
    let bids = book.bids();
    assert_eq!(bids.len(), 2);
    assert!(bids[0].0.eq_value(&dec("100")));
    assert_eq!(bids[0].1.quantity, 2);
    // the later level at 101.50 replaces the earlier one, which keeps its price
    assert_eq!(bids[1].0.scale(), 1);
    assert_eq!(bids[1].1.quantity, 3);
    assert!(book.asks().is_empty());

    let u3 = BookUpdateData {
        timestamp: Timestamp { ts: 1, tn: 0 },
        symbol: "X".to_string(),
        bids: vec![],
        asks: vec![
            L3BookLevel { price: dec("2"), quantity: 5, order_quantities: vec![2, 3] },
            L3BookLevel { price: dec("1"), quantity: 1, order_quantities: vec![1] },
        ],
        snapshot: SnapshotFlag { is_snapshot: false },
    };
    let book = Orderbook::from_l3_update(&u3);
    let asks = book.asks();
    assert!(asks[0].0.eq_value(&dec("1")));
    assert_eq!(asks[1].1.order_quantities, Some(vec![2, 3]));
}

#[test]
fn l2_updates_expose_their_stamp() {
    let d = L2BookDiff {
        timestamp: 1_700_000_000,
        timestamp_ns: 7,
        sequence: SequenceIdAndNumber::new(1, 2),
        bids: vec![],
        asks: vec![],
    };
    let u = L2BookUpdate::Diff(d);
    assert_eq!(u.timestamp(), Some(UtcTime { secs: 1_700_000_000, nanos: 7 }));
    assert_eq!(u.sequence(), SequenceIdAndNumber::new(1, 2));
    assert!(!u.is_snapshot());
}

#[test]
fn environments_by_name() {
    assert_eq!(Environment::from_str("PROD").unwrap(), Environment::Production);
    assert_eq!(Environment::from_str("Production").unwrap(), Environment::Production);
    assert_eq!(Environment::from_str("test").unwrap(), Environment::Sandbox);
    assert_eq!(Environment::from_str("SandBox").unwrap(), Environment::Sandbox);
    assert_eq!(Environment::from_str("staging").unwrap_err(), "invalid environment: staging");
    assert_eq!(Environment::Production.base_url(), "https://gateway.architect.exchange");
    assert_eq!(Environment::Sandbox.base_url(), "https://gateway.sandbox.architect.exchange");
}

#[test]
fn json_rpc_error_codes() {
    assert_eq!(ErrorCode::ParseError.code(), -32700);
    assert_eq!(ErrorCode::InternalError.code(), -32603);
    assert_eq!(ErrorCode::from_code(-32601), Some(ErrorCode::MethodNotFound));
    assert_eq!(ErrorCode::from_code(0), None);
}

#[test]
fn response_ids_are_extracted() {
    assert_eq!(extract_id(br#"{"rid":42,"res":{}}"#), Some(42));
    assert_eq!(extract_id(br#"{"t":"h"}"#), None);
    assert_eq!(extract_id(br#"{"rid":}"#), None);
    assert_eq!(extract_id(br#"{"rid":99999999999999999999}"#), None);
}

#[test]
fn cancel_order_request_missing_identifier_fails() {
    // `{}` names neither id.
    assert!(OrderReference::from_parts(None, None).is_err());
}

#[test]
fn cancel_order_request_both_identifiers_fails() {
    // `{"oid": "O-12345", "cid": 42}`
    let err = OrderReference::from_parts(
        Some(OrderId::new_unchecked("O-12345".to_string())),
        Some(ClientOrderId::new("42".to_string())),
    )
    .unwrap_err();
    assert!(err.message().contains("mutually exclusive"), "unexpected error: {}", err.message());
}

#[test]
fn replace_order_request_both_identifiers_fails() {
    // `{"oid": "O-12345", "cid": 42, "p": "100.50"}`
    let err = OrderReference::from_parts(
        Some(OrderId::new_unchecked("O-12345".to_string())),
        Some(ClientOrderId::new("42".to_string())),
    )
    .unwrap_err();
    assert!(err.message().contains("mutually exclusive"), "unexpected error: {}", err.message());
}

#[test]
fn replace_order_request_missing_identifier_fails() {
    // `{"p": "100.50"}` names neither id.
    assert!(OrderReference::from_parts(None, None).is_err());
}

#[test]
fn order_status_request_urlencoded_deserialization_rejects_both() {
    // `oid=O-12345&cid=42`
    let res = GetOrderStatusRequest::from_parts(
        Some(OrderId::new_unchecked("O-12345".to_string())),
        Some(ClientOrderId::new("42".to_string())),
    );
    assert!(res.is_err());
}

#[test]
fn order_status_request_urlencoded_deserialization_rejects_neither() {
    // an empty query
    let res = GetOrderStatusRequest::from_parts(None, None);
    assert!(res.is_err());
}

#[test]
fn request_symbols_are_json_escaped() {
    let r = MarketdataRequest::Unsubscribe { symbol: "a\\b\n\t\u{1}\u{1f}\u{8}\u{c}\ré/" };
    assert_eq!(
        r.to_request_text(3),
        r#"{"rid":3,"type":"unsubscribe","symbol":"a\\b\n\t\u0001\u001f\b\f\ré/"}"#
    );
}

#[test]
fn snapshot_timestamp_covers_chrono_range() {
    let snap = |secs: i64, ns: u32| L2BookSnapshot {
        timestamp: secs,
        timestamp_ns: ns,
        sequence: SequenceIdAndNumber::new(1, 1),
        bids: vec![],
        asks: vec![],
    };
    let max = 8_210_266_876_799i64;
    let min = -8_334_601_228_800i64;
    assert_eq!(snap(max, 0).timestamp(), Some(UtcTime { secs: max, nanos: 0 }));
    assert_eq!(snap(max + 1, 0).timestamp(), None);
    assert_eq!(snap(min, 0).timestamp(), Some(UtcTime { secs: min, nanos: 0 }));
    assert_eq!(snap(min - 1, 0).timestamp(), None);
    assert_eq!(snap(7_000_000_000_000, 5).timestamp(), Some(UtcTime { secs: 7_000_000_000_000, nanos: 5 }));
    assert_eq!(snap(59, 1_500_000_000).timestamp(), Some(UtcTime { secs: 59, nanos: 1_500_000_000 }));
    assert_eq!(snap(58, 1_500_000_000).timestamp(), None);
}
