use ax_exchange_sdk::protocol::marketdata_publisher::SubscriptionLevel;
use ax_exchange_sdk::protocol::order_gateway::{OrderGatewayRequestType, OrderReference};
use ax_exchange_sdk::session::auth::{refresh_decision, token_expiry, usable_token, RefreshDecision, TokenError, TokenSlot};
use ax_exchange_sdk::session::connection::{classify_frame, FrameKind, InboundAction, LoopAction, LoopEvent, ConnectionFailure};
use ax_exchange_sdk::session::endpoints::{host_of_authority, session_query, status_is_success, ws_scheme, HttpMethod};
use ax_exchange_sdk::session::marketdata::{MarketdataSession, Subscription, SubscriptionSet};
use ax_exchange_sdk::session::order_gateway::{session_cancel_all_orders, session_cancel_order, RequestTracker, ResponseRoute};
use ax_exchange_sdk::session::supervisor::{wait_outcome, watch_step, Supervisor, SupervisorStep, WaitOutcome};
use ax_exchange_sdk::order_id::OrderId;
use ax_exchange_sdk::time::UtcTime;
use ax_exchange_sdk::trading::CandleWidth;
use ax_exchange_sdk::ws::ConnectionState;

#[test]
fn supervisor_backs_off_and_resets() {
    let mut s = Supervisor::new();
    assert_eq!(s.on_token_failure(false), SupervisorStep::Retry { announce: None, delay_secs: 3 });
    assert_eq!(s.on_token_failure(false), SupervisorStep::Retry { announce: None, delay_secs: 9 });
    assert_eq!(s.on_token_failure(false), SupervisorStep::Retry { announce: None, delay_secs: 27 });
    assert_eq!(s.on_token_failure(false), SupervisorStep::Retry { announce: None, delay_secs: 81 });
    assert_eq!(s.on_token_failure(false), SupervisorStep::Retry { announce: None, delay_secs: 81 });
    assert_eq!(s.on_token_failure(true), SupervisorStep::Exit { announce: None });
    assert_eq!(s.on_connected(), ConnectionState::Connected);
    assert_eq!(s.attempts, 0);
    assert_eq!(
        s.on_connection_ended(false, false),
        SupervisorStep::Retry { announce: Some(ConnectionState::Disconnected), delay_secs: 2 }
    );
    assert_eq!(
        s.on_connect_failed(false),
        SupervisorStep::Retry { announce: Some(ConnectionState::Disconnected), delay_secs: 4 }
    );
    assert_eq!(s.on_connect_failed(true), SupervisorStep::Exit { announce: None });
    assert_eq!(s.on_connection_ended(true, false), SupervisorStep::Exit { announce: Some(ConnectionState::Exited) });
    let mut big = Supervisor { attempts: 62 };
    assert_eq!(
        big.on_connect_failed(false),
        SupervisorStep::Retry { announce: Some(ConnectionState::Disconnected), delay_secs: 1 << 63 }
    );
}

#[test]
fn state_watcher_reports_changes_only() {
    let mut cur = ConnectionState::Disconnected;
    assert_eq!(watch_step(Some(ConnectionState::Disconnected), &mut cur), None);
    assert_eq!(watch_step(Some(ConnectionState::Connected), &mut cur), Some(ConnectionState::Connected));
    assert_eq!(cur, ConnectionState::Connected);
    assert_eq!(watch_step(None, &mut cur), Some(ConnectionState::Exited));
}

#[test]
fn waiting_ends_only_on_connection_or_exit() {
    assert_eq!(wait_outcome(ConnectionState::Connected), WaitOutcome::Connected);
    assert_eq!(wait_outcome(ConnectionState::Exited), WaitOutcome::Ended);
    assert_eq!(wait_outcome(ConnectionState::Disconnected), WaitOutcome::Waiting);
}

#[test]
fn frames_are_classified() {
    assert_eq!(classify_frame(FrameKind::Text, br#"{"rid":12,"res":{}}"#), InboundAction::Respond { request_id: 12 });
    assert_eq!(classify_frame(FrameKind::Text, br#"{"t":"1"}"#), InboundAction::DecodeEvent);
    assert_eq!(classify_frame(FrameKind::Pong, b""), InboundAction::Ignore);
    assert_eq!(classify_frame(FrameKind::Close, b""), InboundAction::ServerClosed);
    // ids beyond 32 bits are taken to their low 32 bits
    assert_eq!(
        classify_frame(FrameKind::Text, br#"{"rid":4294967297}"#),
        InboundAction::Respond { request_id: 1 }
    );
    assert_eq!(LoopEvent::PingDue.action(), LoopAction::SendPing);
    assert_eq!(LoopEvent::ShutdownSignal { requested: false }.action(), LoopAction::Continue);
    assert_eq!(LoopEvent::ShutdownSignal { requested: true }.action(), LoopAction::CloseAndFinish);
    assert_eq!(LoopEvent::Inbound(InboundAction::Respond { request_id: 3 }).action(), LoopAction::RouteResponse(3));
    assert_eq!(LoopEvent::ReadTimeout.action(), LoopAction::Fail(ConnectionFailure::ReadTimeout));
    assert!(LoopEvent::StreamEnded.resets_read_deadline());
    assert!(!LoopEvent::PingDue.resets_read_deadline());
}

#[test]
fn subscriptions_are_tracked_and_replayed() {
    let mut s = MarketdataSession::new();
    let (id, text) = s.subscribe("BTC-PERP", SubscriptionLevel::Level2);
    assert_eq!(id, 1);
    assert_eq!(text, r#"{"rid":1,"type":"subscribe","symbol":"BTC-PERP","level":"LEVEL_2"}"#);
    let (id, _) = s.subscribe("BTC-PERP", SubscriptionLevel::Level2);
    assert_eq!(id, 2);
    assert_eq!(s.subscriptions().len(), 1);
    let (_, text) = s.subscribe_candles("ETH-PERP", CandleWidth::OneMinute);
    assert_eq!(text, r#"{"rid":3,"type":"subscribe_candles","symbol":"ETH-PERP","width":"1m"}"#);
    s.subscribe_bbo_candles("ETH-PERP", CandleWidth::OneHour);
    assert_eq!(s.subscriptions().len(), 3);
    let replay = s.subscriptions().replay_requests();
    assert_eq!(replay.len(), 3);
    assert_eq!(replay[0], r#"{"rid":1,"type":"subscribe","symbol":"BTC-PERP","level":"LEVEL_2"}"#);
    assert_eq!(replay[1], r#"{"rid":2,"type":"subscribe_candles","symbol":"ETH-PERP","width":"1m"}"#);
    assert_eq!(replay[2], r#"{"rid":3,"type":"subscribe_bbo_candles","symbol":"ETH-PERP","width":"1h"}"#);
    let (id, text) = s.unsubscribe("BTC-PERP");
    assert_eq!(id, 5);
    assert_eq!(text, r#"{"rid":5,"type":"unsubscribe","symbol":"BTC-PERP"}"#);
    assert_eq!(s.subscriptions().len(), 2);
    s.unsubscribe_candles("ETH-PERP", CandleWidth::OneMinute);
    assert_eq!(s.subscriptions().len(), 1);
    s.unsubscribe_bbo_candles("ETH-PERP", CandleWidth::OneHour);
    assert_eq!(s.subscriptions().len(), 0);
    assert_eq!(s.peek_request_id(), 8);

    let mut set = SubscriptionSet::new();
    let sub = Subscription::Level { symbol: "X".to_string(), level: SubscriptionLevel::Trades };
    set.add(sub.clone_subscription());
    assert!(set.contains(&sub));
    set.remove(&sub);
    assert!(!set.contains(&sub));
    let mut s = MarketdataSession::new();
    s.subscribe("Y", SubscriptionLevel::Level1);
    s.subscription_refused(&Subscription::Level { symbol: "Y".to_string(), level: SubscriptionLevel::Level1 });
    assert_eq!(s.subscriptions().len(), 0);
}

#[test]
fn requests_are_routed_once() {
    let mut t = RequestTracker::new();
    let a = t.allocate_id();
    let b = t.allocate_id();
    assert_eq!((a, b), (1, 2));
    t.record(a, OrderGatewayRequestType::PlaceOrder);
    t.record(b, OrderGatewayRequestType::CancelOrder);
    assert_eq!(t.resolve(Some(2)), ResponseRoute::Route { request_id: 2, kind: OrderGatewayRequestType::CancelOrder });
    assert_eq!(t.resolve(Some(2)), ResponseRoute::Unknown { request_id: 2 });
    assert_eq!(t.resolve(None), ResponseRoute::NoRequestId);
    assert_eq!(t.resolve(Some(1)), ResponseRoute::Route { request_id: 1, kind: OrderGatewayRequestType::PlaceOrder });
    let c = session_cancel_order(OrderReference::OrderId(OrderId::new_unchecked("O-1".to_string())));
    assert!(c.account_id.is_none());
    let all = session_cancel_all_orders(Some("BTC-PERP"));
    assert_eq!(all.symbol.as_deref(), Some("BTC-PERP"));
}

#[test]
fn endpoints_are_derived() {
    assert_eq!(ws_scheme("http", false), Some("ws"));
    assert_eq!(ws_scheme("https", false), Some("wss"));
    assert_eq!(ws_scheme("ws", false), None);
    assert_eq!(ws_scheme("wss", true), Some("wss"));
    assert_eq!(ws_scheme("ftp", true), None);
    assert_eq!(host_of_authority("user:pw@example.com:8080"), "example.com:8080");
    assert_eq!(host_of_authority("example.com"), "example.com");
    assert_eq!(host_of_authority("a@b@c"), "b@c");
    let q = session_query(true, Some("acct-1"));
    assert_eq!(
        q,
        vec![
            ("cancel_on_disconnect".to_string(), "true".to_string()),
            ("account_id".to_string(), "acct-1".to_string())
        ]
    );
    assert!(session_query(false, None).is_empty());
    assert!(HttpMethod::Patch.sends_json_body());
    assert!(!HttpMethod::Get.sends_json_body());
    assert!(status_is_success(204));
    assert!(!status_is_success(404));
}

#[test]
fn tokens_expire() {
    let now = UtcTime { secs: 1000, nanos: 0 };
    let later = UtcTime { secs: 2000, nanos: 0 };
    let mut slot = TokenSlot::new();
    assert_eq!(slot.token(now), Err(TokenError::NotAvailable));
    slot.set_token("tok".to_string(), later);
    assert_eq!(slot.token(now), Ok("tok"));
    assert_eq!(slot.token(UtcTime { secs: 2000, nanos: 1 }), Err(TokenError::Expired));
    assert_eq!(TokenError::Expired.message(), "token expired");
    assert_eq!(token_expiry(now), UtcTime { secs: 4300, nanos: 0 });

    assert_eq!(refresh_decision(Some(("tok", later)), now, false, false, false), RefreshDecision::UseStored("tok".to_string()));
    assert_eq!(refresh_decision(Some(("tok", later)), now, true, true, true), RefreshDecision::Authenticate);
    assert_eq!(refresh_decision(Some(("tok", now)), later, false, false, true), RefreshDecision::MissingApiKey);
    assert_eq!(refresh_decision(None, now, false, true, false), RefreshDecision::MissingSecret);
    assert_eq!(RefreshDecision::MissingSecret.message(), "no secret provided");
    assert_eq!(usable_token(Some(("tok", later)), now), Some(("tok".to_string(), later)));
    assert_eq!(usable_token(Some(("tok", now)), later), None);
}
