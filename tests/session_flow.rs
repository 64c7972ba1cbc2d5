use market_feed::exchanges::{Decimal, ExchangeError, OrderbookItem};
use market_feed::book::BookUpdate;
use market_feed::protocol::{parse_book_message, parse_subscribe_ack, InboundFrame, WsRequest};
use market_feed::session::{
    EngineAction, EngineEvent, EngineState, SessionControl, SyncEngine, INITIAL_BACKOFF_MS,
    LIVENESS_TIMEOUT_MS, MAX_BACKOFF_MS,
};

fn streaming_engine(now: u64) -> SyncEngine {
    let mut e = SyncEngine::new();
    assert_eq!(e.handle(EngineEvent::RetryDue), EngineAction::Connect);
    assert_eq!(e.handle(EngineEvent::Connected { now_ms: now }), EngineAction::SendSubscribe);
    assert_eq!(e.handle(EngineEvent::SubscribeAcked { now_ms: now }), EngineAction::Idle);
    assert_eq!(e.control.state, EngineState::Streaming);
    e
}

fn one_level() -> BookUpdate {
    let l = OrderbookItem { id: 0, price: Decimal { units: 100 }, size: Decimal { units: 1 } };
    BookUpdate { partial: true, asks: vec![l], bids: vec![], updated_at: 1, received_at: 1 }
}

#[test]
fn requests_are_written_as_json() {
    assert_eq!(WsRequest::ping().json(), r#"{"op":"ping"}"#);
    assert_eq!(
        WsRequest::subscribe("orderbook", "BTC/USD").json(),
        r#"{"op":"subscribe","market":"BTC/USD","channel":"orderbook"}"#
    );
}

#[test]
fn subscribe_ack_is_accepted() {
    let f = InboundFrame::Text(r#"{"type":"subscribed","channel":"orderbook","market":"BTC/USD"}"#.to_string());
    let ack = parse_subscribe_ack(&f).unwrap();
    assert_eq!(ack.channel, "orderbook");
    assert_eq!(ack.market, "BTC/USD");
}

#[test]
fn bad_acks_are_protocol_errors() {
    let err = |t: &str| parse_subscribe_ack(&InboundFrame::Text(t.to_string()));
    assert!(matches!(err(r#"{"type":"error","code":400,"msg":"no"}"#), Err(ExchangeError::Protocol(_))));
    assert!(matches!(err(r#"{"type":"subscribed"}"#), Err(ExchangeError::Protocol(_))));
    assert!(matches!(err("not json"), Err(ExchangeError::Protocol(_))));
    assert!(matches!(parse_subscribe_ack(&InboundFrame::Other), Err(ExchangeError::Protocol(_))));
}

#[test]
fn silence_past_liveness_timeout_reconnects() {
    let mut e = streaming_engine(1_000);
    assert!(e.apply_book_update(&one_level()));
    assert_eq!(e.snapshot.asks.len(), 1);
    assert_eq!(e.handle(EngineEvent::Tick { now_ms: 1_000 + LIVENESS_TIMEOUT_MS }), EngineAction::SendPing);
    let a = e.handle(EngineEvent::Tick { now_ms: 1_001 + LIVENESS_TIMEOUT_MS });
    assert_eq!(a, EngineAction::Reconnect { delay_ms: INITIAL_BACKOFF_MS });
    assert_eq!(e.control.state, EngineState::Disconnected);
    assert!(e.snapshot.asks.is_empty() && e.snapshot.bids.is_empty());
    assert_eq!(e.handle(EngineEvent::RetryDue), EngineAction::Connect);
    assert_eq!(e.control.state, EngineState::Connecting);
}

#[test]
fn ack_then_close_reconnects_with_empty_book() {
    let mut e = SyncEngine::new();
    e.handle(EngineEvent::RetryDue);
    e.handle(EngineEvent::Connected { now_ms: 0 });
    let f = InboundFrame::Text(r#"{"type":"subscribed","channel":"orderbook","market":"BTC/USD"}"#.to_string());
    assert!(parse_subscribe_ack(&f).is_ok());
    e.handle(EngineEvent::SubscribeAcked { now_ms: 0 });
    e.apply_book_update(&one_level());
    let a = e.handle(EngineEvent::TransportFailed);
    assert_eq!(a, EngineAction::Reconnect { delay_ms: INITIAL_BACKOFF_MS });
    assert!(e.snapshot.asks.is_empty() && e.snapshot.bids.is_empty());
    assert_eq!(e.handle(EngineEvent::RetryDue), EngineAction::Connect);
}

#[test]
fn pings_every_interval() {
    let mut e = streaming_engine(0);
    assert_eq!(e.handle(EngineEvent::Tick { now_ms: 14_999 }), EngineAction::Idle);
    e.handle(EngineEvent::Inbound { now_ms: 14_999 });
    assert_eq!(e.handle(EngineEvent::Tick { now_ms: 15_000 }), EngineAction::SendPing);
    assert_eq!(e.handle(EngineEvent::Tick { now_ms: 20_000 }), EngineAction::Idle);
    assert_eq!(e.handle(EngineEvent::Tick { now_ms: 30_000 }), EngineAction::SendPing);
}

#[test]
fn backoff_doubles_up_to_cap_and_resets() {
    let mut c = SessionControl::new();
    let mut delays = Vec::new();
    for _ in 0..7 {
        assert_eq!(c.step(EngineEvent::RetryDue), EngineAction::Connect);
        match c.step(EngineEvent::TransportFailed) {
            EngineAction::Reconnect { delay_ms } => delays.push(delay_ms),
            other => panic!("unexpected {:?}", other),
        }
    }
    assert_eq!(delays, vec![1_000, 2_000, 4_000, 8_000, 16_000, 30_000, 30_000]);
    assert_eq!(c.backoff_ms, MAX_BACKOFF_MS);
    c.step(EngineEvent::RetryDue);
    c.step(EngineEvent::Connected { now_ms: 5 });
    assert_eq!(c.step(EngineEvent::SubscribeRejected), EngineAction::Reconnect { delay_ms: MAX_BACKOFF_MS });
    c.step(EngineEvent::RetryDue);
    c.step(EngineEvent::Connected { now_ms: 6 });
    c.step(EngineEvent::SubscribeAcked { now_ms: 6 });
    assert_eq!(c.backoff_ms, INITIAL_BACKOFF_MS);
}

#[test]
fn overflow_is_a_desync_reconnect() {
    let mut e = streaming_engine(0);
    assert_eq!(e.handle(EngineEvent::QueueOverflow), EngineAction::Reconnect { delay_ms: INITIAL_BACKOFF_MS });
}

#[test]
fn shutdown_stops_for_good() {
    let mut e = streaming_engine(0);
    assert_eq!(e.handle(EngineEvent::Shutdown), EngineAction::Stop);
    assert_eq!(e.handle(EngineEvent::RetryDue), EngineAction::Stop);
    assert_eq!(e.control.state, EngineState::Stopped);
}

#[test]
fn updates_outside_streaming_are_dropped() {
    let mut e = SyncEngine::new();
    assert!(!e.apply_book_update(&one_level()));
    assert!(e.snapshot.asks.is_empty());
}

#[test]
fn new_engine_starts_with_an_empty_book() {
    let e = SyncEngine::new();
    assert!(e.snapshot.asks.is_empty() && e.snapshot.bids.is_empty());
    assert_eq!((e.snapshot.updated_at, e.snapshot.received_at), (0, 0));
    assert_eq!(e.control.state, EngineState::Disconnected);
}

#[test]
fn received_messages_are_applied_in_order() {
    let mut e = streaming_engine(0);
    let full = r#"{"type":"partial","data":{"time":2,"bids":[[99,1]],"asks":[[101,1],[102,1]]}}"#;
    let change = r#"{"type":"update","data":{"time":1,"bids":[[100,2]],"asks":[[101,0]]}}"#;
    let m1 = parse_book_message(full, 10);
    assert_eq!(e.receive(m1, 10), EngineAction::Idle);
    let m2 = parse_book_message(change, 11);
    assert_eq!(e.receive(m2, 11), EngineAction::Idle);
    let p = |units: i128| Decimal { units: units * 1_000_000_000 };
    let asks: Vec<i128> = e.snapshot.asks.iter().map(|l| l.price.units).collect();
    let bids: Vec<i128> = e.snapshot.bids.iter().map(|l| l.price.units).collect();
    assert_eq!(asks, vec![p(102).units]);
    assert_eq!(bids, vec![p(100).units, p(99).units]);
    assert_eq!(e.snapshot.updated_at, 2_000);
    assert_eq!(e.snapshot.received_at, 11);
    assert_eq!(e.control.last_inbound_ms, 11);
}

#[test]
fn unreadable_book_message_forces_resubscription() {
    let mut e = streaming_engine(0);
    e.apply_book_update(&one_level());
    let bad = parse_book_message(r#"{"type":"update","data":{"bids":[["x",1]],"asks":[]}}"#, 5);
    assert!(bad.is_err());
    assert_eq!(e.receive(bad, 5), EngineAction::Reconnect { delay_ms: INITIAL_BACKOFF_MS });
    assert_eq!(e.control.state, EngineState::Disconnected);
    assert!(e.snapshot.asks.is_empty() && e.snapshot.bids.is_empty());
    assert_eq!(e.snapshot.updated_at, 1);
}

#[test]
fn messages_outside_streaming_change_nothing() {
    let mut e = SyncEngine::new();
    let bad: Result<Option<BookUpdate>, ExchangeError> = Err(ExchangeError::Protocol("x".to_string()));
    assert_eq!(e.receive(bad, 5), EngineAction::Idle);
    assert_eq!(e.control.state, EngineState::Disconnected);
}
