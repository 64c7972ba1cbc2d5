use market_feed::exchanges::{build, init_exchanges, Exchange, ExchangeError, ExchangeKind, Market};
use market_feed::metadata::{parse_markets_response, MetadataPoller, PollOutcome};
use market_feed::registry::MarketRegistry;

fn m(s: &str) -> Market {
    Market { symbol: s.to_string() }
}

#[test]
fn last_upsert_wins() {
    let mut r = MarketRegistry::new();
    r.upsert("ftx", vec![m("A/USD")]);
    r.upsert("other", vec![m("B/USD")]);
    r.upsert("ftx", vec![m("C/USD"), m("D/USD")]);
    let all = r.snapshot_all();
    assert_eq!(all.len(), 2);
    let ftx = all.iter().find(|e| e.0 == "ftx").unwrap();
    assert_eq!(ftx.1, vec![m("C/USD"), m("D/USD")]);
    assert_eq!(r.get("other"), Some(vec![m("B/USD")]));
    assert_eq!(r.get("missing"), None);
}

#[test]
fn one_poll_cycle_fills_the_registry() {
    let mut reg = MarketRegistry::new();
    let mut p = MetadataPoller::new("ftx".to_string());
    assert!(p.on_tick());
    let res = parse_markets_response(r#"{"success":true,"result":[{"symbol":"BTC/USD"}]}"#);
    assert_eq!(p.on_result(&mut reg, res), PollOutcome::Stored { count: 1 });
    assert_eq!(reg.get("ftx"), Some(vec![m("BTC/USD")]));
}

#[test]
fn failed_poll_keeps_schedule_and_entry() {
    let mut reg = MarketRegistry::new();
    let mut p = MetadataPoller::new("ftx".to_string());
    p.on_result(&mut reg, Ok(vec![m("BTC/USD")]));
    let res = parse_markets_response(r#"{"success":false,"error":"down"}"#);
    assert_eq!(
        p.on_result(&mut reg, res),
        PollOutcome::Reported { error: ExchangeError::Metadata("bad markets response: down".to_string()) }
    );
    assert!(p.on_tick());
    assert_eq!(p.consecutive_failures, 1);
    assert_eq!(reg.get("ftx"), Some(vec![m("BTC/USD")]));
    p.on_result(&mut reg, Ok(vec![m("ETH/USD")]));
    assert_eq!(p.consecutive_failures, 0);
    assert_eq!(reg.get("ftx"), Some(vec![m("ETH/USD")]));
    p.stop();
    assert!(!p.on_tick());
}

#[test]
fn markets_response_variants() {
    assert_eq!(
        parse_markets_response(r#"{"success":true,"result":[{"name":"ETH/USD","type":"spot"},{"symbol":"BTC/USD"}]}"#),
        Ok(vec![m("ETH/USD"), m("BTC/USD")])
    );
    assert_eq!(parse_markets_response(r#"{"success":true,"result":[]}"#), Ok(vec![]));
    assert_eq!(
        parse_markets_response(r#"{"success":true}"#),
        Err(ExchangeError::Metadata("markets response without result".to_string()))
    );
    assert_eq!(
        parse_markets_response("<html>"),
        Err(ExchangeError::Metadata("markets response without success flag".to_string()))
    );
    assert_eq!(
        parse_markets_response(r#"{"success":true,"result":[{"price":1}]}"#),
        Err(ExchangeError::Metadata("market without symbol".to_string()))
    );
    assert_eq!(
        parse_markets_response(r#"{"success":false}"#),
        Err(ExchangeError::Metadata("bad markets response".to_string()))
    );
}

#[test]
fn exchanges_are_built_per_kind() {
    let xs = init_exchanges(&vec![ExchangeKind::Ftx, ExchangeKind::FtxTest]);
    assert_eq!(xs.len(), 2);
    assert_eq!(xs[0].get_id(), "ftx");
    assert_eq!(xs[1].get_id(), "ftx-test");
    assert!(xs[0].is_active() && xs[1].is_active());
    let f = build("x".to_string());
    assert_eq!(f.get_id(), "x");
    assert_eq!(f.get_id(), "x");
    assert!(build("ftx".to_string()).is_active());
}

#[test]
fn errors_describe_their_kind() {
    assert_eq!(ExchangeError::Desync("late".to_string()).describe(), "desync error: late");
    assert_eq!(ExchangeError::Transport("eof".to_string()).describe(), "transport error: eof");
}
