use market_feed::book::{apply_level, BookUpdate};
use market_feed::decimal::parse_decimal;
use market_feed::exchanges::{take_top_n, Decimal, OrderbookItem, OrderbookSnapshot};
use market_feed::protocol::parse_book_message;

fn item(id: i128, price: i128, size: i128) -> OrderbookItem {
    OrderbookItem { id, price: Decimal { units: price }, size: Decimal { units: size } }
}

fn book(asks: Vec<OrderbookItem>, bids: Vec<OrderbookItem>) -> OrderbookSnapshot {
    OrderbookSnapshot { asks, bids, updated_at: 7, received_at: 9 }
}

#[test]
fn top_returns_both_asks_unchanged() {
    let asks = vec![item(1, 100, 1), item(2, 101, 2)];
    let s = book(asks.clone(), vec![]);
    let t = s.top(10);
    assert_eq!(t.asks, asks);
    assert!(t.bids.is_empty());
    assert_eq!(t.updated_at, 7);
    assert_eq!(t.received_at, 9);
}

#[test]
fn top_bounds_each_side_by_its_own_length() {
    let asks: Vec<OrderbookItem> = (0..5).map(|i| item(i, 100 + i, 1)).collect();
    let bids: Vec<OrderbookItem> = (0..2).map(|i| item(10 + i, 99 - i, 3)).collect();
    let s = book(asks.clone(), bids.clone());
    let t = s.top(3);
    assert_eq!(t.asks, asks[0..3].to_vec());
    assert_eq!(t.bids, bids);
    let none = s.top(0);
    assert!(none.asks.is_empty() && none.bids.is_empty());
}

#[test]
fn head_takes_ten_levels_per_side() {
    let asks: Vec<OrderbookItem> = (0..12).map(|i| item(i, 100 + i, 1)).collect();
    let bids: Vec<OrderbookItem> = (0..11).map(|i| item(i, 99 - i, 1)).collect();
    let t = book(asks.clone(), bids.clone()).head();
    assert_eq!(t.asks, asks[0..10].to_vec());
    assert_eq!(t.bids, bids[0..10].to_vec());
}

#[test]
fn take_top_n_of_empty_side() {
    assert!(take_top_n(&vec![], 4).is_empty());
}

#[test]
fn decimal_text_is_read_exactly() {
    assert_eq!(parse_decimal("43210.5"), Some(Decimal { units: 43_210_500_000_000 }));
    assert_eq!(parse_decimal("-0.125"), Some(Decimal { units: -125_000_000 }));
    assert_eq!(parse_decimal("7"), Some(Decimal { units: 7_000_000_000 }));
    assert_eq!(parse_decimal("0.000000001"), Some(Decimal { units: 1 }));
    assert_eq!(parse_decimal("1e-7"), None);
    assert_eq!(parse_decimal(""), None);
    assert_eq!(parse_decimal(".5"), None);
    assert_eq!(parse_decimal("1."), None);
    assert_eq!(parse_decimal("0.0000000001"), None);
    assert_eq!(parse_decimal("-"), None);
}

#[test]
fn level_changes_keep_sides_ordered() {
    let mut asks = vec![item(0, 100, 1), item(0, 102, 1)];
    apply_level(&mut asks, true, item(0, 101, 5));
    assert_eq!(asks, vec![item(0, 100, 1), item(0, 101, 5), item(0, 102, 1)]);
    apply_level(&mut asks, true, item(0, 100, 0));
    assert_eq!(asks, vec![item(0, 101, 5), item(0, 102, 1)]);
    apply_level(&mut asks, true, item(0, 102, 4));
    assert_eq!(asks, vec![item(0, 101, 5), item(0, 102, 4)]);
    apply_level(&mut asks, true, item(0, 200, 0));
    assert_eq!(asks, vec![item(0, 101, 5), item(0, 102, 4)]);

    let mut bids = vec![item(0, 99, 1)];
    apply_level(&mut bids, false, item(0, 98, 2));
    apply_level(&mut bids, false, item(0, 100, 3));
    assert_eq!(bids, vec![item(0, 100, 3), item(0, 99, 1), item(0, 98, 2)]);
}

#[test]
fn partial_replaces_and_update_amends() {
    let mut s = OrderbookSnapshot::empty();
    s.asks.push(item(0, 500, 1));
    let partial = BookUpdate {
        partial: true,
        asks: vec![item(0, 102, 1), item(0, 101, 2)],
        bids: vec![item(0, 99, 1), item(0, 100, 1)],
        updated_at: 10,
        received_at: 11,
    };
    s.apply_update(&partial);
    assert_eq!(s.asks, vec![item(0, 101, 2), item(0, 102, 1)]);
    assert_eq!(s.bids, vec![item(0, 100, 1), item(0, 99, 1)]);
    let update = BookUpdate {
        partial: false,
        asks: vec![item(0, 101, 0)],
        bids: vec![item(0, 98, 4)],
        updated_at: 5,
        received_at: 20,
    };
    s.apply_update(&update);
    assert_eq!(s.asks, vec![item(0, 102, 1)]);
    assert_eq!(s.bids, vec![item(0, 100, 1), item(0, 99, 1), item(0, 98, 4)]);
    assert_eq!(s.updated_at, 10);
    assert_eq!(s.received_at, 20);
}

#[test]
fn book_message_is_read() {
    let text = r#"{"channel":"orderbook","market":"BTC/USD","type":"partial","data":{"time":1616000000.25,"checksum":1,"bids":[[43210.5,1.5]],"asks":[[43211.0,0.25],[43212.0,2.0]],"action":"partial"}}"#;
    let u = parse_book_message(text, 42).unwrap().unwrap();
    assert!(u.partial);
    assert_eq!(u.bids, vec![item(0, 43_210_500_000_000, 1_500_000_000)]);
    assert_eq!(
        u.asks,
        vec![item(0, 43_211_000_000_000, 250_000_000), item(0, 43_212_000_000_000, 2_000_000_000)]
    );
    assert_eq!(u.updated_at, 1_616_000_000_250);
    assert_eq!(u.received_at, 42);
}

#[test]
fn non_book_message_is_passed_over() {
    assert!(matches!(parse_book_message(r#"{"type":"pong"}"#, 1), Ok(None)));
}

#[test]
fn unreadable_levels_are_a_protocol_error() {
    let text = r#"{"type":"update","data":{"bids":[["x",1]],"asks":[]}}"#;
    assert!(matches!(
        parse_book_message(text, 1),
        Err(market_feed::exchanges::ExchangeError::Protocol(_))
    ));
}

#[test]
fn tiny_sizes_keep_their_digits() {
    let text = r#"{"type":"update","data":{"bids":[[0.000001,0.0000005]],"asks":[[100.50,1.10]]}}"#;
    let u = parse_book_message(text, 3).unwrap().unwrap();
    assert!(!u.partial);
    assert_eq!(u.bids, vec![item(0, 1_000, 500)]);
    assert_eq!(u.asks, vec![item(0, 100_500_000_000, 1_100_000_000)]);
    assert_eq!(u.updated_at, 0);
}
