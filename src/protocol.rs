use vstd::prelude::*;

use crate::book::BookUpdate;
use crate::decimal::{decimal_text, decimal_units, parse_decimal};
use crate::exchanges::{Decimal, ExchangeError, OrderbookItem};
use crate::json::{
    elements, json_elements, json_member, json_quoted, json_str_field, member, needs_no_escape, opt_view,
    plain_quoted, quote, str_field,
};

verus! {

/// A request sent on the streaming connection.
#[derive(Debug)]
pub struct WsRequest {
    pub op: &'static str,
    pub market: Option<&'static str>,
    pub channel: Option<&'static str>,
}

/// `,"<key>":<quoted value>` when the value is present, nothing otherwise.
pub open spec fn optional_member(key: Seq<char>, value: Option<&'static str>) -> Seq<char> {
    match value {
        Some(v) => ","@ + json_quoted(key) + ":"@ + json_quoted(v@),
        None => Seq::empty(),
    }
}

/// The JSON object text of a request: `op`, then `market` and `channel`
/// when present, in that order.
pub open spec fn request_json(r: WsRequest) -> Seq<char> {
    "{"@ + json_quoted("op"@) + ":"@ + json_quoted(r.op@) + optional_member("market"@, r.market)
        + optional_member("channel"@, r.channel) + "}"@
}

/// `,"<key>":"<value>"` when the value is present, nothing otherwise,
/// for text that needs no escaping.
pub open spec fn plain_optional_member(key: Seq<char>, value: Option<&'static str>) -> Seq<char> {
    match value {
        Some(v) => ","@ + plain_quoted(key) + ":"@ + plain_quoted(v@),
        None => Seq::empty(),
    }
}

/// Whether every string of a request needs no escaping.
pub open spec fn request_is_plain(r: WsRequest) -> bool {
    &&& needs_no_escape(r.op@)
    &&& r.market matches Some(m) ==> needs_no_escape(m@)
    &&& r.channel matches Some(c) ==> needs_no_escape(c@)
}

/// The exact wire text of a request whose strings need no escaping.
pub open spec fn plain_request_json(r: WsRequest) -> Seq<char> {
    "{"@ + plain_quoted("op"@) + ":"@ + plain_quoted(r.op@) + plain_optional_member("market"@, r.market)
        + plain_optional_member("channel"@, r.channel) + "}"@
}

fn push_member(out: &mut String, lead: &str, key: &str, value: &str)
    ensures
        final(out)@ == old(out)@ + lead@ + json_quoted(key@) + ":"@ + json_quoted(value@),
        needs_no_escape(key@) && needs_no_escape(value@) ==> json_quoted(key@) == plain_quoted(key@)
            && json_quoted(value@) == plain_quoted(value@),
{
    out.append(lead);
    let k = quote(key);
    out.append(k.as_str());
    out.append(":");
    let v = quote(value);
    out.append(v.as_str());
}

impl WsRequest {
    /// The keepalive request.
    pub fn ping() -> (r: WsRequest)
        ensures
            r.op@ == "ping"@,
            r.market is None,
            r.channel is None,
    {
        WsRequest { op: "ping", market: None, channel: None }
    }

    /// The request to subscribe to `channel` for `market`.
    pub fn subscribe(channel: &'static str, market: &'static str) -> (r: WsRequest)
        ensures
            r.op@ == "subscribe"@,
            r.market == Some(market),
            r.channel == Some(channel),
    {
        WsRequest { op: "subscribe", market: Some(market), channel: Some(channel) }
    }

    /// The request as JSON text.
    pub fn json(&self) -> (r: String)
        ensures
            r@ == request_json(*self),
            request_is_plain(*self) ==> r@ == plain_request_json(*self),
    {
        proof {
            reveal_strlit("op");
            reveal_strlit("market");
            reveal_strlit("channel");
        }
        let mut out = String::new();
        push_member(&mut out, "{", "op", self.op);
        if let Some(m) = self.market {
            push_member(&mut out, ",", "market", m);
        }
        if let Some(c) = self.channel {
            push_member(&mut out, ",", "channel", c);
        }
        out.append("}");
        out
    }
}

/// A frame read from the streaming connection: text, or anything else.
#[derive(Debug)]
pub enum InboundFrame {
    Text(String),
    Other,
}

/// A successful subscription acknowledgement.
#[derive(Debug, PartialEq, Eq)]
pub struct SubscribeAck {
    pub channel: String,
    pub market: String,
}

/// The message kind of a response: its `op` member, or else its `type`.
pub open spec fn message_op(text: Seq<char>) -> Option<Seq<char>> {
    match json_str_field(text, "op"@) {
        Some(o) => Some(o),
        None => json_str_field(text, "type"@),
    }
}

/// Whether the parts of a response make a subscription acknowledgement.
pub open spec fn ack_accepted(op: Option<Seq<char>>, channel: Option<Seq<char>>, market: Option<Seq<char>>) -> bool {
    op == Some("subscribed"@) && channel is Some && market is Some
}

/// Decides a subscription response from its `op`, `channel` and `market`.
pub fn classify_ack(op: Option<String>, channel: Option<String>, market: Option<String>) -> (r: Result<
    SubscribeAck,
    ExchangeError,
>)
    ensures
        r is Ok <==> ack_accepted(opt_view(op), opt_view(channel), opt_view(market)),
        r matches Ok(a) ==> Some(a.channel@) == opt_view(channel) && Some(a.market@) == opt_view(market),
        r matches Err(e) ==> e is Protocol,
{
    let subscribed = String::from_str("subscribed");
    match (op, channel, market) {
        (Some(o), Some(c), Some(m)) => {
            if o == subscribed {
                Ok(SubscribeAck { channel: c, market: m })
            } else {
                Err(ExchangeError::Protocol(String::from_str("unexpected response op")))
            }
        },
        (Some(o), _, _) => {
            if o == subscribed {
                Err(ExchangeError::Protocol(String::from_str("acknowledgement without channel or market")))
            } else {
                Err(ExchangeError::Protocol(String::from_str("unexpected response op")))
            }
        },
        _ => Err(ExchangeError::Protocol(String::from_str("response without op"))),
    }
}

/// Checks the single response to a subscribe request.
pub fn parse_subscribe_ack(frame: &InboundFrame) -> (r: Result<SubscribeAck, ExchangeError>)
    ensures
        frame is Other ==> (r matches Err(e) && e is Protocol),
        frame matches InboundFrame::Text(t) ==> {
            &&& r is Ok <==> ack_accepted(message_op(t@), json_str_field(t@, "channel"@), json_str_field(t@, "market"@))
            &&& r matches Ok(a) ==> Some(a.channel@) == json_str_field(t@, "channel"@)
                && Some(a.market@) == json_str_field(t@, "market"@)
            &&& r matches Err(e) ==> e is Protocol
        },
{
    match frame {
        InboundFrame::Text(t) => {
            let op = match str_field(t.as_str(), "op") {
                Some(o) => Some(o),
                None => str_field(t.as_str(), "type"),
            };
            let channel = str_field(t.as_str(), "channel");
            let market = str_field(t.as_str(), "market");
            classify_ack(op, channel, market)
        },
        InboundFrame::Other => Err(ExchangeError::Protocol(String::from_str("non-text response"))),
    }
}

/// A level entry `[price, size]`; the dialect assigns levels no id, so
/// every parsed level carries id zero.
pub open spec fn level_of(entry: Seq<char>) -> Option<OrderbookItem> {
    match json_elements(entry) {
        Some(e) => if e.len() == 2 && decimal_text(e[0]) && decimal_text(e[1]) {
            Some(
                OrderbookItem {
                    id: 0,
                    price: Decimal { units: decimal_units(e[0]) as i128 },
                    size: Decimal { units: decimal_units(e[1]) as i128 },
                },
            )
        } else {
            None
        },
        None => None,
    }
}

/// All entries as levels, in order, if every one of them is a level.
pub open spec fn levels_of(entries: Seq<Seq<char>>) -> Option<Seq<OrderbookItem>>
    decreases entries.len(),
{
    if entries.len() == 0 {
        Some(Seq::empty())
    } else {
        match (levels_of(entries.drop_last()), level_of(entries.last())) {
            (Some(a), Some(l)) => Some(a.push(l)),
            _ => None,
        }
    }
}

/// The levels of the array member `key` of a book message's data.
pub open spec fn side_of(data: Seq<char>, key: Seq<char>) -> Option<Seq<OrderbookItem>> {
    match json_member(data, key) {
        Some(t) => match json_elements(t) {
            Some(es) => levels_of(es),
            None => None,
        },
        None => None,
    }
}

/// The source time of a book message in milliseconds: its `time` member in
/// seconds, when that is non-negative decimal text; zero otherwise.
pub open spec fn time_ms(data: Seq<char>) -> u128 {
    match json_member(data, "time"@) {
        Some(t) => if decimal_text(t) && decimal_units(t) >= 0 {
            (decimal_units(t) / 1000000) as u128
        } else {
            0
        },
        None => 0,
    }
}

/// Whether a message carries book levels: `partial` or `update`.
pub open spec fn is_book_op(op: Option<Seq<char>>) -> bool {
    op == Some("partial"@) || op == Some("update"@)
}

fn parse_level(entry: &str) -> (r: Option<OrderbookItem>)
    ensures
        r == level_of(entry@),
{
    let parts = match elements(entry) {
        Some(p) => p,
        None => return None,
    };
    if parts.len() != 2 {
        return None;
    }
    let price = parse_decimal(parts[0].as_str());
    let size = parse_decimal(parts[1].as_str());
    match (price, size) {
        (Some(p), Some(s)) => Some(OrderbookItem { id: 0, price: p, size: s }),
        _ => None,
    }
}

fn parse_levels(entries: &Vec<String>) -> (r: Option<Vec<OrderbookItem>>)
    ensures
        match r {
            Some(v) => levels_of(entries@.map_values(|s: String| s@)) == Some(v@),
            None => levels_of(entries@.map_values(|s: String| s@)) is None,
        },
{
    let ghost texts = entries@.map_values(|s: String| s@);
    let mut v: Vec<OrderbookItem> = Vec::new();
    let mut i: usize = 0;
    while i < entries.len()
        invariant
            i <= entries@.len(),
            texts == entries@.map_values(|s: String| s@),
            levels_of(texts.subrange(0, i as int)) == Some(v@),
        decreases entries.len() - i,
    {
        let l = parse_level(entries[i].as_str());
        proof {
            let pre = texts.subrange(0, i + 1);
            assert(pre.drop_last() =~= texts.subrange(0, i as int));
            assert(pre.last() == entries@[i as int]@);
        }
        match l {
            Some(x) => v.push(x),
            None => {
                proof {
                    lemma_levels_prefix_none(texts, i + 1);
                }
                return None;
            },
        }
        i = i + 1;
    }
    assert(texts.subrange(0, entries@.len() as int) =~= texts);
    Some(v)
}

proof fn lemma_levels_prefix_none(es: Seq<Seq<char>>, k: int)
    requires
        0 <= k <= es.len(),
        levels_of(es.subrange(0, k)) is None,
    ensures
        levels_of(es) is None,
    decreases es.len() - k,
{
    if k < es.len() {
        let pre = es.subrange(0, k + 1);
        assert(pre.drop_last() =~= es.subrange(0, k));
        lemma_levels_prefix_none(es, k + 1);
    } else {
        assert(es.subrange(0, k) =~= es);
    }
}

fn parse_side(data: &str, key: &str) -> (r: Option<Vec<OrderbookItem>>)
    ensures
        match r {
            Some(v) => side_of(data@, key@) == Some(v@),
            None => side_of(data@, key@) is None,
        },
{
    let t = match member(data, key) {
        Some(t) => t,
        None => return None,
    };
    match elements(t.as_str()) {
        Some(es) => parse_levels(&es),
        None => None,
    }
}

fn parse_time_ms(data: &str) -> (r: u128)
    ensures
        r == time_ms(data@),
{
    match member(data, "time") {
        Some(t) => match parse_decimal(t.as_str()) {
            Some(d) => if d.units >= 0 {
                (d.units / 1000000) as u128
            } else {
                0
            },
            None => 0,
        },
        None => 0,
    }
}

/// Reads a streaming message: `Ok(None)` for anything but a book message,
/// the update it carries for a book message, and a protocol error for a
/// book message whose data or levels cannot be read.
pub fn parse_book_message(text: &str, received_at: u128) -> (r: Result<Option<BookUpdate>, ExchangeError>)
    ensures
        !is_book_op(message_op(text@)) ==> r matches Ok(None),
        is_book_op(message_op(text@)) ==> {
            &&& r is Ok <==> (json_member(text@, "data"@) matches Some(d) && side_of(d, "asks"@) is Some
                && side_of(d, "bids"@) is Some)
            &&& r matches Ok(Some(u)) ==> json_member(text@, "data"@) matches Some(d) && u.partial == (
            message_op(text@) == Some("partial"@)) && Some(u.asks@) == side_of(d, "asks"@) && Some(u.bids@)
                == side_of(d, "bids"@) && u.updated_at == time_ms(d) && u.received_at == received_at
            &&& r matches Ok(o) ==> o is Some
            &&& r matches Err(e) ==> e is Protocol
        },
{
    let op = match str_field(text, "op") {
        Some(o) => Some(o),
        None => str_field(text, "type"),
    };
    let partial = String::from_str("partial");
    let update = String::from_str("update");
    let is_partial = match &op {
        Some(o) => *o == partial,
        None => false,
    };
    let is_update = match &op {
        Some(o) => *o == update,
        None => false,
    };
    if !is_partial && !is_update {
        return Ok(None);
    }
    let data = match member(text, "data") {
        Some(d) => d,
        None => return Err(ExchangeError::Protocol(String::from_str("book message without data"))),
    };
    let asks = match parse_side(data.as_str(), "asks") {
        Some(v) => v,
        None => return Err(ExchangeError::Protocol(String::from_str("unreadable asks"))),
    };
    let bids = match parse_side(data.as_str(), "bids") {
        Some(v) => v,
        None => return Err(ExchangeError::Protocol(String::from_str("unreadable bids"))),
    };
    let updated_at = parse_time_ms(data.as_str());
    Ok(Some(BookUpdate { partial: is_partial, asks, bids, updated_at, received_at }))
}

} // verus!
