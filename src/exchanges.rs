use vstd::prelude::*;

verus! {

/// Number of fractional decimal digits carried by a `Decimal`.
pub const DECIMAL_PLACES: u32 = 9;

/// Depth of the default top-of-book view.
pub const HEAD_DEPTH: usize = 10;

/// One tradable instrument on one exchange.
#[derive(Debug, PartialEq, Eq)]
pub struct Market {
    pub symbol: String,
}

impl Market {
    /// A copy of this market that keeps its symbol.
    pub fn duplicate(&self) -> (r: Market)
        ensures
            r == *self,
    {
        Market { symbol: self.symbol.clone() }
    }
}

/// Copies a list of markets element by element.
pub fn copy_markets(v: &Vec<Market>) -> (r: Vec<Market>)
    ensures
        r@ == v@,
{
    let mut r: Vec<Market> = Vec::new();
    let mut i: usize = 0;
    while i < v.len()
        invariant
            i <= v.len(),
            r@ == v@.subrange(0, i as int),
        decreases v.len() - i,
    {
        r.push(v[i].duplicate());
        i = i + 1;
    }
    assert(r@ =~= v@);
    r
}

/// Why a call on an exchange failed.
#[derive(Debug, PartialEq, Eq)]
pub enum ExchangeError {
    /// Connect, read or write failure.
    Transport(String),
    /// Unexpected message shape or failed subscription.
    Protocol(String),
    /// Non-success metadata response or unparsable body.
    Metadata(String),
    /// Queue overflow or liveness timeout.
    Desync(String),
}

impl ExchangeError {
    /// The error's kind and message, for reports.
    pub fn describe(&self) -> (r: String)
        ensures
            r@ == match self {
                ExchangeError::Transport(m) => "transport error: "@ + m@,
                ExchangeError::Protocol(m) => "protocol error: "@ + m@,
                ExchangeError::Metadata(m) => "metadata error: "@ + m@,
                ExchangeError::Desync(m) => "desync error: "@ + m@,
            },
    {
        match self {
            ExchangeError::Transport(m) => String::from_str("transport error: ").concat(m.as_str()),
            ExchangeError::Protocol(m) => String::from_str("protocol error: ").concat(m.as_str()),
            ExchangeError::Metadata(m) => String::from_str("metadata error: ").concat(m.as_str()),
            ExchangeError::Desync(m) => String::from_str("desync error: ").concat(m.as_str()),
        }
    }
}

/// The capabilities every supported exchange offers to the scheduler; the
/// network-facing ones are provided by the driver around the library.
pub trait Exchange {
    /// Stable identity, used as the registry key.
    fn get_id(&self) -> String;

    /// Whether this exchange is scheduled at all.
    fn is_active(&self) -> bool;
}

/// The FTX dialect of the streaming and REST interfaces.
pub struct Ftx {
    pub id: String,
    pub active: bool,
}

/// A new active FTX exchange under identity `id`.
pub fn build(id: String) -> (r: Ftx)
    ensures
        r.id == id,
        r.active,
{
    Ftx { id, active: true }
}

impl Exchange for Ftx {
    fn get_id(&self) -> (r: String)
        ensures
            r@ == self.id@,
    {
        self.id.clone()
    }

    fn is_active(&self) -> (r: bool)
        ensures
            r == self.active,
    {
        self.active
    }
}

/// The exchange identities this build knows how to drive.
#[derive(Clone, Copy, Debug, PartialEq, Eq, Structural)]
pub enum ExchangeKind {
    Ftx,
    FtxTest,
}

impl ExchangeKind {
    /// The identity string of this kind.
    pub fn id(&self) -> (r: &'static str)
        ensures
            *self == ExchangeKind::Ftx ==> r@ == "ftx"@,
            *self == ExchangeKind::FtxTest ==> r@ == "ftx-test"@,
    {
        match self {
            ExchangeKind::Ftx => "ftx",
            ExchangeKind::FtxTest => "ftx-test",
        }
    }
}

/// One exchange instance per configured kind, in order.
pub fn init_exchanges(kinds: &Vec<ExchangeKind>) -> (r: Vec<Ftx>)
    ensures
        r@.len() == kinds@.len(),
        forall|i: int| 0 <= i < r@.len() ==> r@[i].active,
        forall|i: int| 0 <= i < r@.len() ==> (kinds@[i] == ExchangeKind::Ftx ==> r@[i].id@ == "ftx"@),
        forall|i: int| 0 <= i < r@.len() ==> (kinds@[i] == ExchangeKind::FtxTest ==> r@[i].id@ == "ftx-test"@),
{
    let mut r: Vec<Ftx> = Vec::new();
    let mut i: usize = 0;
    while i < kinds.len()
        invariant
            i <= kinds@.len(),
            r@.len() == i,
            forall|j: int| 0 <= j < i ==> r@[j].active,
            forall|j: int| 0 <= j < i ==> (kinds@[j] == ExchangeKind::Ftx ==> r@[j].id@ == "ftx"@),
            forall|j: int| 0 <= j < i ==> (kinds@[j] == ExchangeKind::FtxTest ==> r@[j].id@ == "ftx-test"@),
        decreases kinds.len() - i,
    {
        let id = kinds[i].id();
        r.push(build(String::from_str(id)));
        i = i + 1;
    }
    r
}

/// An exact fixed-point decimal: the value is `units / 10^DECIMAL_PLACES`.
#[derive(Clone, Copy, Debug, PartialEq, Eq, Structural)]
pub struct Decimal {
    pub units: i128,
}

/// One price level (or update) of an order book.
#[derive(Clone, Copy, Debug, PartialEq, Eq, Structural)]
pub struct OrderbookItem {
    pub id: i128,
    pub size: Decimal,
    pub price: Decimal,
}

/// Whether price `a` ranks before price `b` on a side: lower first for
/// asks (`ascending`), higher first for bids.
pub open spec fn ranks_before(a: i128, b: i128, ascending: bool) -> bool {
    if ascending { a < b } else { a > b }
}

/// A side strictly ordered by price, best level first.
pub open spec fn side_ordered(s: Seq<OrderbookItem>, ascending: bool) -> bool {
    forall|i: int, j: int| 0 <= i < j < s.len() ==> ranks_before(s[i].price.units, s[j].price.units, ascending)
}

/// Asks strictly ascending by price.
pub open spec fn asks_ordered(s: Seq<OrderbookItem>) -> bool {
    side_ordered(s, true)
}

/// Bids strictly descending by price.
pub open spec fn bids_ordered(s: Seq<OrderbookItem>) -> bool {
    side_ordered(s, false)
}

/// The engine's current view of one market's book.
#[derive(Debug)]
pub struct OrderbookSnapshot {
    pub asks: Vec<OrderbookItem>,
    pub bids: Vec<OrderbookItem>,
    pub updated_at: u128,
    pub received_at: u128,
}

/// A read-only projection of the best levels of a snapshot.
#[derive(Debug)]
pub struct TopOfBook {
    pub asks: Vec<OrderbookItem>,
    pub bids: Vec<OrderbookItem>,
    pub updated_at: u128,
    pub received_at: u128,
}

pub open spec fn min_len(n: int, len: int) -> int {
    if n < len { n } else { len }
}

/// The first `min(n, len)` entries of `side`, unchanged and in order.
pub fn take_top_n(side: &Vec<OrderbookItem>, n: usize) -> (r: Vec<OrderbookItem>)
    ensures
        r@ == side@.subrange(0, min_len(n as int, side@.len() as int)),
{
    let mut r: Vec<OrderbookItem> = Vec::new();
    let mut i: usize = 0;
    while i < n && i < side.len()
        invariant
            i <= side.len(),
            i <= n,
            r@ == side@.subrange(0, i as int),
        decreases side.len() - i,
    {
        r.push(side[i]);
        i = i + 1;
    }
    assert(r@ =~= side@.subrange(0, min_len(n as int, side@.len() as int)));
    r
}

impl OrderbookSnapshot {
    /// An empty book with both timestamps at zero.
    pub fn empty() -> (r: OrderbookSnapshot)
        ensures
            r.asks@.len() == 0,
            r.bids@.len() == 0,
            r.updated_at == 0,
            r.received_at == 0,
    {
        OrderbookSnapshot { asks: Vec::new(), bids: Vec::new(), updated_at: 0, received_at: 0 }
    }

    /// The best `depth` levels of each side, each taken from its own side.
    pub fn top(&self, depth: usize) -> (r: TopOfBook)
        ensures
            r.asks@ == self.asks@.subrange(0, min_len(depth as int, self.asks@.len() as int)),
            r.bids@ == self.bids@.subrange(0, min_len(depth as int, self.bids@.len() as int)),
            r.updated_at == self.updated_at,
            r.received_at == self.received_at,
    {
        TopOfBook {
            asks: take_top_n(&self.asks, depth),
            bids: take_top_n(&self.bids, depth),
            updated_at: self.updated_at,
            received_at: self.received_at,
        }
    }

    /// The best `HEAD_DEPTH` levels of each side.
    pub fn head(&self) -> (r: TopOfBook)
        ensures
            r.asks@ == self.asks@.subrange(0, min_len(HEAD_DEPTH as int, self.asks@.len() as int)),
            r.bids@ == self.bids@.subrange(0, min_len(HEAD_DEPTH as int, self.bids@.len() as int)),
            r.updated_at == self.updated_at,
            r.received_at == self.received_at,
    {
        self.top(HEAD_DEPTH)
    }
}

/// Top-of-book law: each side of the view has `min(n, len)` entries, and
/// each entry is the entry at the same position of the same side of the
/// snapshot, never one of the other side.
pub proof fn lemma_top_takes_own_side(s: Seq<OrderbookItem>, n: nat, t: Seq<OrderbookItem>)
    requires
        t == s.subrange(0, min_len(n as int, s.len() as int)),
    ensures
        t.len() == min_len(n as int, s.len() as int),
        t.len() <= n,
        t.len() <= s.len(),
        forall|i: int| 0 <= i < t.len() ==> t[i] == s[i],
{
}

} // verus!
