use vstd::prelude::*;

use crate::exchanges::{ExchangeError, Market};
use crate::json::{
    bool_field, elements, json_bool_field, json_elements, json_member, json_str_field, member, opt_view, str_field,
};
use crate::registry::MarketRegistry;

verus! {

/// Path of the markets listing under an exchange's REST base URL.
pub const MARKETS_PATH: &'static str = "/api/markets";

/// The symbol of one market object: its `symbol` member, or else its `name`.
pub open spec fn item_symbol(item: Seq<char>) -> Option<Seq<char>> {
    match json_str_field(item, "symbol"@) {
        Some(s) => Some(s),
        None => json_str_field(item, "name"@),
    }
}

/// Every entry is present.
pub open spec fn all_present(v: Seq<Option<String>>) -> bool {
    forall|i: int| 0 <= i < v.len() ==> v[i] is Some
}

/// The message of a non-success response: a fixed lead, then the
/// response's `error` member when there is one.
pub open spec fn failure_message(error: Option<Seq<char>>) -> Seq<char> {
    match error {
        Some(e) => "bad markets response: "@ + e,
        None => "bad markets response"@,
    }
}

/// The message of every metadata error, from the `success` and `error`
/// members and whether a `result` array was found.
pub open spec fn markets_failure(success: Option<bool>, error: Option<Seq<char>>, has_result: bool) -> Seq<char> {
    match success {
        None => "markets response without success flag"@,
        Some(false) => failure_message(error),
        Some(true) => if has_result {
            "market without symbol"@
        } else {
            "markets response without result"@
        },
    }
}

/// Decides a markets response from its `success` and `error` members and
/// the symbol found in each element of its `result` array.
pub fn markets_outcome(
    success: Option<bool>,
    error: Option<String>,
    symbols: Option<Vec<Option<String>>>,
) -> (r: Result<Vec<Market>, ExchangeError>)
    ensures
        r is Ok <==> (success == Some(true) && (symbols matches Some(v) && all_present(v@))),
        r matches Ok(ms) ==> (symbols matches Some(v) && ms@.len() == v@.len() && (forall|i: int|
            0 <= i < ms@.len() ==> Some(#[trigger] ms@[i].symbol@) == opt_view(v@[i]))),
        r matches Err(e) ==> e is Metadata,
        r matches Err(ExchangeError::Metadata(m)) ==> m@ == markets_failure(
            success,
            opt_view(error),
            symbols is Some,
        ),
{
    match success {
        Some(true) => {},
        Some(false) => {
            let msg = match error {
                Some(e) => String::from_str("bad markets response: ").concat(e.as_str()),
                None => String::from_str("bad markets response"),
            };
            return Err(ExchangeError::Metadata(msg));
        },
        None => {
            return Err(ExchangeError::Metadata(String::from_str("markets response without success flag")));
        },
    }
    let v = match symbols {
        Some(v) => v,
        None => {
            return Err(ExchangeError::Metadata(String::from_str("markets response without result")));
        },
    };
    let mut ms: Vec<Market> = Vec::new();
    let mut i: usize = 0;
    while i < v.len()
        invariant
            symbols == Some(v),
            success == Some(true),
            i <= v@.len(),
            ms@.len() == i,
            forall|j: int| 0 <= j < i ==> v@[j] is Some,
            forall|j: int| 0 <= j < i ==> Some(#[trigger] ms@[j].symbol@) == opt_view(v@[j]),
        decreases v.len() - i,
    {
        match &v[i] {
            Some(s) => ms.push(Market { symbol: s.clone() }),
            None => {
                assert(!all_present(v@));
                return Err(ExchangeError::Metadata(String::from_str("market without symbol")));
            },
        }
        i = i + 1;
    }
    Ok(ms)
}

/// The symbol of the market object in `item`.
fn market_symbol(item: &str) -> (r: Option<String>)
    ensures
        opt_view(r) == item_symbol(item@),
{
    match str_field(item, "symbol") {
        Some(s) => Some(s),
        None => str_field(item, "name"),
    }
}

/// The elements of the `result` array of a markets response, as JSON text.
pub open spec fn result_items(text: Seq<char>) -> Option<Seq<Seq<char>>> {
    match json_member(text, "result"@) {
        Some(r) => json_elements(r),
        None => None,
    }
}

/// Whether a markets response body lists markets: `success` is true, and
/// `result` is an array whose every element names a symbol.
pub open spec fn markets_listed(text: Seq<char>) -> bool {
    json_bool_field(text, "success"@) == Some(true) && (result_items(text) matches Some(
        items,
    ) && forall|i: int| 0 <= i < items.len() ==> item_symbol(items[i]) is Some)
}

/// Turns the body of a markets response into the markets it lists.
pub fn parse_markets_response(text: &str) -> (r: Result<Vec<Market>, ExchangeError>)
    ensures
        r is Ok <==> markets_listed(text@),
        r matches Ok(ms) ==> (result_items(text@) matches Some(items) && ms@.len()
            == items.len() && forall|i: int|
            0 <= i < ms@.len() ==> Some(#[trigger] ms@[i].symbol@) == item_symbol(items[i])),
        r matches Err(e) ==> e is Metadata,
        r matches Err(ExchangeError::Metadata(m)) ==> m@ == markets_failure(
            json_bool_field(text@, "success"@),
            json_str_field(text@, "error"@),
            result_items(text@) is Some,
        ),
{
    let success = bool_field(text, "success");
    let error = str_field(text, "error");
    let listed = match member(text, "result") {
        Some(r) => elements(r.as_str()),
        None => None,
    };
    let symbols = match listed {
        Some(items) => {
            let mut v: Vec<Option<String>> = Vec::new();
            let mut i: usize = 0;
            while i < items.len()
                invariant
                    i <= items@.len(),
                    v@.len() == i,
                    forall|j: int| 0 <= j < i ==> opt_view(#[trigger] v@[j]) == item_symbol(items@[j]@),
                decreases items.len() - i,
            {
                v.push(market_symbol(items[i].as_str()));
                i = i + 1;
            }
            proof {
                let texts = items@.map_values(|s: String| s@);
                assert(texts.len() == v@.len());
                assert forall|j: int| 0 <= j < v@.len() implies (v@[j] is Some <==> item_symbol(
                    texts[j],
                ) is Some) && opt_view(v@[j]) == item_symbol(texts[j]) by {
                    assert(opt_view(v@[j]) == item_symbol(items@[j]@));
                }
                if all_present(v@) {
                    assert forall|j: int| 0 <= j < texts.len() implies item_symbol(#[trigger] texts[j]) is Some by {
                        assert(v@[j] is Some);
                    }
                }
                if forall|j: int| 0 <= j < texts.len() ==> item_symbol(#[trigger] texts[j]) is Some {
                    assert forall|j: int| 0 <= j < v@.len() implies #[trigger] v@[j] is Some by {
                        assert(item_symbol(texts[j]) is Some);
                    }
                }
            }
            Some(v)
        },
        None => None,
    };
    markets_outcome(success, error, symbols)
}

/// The refresh loop of one exchange's markets.
#[derive(Debug)]
pub struct MetadataPoller {
    pub id: String,
    pub running: bool,
    pub consecutive_failures: u64,
}

/// What one completed poll did.
#[derive(Debug, PartialEq, Eq)]
pub enum PollOutcome {
    /// The registry entry was replaced with this many markets.
    Stored { count: usize },
    /// The poll failed; the entry was left alone and the error is reported.
    Reported { error: ExchangeError },
}

impl MetadataPoller {
    /// A running poller for exchange `id`.
    pub fn new(id: String) -> (r: MetadataPoller)
        ensures
            r.id == id,
            r.running,
            r.consecutive_failures == 0,
    {
        MetadataPoller { id, running: true, consecutive_failures: 0 }
    }

    /// Whether a tick should start a fetch.
    pub fn on_tick(&self) -> (r: bool)
        ensures
            r == self.running,
    {
        self.running
    }

    /// Asks the loop to stop at its next tick.
    pub fn stop(&mut self)
        ensures
            !final(self).running,
            final(self).id == old(self).id,
            final(self).consecutive_failures == old(self).consecutive_failures,
    {
        self.running = false;
    }

    /// Records the result of one fetch: on success the registry entry of
    /// this exchange is replaced wholesale; on failure the registry is left
    /// alone. Either way the loop keeps its schedule.
    pub fn on_result(&mut self, registry: &mut MarketRegistry, result: Result<Vec<Market>, ExchangeError>) -> (r:
        PollOutcome)
        requires
            old(registry).wf(),
        ensures
            final(registry).wf(),
            final(self).running == old(self).running,
            final(self).id == old(self).id,
            match result {
                Ok(ms) => {
                    &&& final(registry)@ == old(registry)@.insert(old(self).id@, ms@)
                    &&& final(self).consecutive_failures == 0
                    &&& r == (PollOutcome::Stored { count: ms@.len() as usize })
                },
                Err(e) => {
                    &&& final(registry)@ == old(registry)@
                    &&& final(self).consecutive_failures == if old(self).consecutive_failures == u64::MAX {
                        u64::MAX
                    } else {
                        (old(self).consecutive_failures + 1) as u64
                    }
                    &&& r == (PollOutcome::Reported { error: e })
                },
            },
    {
        match result {
            Ok(ms) => {
                let count = ms.len();
                registry.upsert(self.id.as_str(), ms);
                self.consecutive_failures = 0;
                PollOutcome::Stored { count }
            },
            Err(e) => {
                if self.consecutive_failures < u64::MAX {
                    self.consecutive_failures = self.consecutive_failures + 1;
                }
                PollOutcome::Reported { error: e }
            },
        }
    }
}

} // verus!
