use vstd::prelude::*;

use crate::exchanges::{ranks_before, side_ordered, OrderbookItem, OrderbookSnapshot};

verus! {

/// The levels a side holds, as a set.
pub open spec fn side_items(s: Seq<OrderbookItem>) -> Set<OrderbookItem> {
    Set::new(|x: OrderbookItem| s.contains(x))
}

/// A side's levels after one level change: the level at the item's price
/// is removed, and the item takes its place unless its size is zero.
pub open spec fn apply_level_spec(levels: Set<OrderbookItem>, item: OrderbookItem) -> Set<OrderbookItem> {
    let rest = levels.filter(|x: OrderbookItem| x.price != item.price);
    if item.size.units == 0 { rest } else { rest.insert(item) }
}

/// A side's levels after a run of level changes, applied in order.
pub open spec fn apply_levels_spec(levels: Set<OrderbookItem>, items: Seq<OrderbookItem>) -> Set<OrderbookItem>
    decreases items.len(),
{
    if items.len() == 0 {
        levels
    } else {
        apply_level_spec(apply_levels_spec(levels, items.drop_last()), items.last())
    }
}

fn price_ranks_before(a: i128, b: i128, ascending: bool) -> (r: bool)
    ensures
        r == ranks_before(a, b, ascending),
{
    if ascending { a < b } else { a > b }
}

/// Applies one level change to a side, keeping it ordered best first.
pub fn apply_level(side: &mut Vec<OrderbookItem>, ascending: bool, item: OrderbookItem)
    requires
        side_ordered(old(side)@, ascending),
    ensures
        side_ordered(final(side)@, ascending),
        side_items(final(side)@) == apply_level_spec(side_items(old(side)@), item),
{
    let ghost s0 = side@;
    let p = item.price.units;
    let mut i: usize = 0;
    while i < side.len() && price_ranks_before(side[i].price.units, p, ascending)
        invariant
            side@ == s0,
            i <= side@.len(),
            forall|j: int| 0 <= j < i ==> ranks_before(#[trigger] side@[j].price.units, p, ascending),
        decreases side.len() - i,
    {
        i = i + 1;
    }
    proof {
        assert forall|j: int| i <= j < s0.len() implies !ranks_before(#[trigger] s0[j].price.units, p, ascending) by {
            if j > i {
                assert(ranks_before(s0[i as int].price.units, s0[j].price.units, ascending));
            }
        }
    }
    let found = i < side.len() && side[i].price.units == p;
    let ghost target = apply_level_spec(side_items(s0), item);
    if found {
        if item.size.units == 0 {
            side.remove(i);
            proof {
                let s1 = side@;
                assert(side_items(s1) =~= target) by {
                    assert forall|x: OrderbookItem| target.contains(x) implies s1.contains(x) by {
                        let k = choose|k: int| 0 <= k < s0.len() && s0[k] == x;
                        if k < i {
                            assert(s1[k] == x);
                        } else {
                            assert(k != i);
                            assert(s1[k - 1] == x);
                        }
                    }
                    assert forall|x: OrderbookItem| s1.contains(x) implies target.contains(x) by {
                        let k = choose|k: int| 0 <= k < s1.len() && s1[k] == x;
                        if k < i {
                            assert(s0[k] == x);
                            assert(ranks_before(s0[k].price.units, s0[i as int].price.units, ascending));
                        } else {
                            assert(s0[k + 1] == x);
                            assert(ranks_before(s0[i as int].price.units, s0[k + 1].price.units, ascending));
                        }
                        assert(x.price != item.price);
                    }
                }
            }
        } else {
            side.set(i, item);
            proof {
                let s1 = side@;
                assert(side_items(s1) =~= target) by {
                    assert forall|x: OrderbookItem| target.contains(x) implies s1.contains(x) by {
                        if x != item {
                            let k = choose|k: int| 0 <= k < s0.len() && s0[k] == x;
                            assert(k != i);
                            assert(s1[k] == x);
                        } else {
                            assert(s1[i as int] == x);
                        }
                    }
                    assert forall|x: OrderbookItem| s1.contains(x) implies target.contains(x) by {
                        let k = choose|k: int| 0 <= k < s1.len() && s1[k] == x;
                        if k != i {
                            assert(s0[k] == x);
                            if k < i {
                                assert(ranks_before(s0[k].price.units, s0[i as int].price.units, ascending));
                            } else {
                                assert(ranks_before(s0[i as int].price.units, s0[k].price.units, ascending));
                            }
                            assert(x.price != item.price);
                        }
                    }
                }
            }
        }
    } else {
        proof {
            assert forall|j: int| 0 <= j < s0.len() implies (#[trigger] s0[j]).price.units != p by {
                if j >= i {
                    assert(!ranks_before(s0[j].price.units, p, ascending));
                    if j == i {
                        assert(s0[j].price.units != p);
                    } else {
                        assert(ranks_before(s0[i as int].price.units, s0[j].price.units, ascending));
                    }
                }
            }
        }
        if item.size.units != 0 {
            side.insert(i, item);
            proof {
                let s1 = side@;
                assert(side_items(s1) =~= target) by {
                    assert forall|x: OrderbookItem| target.contains(x) implies s1.contains(x) by {
                        if x != item {
                            let k = choose|k: int| 0 <= k < s0.len() && s0[k] == x;
                            if k < i {
                                assert(s1[k] == x);
                            } else {
                                assert(s1[k + 1] == x);
                            }
                        } else {
                            assert(s1[i as int] == x);
                        }
                    }
                    assert forall|x: OrderbookItem| s1.contains(x) implies target.contains(x) by {
                        let k = choose|k: int| 0 <= k < s1.len() && s1[k] == x;
                        if k < i {
                            assert(s0[k] == x);
                        } else if k > i {
                            assert(s0[k - 1] == x);
                        }
                    }
                }
            }
        } else {
            proof {
                assert(side_items(s0) =~= target) by {
                    assert forall|x: OrderbookItem| s0.contains(x) implies target.contains(x) by {
                        let k = choose|k: int| 0 <= k < s0.len() && s0[k] == x;
                        assert(s0[k].price.units != p);
                    }
                }
            }
        }
    }
}

/// Applies a run of level changes to a side, in order.
pub fn apply_levels(side: &mut Vec<OrderbookItem>, ascending: bool, items: &Vec<OrderbookItem>)
    requires
        side_ordered(old(side)@, ascending),
    ensures
        side_ordered(final(side)@, ascending),
        side_items(final(side)@) == apply_levels_spec(side_items(old(side)@), items@),
{
    let ghost start = side_items(side@);
    let mut i: usize = 0;
    while i < items.len()
        invariant
            i <= items@.len(),
            side_ordered(side@, ascending),
            side_items(side@) == apply_levels_spec(start, items@.subrange(0, i as int)),
        decreases items.len() - i,
    {
        apply_level(side, ascending, items[i]);
        proof {
            let pre = items@.subrange(0, i + 1);
            assert(pre.drop_last() =~= items@.subrange(0, i as int));
            assert(pre.last() == items@[i as int]);
        }
        i = i + 1;
    }
    assert(items@.subrange(0, items@.len() as int) =~= items@);
}

/// One book message: a full picture (`partial`) or incremental changes,
/// with the source's and the local timestamps.
#[derive(Debug)]
pub struct BookUpdate {
    pub partial: bool,
    pub asks: Vec<OrderbookItem>,
    pub bids: Vec<OrderbookItem>,
    pub updated_at: u128,
    pub received_at: u128,
}

pub open spec fn max_u128(a: u128, b: u128) -> u128 {
    if a >= b { a } else { b }
}

impl OrderbookSnapshot {
    /// Asks ascending and bids descending by price, one level per price.
    pub open spec fn wf(&self) -> bool {
        side_ordered(self.asks@, true) && side_ordered(self.bids@, false)
    }

    /// Applies one book message. A full picture replaces both sides; changes
    /// are applied level by level in the order received. Both timestamps
    /// never move backwards.
    pub fn apply_update(&mut self, u: &BookUpdate)
        requires
            old(self).wf(),
        ensures
            final(self).wf(),
            side_items(final(self).asks@) == apply_levels_spec(
                if u.partial { Set::empty() } else { side_items(old(self).asks@) },
                u.asks@,
            ),
            side_items(final(self).bids@) == apply_levels_spec(
                if u.partial { Set::empty() } else { side_items(old(self).bids@) },
                u.bids@,
            ),
            final(self).updated_at == max_u128(old(self).updated_at, u.updated_at),
            final(self).received_at == max_u128(old(self).received_at, u.received_at),
    {
        if u.partial {
            self.asks = Vec::new();
            self.bids = Vec::new();
            assert(side_items(self.asks@) =~= Set::empty());
            assert(side_items(self.bids@) =~= Set::empty());
        }
        apply_levels(&mut self.asks, true, &u.asks);
        apply_levels(&mut self.bids, false, &u.bids);
        if u.updated_at > self.updated_at {
            self.updated_at = u.updated_at;
        }
        if u.received_at > self.received_at {
            self.received_at = u.received_at;
        }
    }
}

} // verus!
