//! The best prices of an order book.
use vstd::prelude::*;
use crate::double::Double;
use crate::types::OrderBookSnapshot;

verus! {

/// Whether a level offers a price that can be traded at.
pub open spec fn usable(level: Option<Double>) -> bool {
    level is Some && level->Some_0.finite() && level->Some_0.positive()
}

/// How many levels offer a price.
pub open spec fn usable_count(levels: Seq<Option<Double>>) -> nat
    decreases levels.len(),
{
    if levels.len() == 0 {
        0
    } else {
        usable_count(levels.drop_last()) + if usable(levels.last()) {
            1nat
        } else {
            0nat
        }
    }
}

/// Whether `best` is a price that some level offers and that no level undercuts.
pub open spec fn is_lowest(best: Double, levels: Seq<Option<Double>>) -> bool {
    &&& exists|i: int| 0 <= i < levels.len() && usable(levels[i]) && levels[i] == Some(best)
    &&& forall|i: int|
        0 <= i < levels.len() && usable(#[trigger] levels[i]) ==> best.at_most(levels[i]->Some_0)
}

/// Whether `best` is a price that some level offers and that no level tops.
pub open spec fn is_highest(best: Double, levels: Seq<Option<Double>>) -> bool {
    &&& exists|i: int| 0 <= i < levels.len() && usable(levels[i]) && levels[i] == Some(best)
    &&& forall|i: int|
        0 <= i < levels.len() && usable(#[trigger] levels[i]) ==> levels[i]->Some_0.at_most(best)
}

/// Whether any level offers a price.
pub open spec fn any_usable(levels: Seq<Option<Double>>) -> bool {
    exists|i: int| 0 <= i < levels.len() && usable(#[trigger] levels[i])
}

fn price_of(level: Option<Double>) -> (r: Option<Double>)
    ensures
        r == (if usable(level) {
            level
        } else {
            None
        }),
{
    match level {
        Some(p) => if p.is_finite() && p.is_positive() {
            Some(p)
        } else {
            None
        },
        None => None,
    }
}

/// The lowest price at which someone sells, whether there is one, how many levels there are and
/// how many of them offer a price.
pub fn parse_best_ask(asks: &Vec<Option<Double>>) -> (r: (Double, bool, usize, usize))
    ensures
        r.1 == any_usable(asks@),
        r.1 ==> is_lowest(r.0, asks@),
        !r.1 ==> r.0 == (Double { bits: 0 }),
        r.2 == asks@.len(),
        r.3 == usable_count(asks@),
{
    let mut best = Double::zero();
    let mut present: bool = false;
    let mut parsed: usize = 0;
    let mut i: usize = 0;
    while i < asks.len()
        invariant
            i <= asks.len(),
            parsed <= i,
            present == any_usable(asks@.take(i as int)),
            present ==> is_lowest(best, asks@.take(i as int)),
            present ==> usable(Some(best)),
            !present ==> best == (Double { bits: 0 }),
            parsed == usable_count(asks@.take(i as int)),
        decreases asks.len() - i,
    {
        let level = asks[i];
        let ghost prev = asks@.take(i as int);
        let ghost next = asks@.take(i + 1);
        proof {
            assert(next.drop_last() =~= prev);
            assert(next.last() == level);
            assert(forall|j: int| 0 <= j < i ==> next[j] == prev[j]);
        }
        match price_of(level) {
            Some(p) => {
                parsed = parsed + 1;
                let ghost old_best = best;
                let ghost was_present = present;
                if !present || p.lt(best) {
                    best = p;
                }
                present = true;
                proof {
                    assert(usable(next[i as int]));
                    if best == p {
                        assert(next[i as int] == Some(best));
                    } else {
                        let k = choose|k: int|
                            0 <= k < prev.len() && usable(prev[k]) && prev[k] == Some(old_best);
                        assert(next[k] == Some(best));
                    }
                    assert forall|j: int|
                        0 <= j < next.len() && usable(
                            #[trigger] next[j],
                        ) implies best.at_most(next[j]->Some_0) by {
                        if j < i {
                            assert(usable(prev[j]));
                        }
                    }
                }
            },
            None => {
                proof {
                    if any_usable(next) {
                        let k = choose|k: int| 0 <= k < next.len() && usable(#[trigger] next[k]);
                        assert(usable(prev[k]));
                    }
                    if present {
                        let k = choose|k: int|
                            0 <= k < prev.len() && usable(prev[k]) && prev[k] == Some(best);
                        assert(next[k] == Some(best) && usable(next[k]));
                        assert forall|j: int|
                            0 <= j < next.len() && usable(
                                #[trigger] next[j],
                            ) implies best.at_most(next[j]->Some_0) by {
                            assert(usable(prev[j]));
                        }
                    }
                }
            },
        }
        i = i + 1;
    }
    assert(asks@.take(asks@.len() as int) =~= asks@);
    (best, present, asks.len(), parsed)
}

/// The highest price at which someone buys; zero where there is none.
pub fn parse_best_bid(bids: &Vec<Option<Double>>) -> (r: Double)
    ensures
        any_usable(bids@) ==> is_highest(r, bids@),
        !any_usable(bids@) ==> r == (Double { bits: 0 }),
{
    let mut best = Double::zero();
    let mut present: bool = false;
    let mut i: usize = 0;
    while i < bids.len()
        invariant
            i <= bids.len(),
            present == any_usable(bids@.take(i as int)),
            present ==> is_highest(best, bids@.take(i as int)),
            present ==> usable(Some(best)),
            !present ==> best == (Double { bits: 0 }),
        decreases bids.len() - i,
    {
        let level = bids[i];
        let ghost prev = bids@.take(i as int);
        let ghost next = bids@.take(i + 1);
        proof {
            assert(next.last() == level);
            assert(forall|j: int| 0 <= j < i ==> next[j] == prev[j]);
        }
        match price_of(level) {
            Some(p) => {
                let ghost old_best = best;
                if !present || best.lt(p) {
                    best = p;
                }
                present = true;
                proof {
                    assert(usable(next[i as int]));
                    if best == p {
                        assert(next[i as int] == Some(best));
                    } else {
                        let k = choose|k: int|
                            0 <= k < prev.len() && usable(prev[k]) && prev[k] == Some(old_best);
                        assert(next[k] == Some(best));
                    }
                    assert forall|j: int|
                        0 <= j < next.len() && usable(
                            #[trigger] next[j],
                        ) implies next[j]->Some_0.at_most(best) by {
                        if j < i {
                            assert(usable(prev[j]));
                        }
                    }
                }
            },
            None => {
                proof {
                    if any_usable(next) {
                        let k = choose|k: int| 0 <= k < next.len() && usable(#[trigger] next[k]);
                        assert(usable(prev[k]));
                    }
                    if present {
                        let k = choose|k: int|
                            0 <= k < prev.len() && usable(prev[k]) && prev[k] == Some(best);
                        assert(next[k] == Some(best) && usable(next[k]));
                        assert forall|j: int|
                            0 <= j < next.len() && usable(
                                #[trigger] next[j],
                            ) implies next[j]->Some_0.at_most(best) by {
                            assert(usable(prev[j]));
                        }
                    }
                }
            },
        }
        i = i + 1;
    }
    assert(bids@.take(bids@.len() as int) =~= bids@);
    best
}

/// The snapshot of a book. Each level is given by its price, where it has one that reads as a
/// number.
pub fn fetch_orderbook_snapshot(
    bids: &Vec<Option<Double>>,
    asks: &Vec<Option<Double>>,
    min_order_size: Option<Double>,
) -> (r: OrderBookSnapshot)
    ensures
        any_usable(bids@) ==> is_highest(r.best_bid, bids@),
        !any_usable(bids@) ==> r.best_bid == (Double { bits: 0 }),
        r.asks_present == any_usable(asks@),
        r.asks_present ==> is_lowest(r.best_ask, asks@),
        !r.asks_present ==> r.best_ask == (Double { bits: 0 }),
        r.ask_levels == asks@.len(),
        r.parsed_ask_levels == usable_count(asks@),
        r.min_order_size == (match min_order_size {
            Some(size) => size,
            None => Double { bits: 0 },
        }),
        r.tick_size@ == "0.01"@,
{
    let (best_ask, asks_present, ask_levels, parsed_ask_levels) = parse_best_ask(asks);
    let best_bid = parse_best_bid(bids);
    let size = match min_order_size {
        Some(size) => size,
        None => Double::zero(),
    };
    OrderBookSnapshot {
        best_bid,
        best_ask,
        asks_present,
        ask_levels,
        parsed_ask_levels,
        min_order_size: size,
        tick_size: "0.01".to_owned(),
    }
}

/// Refuses an answer whose HTTP status is not a success.
pub fn check_orderbook_status(status: u16, status_line: &str) -> (r: Result<(), String>)
    ensures
        match r {
            Ok(_) => 200 <= status < 300,
            Err(message) => !(200 <= status < 300) && message@
                == "orderbook fetch failed with HTTP "@ + status_line@,
        },
{
    if status >= 200 && status < 300 {
        Ok(())
    } else {
        let mut message = "orderbook fetch failed with HTTP ".to_owned();
        message.append(status_line);
        Err(message)
    }
}

/// The lowest and the highest price of a side of the book are prices that some level offers, and
/// no other level offers a better one. Only finite prices above zero count.
pub proof fn best_price_is_unbeaten(levels: Seq<Option<Double>>, best: Double, i: int)
    requires
        0 <= i < levels.len(),
        levels[i] is Some,
        levels[i]->Some_0.finite(),
        levels[i]->Some_0.units() > 0,
    ensures
        any_usable(levels),
        is_lowest(best, levels) ==> best.units() <= levels[i]->Some_0.units(),
        is_highest(best, levels) ==> best.units() >= levels[i]->Some_0.units(),
        is_lowest(best, levels) || is_highest(best, levels) ==> levels.contains(Some(best))
            && best.finite() && best.units() > 0,
{
    let price = levels[i]->Some_0;
    crate::double::sign_is_numeric(price);
    assert(usable(levels[i]));
    if is_lowest(best, levels) || is_highest(best, levels) {
        let k = choose|k: int| 0 <= k < levels.len() && usable(levels[k]) && levels[k] == Some(best);
        assert(levels[k] == Some(best));
        crate::double::sign_is_numeric(best);
        crate::double::order_is_numeric(best, price);
        crate::double::order_is_numeric(price, best);
    }
}

/// A side of the book with a price has a level that is counted, and one without has none.
pub proof fn levels_with_a_price_are_counted(levels: Seq<Option<Double>>)
    ensures
        usable_count(levels) <= levels.len(),
        usable_count(levels) > 0 <==> any_usable(levels),
    decreases levels.len(),
{
    if levels.len() > 0 {
        let head = levels.drop_last();
        levels_with_a_price_are_counted(head);
        if any_usable(levels) {
            let k = choose|k: int| 0 <= k < levels.len() && usable(#[trigger] levels[k]);
            if k < head.len() {
                assert(usable(head[k]));
            }
        }
        if any_usable(head) {
            let k = choose|k: int| 0 <= k < head.len() && usable(#[trigger] head[k]);
            assert(usable(levels[k]));
        }
        if usable(levels.last()) {
            assert(usable(levels[levels.len() - 1]));
        }
    }
}

} // verus!
