//! The log of trades, and what becomes known of their claims.
use vstd::prelude::*;
use crate::text;
use crate::types::{ClaimStatus, MarketResolutionSource, TradeRecord};

verus! {

/// What has become known of a trade's claim. Nothing is said of what is left out.
pub struct ClaimStatusUpdate {
    pub claim_status: Option<ClaimStatus>,
    pub claim_attempts: Option<u64>,
    pub claim_tx_hash: Option<String>,
    pub claim_last_error: Option<String>,
    pub claim_updated_at_ms: Option<u64>,
    pub market_resolved: Option<bool>,
    pub market_resolution_source: Option<MarketResolutionSource>,
    pub market_resolved_at_ms: Option<u64>,
}

impl Default for ClaimStatusUpdate {
    fn default() -> (r: Self)
        ensures
            r == (ClaimStatusUpdate {
                claim_status: None,
                claim_attempts: None,
                claim_tx_hash: None,
                claim_last_error: None,
                claim_updated_at_ms: None,
                market_resolved: None,
                market_resolution_source: None,
                market_resolved_at_ms: None,
            }),
    {
        ClaimStatusUpdate {
            claim_status: None,
            claim_attempts: None,
            claim_tx_hash: None,
            claim_last_error: None,
            claim_updated_at_ms: None,
            market_resolved: None,
            market_resolution_source: None,
            market_resolved_at_ms: None,
        }
    }
}

/// What is said, or else what was known before.
pub open spec fn newest<T>(said: Option<T>, before: Option<T>) -> Option<T> {
    if said is Some {
        said
    } else {
        before
    }
}

/// A trade after an update of its claim.
pub open spec fn updated(record: TradeRecord, updates: ClaimStatusUpdate) -> TradeRecord {
    TradeRecord {
        claim_status: newest(updates.claim_status, record.claim_status),
        claim_attempts: newest(updates.claim_attempts, record.claim_attempts),
        claim_tx_hash: newest(updates.claim_tx_hash, record.claim_tx_hash),
        claim_last_error: newest(updates.claim_last_error, record.claim_last_error),
        claim_updated_at_ms: newest(updates.claim_updated_at_ms, record.claim_updated_at_ms),
        market_resolved: newest(updates.market_resolved, record.market_resolved),
        market_resolution_source: newest(
            updates.market_resolution_source,
            record.market_resolution_source,
        ),
        market_resolved_at_ms: newest(updates.market_resolved_at_ms, record.market_resolved_at_ms),
        ..record
    }
}

/// Where the first trade with an identifier stands, or the number of trades where there is none.
pub open spec fn place_of(records: Seq<TradeRecord>, trade_id: Seq<char>) -> int
    decreases records.len(),
{
    if records.len() == 0 {
        0
    } else if records[0].id@ == trade_id {
        0
    } else {
        1 + place_of(records.skip(1), trade_id)
    }
}

/// The trades after an update of the claim of one of them.
pub open spec fn updated_log(
    records: Seq<TradeRecord>,
    trade_id: Seq<char>,
    updates: ClaimStatusUpdate,
) -> Seq<TradeRecord> {
    let k = place_of(records, trade_id);
    if k < records.len() {
        records.update(k, updated(records[k], updates))
    } else {
        records
    }
}

proof fn lemma_place(records: Seq<TradeRecord>, trade_id: Seq<char>, k: int)
    requires
        0 <= k <= records.len(),
        forall|j: int| 0 <= j < k ==> (#[trigger] records[j]).id@ != trade_id,
        k < records.len() ==> records[k].id@ == trade_id,
    ensures
        place_of(records, trade_id) == k,
    decreases records.len(),
{
    if k > 0 {
        assert(records[0].id@ != trade_id);
        let rest = records.skip(1);
        assert forall|j: int| 0 <= j < k - 1 implies (#[trigger] rest[j]).id@ != trade_id by {
            assert(rest[j] == records[j + 1]);
        }
        lemma_place(rest, trade_id, k - 1);
    }
}

proof fn lemma_place_range(records: Seq<TradeRecord>, trade_id: Seq<char>)
    ensures
        0 <= place_of(records, trade_id) <= records.len(),
        forall|j: int|
            0 <= j < place_of(records, trade_id) ==> (#[trigger] records[j]).id@ != trade_id,
        place_of(records, trade_id) < records.len() ==> records[place_of(
            records,
            trade_id,
        )].id@ == trade_id,
    decreases records.len(),
{
    if records.len() > 0 && records[0].id@ != trade_id {
        let rest = records.skip(1);
        lemma_place_range(rest, trade_id);
        assert forall|j: int| 0 <= j < place_of(records, trade_id) implies (
        #[trigger] records[j]).id@ != trade_id by {
            if j > 0 {
                assert(records[j] == rest[j - 1]);
            }
        }
    }
}

/// Updates the claim of a trade, and says whether the trade is in the log. Only the first trade
/// with the identifier is updated.
pub fn update_trade_claim_status(
    records: &mut Vec<TradeRecord>,
    trade_id: &str,
    updates: ClaimStatusUpdate,
) -> (r: bool)
    ensures
        r == (place_of(old(records)@, trade_id@) < old(records)@.len()),
        final(records)@ == updated_log(old(records)@, trade_id@, updates),
{
    let ghost before = records@;
    let mut i: usize = 0;
    while i < records.len()
        invariant
            i <= records.len(),
            records@ == before,
            before == old(records)@,
            forall|j: int| 0 <= j < i ==> (#[trigger] before[j]).id@ != trade_id@,
        decreases records.len() - i,
    {
        if text::text_eq(records[i].id.as_str(), trade_id) {
            proof {
                lemma_place(before, trade_id@, i as int);
            }
            let record = &mut records[i];
            if updates.claim_status.is_some() {
                record.claim_status = updates.claim_status;
            }
            if updates.claim_attempts.is_some() {
                record.claim_attempts = updates.claim_attempts;
            }
            if updates.claim_tx_hash.is_some() {
                record.claim_tx_hash = updates.claim_tx_hash;
            }
            if updates.claim_last_error.is_some() {
                record.claim_last_error = updates.claim_last_error;
            }
            if updates.claim_updated_at_ms.is_some() {
                record.claim_updated_at_ms = updates.claim_updated_at_ms;
            }
            if updates.market_resolved.is_some() {
                record.market_resolved = updates.market_resolved;
            }
            if updates.market_resolution_source.is_some() {
                record.market_resolution_source = updates.market_resolution_source;
            }
            if updates.market_resolved_at_ms.is_some() {
                record.market_resolved_at_ms = updates.market_resolved_at_ms;
            }
            return true;
        }
        i = i + 1;
    }
    proof {
        lemma_place(before, trade_id@, i as int);
    }
    false
}

/// An update touches the claim of one trade and nothing else: the log keeps its length, every
/// other trade stays as it was, and the trade itself keeps what it was bought and settled at.
pub proof fn update_touches_one_claim(
    records: Seq<TradeRecord>,
    trade_id: Seq<char>,
    updates: ClaimStatusUpdate,
)
    ensures
        ({
            let after = updated_log(records, trade_id, updates);
            let k = place_of(records, trade_id);
            &&& after.len() == records.len()
            &&& forall|i: int| 0 <= i < records.len() && i != k ==> #[trigger] after[i] == records[i]
            &&& k < records.len() ==> after[k].id == records[k].id && after[k].execution
                == records[k].execution && after[k].pnl_usd == records[k].pnl_usd
                && after[k].outcome == records[k].outcome
        }),
{
    lemma_place_range(records, trade_id);
}

/// An update that is made twice changes nothing the second time.
pub proof fn updating_twice_changes_nothing(
    records: Seq<TradeRecord>,
    trade_id: Seq<char>,
    updates: ClaimStatusUpdate,
)
    ensures
        updated_log(updated_log(records, trade_id, updates), trade_id, updates) == updated_log(
            records,
            trade_id,
            updates,
        ),
{
    let after = updated_log(records, trade_id, updates);
    lemma_place_range(records, trade_id);
    let k = place_of(records, trade_id);
    if k < records.len() {
        assert forall|j: int| 0 <= j < k implies (#[trigger] after[j]).id@ != trade_id by {
            assert(after[j] == records[j]);
        }
        lemma_place(after, trade_id, k);
        assert(updated_log(after, trade_id, updates) =~= after);
    }
}

/// An update of a claim sets what it says and leaves what it does not say: of the claim each field
/// becomes what is said of it, and stays where nothing is; nothing else of the trade changes.
pub proof fn update_sets_what_it_says(record: TradeRecord, updates: ClaimStatusUpdate)
    ensures
        ({
            let after = updated(record, updates);
            &&& updates.claim_status is Some ==> after.claim_status == updates.claim_status
            &&& updates.claim_status is None ==> after.claim_status == record.claim_status
            &&& updates.claim_attempts is Some ==> after.claim_attempts == updates.claim_attempts
            &&& updates.claim_attempts is None ==> after.claim_attempts == record.claim_attempts
            &&& updates.claim_tx_hash is Some ==> after.claim_tx_hash == updates.claim_tx_hash
            &&& updates.claim_tx_hash is None ==> after.claim_tx_hash == record.claim_tx_hash
            &&& updates.claim_last_error is Some ==> after.claim_last_error
                == updates.claim_last_error
            &&& updates.claim_last_error is None ==> after.claim_last_error
                == record.claim_last_error
            &&& updates.claim_updated_at_ms is Some ==> after.claim_updated_at_ms
                == updates.claim_updated_at_ms
            &&& updates.claim_updated_at_ms is None ==> after.claim_updated_at_ms
                == record.claim_updated_at_ms
            &&& updates.market_resolved is Some ==> after.market_resolved == updates.market_resolved
            &&& updates.market_resolved is None ==> after.market_resolved == record.market_resolved
            &&& updates.market_resolution_source is Some ==> after.market_resolution_source
                == updates.market_resolution_source
            &&& updates.market_resolution_source is None ==> after.market_resolution_source
                == record.market_resolution_source
            &&& updates.market_resolved_at_ms is Some ==> after.market_resolved_at_ms
                == updates.market_resolved_at_ms
            &&& updates.market_resolved_at_ms is None ==> after.market_resolved_at_ms
                == record.market_resolved_at_ms
            &&& after.id == record.id && after.timestamp_ms == record.timestamp_ms && after.mode
                == record.mode
            &&& after.window == record.window && after.market == record.market && after.side
                == record.side
            &&& after.selected_ask_price == record.selected_ask_price && after.selected_bid_price
                == record.selected_bid_price
            &&& after.stake_usd == record.stake_usd && after.execution == record.execution
                && after.settlement == record.settlement
            &&& after.outcome == record.outcome && after.redeemed_usd == record.redeemed_usd
                && after.pnl_usd == record.pnl_usd
        }),
{
}

/// The trade that is updated is the first with its identifier; a log without one stays as it is.
pub proof fn first_trade_with_the_identifier_is_updated(
    records: Seq<TradeRecord>,
    trade_id: Seq<char>,
    updates: ClaimStatusUpdate,
    k: int,
)
    ensures
        0 <= k < records.len() && records[k].id@ == trade_id && (forall|j: int|
            0 <= j < k ==> (#[trigger] records[j]).id@ != trade_id) ==> updated_log(
            records,
            trade_id,
            updates,
        ) == records.update(k, updated(records[k], updates)),
        (forall|j: int| 0 <= j < records.len() ==> (#[trigger] records[j]).id@ != trade_id)
            ==> updated_log(records, trade_id, updates) == records,
        place_of(records, trade_id) < records.len() <==> exists|j: int|
            0 <= j < records.len() && (#[trigger] records[j]).id@ == trade_id,
{
    lemma_place_range(records, trade_id);
    if 0 <= k < records.len() && records[k].id@ == trade_id && (forall|j: int|
        0 <= j < k ==> (#[trigger] records[j]).id@ != trade_id) {
        lemma_place(records, trade_id, k);
    }
    if forall|j: int| 0 <= j < records.len() ==> (#[trigger] records[j]).id@ != trade_id {
        lemma_place(records, trade_id, records.len() as int);
    }
}

} // verus!
