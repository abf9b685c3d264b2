//! The claims that are still open.
use vstd::prelude::*;
use crate::json;
use crate::settlement::settlement_service;
use crate::settlement::settlement_service::ClaimView;
use crate::storage::trade_logger;
use crate::storage::trade_logger::ClaimStatusUpdate;
use crate::table::Table;
use crate::text;
use crate::types::{
    ClaimProcessingResult, ClaimStatus, Config, MarketResolutionSource, PendingClaim, TradeRecord,
};

verus! {

/// How much of a reason is told.
pub const MAX_REASON_LENGTH: usize = 220;

pub fn should_manage_claims(config: &Config) -> (r: bool)
    ensures
        r == (config.enable_live_trading && config.on_chain_auto_claim_enabled),
{
    config.enable_live_trading && config.on_chain_auto_claim_enabled
}

// ---------------------------------------------------------------------------
// Claims from the log
// ---------------------------------------------------------------------------

/// How a trade's claim stands: as the log says, or else by whether there is a transaction.
pub open spec fn recorded_status(record: TradeRecord) -> ClaimStatus {
    match record.claim_status {
        Some(status) => status,
        None => if record.claim_tx_hash is Some {
            ClaimStatus::Success
        } else {
            ClaimStatus::Pending
        },
    }
}

pub fn claim_status_from_record(record: &TradeRecord) -> (r: ClaimStatus)
    ensures
        r == recorded_status(*record),
{
    match record.claim_status {
        Some(status) => status,
        None => if record.claim_tx_hash.is_some() {
            ClaimStatus::Success
        } else {
            ClaimStatus::Pending
        },
    }
}

/// Whether a trade's market is known well enough to claim on it.
pub open spec fn can_be_claimed(record: TradeRecord) -> bool {
    &&& !text::is_blank(record.market.condition_id@)
    &&& !text::is_blank(record.market.yes_token_id@)
    &&& !text::is_blank(record.market.no_token_id@)
}

/// The open claim of a trade.
pub open spec fn open_claim(record: TradeRecord, now_ms: u64) -> Option<PendingClaim> {
    if can_be_claimed(record) && recorded_status(record) == ClaimStatus::Pending {
        Some(
            PendingClaim {
                trade_id: record.id,
                window_slug: record.window.slug,
                condition_id: record.market.condition_id,
                yes_token_id: record.market.yes_token_id,
                no_token_id: record.market.no_token_id,
                created_at_ms: record.timestamp_ms,
                poll_count: 0,
                claim_attempts: match record.claim_attempts {
                    Some(n) => n,
                    None => 0,
                },
                last_update_ms: now_ms,
                last_error: record.claim_last_error,
            },
        )
    } else {
        None
    }
}

pub fn to_pending_claim(record: &TradeRecord, now_ms: u64) -> (r: Option<PendingClaim>)
    ensures
        r == open_claim(*record, now_ms),
{
    if text::blank(record.market.condition_id.as_str()) {
        return None;
    }
    if text::blank(record.market.yes_token_id.as_str()) || text::blank(
        record.market.no_token_id.as_str(),
    ) {
        return None;
    }
    if claim_status_from_record(record) != ClaimStatus::Pending {
        return None;
    }
    let claim_attempts: u64 = match record.claim_attempts {
        Some(n) => n,
        None => 0,
    };
    let last_error = match &record.claim_last_error {
        Some(error) => Some(error.clone()),
        None => None,
    };
    Some(
        PendingClaim {
            trade_id: record.id.clone(),
            window_slug: record.window.slug.clone(),
            condition_id: record.market.condition_id.clone(),
            yes_token_id: record.market.yes_token_id.clone(),
            no_token_id: record.market.no_token_id.clone(),
            created_at_ms: record.timestamp_ms,
            poll_count: 0,
            claim_attempts,
            last_update_ms: now_ms,
            last_error,
        },
    )
}

/// The open claims after those of a log have been added, and how many were added. A trade whose
/// claim is known already keeps it.
pub open spec fn restored(
    claims: Map<Seq<char>, PendingClaim>,
    records: Seq<TradeRecord>,
    now_ms: u64,
) -> (Map<Seq<char>, PendingClaim>, nat)
    decreases records.len(),
{
    if records.len() == 0 {
        (claims, 0)
    } else {
        let (before, count) = restored(claims, records.drop_last(), now_ms);
        match open_claim(records.last(), now_ms) {
            Some(claim) => if before.contains_key(claim.trade_id@) {
                (before, count)
            } else {
                (before.insert(claim.trade_id@, claim), count + 1)
            },
            None => (before, count),
        }
    }
}

/// Adds the open claims of a log, and counts them.
pub fn restore_pending_claims_from_history(
    records: &Vec<TradeRecord>,
    claims: &mut Table<PendingClaim>,
    now_ms: u64,
) -> (r: usize)
    requires
        old(claims).wf(),
    ensures
        final(claims).wf(),
        (final(claims)@, r as nat) == restored(old(claims)@, records@, now_ms),
{
    let ghost before = claims@;
    let mut count: usize = 0;
    let mut i: usize = 0;
    assert(records@.take(0) =~= Seq::<TradeRecord>::empty());
    while i < records.len()
        invariant
            i <= records.len(),
            count <= i,
            claims.wf(),
            before == old(claims)@,
            (claims@, count as nat) == restored(before, records@.take(i as int), now_ms),
        decreases records.len() - i,
    {
        proof {
            assert(records@.take(i + 1).drop_last() =~= records@.take(i as int));
        }
        match to_pending_claim(&records[i], now_ms) {
            Some(claim) => {
                let id = claim.trade_id.clone();
                if !claims.contains(id.as_str()) {
                    claims.insert(id.as_str(), claim);
                    count = count + 1;
                }
            },
            None => {},
        }
        i = i + 1;
    }
    assert(records@.take(records@.len() as int) =~= records@);
    count
}

/// Every claim is kept under the identifier of its trade.
pub open spec fn keyed_by_trade(claims: Map<Seq<char>, PendingClaim>) -> bool {
    forall|id: Seq<char>| #[trigger] claims.contains_key(id) ==> claims[id].trade_id@ == id
}

/// Adding the claims of a log keeps the claims there are, keeps every claim under its trade, and
/// adds those of the log's trades that are open, and no others.
pub proof fn restoring_adds_open_claims(
    claims: Map<Seq<char>, PendingClaim>,
    records: Seq<TradeRecord>,
    now_ms: u64,
)
    requires
        keyed_by_trade(claims),
    ensures
        keyed_by_trade(restored(claims, records, now_ms).0),
        forall|id: Seq<char>| #[trigger]
            claims.contains_key(id) ==> restored(claims, records, now_ms).0.contains_key(id)
                && restored(claims, records, now_ms).0[id] == claims[id],
        forall|i: int|
            0 <= i < records.len() && open_claim(#[trigger] records[i], now_ms) is Some
                ==> restored(claims, records, now_ms).0.contains_key(records[i].id@),
        forall|id: Seq<char>| #[trigger]
            restored(claims, records, now_ms).0.contains_key(id) && !claims.contains_key(id)
                ==> exists|i: int|
                0 <= i < records.len() && #[trigger] open_claim(records[i], now_ms) == Some(
                    restored(claims, records, now_ms).0[id],
                ) && records[i].id@ == id,
    decreases records.len(),
{
    if records.len() > 0 {
        let head = records.drop_last();
        restoring_adds_open_claims(claims, head, now_ms);
        let (before, count) = restored(claims, head, now_ms);
        let after = restored(claims, records, now_ms).0;
        assert forall|i: int|
            0 <= i < records.len() && open_claim(
                #[trigger] records[i],
                now_ms,
            ) is Some implies after.contains_key(records[i].id@) by {
            if i < head.len() {
                assert(head[i] == records[i]);
            }
        }
        assert forall|id: Seq<char>| #[trigger]
            after.contains_key(id) && !claims.contains_key(id) implies exists|i: int|
            0 <= i < records.len() && #[trigger] open_claim(records[i], now_ms) == Some(after[id])
                && records[i].id@ == id by {
            if before.contains_key(id) {
                let i = choose|i: int|
                    0 <= i < head.len() && #[trigger] open_claim(head[i], now_ms) == Some(
                        before[id],
                    ) && head[i].id@ == id;
                assert(records[i] == head[i]);
                assert(open_claim(records[i], now_ms) == Some(after[id]));
            } else {
                assert(open_claim(records[records.len() - 1], now_ms) == Some(after[id]));
            }
        }
    }
}

// ---------------------------------------------------------------------------
// The sweep
// ---------------------------------------------------------------------------

/// What became of a claim, by its views: its result, or that it could not be processed.
#[verifier::ext_equal]
pub enum ClaimOutcome {
    Processed(ClaimView),
    Error(Seq<char>),
}

pub open spec fn outcome_of(result: Result<ClaimProcessingResult, String>) -> ClaimOutcome {
    match result {
        Ok(r) => ClaimOutcome::Processed(settlement_service::claim_view(r)),
        Err(message) => ClaimOutcome::Error(message@),
    }
}

/// How many attempts a claim has had afterwards: one more, unless the market is unresolved.
pub open spec fn attempts_after(attempts: u64, outcome: ClaimOutcome) -> int {
    match outcome {
        ClaimOutcome::Processed(r) => if r.completed || r.market_resolved {
            attempts + 1
        } else {
            attempts as int
        },
        ClaimOutcome::Error(_) => attempts + 1,
    }
}

/// How a claim stands afterwards.
pub open spec fn status_after(config: Config, attempts: u64, outcome: ClaimOutcome) -> ClaimStatus {
    let used_up = attempts_after(attempts, outcome) >= config.settlement_max_attempts;
    match outcome {
        ClaimOutcome::Processed(r) => if r.completed {
            ClaimStatus::Success
        } else if r.market_resolved && used_up {
            ClaimStatus::Failed
        } else {
            ClaimStatus::Pending
        },
        ClaimOutcome::Error(_) => if used_up {
            ClaimStatus::Failed
        } else {
            ClaimStatus::Pending
        },
    }
}

/// The error that a claim ended with.
pub open spec fn error_after(outcome: ClaimOutcome) -> Option<Seq<char>> {
    match outcome {
        ClaimOutcome::Processed(r) => if r.completed {
            Some(Seq::empty())
        } else {
            r.error
        },
        ClaimOutcome::Error(message) => Some(message),
    }
}

#[verifier::ext_equal]
pub struct UpdateView {
    pub claim_status: Option<ClaimStatus>,
    pub claim_attempts: Option<u64>,
    pub claim_tx_hash: Option<Seq<char>>,
    pub claim_last_error: Option<Seq<char>>,
    pub claim_updated_at_ms: Option<u64>,
    pub market_resolved: Option<bool>,
    pub market_resolution_source: Option<MarketResolutionSource>,
    pub market_resolved_at_ms: Option<u64>,
}

pub open spec fn update_view(u: ClaimStatusUpdate) -> UpdateView {
    UpdateView {
        claim_status: u.claim_status,
        claim_attempts: u.claim_attempts,
        claim_tx_hash: json::text_view(u.claim_tx_hash),
        claim_last_error: json::text_view(u.claim_last_error),
        claim_updated_at_ms: u.claim_updated_at_ms,
        market_resolved: u.market_resolved,
        market_resolution_source: u.market_resolution_source,
        market_resolved_at_ms: u.market_resolved_at_ms,
    }
}

/// What the log is told.
pub open spec fn update_after(
    config: Config,
    attempts: u64,
    outcome: ClaimOutcome,
    now_ms: u64,
) -> UpdateView {
    let processed = outcome matches ClaimOutcome::Processed(_);
    let r = outcome->Processed_0;
    UpdateView {
        claim_status: Some(status_after(config, attempts, outcome)),
        claim_attempts: Some(attempts_after(attempts, outcome) as u64),
        claim_tx_hash: if processed && r.completed {
            r.tx_hash
        } else {
            None
        },
        claim_last_error: error_after(outcome),
        claim_updated_at_ms: Some(now_ms),
        market_resolved: if processed {
            Some(r.completed || r.market_resolved)
        } else {
            None
        },
        market_resolution_source: if processed {
            r.resolution_source
        } else {
            None
        },
        market_resolved_at_ms: if processed {
            r.market_resolved_at_ms
        } else {
            None
        },
    }
}

#[verifier::ext_equal]
pub struct PendingView {
    pub trade_id: Seq<char>,
    pub window_slug: Seq<char>,
    pub condition_id: Seq<char>,
    pub yes_token_id: Seq<char>,
    pub no_token_id: Seq<char>,
    pub created_at_ms: u64,
    pub poll_count: u64,
    pub claim_attempts: u64,
    pub last_update_ms: u64,
    pub last_error: Option<Seq<char>>,
}

pub open spec fn pending_view(p: PendingClaim) -> PendingView {
    PendingView {
        trade_id: p.trade_id@,
        window_slug: p.window_slug@,
        condition_id: p.condition_id@,
        yes_token_id: p.yes_token_id@,
        no_token_id: p.no_token_id@,
        created_at_ms: p.created_at_ms,
        poll_count: p.poll_count,
        claim_attempts: p.claim_attempts,
        last_update_ms: p.last_update_ms,
        last_error: json::text_view(p.last_error),
    }
}

/// The claim as it stays open.
pub open spec fn pending_after(p: PendingView, outcome: ClaimOutcome, now_ms: u64) -> PendingView {
    PendingView {
        poll_count: (p.poll_count + 1) as u64,
        claim_attempts: attempts_after(p.claim_attempts, outcome) as u64,
        last_update_ms: now_ms,
        last_error: error_after(outcome),
        ..p
    }
}

/// What is said of a claim.
pub open spec fn claim_notice(config: Config, p: PendingView, outcome: ClaimOutcome) -> Option<
    Seq<char>,
> {
    match outcome {
        ClaimOutcome::Processed(r) => if r.completed {
            Some(
                "[POLYMARKET BOT CLAIM OK]\ntrade : "@ + p.trade_id + "\nwindow: "@ + p.window_slug
                    + "\ntx    : "@ + (match r.tx_hash {
                    Some(hash) => hash,
                    None => "n/a"@,
                }),
            )
        } else if status_after(config, p.claim_attempts, outcome) == ClaimStatus::Failed
            && p.claim_attempts < config.settlement_max_attempts {
            Some(
                "[POLYMARKET BOT CLAIM FAIL]\ntrade : "@ + p.trade_id + "\nwindow: "@
                    + p.window_slug + "\nreason: "@ + text::cut(
                    match r.error {
                        Some(error) => error,
                        None => "unknown"@,
                    },
                    MAX_REASON_LENGTH as int,
                ),
            )
        } else {
            None
        },
        ClaimOutcome::Error(_) => None,
    }
}

/// What follows from what became of a claim.
pub struct SweepStep {
    /// The claim as it stays open, where it does.
    pub next: Option<PendingClaim>,
    /// What the log is told.
    pub update: ClaimStatusUpdate,
    /// What is said of it.
    pub notice: Option<String>,
    /// The claim succeeded.
    pub settled: bool,
}

/// Whether a step is the one that an outcome calls for.
pub open spec fn is_step(
    step: SweepStep,
    config: Config,
    p: PendingView,
    outcome: ClaimOutcome,
    now_ms: u64,
) -> bool {
    let status = status_after(config, p.claim_attempts, outcome);
    &&& match step.next {
        Some(next) => status == ClaimStatus::Pending && pending_view(next) == pending_after(
            p,
            outcome,
            now_ms,
        ),
        None => status != ClaimStatus::Pending,
    }
    &&& update_view(step.update) == update_after(config, p.claim_attempts, outcome, now_ms)
    &&& json::text_view(step.notice) == claim_notice(config, p, outcome)
    &&& step.settled == (status == ClaimStatus::Success)
}

fn stays_open(p: &PendingClaim, claim_attempts: u64, now_ms: u64, last_error: Option<String>) -> (r:
    PendingClaim)
    requires
        p.poll_count < u64::MAX,
    ensures
        pending_view(r) == (PendingView {
            poll_count: (p.poll_count + 1) as u64,
            claim_attempts,
            last_update_ms: now_ms,
            last_error: json::text_view(last_error),
            ..pending_view(*p)
        }),
{
    PendingClaim {
        trade_id: p.trade_id.clone(),
        window_slug: p.window_slug.clone(),
        condition_id: p.condition_id.clone(),
        yes_token_id: p.yes_token_id.clone(),
        no_token_id: p.no_token_id.clone(),
        created_at_ms: p.created_at_ms,
        poll_count: p.poll_count + 1,
        claim_attempts,
        last_update_ms: now_ms,
        last_error,
    }
}

fn notice_of_success(p: &PendingClaim, tx_hash: &Option<String>) -> (r: String)
    ensures
        r@ == "[POLYMARKET BOT CLAIM OK]\ntrade : "@ + p.trade_id@ + "\nwindow: "@ + p.window_slug@
            + "\ntx    : "@ + (match json::text_view(*tx_hash) {
            Some(hash) => hash,
            None => "n/a"@,
        }),
{
    let mut out = "[POLYMARKET BOT CLAIM OK]\ntrade : ".to_owned();
    out.append(p.trade_id.as_str());
    out.append("\nwindow: ");
    out.append(p.window_slug.as_str());
    out.append("\ntx    : ");
    match tx_hash {
        Some(hash) => out.append(hash.as_str()),
        None => out.append("n/a"),
    }
    out
}

fn notice_of_failure(p: &PendingClaim, error: &Option<String>) -> (r: String)
    ensures
        r@ == "[POLYMARKET BOT CLAIM FAIL]\ntrade : "@ + p.trade_id@ + "\nwindow: "@ + p.window_slug@
            + "\nreason: "@ + text::cut(
            match json::text_view(*error) {
                Some(error) => error,
                None => "unknown"@,
            },
            MAX_REASON_LENGTH as int,
        ),
{
    let mut out = "[POLYMARKET BOT CLAIM FAIL]\ntrade : ".to_owned();
    out.append(p.trade_id.as_str());
    out.append("\nwindow: ");
    out.append(p.window_slug.as_str());
    out.append("\nreason: ");
    let reason = match error {
        Some(error) => error.as_str(),
        None => "unknown",
    };
    out.append(text::truncate_text(reason, MAX_REASON_LENGTH).as_str());
    out
}

/// Decides what follows from what became of a claim.
pub fn sweep_claim(
    config: &Config,
    pending: &PendingClaim,
    result: Result<ClaimProcessingResult, String>,
    now_ms: u64,
) -> (r: SweepStep)
    requires
        pending.poll_count < u64::MAX,
        pending.claim_attempts < u64::MAX,
    ensures
        is_step(r, *config, pending_view(*pending), outcome_of(result), now_ms),
{
    match result {
        Ok(claim) => {
            if claim.completed {
                let notice = notice_of_success(pending, &claim.tx_hash);
                return SweepStep {
                    next: None,
                    update: ClaimStatusUpdate {
                        claim_status: Some(ClaimStatus::Success),
                        claim_attempts: Some(pending.claim_attempts + 1),
                        claim_tx_hash: claim.tx_hash,
                        claim_last_error: Some(String::new()),
                        claim_updated_at_ms: Some(now_ms),
                        market_resolved: Some(true),
                        market_resolution_source: claim.resolution_source,
                        market_resolved_at_ms: claim.market_resolved_at_ms,
                    },
                    notice: Some(notice),
                    settled: true,
                };
            }
            let attempts: u64 = if claim.market_resolved {
                pending.claim_attempts + 1
            } else {
                pending.claim_attempts
            };
            let failed = claim.market_resolved && attempts >= config.settlement_max_attempts;
            let next = if failed {
                None
            } else {
                Some(stays_open(pending, attempts, now_ms, json::copy_text(&claim.error)))
            };
            let notice = if failed && pending.claim_attempts < config.settlement_max_attempts {
                Some(notice_of_failure(pending, &claim.error))
            } else {
                None
            };
            SweepStep {
                next,
                update: ClaimStatusUpdate {
                    claim_status: Some(
                        if failed {
                            ClaimStatus::Failed
                        } else {
                            ClaimStatus::Pending
                        },
                    ),
                    claim_attempts: Some(attempts),
                    claim_tx_hash: None,
                    claim_last_error: claim.error,
                    claim_updated_at_ms: Some(now_ms),
                    market_resolved: Some(claim.market_resolved),
                    market_resolution_source: claim.resolution_source,
                    market_resolved_at_ms: claim.market_resolved_at_ms,
                },
                notice,
                settled: false,
            }
        },
        Err(message) => {
            let attempts: u64 = pending.claim_attempts + 1;
            let failed = attempts >= config.settlement_max_attempts;
            let next = if failed {
                None
            } else {
                Some(stays_open(pending, attempts, now_ms, Some(message.clone())))
            };
            SweepStep {
                next,
                update: ClaimStatusUpdate {
                    claim_status: Some(
                        if failed {
                            ClaimStatus::Failed
                        } else {
                            ClaimStatus::Pending
                        },
                    ),
                    claim_attempts: Some(attempts),
                    claim_tx_hash: None,
                    claim_last_error: Some(message),
                    claim_updated_at_ms: Some(now_ms),
                    market_resolved: None,
                    market_resolution_source: None,
                    market_resolved_at_ms: None,
                },
                notice: None,
                settled: false,
            }
        },
    }
}

/// Sweeps one of the open claims: it stays among them or leaves, as its outcome calls for.
/// Nothing follows where the trade has no open claim.
pub fn sweep_pending_claims(
    config: &Config,
    claims: &mut Table<PendingClaim>,
    trade_id: &str,
    result: Result<ClaimProcessingResult, String>,
    now_ms: u64,
) -> (r: Option<SweepStep>)
    requires
        old(claims).wf(),
        old(claims)@.contains_key(trade_id@) ==> old(claims)@[trade_id@].poll_count < u64::MAX
            && old(claims)@[trade_id@].claim_attempts < u64::MAX,
    ensures
        final(claims).wf(),
        match r {
            Some(step) => {
                let before = old(claims)@;
                let p = PendingView { trade_id: trade_id@, ..pending_view(before[trade_id@]) };
                let outcome = outcome_of(result);
                &&& before.contains_key(trade_id@)
                &&& is_step(step, *config, p, outcome, now_ms)
                &&& if step.next is None {
                    final(claims)@ == before.remove(trade_id@)
                } else {
                    &&& final(claims)@.contains_key(trade_id@)
                    &&& final(claims)@ == before.insert(trade_id@, final(claims)@[trade_id@])
                    &&& pending_view(final(claims)@[trade_id@]) == pending_after(p, outcome, now_ms)
                }
            },
            None => !old(claims)@.contains_key(trade_id@) && final(claims)@ == old(claims)@,
        },
{
    let step = match claims.get(trade_id) {
        Some(pending) => {
            let mut claim = copy_claim(pending);
            claim.trade_id = trade_id.to_owned();
            sweep_claim(config, &claim, result, now_ms)
        },
        None => {
            return None;
        },
    };
    match &step.next {
        Some(next) => {
            let kept = copy_claim(next);
            claims.insert(trade_id, kept);
        },
        None => {
            claims.remove(trade_id);
        },
    }
    Some(step)
}

fn copy_claim(p: &PendingClaim) -> (r: PendingClaim)
    ensures
        pending_view(r) == pending_view(*p),
{
    PendingClaim {
        trade_id: p.trade_id.clone(),
        window_slug: p.window_slug.clone(),
        condition_id: p.condition_id.clone(),
        yes_token_id: p.yes_token_id.clone(),
        no_token_id: p.no_token_id.clone(),
        created_at_ms: p.created_at_ms,
        poll_count: p.poll_count,
        claim_attempts: p.claim_attempts,
        last_update_ms: p.last_update_ms,
        last_error: json::copy_text(&p.last_error),
    }
}

/// A claim is given up only after as many attempts as the settings allow, an unresolved market
/// costs no attempt, and a claim that stays open after an attempt has some left.
pub proof fn attempts_are_bounded(config: Config, attempts: u64, outcome: ClaimOutcome)
    ensures
        status_after(config, attempts, outcome) == ClaimStatus::Failed ==> attempts_after(
            attempts,
            outcome,
        ) >= config.settlement_max_attempts,
        attempts <= attempts_after(attempts, outcome) <= attempts + 1,
        outcome matches ClaimOutcome::Processed(r) && !r.completed && !r.market_resolved
            ==> attempts_after(attempts, outcome) == attempts && status_after(
            config,
            attempts,
            outcome,
        ) == ClaimStatus::Pending,
        status_after(config, attempts, outcome) == ClaimStatus::Pending && attempts_after(
            attempts,
            outcome,
        ) > attempts ==> attempts_after(attempts, outcome) < config.settlement_max_attempts,
{
}

/// A claim that has been settled or given up leaves the open claims for good: once the log has
/// been told, restoring it brings back the claims that stayed open, with their attempts, and no
/// other.
pub proof fn log_and_open_claims_agree(
    record: TradeRecord,
    step: SweepStep,
    config: Config,
    p: PendingView,
    outcome: ClaimOutcome,
    now_ms: u64,
    later_ms: u64,
)
    requires
        can_be_claimed(record),
        is_step(step, config, p, outcome, now_ms),
    ensures
        ({
            let again = open_claim(trade_logger::updated(record, step.update), later_ms);
            &&& again is Some <==> step.next is Some
            &&& again matches Some(claim) ==> claim.claim_attempts == step.next->Some_0.claim_attempts
        }),
{
    let view = update_view(step.update);
    assert(view.claim_status == Some(status_after(config, p.claim_attempts, outcome)));
    assert(step.update.claim_status == view.claim_status);
    assert(step.update.claim_attempts == view.claim_attempts);
}

/// A logged trade has an open claim exactly where its condition and both tokens are named and its
/// claim is neither settled nor given up; one without a status counts as settled where it has a
/// transaction and as open otherwise. The claim keeps the trade's own data and its attempts.
pub proof fn unsettled_trades_have_open_claims(record: TradeRecord, now_ms: u64)
    ensures
        open_claim(record, now_ms) is Some <==> {
            &&& text::trimmed(record.market.condition_id@).len() > 0
            &&& text::trimmed(record.market.yes_token_id@).len() > 0
            &&& text::trimmed(record.market.no_token_id@).len() > 0
            &&& record.claim_status == Some(ClaimStatus::Pending) || (record.claim_status is None
                && record.claim_tx_hash is None)
        },
        open_claim(record, now_ms) matches Some(claim) ==> {
            &&& claim.trade_id == record.id
            &&& claim.window_slug == record.window.slug
            &&& claim.condition_id == record.market.condition_id
            &&& claim.yes_token_id == record.market.yes_token_id
            &&& claim.no_token_id == record.market.no_token_id
            &&& claim.created_at_ms == record.timestamp_ms
            &&& claim.last_update_ms == now_ms
            &&& record.claim_attempts matches Some(n) ==> claim.claim_attempts == n
            &&& record.claim_attempts is None ==> claim.claim_attempts == 0
            &&& claim.last_error == record.claim_last_error
        },
{
}

/// A claim that was completed is settled, whatever else is said of it, and the log is told its
/// transaction. It leaves the open claims, and its attempt is counted.
pub proof fn completed_claim_is_settled(
    step: SweepStep,
    config: Config,
    p: PendingView,
    result: ClaimView,
    now_ms: u64,
)
    requires
        result.completed,
        p.claim_attempts < u64::MAX,
        is_step(step, config, p, ClaimOutcome::Processed(result), now_ms),
    ensures
        step.settled,
        step.next is None,
        step.update.claim_status == Some(ClaimStatus::Success),
        json::text_view(step.update.claim_tx_hash) == result.tx_hash,
        json::text_view(step.update.claim_last_error) == Some(Seq::<char>::empty()),
        step.update.market_resolved == Some(true),
        step.update.claim_attempts == Some((p.claim_attempts + 1) as u64),
        step.update.claim_updated_at_ms == Some(now_ms),
        step.notice is Some,
{
    let view = update_view(step.update);
    assert(view.claim_status == step.update.claim_status);
}

/// A claim on a market that is not resolved stays open, at the cost of a look and of no attempt.
/// One that could not be redeemed, or not be processed at all, costs an attempt; it stays open while
/// attempts are left and is given up otherwise. A transaction is logged for neither.
pub proof fn uncompleted_claim_stays_open_while_attempts_are_left(
    step: SweepStep,
    config: Config,
    p: PendingView,
    outcome: ClaimOutcome,
    now_ms: u64,
)
    requires
        outcome matches ClaimOutcome::Processed(r) ==> !r.completed,
        p.claim_attempts < u64::MAX,
        p.poll_count < u64::MAX,
        is_step(step, config, p, outcome, now_ms),
    ensures
        ({
            let unresolved = outcome matches ClaimOutcome::Processed(r) && !r.market_resolved;
            let out_of_attempts = p.claim_attempts + 1 >= config.settlement_max_attempts;
            &&& !step.settled
            &&& step.next is Some <==> unresolved || !out_of_attempts
            &&& step.update.claim_status == Some(
                if unresolved || !out_of_attempts {
                    ClaimStatus::Pending
                } else {
                    ClaimStatus::Failed
                },
            )
            &&& step.update.claim_attempts == Some(
                if unresolved {
                    p.claim_attempts
                } else {
                    (p.claim_attempts + 1) as u64
                },
            )
            &&& step.update.claim_tx_hash is None
            &&& step.next matches Some(next) ==> {
                &&& next.trade_id@ == p.trade_id
                &&& next.condition_id@ == p.condition_id
                &&& next.poll_count == p.poll_count + 1
                &&& Some(next.claim_attempts) == step.update.claim_attempts
                &&& next.last_update_ms == now_ms
            }
            &&& outcome matches ClaimOutcome::Error(message) ==> json::text_view(
                step.update.claim_last_error,
            ) == Some(message)
            &&& outcome matches ClaimOutcome::Processed(r) ==> json::text_view(
                step.update.claim_last_error,
            ) == r.error && step.update.market_resolved == Some(r.market_resolved)
        }),
{
    let view = update_view(step.update);
    assert(view.claim_status == step.update.claim_status);
    match step.next {
        Some(next) => {
            assert(pending_view(next).trade_id == next.trade_id@);
        },
        None => {},
    }
}

/// Something is said of a claim exactly where it was completed, or where it was just given up on a
/// market that is resolved; the notice of a success holds its transaction.
pub proof fn claims_are_told_of_when_they_end(config: Config, p: PendingView, r: ClaimView)
    requires
        p.claim_attempts < u64::MAX,
    ensures
        claim_notice(config, p, ClaimOutcome::Processed(r)) is Some <==> r.completed || (
        r.market_resolved && p.claim_attempts + 1 >= config.settlement_max_attempts
            && p.claim_attempts < config.settlement_max_attempts),
        r.completed && r.tx_hash is Some ==> claim_notice(config, p, ClaimOutcome::Processed(r))
            == Some(
            "[POLYMARKET BOT CLAIM OK]\ntrade : "@ + p.trade_id + "\nwindow: "@ + p.window_slug
                + "\ntx    : "@ + r.tx_hash->Some_0,
        ),
{
}

/// What was found of the market's resolution is logged, where the claim was processed; a claim that is
/// given up is told with at most 220 characters of the reason, and one that was completed without a
/// transaction says so.
pub proof fn claims_are_logged_and_told(
    step: SweepStep,
    config: Config,
    p: PendingView,
    r: ClaimView,
    now_ms: u64,
)
    requires
        p.claim_attempts < u64::MAX,
        is_step(step, config, p, ClaimOutcome::Processed(r), now_ms),
    ensures
        step.update.market_resolution_source == r.resolution_source,
        step.update.market_resolved_at_ms == r.market_resolved_at_ms,
        step.update.market_resolved == Some(r.completed || r.market_resolved),
        step.update.claim_updated_at_ms == Some(now_ms),
        r.completed && r.tx_hash is None ==> step.notice is Some && step.notice->Some_0@
            == "[POLYMARKET BOT CLAIM OK]\ntrade : "@ + p.trade_id + "\nwindow: "@ + p.window_slug
            + "\ntx    : "@ + "n/a"@,
        !r.completed && r.error is Some && r.error->Some_0.len() <= 220 && step.notice is Some
            ==> step.notice->Some_0@ == "[POLYMARKET BOT CLAIM FAIL]\ntrade : "@ + p.trade_id
            + "\nwindow: "@ + p.window_slug + "\nreason: "@ + r.error->Some_0,
        step.next matches Some(next) ==> {
            &&& next.window_slug@ == p.window_slug
            &&& next.yes_token_id@ == p.yes_token_id && next.no_token_id@ == p.no_token_id
            &&& next.created_at_ms == p.created_at_ms
            &&& json::text_view(next.last_error) == r.error
        },
{
    let view = update_view(step.update);
    assert(view.market_resolution_source == step.update.market_resolution_source);
    assert(view.market_resolved_at_ms == step.update.market_resolved_at_ms);
    assert(view.market_resolved == step.update.market_resolved);
    assert(view.claim_updated_at_ms == step.update.claim_updated_at_ms);
    match step.next {
        Some(next) => {
            assert(pending_view(next).trade_id == next.trade_id@);
            assert(pending_view(next).window_slug == next.window_slug@);
            assert(pending_view(next).last_error == json::text_view(next.last_error));
        },
        None => {},
    }
}

/// A logged trade without a status counts as settled where it has a transaction, and as open
/// otherwise; a claim that is opened from the log has not been looked at.
pub proof fn status_is_told_by_the_log(record: TradeRecord, now_ms: u64)
    ensures
        record.claim_status matches Some(status) ==> recorded_status(record) == status,
        record.claim_status is None && record.claim_tx_hash is Some ==> recorded_status(record)
            == ClaimStatus::Success,
        record.claim_status is None && record.claim_tx_hash is None ==> recorded_status(record)
            == ClaimStatus::Pending,
        open_claim(record, now_ms) matches Some(claim) ==> claim.poll_count == 0,
{
}

/// Restoring the claims of a log adds one for each open trade that has none yet, leaves those that are
/// there as they are, and counts those that it adds.
pub proof fn restored_claims_are_counted(
    claims: Map<Seq<char>, PendingClaim>,
    records: Seq<TradeRecord>,
    now_ms: u64,
)
    requires
        claims.dom().finite(),
    ensures
        ({
            let (after, count) = restored(claims, records, now_ms);
            &&& after.dom().finite()
            &&& after.dom().len() == claims.dom().len() + count
            &&& count <= records.len()
            &&& forall|id: Seq<char>| #[trigger]
                claims.contains_key(id) ==> after.contains_key(id) && after[id] == claims[id]
            &&& forall|i: int|
                0 <= i < records.len() && open_claim(#[trigger] records[i], now_ms) is Some
                    ==> after.contains_key(records[i].id@)
            &&& forall|id: Seq<char>| #[trigger]
                after.contains_key(id) ==> claims.contains_key(id) || (exists|i: int|
                    0 <= i < records.len() && (#[trigger] records[i]).id@ == id && open_claim(
                        records[i],
                        now_ms,
                    ) == Some(after[id]))
        }),
    decreases records.len(),
{
    if records.len() > 0 {
        let head = records.drop_last();
        restored_claims_are_counted(claims, head, now_ms);
        let (before, count) = restored(claims, head, now_ms);
        let (after, _) = restored(claims, records, now_ms);
        let last = records.last();
        assert forall|i: int|
            0 <= i < records.len() && open_claim(
                #[trigger] records[i],
                now_ms,
            ) is Some implies after.contains_key(records[i].id@) by {
            if i < head.len() {
                assert(head[i] == records[i]);
            }
        }
        assert forall|id: Seq<char>| #[trigger]
            after.contains_key(id) implies claims.contains_key(id) || (exists|i: int|
            0 <= i < records.len() && (#[trigger] records[i]).id@ == id && open_claim(
                records[i],
                now_ms,
            ) == Some(after[id])) by {
            if before.contains_key(id) && !claims.contains_key(id) {
                let i = choose|i: int|
                    0 <= i < head.len() && (#[trigger] head[i]).id@ == id && open_claim(
                        head[i],
                        now_ms,
                    ) == Some(before[id]);
                assert(records[i] == head[i]);
                assert(after[id] == before[id]);
            } else if !before.contains_key(id) {
                assert(records[records.len() - 1].id@ == id);
            }
        }
    }
}

} // verus!
