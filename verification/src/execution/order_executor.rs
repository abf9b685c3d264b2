//! Entering a position: attempt after attempt until an order is filled, the attempts run out or
//! the market closes.
use vstd::prelude::*;
use crate::double::{Double, NINETY_EIGHT_CENT_BITS};
use crate::execution::price_band;
use crate::execution::spent;
use crate::execution::status_poll;
use crate::execution::status_poll::{PollRun, PollView};
use crate::execution::submit_response;
use crate::json;
use crate::json::{Entry, Json, JsonTree};
use crate::text;
use crate::types::{Config, ExecutionResult, ExecutionStatus, ExecutionView, OrderBookSnapshot};

verus! {

// ---------------------------------------------------------------------------
// Diagnostics
// ---------------------------------------------------------------------------

pub struct EntryDiagnostics {
    pub time_budget_start_sec: u64,
    pub attempts: u64,
    pub fok_attempts: u64,
    pub no_asks_count: u64,
    pub gate_reject_count: u64,
    pub orderbook_error_count: u64,
    pub last_attempt_status: Option<String>,
    pub last_best_bid: Option<Double>,
    pub last_best_ask: Option<Double>,
    pub last_final_price: Option<Double>,
    pub last_tick_size: Option<String>,
}

#[verifier::ext_equal]
pub struct DiagnosticsView {
    pub time_budget_start_sec: u64,
    pub attempts: u64,
    pub fok_attempts: u64,
    pub no_asks_count: u64,
    pub gate_reject_count: u64,
    pub orderbook_error_count: u64,
    pub last_attempt_status: Option<Seq<char>>,
    pub last_best_bid: Option<Double>,
    pub last_best_ask: Option<Double>,
    pub last_final_price: Option<Double>,
    pub last_tick_size: Option<Seq<char>>,
}

impl EntryDiagnostics {
    pub open spec fn view(self) -> DiagnosticsView {
        DiagnosticsView {
            time_budget_start_sec: self.time_budget_start_sec,
            attempts: self.attempts,
            fok_attempts: self.fok_attempts,
            no_asks_count: self.no_asks_count,
            gate_reject_count: self.gate_reject_count,
            orderbook_error_count: self.orderbook_error_count,
            last_attempt_status: json::text_view(self.last_attempt_status),
            last_best_bid: self.last_best_bid,
            last_best_ask: self.last_best_ask,
            last_final_price: self.last_final_price,
            last_tick_size: json::text_view(self.last_tick_size),
        }
    }
}

/// The result of an entry that placed no order, with all that is known of why.
pub open spec fn skipped(
    reason: Seq<char>,
    d: DiagnosticsView,
    extras: Seq<(Seq<char>, JsonTree)>,
) -> ExecutionView {
    let raw = json::put_all(seq![("reason"@, JsonTree::Text(reason))], extras);
    let raw = json::put(raw, "timeBudgetStartSec"@, json::count_tree(d.time_budget_start_sec));
    let raw = json::put(raw, "attempts"@, json::count_tree(d.attempts));
    let raw = json::put(raw, "fokAttempts"@, json::count_tree(d.fok_attempts));
    let raw = json::put(raw, "noAsksCount"@, json::count_tree(d.no_asks_count));
    let raw = json::put(raw, "gateRejectCount"@, json::count_tree(d.gate_reject_count));
    let raw = json::put(raw, "orderbookErrorCount"@, json::count_tree(d.orderbook_error_count));
    let raw = json::put(
        raw,
        "lastAttemptStatus"@,
        json::optional_text_tree(d.last_attempt_status),
    );
    let raw = json::put(raw, "lastBestBid"@, json::optional_amount_tree(d.last_best_bid));
    let raw = json::put(raw, "lastBestAsk"@, json::optional_amount_tree(d.last_best_ask));
    let raw = json::put(raw, "lastFinalPrice"@, json::optional_amount_tree(d.last_final_price));
    let raw = json::put(raw, "lastTickSize"@, json::optional_text_tree(d.last_tick_size));
    ExecutionView {
        status: ExecutionStatus::Skipped,
        order_id: Seq::empty(),
        filled_price: match d.last_final_price {
            Some(p) => p,
            None => Double { bits: 0 },
        },
        filled_size: Double { bits: 0 },
        spent_usd: Double { bits: 0 },
        used_fallback_limit: false,
        raw,
    }
}

pub fn build_skipped_result(
    reason: &str,
    diagnostics: &EntryDiagnostics,
    extras: Vec<Entry>,
) -> (r: ExecutionResult)
    ensures
        r@ == skipped(reason@, diagnostics@, json::record(extras@)),
{
    let mut raw: Vec<Entry> = Vec::new();
    raw.push(json::entry("reason", json::text_json(reason)));
    assert(json::record(raw@) =~= seq![("reason"@, JsonTree::Text(reason@))]);
    json::set_members(&mut raw, extras);
    json::set_member(
        &mut raw,
        "timeBudgetStartSec",
        json::count_json(diagnostics.time_budget_start_sec),
    );
    json::set_member(&mut raw, "attempts", json::count_json(diagnostics.attempts));
    json::set_member(&mut raw, "fokAttempts", json::count_json(diagnostics.fok_attempts));
    json::set_member(&mut raw, "noAsksCount", json::count_json(diagnostics.no_asks_count));
    json::set_member(
        &mut raw,
        "gateRejectCount",
        json::count_json(diagnostics.gate_reject_count),
    );
    json::set_member(
        &mut raw,
        "orderbookErrorCount",
        json::count_json(diagnostics.orderbook_error_count),
    );
    json::set_member(
        &mut raw,
        "lastAttemptStatus",
        json::optional_text_json(&diagnostics.last_attempt_status),
    );
    json::set_member(
        &mut raw,
        "lastBestBid",
        json::optional_amount_json(diagnostics.last_best_bid),
    );
    json::set_member(
        &mut raw,
        "lastBestAsk",
        json::optional_amount_json(diagnostics.last_best_ask),
    );
    json::set_member(
        &mut raw,
        "lastFinalPrice",
        json::optional_amount_json(diagnostics.last_final_price),
    );
    json::set_member(
        &mut raw,
        "lastTickSize",
        json::optional_text_json(&diagnostics.last_tick_size),
    );
    let filled_price = match diagnostics.last_final_price {
        Some(p) => p,
        None => Double::zero(),
    };
    let order_id = String::new();
    assert(order_id@ =~= Seq::<char>::empty());
    ExecutionResult {
        status: ExecutionStatus::Skipped,
        order_id,
        filled_price,
        filled_size: Double::zero(),
        spent_usd: Double::zero(),
        used_fallback_limit: false,
        raw_response: raw,
    }
}

/// The name of a status in records and logs.
pub open spec fn status_name(status: ExecutionStatus) -> Seq<char> {
    match status {
        ExecutionStatus::Pending => "PENDING"@,
        ExecutionStatus::Filled => "FILLED"@,
        ExecutionStatus::Partial => "PARTIAL"@,
        ExecutionStatus::Cancelled => "CANCELLED"@,
        ExecutionStatus::Failed => "FAILED"@,
        ExecutionStatus::Skipped => "SKIPPED"@,
    }
}

pub fn status_label(status: ExecutionStatus) -> (r: &'static str)
    ensures
        r@ == status_name(status),
{
    match status {
        ExecutionStatus::Pending => "PENDING",
        ExecutionStatus::Filled => "FILLED",
        ExecutionStatus::Partial => "PARTIAL",
        ExecutionStatus::Cancelled => "CANCELLED",
        ExecutionStatus::Failed => "FAILED",
        ExecutionStatus::Skipped => "SKIPPED",
    }
}

// ---------------------------------------------------------------------------
// Judging the answer to an order
// ---------------------------------------------------------------------------

/// What the answer to an order calls for.
pub enum SubmitVerdict {
    /// The order was rejected, with this result.
    Rejected(ExecutionResult),
    /// The order seems to be in, and cannot be followed: its id is missing.
    NoOrderId,
    /// The order is in and is to be followed.
    Follow(PollRun),
}

#[verifier::ext_equal]
pub enum VerdictView {
    Rejected(ExecutionView),
    NoOrderId,
    Follow(PollView),
}

impl SubmitVerdict {
    pub open spec fn view(self) -> VerdictView {
        match self {
            SubmitVerdict::Rejected(result) => VerdictView::Rejected(result@),
            SubmitVerdict::NoOrderId => VerdictView::NoOrderId,
            SubmitVerdict::Follow(run) => VerdictView::Follow(run@),
        }
    }
}

/// The code of the error in an answer.
pub open spec fn answer_code(answer: JsonTree) -> Option<Seq<char>> {
    match submit_response::submit_error(answer) {
        Some(message) => submit_response::error_code(message),
        None => None,
    }
}

/// The result of an order that was rejected.
pub open spec fn rejected(answer: JsonTree, final_price: Double) -> ExecutionView {
    let code = answer_code(answer);
    let terminal = code is Some && submit_response::is_terminal_code(code->Some_0);
    let raw = json::put(
        submit_response::raw_map(answer),
        "reason"@,
        JsonTree::Text("order_submit_rejected"@),
    );
    let raw = json::put(
        raw,
        "submitSuccess"@,
        match submit_response::submit_success(answer) {
            Some(b) => JsonTree::Bool(b),
            None => JsonTree::Null,
        },
    );
    let raw = json::put(
        raw,
        "submitStatus"@,
        json::optional_text_tree(submit_response::submit_status(answer)),
    );
    let raw = json::put(
        raw,
        "submitErrorMsg"@,
        json::optional_text_tree(submit_response::submit_error(answer)),
    );
    let raw = json::put(raw, "submitErrorCode"@, json::optional_text_tree(code));
    let raw = json::put(raw, "submitTerminalNoRetry"@, JsonTree::Bool(terminal));
    ExecutionView {
        status: ExecutionStatus::Failed,
        order_id: submit_response::order_id_of(answer),
        filled_price: final_price,
        filled_size: Double { bits: 0 },
        spent_usd: Double { bits: 0 },
        used_fallback_limit: false,
        raw,
    }
}

/// The start of following an order that was sent to be filled at once for a stake.
pub open spec fn fok_poll(
    config: Config,
    answer: JsonTree,
    final_price: Double,
    stake_usd: Double,
    close_time_sec: u64,
) -> PollView {
    PollView {
        order_id: submit_response::order_id_of(answer),
        answer,
        price: final_price,
        context: spent::fok_terms(stake_usd),
        used_fallback_limit: false,
        until_sec: status_poll::poll_deadline(close_time_sec, config.status_poll_grace_sec),
        counts: status_poll::no_counts(),
    }
}

/// The verdict on the answer to an order that is filled whole and at once or not at all.
pub open spec fn fok_verdict(
    config: Config,
    answer: JsonTree,
    final_price: Double,
    stake_usd: Double,
    close_time_sec: u64,
) -> VerdictView {
    if submit_response::rejects(answer) {
        VerdictView::Rejected(rejected(answer, final_price))
    } else if submit_response::order_id_of(answer).len() == 0 {
        VerdictView::NoOrderId
    } else {
        VerdictView::Follow(fok_poll(config, answer, final_price, stake_usd, close_time_sec))
    }
}

pub fn submit_fok_buy(
    config: &Config,
    post_result: &Json,
    final_price: Double,
    stake_usd: Double,
    close_time_sec: u64,
) -> (r: SubmitVerdict)
    ensures
        r@ == fok_verdict(*config, post_result@, final_price, stake_usd, close_time_sec),
{
    let success = submit_response::extract_submit_success(post_result);
    let message = submit_response::extract_submit_error_message(post_result);
    let order_id = submit_response::extract_order_id(post_result);
    let refused = match success {
        Some(b) => !b,
        None => false,
    };
    if refused || message.is_some() {
        let code = match &message {
            Some(m) => submit_response::infer_submit_error_code(m.as_str()),
            None => None,
        };
        let terminal = match &code {
            Some(c) => submit_response::is_non_retryable_submit_error(Some(c.as_str())),
            None => false,
        };
        let status = submit_response::extract_submit_status(post_result);
        let mut raw = submit_response::to_raw_map(post_result);
        json::set_member(&mut raw, "reason", json::text_json("order_submit_rejected"));
        let success_json = match success {
            Some(b) => Json::Bool(b),
            None => Json::Null,
        };
        json::set_member(&mut raw, "submitSuccess", success_json);
        json::set_member(&mut raw, "submitStatus", json::optional_text_json(&status));
        json::set_member(&mut raw, "submitErrorMsg", json::optional_text_json(&message));
        json::set_member(&mut raw, "submitErrorCode", json::optional_text_json(&code));
        json::set_member(&mut raw, "submitTerminalNoRetry", Json::Bool(terminal));
        return SubmitVerdict::Rejected(
            ExecutionResult {
                status: ExecutionStatus::Failed,
                order_id,
                filled_price: final_price,
                filled_size: Double::zero(),
                spent_usd: Double::zero(),
                used_fallback_limit: false,
                raw_response: raw,
            },
        );
    }
    if order_id.as_str().is_empty() {
        SubmitVerdict::NoOrderId
    } else {
        SubmitVerdict::Follow(
            status_poll::poll_final_order_status(
                config,
                close_time_sec,
                post_result,
                order_id,
                final_price,
                spent::fok_context(stake_usd),
                false,
            ),
        )
    }
}

/// The result of an order at the fallback price that the band does not allow.
pub open spec fn fallback_gate(config: Config) -> Option<ExecutionView> {
    let price = price_band::fallback_price(config);
    match price_band::band_reject(price, config) {
        Some(why) => Some(
            ExecutionView {
                status: ExecutionStatus::Skipped,
                order_id: Seq::empty(),
                filled_price: price,
                filled_size: Double { bits: 0 },
                spent_usd: Double { bits: 0 },
                used_fallback_limit: true,
                raw: json::put_all(
                    Seq::empty(),
                    seq![
                        ("reason"@, JsonTree::Text("buy_price_gate_reject"@)),
                        ("gateSource"@, JsonTree::Text("fallback_limit_price"@)),
                        ("gateReason"@, JsonTree::Text(why)),
                        ("gateMin"@, json::amount_tree(config.price_range_min)),
                        ("gateMax"@, json::amount_tree(config.price_range_max)),
                        ("fallbackPrice"@, json::amount_tree(price)),
                    ],
                ),
            },
        ),
        None => None,
    }
}

/// The fallback order: its price, or the result where the band does not allow it.
pub fn submit_limit_fallback(config: &Config) -> (r: Result<Double, ExecutionResult>)
    ensures
        match r {
            Ok(price) => price == price_band::fallback_price(*config) && fallback_gate(
                *config,
            ) is None,
            Err(result) => fallback_gate(*config) == Some(result@),
        },
{
    let price = price_band::fallback_limit_price(config);
    match price_band::buy_band_reject_reason(price, config) {
        Some(why) => {
            let mut extras: Vec<Entry> = Vec::new();
            extras.push(json::entry("reason", json::text_json("buy_price_gate_reject")));
            extras.push(json::entry("gateSource", json::text_json("fallback_limit_price")));
            extras.push(json::entry("gateReason", json::text_json(why)));
            extras.push(json::entry("gateMin", json::amount_json(config.price_range_min)));
            extras.push(json::entry("gateMax", json::amount_json(config.price_range_max)));
            extras.push(json::entry("fallbackPrice", json::amount_json(price)));
            assert(json::record(extras@) =~= seq![
                ("reason"@, JsonTree::Text("buy_price_gate_reject"@)),
                ("gateSource"@, JsonTree::Text("fallback_limit_price"@)),
                ("gateReason"@, JsonTree::Text(why@)),
                ("gateMin"@, json::amount_tree(config.price_range_min)),
                ("gateMax"@, json::amount_tree(config.price_range_max)),
                ("fallbackPrice"@, json::amount_tree(price)),
            ]);
            let mut raw: Vec<Entry> = Vec::new();
            assert(json::record(raw@) =~= Seq::empty());
            json::set_members(&mut raw, extras);
            let order_id = String::new();
            assert(order_id@ =~= Seq::<char>::empty());
            Err(
                ExecutionResult {
                    status: ExecutionStatus::Skipped,
                    order_id,
                    filled_price: price,
                    filled_size: Double::zero(),
                    spent_usd: Double::zero(),
                    used_fallback_limit: true,
                    raw_response: raw,
                },
            )
        },
        None => Ok(price),
    }
}

/// The start of following an order at the fallback price.
pub open spec fn fallback_poll(
    config: Config,
    answer: JsonTree,
    price: Double,
    close_time_sec: u64,
) -> PollView {
    PollView {
        order_id: submit_response::order_id_of(answer),
        answer,
        price,
        context: spent::fallback_terms(),
        used_fallback_limit: true,
        until_sec: status_poll::poll_deadline(close_time_sec, config.status_poll_grace_sec),
        counts: status_poll::no_counts(),
    }
}

/// Begins to follow an order at the fallback price, where the answer names one.
pub fn follow_fallback(
    config: &Config,
    post_result: &Json,
    price: Double,
    close_time_sec: u64,
) -> (r: Option<PollRun>)
    ensures
        match r {
            Some(run) => submit_response::order_id_of(post_result@).len() > 0 && run@
                == fallback_poll(*config, post_result@, price, close_time_sec),
            None => submit_response::order_id_of(post_result@).len() == 0,
        },
{
    let order_id = submit_response::extract_order_id(post_result);
    if order_id.as_str().is_empty() {
        None
    } else {
        Some(
            status_poll::poll_final_order_status(
                config,
                close_time_sec,
                post_result,
                order_id,
                price,
                spent::fallback_context(),
                true,
            ),
        )
    }
}

/// An order that was sent to be filled at once for a stake, and that the exchange then reports as
/// filled, is recorded with that stake as its cost, whatever the size and the price of the fill.
pub proof fn fok_order_is_recorded_at_its_stake(
    config: Config,
    answer: JsonTree,
    final_price: Double,
    stake_usd: Double,
    close_time_sec: u64,
    status: status_poll::StatusView,
    filled_size: Double,
    filled_price: Double,
    size_x_price: Double,
)
    requires
        stake_usd.finite(),
        stake_usd.positive(),
        spent::is_filled(status.raw_status),
    ensures
        fok_verdict(config, answer, final_price, stake_usd, close_time_sec) matches
            VerdictView::Follow(run) ==> (status_poll::poll_numbers(
            config,
            run,
            status,
            filled_size,
            filled_price,
            size_x_price,
        ) matches status_poll::PollMove::Done(result) && result.status == ExecutionStatus::Filled
            && result.spent_usd == stake_usd),
{
}

// ---------------------------------------------------------------------------
// The entry
// ---------------------------------------------------------------------------

/// An entry under way.
pub struct EntryRun {
    diagnostics: EntryDiagnostics,
    token_id: String,
    stake_usd: Double,
    close_time_sec: u64,
}

#[verifier::ext_equal]
pub struct EntryView {
    pub d: DiagnosticsView,
    pub token_id: Seq<char>,
    pub stake_usd: Double,
    pub close_time_sec: u64,
}

/// What is to be done next.
pub enum EntryAction {
    /// Fetch the order book of the token and report it.
    FetchOrderbook { token_id: String },
    /// Fetch the tick size of the token and report it.
    FetchTickSize { token_id: String },
    /// Work out the price to submit, from the best ask and up to the highest price allowed.
    Quote { best_ask: Double, max_price: Double, tick_size: String },
    /// Submit an order for the stake, to be filled at once at this price, and report its result.
    SubmitFok { token_id: String, stake_usd: Double, final_price: Double, tick_size: String },
    /// Submit an order at the fallback price and report its result.
    SubmitLimitFallback { token_id: String, stake_usd: Double, tick_size: String },
    /// Wait so many milliseconds and report the time.
    Sleep(u64),
    /// The order was filled: place what follows a fill, and end with its result.
    AttachSell(ExecutionResult),
    /// The entry has ended.
    Done(ExecutionResult),
}

#[verifier::ext_equal]
pub enum EntryMove {
    FetchOrderbook { token_id: Seq<char> },
    FetchTickSize { token_id: Seq<char> },
    Quote { best_ask: Double, max_price: Double, tick_size: Seq<char> },
    SubmitFok {
        token_id: Seq<char>,
        stake_usd: Double,
        final_price: Double,
        tick_size: Seq<char>,
    },
    SubmitLimitFallback { token_id: Seq<char>, stake_usd: Double, tick_size: Seq<char> },
    Sleep(u64),
    AttachSell(ExecutionView),
    Done(ExecutionView),
}

impl EntryAction {
    pub open spec fn view(self) -> EntryMove {
        match self {
            EntryAction::FetchOrderbook { token_id } => EntryMove::FetchOrderbook {
                token_id: token_id@,
            },
            EntryAction::FetchTickSize { token_id } => EntryMove::FetchTickSize {
                token_id: token_id@,
            },
            EntryAction::Quote { best_ask, max_price, tick_size } => EntryMove::Quote {
                best_ask,
                max_price,
                tick_size: tick_size@,
            },
            EntryAction::SubmitFok {
                token_id,
                stake_usd,
                final_price,
                tick_size,
            } => EntryMove::SubmitFok {
                token_id: token_id@,
                stake_usd,
                final_price,
                tick_size: tick_size@,
            },
            EntryAction::SubmitLimitFallback {
                token_id,
                stake_usd,
                tick_size,
            } => EntryMove::SubmitLimitFallback {
                token_id: token_id@,
                stake_usd,
                tick_size: tick_size@,
            },
            EntryAction::Sleep(ms) => EntryMove::Sleep(ms),
            EntryAction::AttachSell(result) => EntryMove::AttachSell(result@),
            EntryAction::Done(result) => EntryMove::Done(result@),
        }
    }
}

impl EntryView {
    /// How many attempts ended in one of the ways that are counted.
    pub open spec fn counted(self) -> int {
        self.d.fok_attempts + self.d.no_asks_count + self.d.gate_reject_count
            + self.d.orderbook_error_count
    }

    /// Between two attempts: each attempt so far was counted once, and there is one left.
    pub open spec fn waiting(self, config: Config) -> bool {
        &&& self.counted() == self.d.attempts
        &&& self.d.attempts == 0 || self.d.attempts < config.order_max_attempts
    }

    /// Within an attempt: it is not counted yet.
    pub open spec fn attempting(self, config: Config) -> bool {
        &&& self.counted() + 1 == self.d.attempts
        &&& self.d.attempts == 1 || self.d.attempts <= config.order_max_attempts
    }

    /// At the end of an attempt: it is counted.
    pub open spec fn ending(self, config: Config) -> bool {
        &&& self.counted() == self.d.attempts
        &&& self.d.attempts == 1 || 1 <= self.d.attempts <= config.order_max_attempts
    }

    pub open spec fn with_status(self, status: Seq<char>) -> EntryView {
        EntryView {
            d: DiagnosticsView { last_attempt_status: Some(status), ..self.d },
            ..self
        }
    }

    /// How long it is to the close, in milliseconds and as far as they can be counted.
    pub open spec fn remaining_ms(self, now_sec: u64) -> u64 {
        if now_sec >= self.close_time_sec {
            0
        } else if (self.close_time_sec - now_sec) * 1000 > u64::MAX {
            u64::MAX
        } else {
            ((self.close_time_sec - now_sec) * 1000) as u64
        }
    }
}

/// The tick size that is used while the exchange does not tell.
pub open spec fn tick_or_default(tick_size: Option<Seq<char>>) -> Seq<char> {
    match tick_size {
        Some(t) => t,
        None => "0.01"@,
    }
}

/// The end of an entry whose attempts are used up.
pub open spec fn attempts_used_up(config: Config, s: EntryView) -> (EntryView, EntryMove) {
    let after = s.with_status("ATTEMPT_LIMIT_REACHED"@);
    (
        after,
        EntryMove::Done(
            skipped(
                "order_max_attempts_exceeded"@,
                after.d,
                seq![
                    ("maxAttempts"@, json::count_tree(config.order_max_attempts)),
                    ("retryIntervalMs"@, json::count_tree(config.order_retry_interval_ms)),
                ],
            ),
        ),
    )
}

/// What follows an attempt that filled nothing: the end where the attempts are used up or the
/// close is nearer than the next attempt, and a pause otherwise.
pub open spec fn after_attempt(config: Config, s: EntryView, now_sec: u64) -> (
    EntryView,
    EntryMove,
) {
    if s.d.attempts >= config.order_max_attempts {
        attempts_used_up(config, s)
    } else if s.remaining_ms(now_sec) <= config.order_retry_interval_ms {
        let after = s.with_status("TIME_BUDGET_AFTER_ATTEMPT"@);
        (
            after,
            EntryMove::Done(
                skipped(
                    "entry_time_budget_exhausted_after_attempt"@,
                    after.d,
                    seq![
                        ("remainingMs"@, json::count_tree(s.remaining_ms(now_sec))),
                        ("retryIntervalMs"@, json::count_tree(config.order_retry_interval_ms)),
                    ],
                ),
            ),
        )
    } else {
        (s, EntryMove::Sleep(config.order_retry_interval_ms))
    }
}

/// The start of an entry: the end of it where the market is closed, and the first look at the
/// clock otherwise.
pub open spec fn entry_start(
    token_id: Seq<char>,
    stake_usd: Double,
    close_time_sec: u64,
    now_sec: u64,
) -> (EntryView, EntryMove) {
    let budget = if now_sec >= close_time_sec {
        0u64
    } else {
        (close_time_sec - now_sec) as u64
    };
    let s = EntryView {
        d: DiagnosticsView {
            time_budget_start_sec: budget,
            attempts: 0,
            fok_attempts: 0,
            no_asks_count: 0,
            gate_reject_count: 0,
            orderbook_error_count: 0,
            last_attempt_status: None,
            last_best_bid: None,
            last_best_ask: None,
            last_final_price: None,
            last_tick_size: None,
        },
        token_id,
        stake_usd,
        close_time_sec,
    };
    if budget == 0 {
        let after = s.with_status("WINDOW_ALREADY_CLOSED"@);
        (
            after,
            EntryMove::Done(
                skipped(
                    "window_already_closed"@,
                    after.d,
                    seq![
                        ("closeTimeSec"@, json::count_tree(close_time_sec)),
                        ("nowSec"@, json::count_tree(now_sec)),
                    ],
                ),
            ),
        )
    } else {
        (s, EntryMove::Sleep(0))
    }
}

/// The next attempt, where there is time for one.
pub open spec fn entry_time(s: EntryView, now_sec: u64) -> (EntryView, EntryMove) {
    if now_sec >= s.close_time_sec {
        let after = if s.d.last_attempt_status is None {
            s.with_status("WINDOW_CLOSED_LOOP_EXIT"@)
        } else {
            s
        };
        (
            after,
            EntryMove::Done(
                skipped(
                    "window_closed_before_fill"@,
                    after.d,
                    seq![("exhaustedAtSec"@, json::count_tree(now_sec))],
                ),
            ),
        )
    } else {
        let begun = EntryView {
            d: DiagnosticsView { attempts: (s.d.attempts + 1) as u64, ..s.d },
            ..s
        };
        if s.close_time_sec - now_sec <= 1 {
            let after = begun.with_status("TIME_BUDGET_BEFORE_ATTEMPT"@);
            (
                after,
                EntryMove::Done(
                    skipped(
                        "entry_time_budget_exhausted_before_attempt"@,
                        after.d,
                        seq![
                            (
                                "timeToCloseSec"@,
                                json::count_tree((s.close_time_sec - now_sec) as u64),
                            ),
                        ],
                    ),
                ),
            )
        } else {
            (begun, EntryMove::FetchOrderbook { token_id: s.token_id })
        }
    }
}

/// An attempt whose order book could not be fetched.
pub open spec fn entry_orderbook_error(
    config: Config,
    s: EntryView,
    message: Seq<char>,
    now_sec: u64,
) -> (EntryView, EntryMove) {
    let failed = EntryView {
        d: DiagnosticsView {
            orderbook_error_count: (s.d.orderbook_error_count + 1) as u64,
            last_attempt_status: Some("ORDERBOOK_FETCH_ERROR"@),
            ..s.d
        },
        ..s
    };
    if s.d.attempts >= config.order_max_attempts {
        attempts_used_up(config, failed)
    } else if s.remaining_ms(now_sec) <= config.order_retry_interval_ms {
        let after = failed.with_status("ORDERBOOK_ERROR_UNTIL_CLOSE"@);
        (
            after,
            EntryMove::Done(
                skipped(
                    "orderbook_error_until_close"@,
                    after.d,
                    seq![
                        ("error"@, JsonTree::Text(text::cut(message, 180))),
                        ("remainingMs"@, json::count_tree(s.remaining_ms(now_sec))),
                        ("retryIntervalMs"@, json::count_tree(config.order_retry_interval_ms)),
                    ],
                ),
            ),
        )
    } else {
        (failed, EntryMove::Sleep(config.order_retry_interval_ms))
    }
}

/// The best prices of the book, where it has any.
pub open spec fn entry_orderbook(s: EntryView, book: OrderBookSnapshot) -> (EntryView, EntryMove) {
    let after = EntryView {
        d: DiagnosticsView {
            last_best_bid: if book.best_bid.positive() {
                Some(book.best_bid)
            } else {
                None
            },
            last_best_ask: if book.asks_present && book.best_ask.positive() {
                Some(book.best_ask)
            } else {
                None
            },
            ..s.d
        },
        ..s
    };
    (after, EntryMove::FetchTickSize { token_id: s.token_id })
}

/// The end of an entry at a price outside the band.
pub open spec fn gate_result(
    d: DiagnosticsView,
    prices: Seq<(Seq<char>, JsonTree)>,
    source: Seq<char>,
    why: Seq<char>,
    config: Config,
) -> ExecutionView {
    skipped(
        "buy_price_gate_reject"@,
        d,
        prices + seq![
            ("gateSource"@, JsonTree::Text(source)),
            ("gateReason"@, JsonTree::Text(why)),
            ("gateMin"@, json::amount_tree(config.price_range_min)),
            ("gateMax"@, json::amount_tree(config.price_range_max)),
        ],
    )
}

/// The highest price that may be paid.
pub open spec fn max_buy_price(config: Config) -> Double {
    if config.entry_price_gate_enabled {
        config.price_range_max
    } else {
        Double { bits: NINETY_EIGHT_CENT_BITS }
    }
}

/// Which order the attempt places: one at the best ask, where there is one and the band allows
/// it; one that waits for sellers, where that is enabled; none otherwise.
pub open spec fn entry_tick_size(
    config: Config,
    s: EntryView,
    tick_size: Option<Seq<char>>,
    now_sec: u64,
) -> (EntryView, EntryMove) {
    let tick = tick_or_default(tick_size);
    let known = EntryView { d: DiagnosticsView { last_tick_size: Some(tick), ..s.d }, ..s };
    match s.d.last_best_ask {
        Some(best_ask) => match price_band::band_reject(best_ask, config) {
            Some(why) => {
                let after = EntryView {
                    d: DiagnosticsView {
                        gate_reject_count: (s.d.gate_reject_count + 1) as u64,
                        last_attempt_status: Some("GATE_REJECT_BEST_ASK"@),
                        last_final_price: Some(best_ask),
                        ..known.d
                    },
                    ..s
                };
                (
                    after,
                    EntryMove::Done(
                        gate_result(
                            after.d,
                            seq![("observedPrice"@, json::amount_tree(best_ask))],
                            "best_ask"@,
                            why,
                            config,
                        ),
                    ),
                )
            },
            None => (
                known,
                EntryMove::Quote { best_ask, max_price: max_buy_price(config), tick_size: tick },
            ),
        },
        None => {
            let counted = EntryView {
                d: DiagnosticsView {
                    no_asks_count: (s.d.no_asks_count + 1) as u64,
                    last_attempt_status: Some(
                        if config.enable_fallback_gtc_limit {
                            "NO_ASKS_FALLBACK_GTC"@
                        } else {
                            "NO_ASKS_FALLBACK_DISABLED"@
                        },
                    ),
                    ..known.d
                },
                ..s
            };
            if config.enable_fallback_gtc_limit {
                (
                    counted,
                    EntryMove::SubmitLimitFallback {
                        token_id: s.token_id,
                        stake_usd: s.stake_usd,
                        tick_size: tick,
                    },
                )
            } else {
                after_attempt(config, counted, now_sec)
            }
        },
    }
}

/// The order at the price that was worked out, where the band allows it.
pub open spec fn entry_quote(
    config: Config,
    s: EntryView,
    slipped: Double,
    final_price: Double,
) -> (EntryView, EntryMove) {
    let priced = EntryView {
        d: DiagnosticsView { last_final_price: Some(final_price), ..s.d },
        ..s
    };
    match price_band::band_reject(final_price, config) {
        Some(why) => {
            let after = EntryView {
                d: DiagnosticsView {
                    gate_reject_count: (s.d.gate_reject_count + 1) as u64,
                    last_attempt_status: Some("GATE_REJECT_SUBMIT_BAND"@),
                    ..priced.d
                },
                ..s
            };
            (
                after,
                EntryMove::Done(
                    gate_result(
                        after.d,
                        seq![
                            ("finalPrice"@, json::amount_tree(final_price)),
                            ("slippedPrice"@, json::amount_tree(slipped)),
                        ],
                        "submit_price"@,
                        why,
                        config,
                    ),
                ),
            )
        },
        None => (
            EntryView {
                d: DiagnosticsView {
                    fok_attempts: (s.d.fok_attempts + 1) as u64,
                    ..priced.d
                },
                ..s
            },
            EntryMove::SubmitFok {
                token_id: s.token_id,
                stake_usd: s.stake_usd,
                final_price,
                tick_size: tick_or_default(s.d.last_tick_size),
            },
        ),
    }
}

/// Whether a result says that the order must not be sent again.
pub open spec fn must_stop(result: ExecutionView) -> bool {
    json::lookup(result.raw, "submitTerminalNoRetry"@) == Some(JsonTree::Bool(true))
}

/// What follows the result of an order that was to be filled at once.
pub open spec fn entry_fok_result(
    config: Config,
    s: EntryView,
    result: Option<ExecutionView>,
    now_sec: u64,
) -> (EntryView, EntryMove) {
    match result {
        Some(value) => {
            let noted = s.with_status("FOK_"@ + status_name(value.status));
            if value.status == ExecutionStatus::Filled || value.status
                == ExecutionStatus::Partial {
                (noted, EntryMove::AttachSell(value))
            } else if must_stop(value) {
                (s.with_status("FOK_TERMINAL_NO_RETRY"@), EntryMove::Done(value))
            } else {
                after_attempt(config, noted, now_sec)
            }
        },
        None => after_attempt(config, s.with_status("FOK_NO_ORDER_ID"@), now_sec),
    }
}

/// What follows the result of an order at the fallback price.
pub open spec fn entry_fallback_result(
    config: Config,
    s: EntryView,
    result: Option<ExecutionView>,
    now_sec: u64,
) -> (EntryView, EntryMove) {
    match result {
        Some(value) => {
            let noted = s.with_status("GTC_"@ + status_name(value.status));
            if value.status == ExecutionStatus::Filled || value.status
                == ExecutionStatus::Partial {
                (noted, EntryMove::AttachSell(value))
            } else {
                after_attempt(config, noted, now_sec)
            }
        },
        None => after_attempt(config, s.with_status("GTC_NO_ORDER_ID"@), now_sec),
    }
}

pub open spec fn result_view(result: Option<ExecutionResult>) -> Option<ExecutionView> {
    match result {
        Some(r) => Some(r@),
        None => None,
    }
}

/// Begins an entry. The clock is to be read next, unless the entry has ended already.
pub fn execute_live_entry(
    token_id: &str,
    stake_usd: Double,
    close_time_sec: u64,
    now_sec: u64,
) -> (r: (EntryRun, EntryAction))
    ensures
        (r.0@, r.1@) == entry_start(token_id@, stake_usd, close_time_sec, now_sec),
        r.1@ is Sleep ==> forall|config: Config| #[trigger] r.0@.waiting(config),
{
    let mut run = EntryRun {
        diagnostics: EntryDiagnostics {
            time_budget_start_sec: close_time_sec.saturating_sub(now_sec),
            attempts: 0,
            fok_attempts: 0,
            no_asks_count: 0,
            gate_reject_count: 0,
            orderbook_error_count: 0,
            last_attempt_status: None,
            last_best_bid: None,
            last_best_ask: None,
            last_final_price: None,
            last_tick_size: None,
        },
        token_id: token_id.to_owned(),
        stake_usd,
        close_time_sec,
    };
    if run.diagnostics.time_budget_start_sec == 0 {
        run.note("WINDOW_ALREADY_CLOSED");
        let mut extras: Vec<Entry> = Vec::new();
        extras.push(json::entry("closeTimeSec", json::count_json(close_time_sec)));
        extras.push(json::entry("nowSec", json::count_json(now_sec)));
        assert(json::record(extras@) =~= seq![
            ("closeTimeSec"@, json::count_tree(close_time_sec)),
            ("nowSec"@, json::count_tree(now_sec)),
        ]);
        let result = build_skipped_result("window_already_closed", &run.diagnostics, extras);
        return (run, EntryAction::Done(result));
    }
    (run, EntryAction::Sleep(0))
}

impl EntryRun {
    pub closed spec fn view(self) -> EntryView {
        EntryView {
            d: self.diagnostics@,
            token_id: self.token_id@,
            stake_usd: self.stake_usd,
            close_time_sec: self.close_time_sec,
        }
    }

    /// The diagnostics so far.
    pub fn diagnostics(&self) -> (r: &EntryDiagnostics)
        ensures
            r@ == self@.d,
    {
        &self.diagnostics
    }

    fn note(&mut self, status: &str)
        ensures
            final(self)@ == old(self)@.with_status(status@),
    {
        self.diagnostics.last_attempt_status = Some(status.to_owned());
    }

    fn millis_left(&self, now_sec: u64) -> (r: u64)
        ensures
            r == self@.remaining_ms(now_sec),
    {
        let wide: u128 = self.close_time_sec.saturating_sub(now_sec) as u128 * 1000;
        if wide > u64::MAX as u128 {
            u64::MAX
        } else {
            wide as u64
        }
    }

    fn stop_for_attempt_limit(&mut self, config: &Config) -> (r: EntryAction)
        ensures
            (final(self)@, r@) == attempts_used_up(*config, old(self)@),
    {
        self.note("ATTEMPT_LIMIT_REACHED");
        let mut extras: Vec<Entry> = Vec::new();
        extras.push(json::entry("maxAttempts", json::count_json(config.order_max_attempts)));
        extras.push(
            json::entry("retryIntervalMs", json::count_json(config.order_retry_interval_ms)),
        );
        assert(json::record(extras@) =~= seq![
            ("maxAttempts"@, json::count_tree(config.order_max_attempts)),
            ("retryIntervalMs"@, json::count_tree(config.order_retry_interval_ms)),
        ]);
        EntryAction::Done(
            build_skipped_result("order_max_attempts_exceeded", &self.diagnostics, extras),
        )
    }

    fn finish_attempt(&mut self, config: &Config, now_sec: u64) -> (r: EntryAction)
        ensures
            (final(self)@, r@) == after_attempt(*config, old(self)@, now_sec),
    {
        if self.diagnostics.attempts >= config.order_max_attempts {
            return self.stop_for_attempt_limit(config);
        }
        let remaining_ms: u64 = self.millis_left(now_sec);
        if remaining_ms <= config.order_retry_interval_ms {
            self.note("TIME_BUDGET_AFTER_ATTEMPT");
            let mut extras: Vec<Entry> = Vec::new();
            extras.push(json::entry("remainingMs", json::count_json(remaining_ms)));
            extras.push(
                json::entry("retryIntervalMs", json::count_json(config.order_retry_interval_ms)),
            );
            assert(json::record(extras@) =~= seq![
                ("remainingMs"@, json::count_tree(remaining_ms)),
                ("retryIntervalMs"@, json::count_tree(config.order_retry_interval_ms)),
            ]);
            return EntryAction::Done(
                build_skipped_result(
                    "entry_time_budget_exhausted_after_attempt",
                    &self.diagnostics,
                    extras,
                ),
            );
        }
        EntryAction::Sleep(config.order_retry_interval_ms)
    }

    /// The clock was read between two attempts.
    pub fn on_time(&mut self, config: &Config, now_sec: u64) -> (r: EntryAction)
        requires
            old(self)@.waiting(*config),
        ensures
            (final(self)@, r@) == entry_time(old(self)@, now_sec),
            r@ is FetchOrderbook ==> final(self)@.attempting(*config),
    {
        if now_sec >= self.close_time_sec {
            if self.diagnostics.last_attempt_status.is_none() {
                self.note("WINDOW_CLOSED_LOOP_EXIT");
            }
            let mut extras: Vec<Entry> = Vec::new();
            extras.push(json::entry("exhaustedAtSec", json::count_json(now_sec)));
            assert(json::record(extras@) =~= seq![
                ("exhaustedAtSec"@, json::count_tree(now_sec)),
            ]);
            return EntryAction::Done(
                build_skipped_result("window_closed_before_fill", &self.diagnostics, extras),
            );
        }
        self.diagnostics.attempts = self.diagnostics.attempts + 1;
        let left: u64 = self.close_time_sec - now_sec;
        if left <= 1 {
            self.note("TIME_BUDGET_BEFORE_ATTEMPT");
            let mut extras: Vec<Entry> = Vec::new();
            extras.push(json::entry("timeToCloseSec", json::count_json(left)));
            assert(json::record(extras@) =~= seq![("timeToCloseSec"@, json::count_tree(left))]);
            return EntryAction::Done(
                build_skipped_result(
                    "entry_time_budget_exhausted_before_attempt",
                    &self.diagnostics,
                    extras,
                ),
            );
        }
        EntryAction::FetchOrderbook { token_id: self.token_id.clone() }
    }

    /// The order book could not be fetched.
    pub fn on_orderbook_error(&mut self, config: &Config, message: &str, now_sec: u64) -> (r:
        EntryAction)
        requires
            old(self)@.attempting(*config),
        ensures
            (final(self)@, r@) == entry_orderbook_error(*config, old(self)@, message@, now_sec),
            r@ is Sleep ==> final(self)@.waiting(*config),
    {
        self.diagnostics.orderbook_error_count = self.diagnostics.orderbook_error_count + 1;
        self.note("ORDERBOOK_FETCH_ERROR");
        if self.diagnostics.attempts >= config.order_max_attempts {
            return self.stop_for_attempt_limit(config);
        }
        let remaining_ms: u64 = self.millis_left(now_sec);
        if remaining_ms <= config.order_retry_interval_ms {
            self.note("ORDERBOOK_ERROR_UNTIL_CLOSE");
            let short = text::truncate_text(message, 180);
            let mut extras: Vec<Entry> = Vec::new();
            extras.push(json::entry("error", json::text_json(short.as_str())));
            extras.push(json::entry("remainingMs", json::count_json(remaining_ms)));
            extras.push(
                json::entry("retryIntervalMs", json::count_json(config.order_retry_interval_ms)),
            );
            assert(json::record(extras@) =~= seq![
                ("error"@, JsonTree::Text(text::cut(message@, 180))),
                ("remainingMs"@, json::count_tree(remaining_ms)),
                ("retryIntervalMs"@, json::count_tree(config.order_retry_interval_ms)),
            ]);
            return EntryAction::Done(
                build_skipped_result("orderbook_error_until_close", &self.diagnostics, extras),
            );
        }
        EntryAction::Sleep(config.order_retry_interval_ms)
    }

    /// The order book was fetched.
    pub fn on_orderbook(&mut self, config: &Config, book: &OrderBookSnapshot) -> (r: EntryAction)
        requires
            old(self)@.attempting(*config),
        ensures
            (final(self)@, r@) == entry_orderbook(old(self)@, *book),
            final(self)@.attempting(*config),
    {
        self.diagnostics.last_best_bid = if book.best_bid.is_positive() {
            Some(book.best_bid)
        } else {
            None
        };
        self.diagnostics.last_best_ask = if book.asks_present && book.best_ask.is_positive() {
            Some(book.best_ask)
        } else {
            None
        };
        EntryAction::FetchTickSize { token_id: self.token_id.clone() }
    }

    fn gate_reject(
        &self,
        prices: Vec<Entry>,
        source: &str,
        why: &str,
        config: &Config,
    ) -> (r: ExecutionResult)
        ensures
            r@ == gate_result(self@.d, json::record(prices@), source@, why@, *config),
    {
        let ghost first = json::record(prices@);
        let mut extras = prices;
        extras.push(json::entry("gateSource", json::text_json(source)));
        extras.push(json::entry("gateReason", json::text_json(why)));
        extras.push(json::entry("gateMin", json::amount_json(config.price_range_min)));
        extras.push(json::entry("gateMax", json::amount_json(config.price_range_max)));
        assert(json::record(extras@) =~= first + seq![
            ("gateSource"@, JsonTree::Text(source@)),
            ("gateReason"@, JsonTree::Text(why@)),
            ("gateMin"@, json::amount_tree(config.price_range_min)),
            ("gateMax"@, json::amount_tree(config.price_range_max)),
        ]);
        build_skipped_result("buy_price_gate_reject", &self.diagnostics, extras)
    }

    /// The tick size was fetched, or could not be.
    pub fn on_tick_size(&mut self, config: &Config, tick_size: Option<String>, now_sec: u64) -> (r:
        EntryAction)
        requires
            old(self)@.attempting(*config),
        ensures
            (final(self)@, r@) == entry_tick_size(
                *config,
                old(self)@,
                json::text_view(tick_size),
                now_sec,
            ),
            r@ is Quote ==> final(self)@.attempting(*config),
            r@ is SubmitLimitFallback ==> final(self)@.ending(*config),
            r@ is Sleep ==> final(self)@.waiting(*config),
    {
        let tick = match tick_size {
            Some(t) => t,
            None => "0.01".to_owned(),
        };
        self.diagnostics.last_tick_size = Some(tick.clone());
        match self.diagnostics.last_best_ask {
            Some(best_ask) => match price_band::buy_band_reject_reason(best_ask, config) {
                Some(why) => {
                    self.diagnostics.gate_reject_count = self.diagnostics.gate_reject_count + 1;
                    self.diagnostics.last_final_price = Some(best_ask);
                    self.note("GATE_REJECT_BEST_ASK");
                    let mut prices: Vec<Entry> = Vec::new();
                    prices.push(json::entry("observedPrice", json::amount_json(best_ask)));
                    assert(json::record(prices@) =~= seq![
                        ("observedPrice"@, json::amount_tree(best_ask)),
                    ]);
                    EntryAction::Done(self.gate_reject(prices, "best_ask", why, config))
                },
                None => {
                    let max_price = if config.entry_price_gate_enabled {
                        config.price_range_max
                    } else {
                        Double { bits: NINETY_EIGHT_CENT_BITS }
                    };
                    EntryAction::Quote { best_ask, max_price, tick_size: tick }
                },
            },
            None => {
                self.diagnostics.no_asks_count = self.diagnostics.no_asks_count + 1;
                if config.enable_fallback_gtc_limit {
                    self.note("NO_ASKS_FALLBACK_GTC");
                    EntryAction::SubmitLimitFallback {
                        token_id: self.token_id.clone(),
                        stake_usd: self.stake_usd,
                        tick_size: tick,
                    }
                } else {
                    self.note("NO_ASKS_FALLBACK_DISABLED");
                    self.finish_attempt(config, now_sec)
                }
            },
        }
    }

    /// The price to submit was worked out: the best ask with the slippage on top, and that price
    /// on the tick grid.
    pub fn on_quote(&mut self, config: &Config, slipped: Double, final_price: Double) -> (r:
        EntryAction)
        requires
            old(self)@.attempting(*config),
        ensures
            (final(self)@, r@) == entry_quote(*config, old(self)@, slipped, final_price),
            r@ is SubmitFok ==> final(self)@.ending(*config),
    {
        self.diagnostics.last_final_price = Some(final_price);
        match price_band::buy_band_reject_reason(final_price, config) {
            Some(why) => {
                self.diagnostics.gate_reject_count = self.diagnostics.gate_reject_count + 1;
                self.note("GATE_REJECT_SUBMIT_BAND");
                let mut prices: Vec<Entry> = Vec::new();
                prices.push(json::entry("finalPrice", json::amount_json(final_price)));
                prices.push(json::entry("slippedPrice", json::amount_json(slipped)));
                assert(json::record(prices@) =~= seq![
                    ("finalPrice"@, json::amount_tree(final_price)),
                    ("slippedPrice"@, json::amount_tree(slipped)),
                ]);
                EntryAction::Done(self.gate_reject(prices, "submit_price", why, config))
            },
            None => {
                self.diagnostics.fok_attempts = self.diagnostics.fok_attempts + 1;
                let tick_size = match &self.diagnostics.last_tick_size {
                    Some(t) => t.clone(),
                    None => "0.01".to_owned(),
                };
                EntryAction::SubmitFok {
                    token_id: self.token_id.clone(),
                    stake_usd: self.stake_usd,
                    final_price,
                    tick_size,
                }
            },
        }
    }

    /// The order to be filled at once came to a result, or to none.
    pub fn on_fok_result(
        &mut self,
        config: &Config,
        result: Option<ExecutionResult>,
        now_sec: u64,
    ) -> (r: EntryAction)
        requires
            old(self)@.ending(*config),
        ensures
            (final(self)@, r@) == entry_fok_result(
                *config,
                old(self)@,
                result_view(result),
                now_sec,
            ),
            r@ is Sleep ==> final(self)@.waiting(*config),
    {
        match result {
            Some(value) => {
                let mut status = "FOK_".to_owned();
                status.append(status_label(value.status));
                self.note(status.as_str());
                if value.status == ExecutionStatus::Filled || value.status
                    == ExecutionStatus::Partial {
                    return EntryAction::AttachSell(value);
                }
                if stops_retries(&value) {
                    self.note("FOK_TERMINAL_NO_RETRY");
                    return EntryAction::Done(value);
                }
                self.finish_attempt(config, now_sec)
            },
            None => {
                self.note("FOK_NO_ORDER_ID");
                self.finish_attempt(config, now_sec)
            },
        }
    }

    /// The order at the fallback price came to a result, or to none.
    pub fn on_fallback_result(
        &mut self,
        config: &Config,
        result: Option<ExecutionResult>,
        now_sec: u64,
    ) -> (r: EntryAction)
        requires
            old(self)@.ending(*config),
        ensures
            (final(self)@, r@) == entry_fallback_result(
                *config,
                old(self)@,
                result_view(result),
                now_sec,
            ),
            r@ is Sleep ==> final(self)@.waiting(*config),
    {
        match result {
            Some(value) => {
                let mut status = "GTC_".to_owned();
                status.append(status_label(value.status));
                self.note(status.as_str());
                if value.status == ExecutionStatus::Filled || value.status
                    == ExecutionStatus::Partial {
                    return EntryAction::AttachSell(value);
                }
                self.finish_attempt(config, now_sec)
            },
            None => {
                self.note("GTC_NO_ORDER_ID");
                self.finish_attempt(config, now_sec)
            },
        }
    }
}

fn stops_retries(result: &ExecutionResult) -> (r: bool)
    ensures
        r == must_stop(result@),
{
    match json::find_member(&result.raw_response, "submitTerminalNoRetry") {
        Some(v) => match v.as_bool() {
            Some(b) => b,
            None => false,
        },
        None => false,
    }
}

/// With the band enforced, no order to be filled at once is submitted at a price outside it.
pub proof fn submitted_price_is_in_band(
    config: Config,
    s: EntryView,
    slipped: Double,
    final_price: Double,
)
    requires
        config.entry_price_gate_enabled,
    ensures
        entry_quote(config, s, slipped, final_price).1 matches EntryMove::SubmitFok {
            final_price: p,
            ..
        } ==> !p.below(config.price_range_min) && !config.price_range_max.below(p),
{
}

/// An attempt is never followed by another once as many were made as are allowed: every way out
/// of an attempt that lets the entry go on leaves attempts to spare.
pub proof fn attempts_are_bounded(
    config: Config,
    s: EntryView,
    message: Seq<char>,
    tick_size: Option<Seq<char>>,
    result: Option<ExecutionView>,
    now_sec: u64,
)
    requires
        s.d.attempts >= config.order_max_attempts,
    ensures
        !(entry_orderbook_error(config, s, message, now_sec).1 is Sleep),
        !(entry_tick_size(config, s, tick_size, now_sec).1 is Sleep),
        !(entry_fok_result(config, s, result, now_sec).1 is Sleep),
        !(entry_fallback_result(config, s, result, now_sec).1 is Sleep),
{
}

/// An order that was filled, whole or in part, ends the entry: no other order is sent after it.
pub proof fn fill_ends_the_entry(
    config: Config,
    s: EntryView,
    value: ExecutionView,
    now_sec: u64,
)
    requires
        value.status == ExecutionStatus::Filled || value.status == ExecutionStatus::Partial,
    ensures
        entry_fok_result(config, s, Some(value), now_sec).1 == EntryMove::AttachSell(value),
        entry_fallback_result(config, s, Some(value), now_sec).1 == EntryMove::AttachSell(value),
{
}

/// A result without an order tells why there is none, unless its extras are about that themselves.
proof fn lemma_skip_reason(
    reason: Seq<char>,
    d: DiagnosticsView,
    extras: Seq<(Seq<char>, JsonTree)>,
)
    requires
        forall|i: int| 0 <= i < extras.len() ==> (#[trigger] extras[i]).0 != "reason"@,
    ensures
        json::lookup(skipped(reason, d, extras).raw, "reason"@) == Some(JsonTree::Text(reason)),
{
    broadcast use json::lookup_after_put;

    reveal_strlit("reason");
    reveal_strlit("timeBudgetStartSec");
    reveal_strlit("attempts");
    reveal_strlit("fokAttempts");
    reveal_strlit("noAsksCount");
    reveal_strlit("gateRejectCount");
    reveal_strlit("orderbookErrorCount");
    reveal_strlit("lastAttemptStatus");
    reveal_strlit("lastBestBid");
    reveal_strlit("lastBestAsk");
    reveal_strlit("lastFinalPrice");
    reveal_strlit("lastTickSize");
    assert("reason"@.len() == 6);
    assert("timeBudgetStartSec"@.len() == 18);
    assert("attempts"@.len() == 8);
    assert("fokAttempts"@.len() == 11);
    assert("noAsksCount"@.len() == 11);
    assert("gateRejectCount"@.len() == 15);
    assert("orderbookErrorCount"@.len() == 19);
    assert("lastAttemptStatus"@.len() == 17);
    assert("lastBestBid"@.len() == 11);
    assert("lastBestAsk"@.len() == 11);
    assert("lastFinalPrice"@.len() == 14);
    assert("lastTickSize"@.len() == 12);
    assert("fokAttempts"@[0] != "noAsksCount"@[0]);
    assert("fokAttempts"@[0] != "lastBestBid"@[0]);
    assert("fokAttempts"@[0] != "lastBestAsk"@[0]);
    assert("noAsksCount"@[0] != "lastBestBid"@[0]);
    assert("noAsksCount"@[0] != "lastBestAsk"@[0]);
    assert("lastBestBid"@[8] != "lastBestAsk"@[8]);
    let first = seq![("reason"@, JsonTree::Text(reason))];
    assert(first[0].0 == "reason"@);
    assert(json::lookup(first, "reason"@) == Some(JsonTree::Text(reason)));
    json::other_keys_are_kept(first, extras, "reason"@);
}

/// A result without an order buys nothing and costs nothing, names no order, and records how far
/// the entry had come: every count and every last value of it.
pub proof fn skip_records_how_far_the_entry_came(
    reason: Seq<char>,
    d: DiagnosticsView,
    extras: Seq<(Seq<char>, JsonTree)>,
)
    ensures
        ({
            let result = skipped(reason, d, extras);
            &&& result.status == ExecutionStatus::Skipped
            &&& result.order_id.len() == 0
            &&& result.filled_size.key() == 0
            &&& result.spent_usd.key() == 0
            &&& !result.used_fallback_limit
            &&& d.last_final_price matches Some(p) ==> result.filled_price == p
            &&& json::lookup(result.raw, "attempts"@) == Some(json::count_tree(d.attempts))
            &&& json::lookup(result.raw, "fokAttempts"@) == Some(json::count_tree(d.fok_attempts))
            &&& json::lookup(result.raw, "noAsksCount"@) == Some(
                json::count_tree(d.no_asks_count),
            )
            &&& json::lookup(result.raw, "gateRejectCount"@) == Some(
                json::count_tree(d.gate_reject_count),
            )
            &&& json::lookup(result.raw, "orderbookErrorCount"@) == Some(
                json::count_tree(d.orderbook_error_count),
            )
            &&& json::lookup(result.raw, "timeBudgetStartSec"@) == Some(
                json::count_tree(d.time_budget_start_sec),
            )
            &&& d.last_attempt_status matches Some(t) ==> json::lookup(
                result.raw,
                "lastAttemptStatus"@,
            ) == Some(JsonTree::Text(t))
            &&& d.last_tick_size matches Some(t) ==> json::lookup(result.raw, "lastTickSize"@)
                == Some(JsonTree::Text(t))
            &&& (d.last_best_ask matches Some(p) && p.finite()) ==> json::lookup(
                result.raw,
                "lastBestAsk"@,
            ) == Some(JsonTree::Amount(d.last_best_ask->Some_0))
            &&& (d.last_best_bid matches Some(p) && p.finite()) ==> json::lookup(
                result.raw,
                "lastBestBid"@,
            ) == Some(JsonTree::Amount(d.last_best_bid->Some_0))
            &&& (d.last_final_price matches Some(p) && p.finite()) ==> json::lookup(
                result.raw,
                "lastFinalPrice"@,
            ) == Some(JsonTree::Amount(d.last_final_price->Some_0))
        }),
{
    broadcast use json::lookup_after_put;

    reveal_strlit("timeBudgetStartSec");
    reveal_strlit("attempts");
    reveal_strlit("fokAttempts");
    reveal_strlit("noAsksCount");
    reveal_strlit("gateRejectCount");
    reveal_strlit("orderbookErrorCount");
    reveal_strlit("lastAttemptStatus");
    reveal_strlit("lastBestBid");
    reveal_strlit("lastBestAsk");
    reveal_strlit("lastFinalPrice");
    reveal_strlit("lastTickSize");
    assert("timeBudgetStartSec"@.len() == 18);
    assert("attempts"@.len() == 8);
    assert("fokAttempts"@.len() == 11);
    assert("noAsksCount"@.len() == 11);
    assert("gateRejectCount"@.len() == 15);
    assert("orderbookErrorCount"@.len() == 19);
    assert("lastAttemptStatus"@.len() == 17);
    assert("lastBestBid"@.len() == 11);
    assert("lastBestAsk"@.len() == 11);
    assert("lastFinalPrice"@.len() == 14);
    assert("lastTickSize"@.len() == 12);
    assert("fokAttempts"@[0] != "noAsksCount"@[0]);
    assert("fokAttempts"@[0] != "lastBestBid"@[0]);
    assert("fokAttempts"@[0] != "lastBestAsk"@[0]);
    assert("noAsksCount"@[0] != "lastBestBid"@[0]);
    assert("noAsksCount"@[0] != "lastBestAsk"@[0]);
    assert("lastBestBid"@[8] != "lastBestAsk"@[8]);
}

/// Whether there are attempts left and more time than a pause takes: the entry goes on.
spec fn can_go_on(config: Config, s: EntryView, now_sec: u64) -> bool {
    s.d.attempts < config.order_max_attempts && (s.close_time_sec - now_sec) * 1000
        > config.order_retry_interval_ms
}

proof fn lemma_after_attempt(config: Config, s: EntryView, now_sec: u64)
    requires
        (s.close_time_sec - now_sec) * 1000 <= u64::MAX,
    ensures
        can_go_on(config, s, now_sec) ==> after_attempt(config, s, now_sec) == (
            s,
            EntryMove::Sleep(config.order_retry_interval_ms),
        ),
        !can_go_on(config, s, now_sec) ==> (after_attempt(config, s, now_sec).1 matches
            EntryMove::Done(result) && result.status == ExecutionStatus::Skipped && json::lookup(
            result.raw,
            "reason"@,
        ) == Some(
            JsonTree::Text(
                if s.d.attempts >= config.order_max_attempts {
                    "order_max_attempts_exceeded"@
                } else {
                    "entry_time_budget_exhausted_after_attempt"@
                },
            ),
        )),
{
    reveal_strlit("reason");
    reveal_strlit("maxAttempts");
    reveal_strlit("retryIntervalMs");
    reveal_strlit("remainingMs");
    assert("reason"@.len() == 6);
    assert("maxAttempts"@.len() == 11);
    assert("retryIntervalMs"@.len() == 15);
    assert("remainingMs"@.len() == 11);
    assert("maxAttempts"@[0] != "remainingMs"@[0]);
    let used_up = s.with_status("ATTEMPT_LIMIT_REACHED"@);
    lemma_skip_reason(
        "order_max_attempts_exceeded"@,
        used_up.d,
        seq![
            ("maxAttempts"@, json::count_tree(config.order_max_attempts)),
            ("retryIntervalMs"@, json::count_tree(config.order_retry_interval_ms)),
        ],
    );
    let late = s.with_status("TIME_BUDGET_AFTER_ATTEMPT"@);
    lemma_skip_reason(
        "entry_time_budget_exhausted_after_attempt"@,
        late.d,
        seq![
            ("remainingMs"@, json::count_tree(s.remaining_ms(now_sec))),
            ("retryIntervalMs"@, json::count_tree(config.order_retry_interval_ms)),
        ],
    );
}

/// After an order to be filled at once that bought nothing and whose result does not forbid to
/// send it again, the entry pauses and goes on whenever an attempt is left and more time remains
/// before the close than the pause takes. It ends then for want of attempts or for want of time,
/// and for nothing else, and its result says for which.
pub proof fn killed_order_is_followed_by_another_attempt(
    config: Config,
    s: EntryView,
    result: Option<ExecutionView>,
    now_sec: u64,
)
    requires
        result matches Some(value) ==> {
            &&& value.status != ExecutionStatus::Filled
            &&& value.status != ExecutionStatus::Partial
            &&& json::lookup(value.raw, "submitTerminalNoRetry"@) != Some(JsonTree::Bool(true))
        },
        (s.close_time_sec - now_sec) * 1000 <= u64::MAX,
    ensures
        ({
            let (after, next) = entry_fok_result(config, s, result, now_sec);
            let tries_left = s.d.attempts < config.order_max_attempts;
            let time_left = (s.close_time_sec - now_sec) * 1000 > config.order_retry_interval_ms;
            &&& tries_left && time_left <==> next is Sleep
            &&& next is Sleep ==> next == EntryMove::Sleep(config.order_retry_interval_ms)
            &&& !(next is Sleep) ==> (next matches EntryMove::Done(ended) && ended.status
                == ExecutionStatus::Skipped && json::lookup(ended.raw, "reason"@) == Some(
                JsonTree::Text(
                    if tries_left {
                        "entry_time_budget_exhausted_after_attempt"@
                    } else {
                        "order_max_attempts_exceeded"@
                    },
                ),
            ))
            &&& after.token_id == s.token_id && after.stake_usd == s.stake_usd
                && after.close_time_sec == s.close_time_sec && after.d.attempts == s.d.attempts
        }),
{
    let noted = match result {
        Some(value) => s.with_status("FOK_"@ + status_name(value.status)),
        None => s.with_status("FOK_NO_ORDER_ID"@),
    };
    lemma_after_attempt(config, noted, now_sec);
}

/// A result that forbids to send the order again ends the entry at once and is its result, unless
/// the order was filled after all.
pub proof fn terminal_error_ends_the_entry(
    config: Config,
    s: EntryView,
    value: ExecutionView,
    now_sec: u64,
)
    requires
        value.status != ExecutionStatus::Filled,
        value.status != ExecutionStatus::Partial,
        json::lookup(value.raw, "submitTerminalNoRetry"@) == Some(JsonTree::Bool(true)),
    ensures
        entry_fok_result(config, s, Some(value), now_sec).1 == EntryMove::Done(value),
{
}

/// After an order at the fallback price that bought nothing, the entry goes on by the same rule as
/// after any other: while attempts and time are left, and not otherwise.
pub proof fn unfilled_fallback_is_followed_by_another_attempt(
    config: Config,
    s: EntryView,
    result: Option<ExecutionView>,
    now_sec: u64,
)
    requires
        result matches Some(value) ==> value.status != ExecutionStatus::Filled && value.status
            != ExecutionStatus::Partial,
        (s.close_time_sec - now_sec) * 1000 <= u64::MAX,
    ensures
        ({
            let (after, next) = entry_fallback_result(config, s, result, now_sec);
            let tries_left = s.d.attempts < config.order_max_attempts;
            let time_left = (s.close_time_sec - now_sec) * 1000 > config.order_retry_interval_ms;
            &&& tries_left && time_left <==> next is Sleep
            &&& next is Sleep ==> next == EntryMove::Sleep(config.order_retry_interval_ms)
            &&& !(next is Sleep) ==> (next matches EntryMove::Done(ended) && ended.status
                == ExecutionStatus::Skipped && json::lookup(ended.raw, "reason"@) == Some(
                JsonTree::Text(
                    if tries_left {
                        "entry_time_budget_exhausted_after_attempt"@
                    } else {
                        "order_max_attempts_exceeded"@
                    },
                ),
            ))
            &&& after.token_id == s.token_id && after.stake_usd == s.stake_usd
                && after.close_time_sec == s.close_time_sec && after.d.attempts == s.d.attempts
        }),
{
    let noted = match result {
        Some(value) => s.with_status("GTC_"@ + status_name(value.status)),
        None => s.with_status("GTC_NO_ORDER_ID"@),
    };
    lemma_after_attempt(config, noted, now_sec);
}

/// An order book that cannot be fetched costs one attempt: the entry goes on while attempts and
/// time are left, and ends otherwise with what was the matter.
pub proof fn missing_book_costs_one_attempt(
    config: Config,
    s: EntryView,
    message: Seq<char>,
    now_sec: u64,
)
    requires
        (s.close_time_sec - now_sec) * 1000 <= u64::MAX,
        s.d.orderbook_error_count < u64::MAX,
    ensures
        ({
            let (after, next) = entry_orderbook_error(config, s, message, now_sec);
            let tries_left = s.d.attempts < config.order_max_attempts;
            let time_left = (s.close_time_sec - now_sec) * 1000 > config.order_retry_interval_ms;
            &&& after.d.orderbook_error_count == s.d.orderbook_error_count + 1
            &&& after.d.attempts == s.d.attempts
            &&& tries_left && time_left <==> next is Sleep
            &&& next is Sleep ==> next == EntryMove::Sleep(config.order_retry_interval_ms)
            &&& !(next is Sleep) ==> (next matches EntryMove::Done(ended) && ended.status
                == ExecutionStatus::Skipped && json::lookup(ended.raw, "reason"@) == Some(
                JsonTree::Text(
                    if tries_left {
                        "orderbook_error_until_close"@
                    } else {
                        "order_max_attempts_exceeded"@
                    },
                ),
            ))
        }),
{
    reveal_strlit("reason");
    reveal_strlit("maxAttempts");
    reveal_strlit("retryIntervalMs");
    reveal_strlit("remainingMs");
    reveal_strlit("error");
    assert("reason"@.len() == 6);
    assert("maxAttempts"@.len() == 11);
    assert("retryIntervalMs"@.len() == 15);
    assert("remainingMs"@.len() == 11);
    assert("error"@.len() == 5);
    assert("maxAttempts"@[0] != "remainingMs"@[0]);
    let failed = EntryView {
        d: DiagnosticsView {
            orderbook_error_count: (s.d.orderbook_error_count + 1) as u64,
            last_attempt_status: Some("ORDERBOOK_FETCH_ERROR"@),
            ..s.d
        },
        ..s
    };
    lemma_after_attempt(config, failed, now_sec);
    lemma_skip_reason(
        "orderbook_error_until_close"@,
        failed.with_status("ORDERBOOK_ERROR_UNTIL_CLOSE"@).d,
        seq![
            ("error"@, JsonTree::Text(text::cut(message, 180))),
            ("remainingMs"@, json::count_tree(s.remaining_ms(now_sec))),
            ("retryIntervalMs"@, json::count_tree(config.order_retry_interval_ms)),
        ],
    );
}

/// An entry is begun exactly where the market is not closed yet, with no attempt made and with the
/// token, the stake and the close that it was given.
pub proof fn entry_begins_before_the_close(
    token_id: Seq<char>,
    stake_usd: Double,
    close_time_sec: u64,
    now_sec: u64,
)
    ensures
        ({
            let (s, next) = entry_start(token_id, stake_usd, close_time_sec, now_sec);
            &&& now_sec < close_time_sec <==> next == EntryMove::Sleep(0)
            &&& now_sec >= close_time_sec <==> next is Done
            &&& next matches EntryMove::Done(ended) ==> ended.status == ExecutionStatus::Skipped
                && json::lookup(ended.raw, "reason"@) == Some(
                JsonTree::Text("window_already_closed"@),
            )
            &&& s.token_id == token_id && s.stake_usd == stake_usd && s.close_time_sec
                == close_time_sec
            &&& s.d.attempts == 0 && s.counted() == 0
            &&& now_sec < close_time_sec ==> s.d.time_budget_start_sec == close_time_sec - now_sec
        }),
{
    reveal_strlit("reason");
    reveal_strlit("closeTimeSec");
    reveal_strlit("nowSec");
    assert("reason"@.len() == 6);
    assert("closeTimeSec"@.len() == 12);
    assert("nowSec"@.len() == 6);
    assert("reason"@[0] != "nowSec"@[0]);
    let s = entry_start(token_id, stake_usd, close_time_sec, now_sec).0;
    lemma_skip_reason(
        "window_already_closed"@,
        s.d,
        seq![
            ("closeTimeSec"@, json::count_tree(close_time_sec)),
            ("nowSec"@, json::count_tree(now_sec)),
        ],
    );
}

/// The next attempt begins exactly where more than a second is left before the close, and looks at
/// the book of the token; every attempt that begins is counted once.
pub proof fn attempt_needs_more_than_a_second(s: EntryView, now_sec: u64)
    requires
        s.d.attempts < u64::MAX,
    ensures
        ({
            let (after, next) = entry_time(s, now_sec);
            &&& s.close_time_sec - now_sec > 1 <==> next == EntryMove::FetchOrderbook {
                token_id: s.token_id,
            }
            &&& s.close_time_sec - now_sec <= 1 <==> next is Done
            &&& next matches EntryMove::Done(ended) ==> ended.status == ExecutionStatus::Skipped
                && json::lookup(ended.raw, "reason"@) == Some(
                JsonTree::Text(
                    if now_sec >= s.close_time_sec {
                        "window_closed_before_fill"@
                    } else {
                        "entry_time_budget_exhausted_before_attempt"@
                    },
                ),
            )
            &&& after.d.attempts == (if now_sec < s.close_time_sec {
                s.d.attempts + 1
            } else {
                s.d.attempts as int
            })
            &&& after.stake_usd == s.stake_usd && after.token_id == s.token_id
                && after.close_time_sec == s.close_time_sec && after.counted() == s.counted()
        }),
{
    reveal_strlit("reason");
    reveal_strlit("exhaustedAtSec");
    reveal_strlit("timeToCloseSec");
    assert("reason"@.len() == 6);
    assert("exhaustedAtSec"@.len() == 14);
    assert("timeToCloseSec"@.len() == 14);
    assert("exhaustedAtSec"@[0] != "timeToCloseSec"@[0]);
    let after = entry_time(s, now_sec).0;
    lemma_skip_reason(
        "window_closed_before_fill"@,
        after.d,
        seq![("exhaustedAtSec"@, json::count_tree(now_sec))],
    );
    lemma_skip_reason(
        "entry_time_budget_exhausted_before_attempt"@,
        after.d,
        seq![("timeToCloseSec"@, json::count_tree((s.close_time_sec - now_sec) as u64))],
    );
}

/// The best prices of a book are taken for this attempt where they are real ones, in place of
/// those of the attempt before, and the tick size is asked for next.
pub proof fn book_gives_the_prices_of_the_attempt(s: EntryView, book: OrderBookSnapshot)
    ensures
        ({
            let (after, next) = entry_orderbook(s, book);
            &&& next == EntryMove::FetchTickSize { token_id: s.token_id }
            &&& after.d.last_best_ask == (if book.asks_present && !book.best_ask.nan()
                && book.best_ask.key() > 0 {
                Some(book.best_ask)
            } else {
                None
            })
            &&& after.d.last_best_bid == (if !book.best_bid.nan() && book.best_bid.key() > 0 {
                Some(book.best_bid)
            } else {
                None
            })
            &&& after.d.attempts == s.d.attempts && after.counted() == s.counted()
        }),
{
}

/// With sellers in the book, an attempt goes on to a price where the best ask lies in the band and
/// ends the entry where it does not. With none it falls back on an order that waits, where that is
/// enabled, and is over otherwise.
pub proof fn sellers_and_band_decide_the_order(
    config: Config,
    s: EntryView,
    tick_size: Option<Seq<char>>,
    now_sec: u64,
)
    requires
        s.d.last_best_ask matches Some(ask) ==> ask.finite(),
        config.price_range_min.finite(),
        config.price_range_max.finite(),
        config.price_range_min.units() <= config.price_range_max.units(),
        (s.close_time_sec - now_sec) * 1000 <= u64::MAX,
    ensures
        ({
            let (after, next) = entry_tick_size(config, s, tick_size, now_sec);
            let tick = match tick_size {
                Some(t) => t,
                None => "0.01"@,
            };
            match s.d.last_best_ask {
                Some(ask) => {
                    let in_band = config.price_range_min.units() <= ask.units()
                        <= config.price_range_max.units();
                    &&& !config.entry_price_gate_enabled || in_band <==> next is Quote
                    &&& next is Quote ==> next == (EntryMove::Quote {
                        best_ask: ask,
                        max_price: if config.entry_price_gate_enabled {
                            config.price_range_max
                        } else {
                            Double { bits: NINETY_EIGHT_CENT_BITS }
                        },
                        tick_size: tick,
                    })
                    &&& !(next is Quote) ==> (next matches EntryMove::Done(ended) && ended.status
                        == ExecutionStatus::Skipped && json::lookup(ended.raw, "reason"@) == Some(
                        JsonTree::Text("buy_price_gate_reject"@),
                    ))
                },
                None => {
                    &&& config.enable_fallback_gtc_limit <==> next is SubmitLimitFallback
                    &&& config.enable_fallback_gtc_limit ==> next == (
                    EntryMove::SubmitLimitFallback {
                        token_id: s.token_id,
                        stake_usd: s.stake_usd,
                        tick_size: tick,
                    })
                    &&& !config.enable_fallback_gtc_limit ==> (next is Sleep <==> s.d.attempts
                        < config.order_max_attempts && (s.close_time_sec - now_sec) * 1000
                        > config.order_retry_interval_ms)
                    &&& !config.enable_fallback_gtc_limit ==> next is Sleep || next is Done
                },
            }
        }),
{
    match s.d.last_best_ask {
        Some(ask) => {
            price_band::band_turns_away_what_lies_outside(ask, config);
            match price_band::band_reject(ask, config) {
                Some(why) => {
                    let after = entry_tick_size(config, s, tick_size, now_sec).0;
                    lemma_gate_reason(
                        after.d,
                        seq![("observedPrice"@, json::amount_tree(ask))],
                        "best_ask"@,
                        why,
                        config,
                    );
                },
                None => {},
            }
        },
        None => {
            if !config.enable_fallback_gtc_limit {
                let tick = tick_or_default(tick_size);
                let counted = EntryView {
                    d: DiagnosticsView {
                        no_asks_count: (s.d.no_asks_count + 1) as u64,
                        last_attempt_status: Some("NO_ASKS_FALLBACK_DISABLED"@),
                        last_tick_size: Some(tick),
                        ..s.d
                    },
                    ..s
                };
                lemma_after_attempt(config, counted, now_sec);
            }
        },
    }
}

proof fn lemma_gate_reason(
    d: DiagnosticsView,
    prices: Seq<(Seq<char>, JsonTree)>,
    source: Seq<char>,
    why: Seq<char>,
    config: Config,
)
    requires
        forall|i: int|
            0 <= i < prices.len() ==> (#[trigger] prices[i]).0 == "observedPrice"@ || prices[i].0
                == "finalPrice"@ || prices[i].0 == "slippedPrice"@,
    ensures
        json::lookup(gate_result(d, prices, source, why, config).raw, "reason"@) == Some(
            JsonTree::Text("buy_price_gate_reject"@),
        ),
{
    reveal_strlit("reason");
    reveal_strlit("observedPrice");
    reveal_strlit("finalPrice");
    reveal_strlit("slippedPrice");
    reveal_strlit("gateSource");
    reveal_strlit("gateReason");
    reveal_strlit("gateMin");
    reveal_strlit("gateMax");
    assert("reason"@.len() == 6);
    assert("observedPrice"@.len() == 13);
    assert("finalPrice"@.len() == 10);
    assert("slippedPrice"@.len() == 12);
    assert("gateSource"@.len() == 10);
    assert("gateReason"@.len() == 10);
    assert("gateMin"@.len() == 7);
    assert("gateMax"@.len() == 7);
    assert("finalPrice"@[0] != "gateSource"@[0]);
    assert("finalPrice"@[0] != "gateReason"@[0]);
    assert("gateSource"@[4] != "gateReason"@[4]);
    assert("gateMin"@[5] != "gateMax"@[5]);
    let extras = prices + seq![
        ("gateSource"@, JsonTree::Text(source)),
        ("gateReason"@, JsonTree::Text(why)),
        ("gateMin"@, json::amount_tree(config.price_range_min)),
        ("gateMax"@, json::amount_tree(config.price_range_max)),
    ];
    assert forall|i: int| 0 <= i < extras.len() implies (#[trigger] extras[i]).0 != "reason"@ by {
        if i < prices.len() {
            assert(extras[i] == prices[i]);
        }
    }
    lemma_skip_reason("buy_price_gate_reject"@, d, extras);
}

/// An order is sent at the price that was worked out, for the whole stake and on the tick size of
/// the attempt, exactly where the band allows that price; otherwise the entry ends.
pub proof fn order_is_sent_at_an_allowed_price(
    config: Config,
    s: EntryView,
    slipped: Double,
    final_price: Double,
)
    requires
        final_price.finite(),
        config.price_range_min.finite(),
        config.price_range_max.finite(),
        config.price_range_min.units() <= config.price_range_max.units(),
        s.d.last_tick_size is Some,
        s.d.fok_attempts < u64::MAX,
    ensures
        ({
            let (after, next) = entry_quote(config, s, slipped, final_price);
            let in_band = config.price_range_min.units() <= final_price.units()
                <= config.price_range_max.units();
            &&& !config.entry_price_gate_enabled || in_band <==> next is SubmitFok
            &&& next is SubmitFok ==> next == (EntryMove::SubmitFok {
                token_id: s.token_id,
                stake_usd: s.stake_usd,
                final_price,
                tick_size: s.d.last_tick_size->Some_0,
            }) && after.d.fok_attempts == s.d.fok_attempts + 1
            &&& !(next is SubmitFok) ==> (next matches EntryMove::Done(ended) && ended.status
                == ExecutionStatus::Skipped && ended.filled_price == final_price && json::lookup(
                ended.raw,
                "reason"@,
            ) == Some(JsonTree::Text("buy_price_gate_reject"@)))
            &&& after.d.last_final_price == Some(final_price)
            &&& after.d.attempts == s.d.attempts
        }),
{
    price_band::band_turns_away_what_lies_outside(final_price, config);
    match price_band::band_reject(final_price, config) {
        Some(why) => {
            let after = entry_quote(config, s, slipped, final_price).0;
            lemma_gate_reason(
                after.d,
                seq![
                    ("finalPrice"@, json::amount_tree(final_price)),
                    ("slippedPrice"@, json::amount_tree(slipped)),
                ],
                "submit_price"@,
                why,
                config,
            );
        },
        None => {},
    }
}

/// The answer to an order to be filled at once rejects it where the exchange says so, and lets it
/// be followed under the id that the answer names otherwise, at its price, for its stake, and until
/// the grace after the close is over.
pub proof fn accepted_order_is_followed_on_its_terms(
    config: Config,
    answer: JsonTree,
    final_price: Double,
    stake_usd: Double,
    close_time_sec: u64,
    now_sec: u64,
)
    requires
        close_time_sec + config.status_poll_grace_sec <= u64::MAX,
    ensures
        ({
            let verdict = fok_verdict(config, answer, final_price, stake_usd, close_time_sec);
            let refused = submit_response::submit_success(answer) == Some(false)
                || submit_response::submit_error(answer) is Some;
            &&& refused <==> verdict is Rejected
            &&& !refused && submit_response::order_id_of(answer).len() == 0 <==> verdict
                == VerdictView::NoOrderId
            &&& verdict matches VerdictView::Follow(run) ==> {
                &&& run.order_id == submit_response::order_id_of(answer)
                &&& run.price == final_price
                &&& !run.used_fallback_limit
                &&& run.context.requested_stake_usd == Some(stake_usd)
                &&& run.counts.live() && run.counts.unavailable() == 0
                &&& status_poll::poll_time(config, run, now_sec) is FetchStatus <==> now_sec
                    <= close_time_sec + config.status_poll_grace_sec
            }
        }),
{
}

/// A rejected order bought nothing and cost nothing, and its result tells what the exchange said
/// and whether the code of its error forbids to send the order again.
pub proof fn rejection_is_recorded(answer: JsonTree, final_price: Double)
    ensures
        ({
            let result = rejected(answer, final_price);
            let code = match submit_response::submit_error(answer) {
                Some(message) => submit_response::error_code(message),
                None => None,
            };
            &&& result.status == ExecutionStatus::Failed
            &&& result.filled_size.key() == 0
            &&& result.spent_usd.key() == 0
            &&& result.filled_price == final_price
            &&& !result.used_fallback_limit
            &&& json::lookup(result.raw, "reason"@) == Some(
                JsonTree::Text("order_submit_rejected"@),
            )
            &&& submit_response::submit_error(answer) matches Some(message) ==> json::lookup(
                result.raw,
                "submitErrorMsg"@,
            ) == Some(JsonTree::Text(message))
            &&& json::lookup(result.raw, "submitTerminalNoRetry"@) == Some(
                JsonTree::Bool(
                    code matches Some(c) && (c == "INVALID_ORDER_MIN_SIZE"@ || c
                        == "INVALID_ORDER_MIN_TICK_SIZE"@ || c
                        == "INVALID_ORDER_NOT_ENOUGH_BALANCE"@ || c
                        == "INVALID_ORDER_EXPIRATION"@ || c == "INVALID_POST_ONLY_ORDER_TYPE"@ || c
                        == "INVALID_POST_ONLY_ORDER"@),
                ),
            )
        }),
{
    broadcast use json::lookup_after_put;

    reveal_strlit("reason");
    reveal_strlit("submitSuccess");
    reveal_strlit("submitStatus");
    reveal_strlit("submitErrorMsg");
    reveal_strlit("submitErrorCode");
    reveal_strlit("submitTerminalNoRetry");
    assert("reason"@.len() == 6);
    assert("submitSuccess"@.len() == 13);
    assert("submitStatus"@.len() == 12);
    assert("submitErrorMsg"@.len() == 14);
    assert("submitErrorCode"@.len() == 15);
    assert("submitTerminalNoRetry"@.len() == 21);
}

/// The fallback order is kept back exactly where the band is enforced and does not hold its price,
/// and then nothing is bought; an order that was sent is followed at its price and charged for its
/// fill.
pub proof fn fallback_order_keeps_to_the_band(
    config: Config,
    answer: JsonTree,
    price: Double,
    close_time_sec: u64,
)
    requires
        config.price_range_min.finite(),
        config.price_range_max.finite(),
        config.price_range_min.units() <= config.price_range_max.units(),
        price_band::fallback_price(config).finite(),
    ensures
        fallback_gate(config) is None <==> (config.entry_price_gate_enabled
            ==> config.price_range_min.units() <= price_band::fallback_price(config).units()
            <= config.price_range_max.units()),
        fallback_gate(config) matches Some(result) ==> result.status == ExecutionStatus::Skipped
            && result.used_fallback_limit && result.filled_size.key() == 0
            && result.spent_usd.key() == 0,
        ({
            let run = fallback_poll(config, answer, price, close_time_sec);
            &&& run.order_id == submit_response::order_id_of(answer)
            &&& run.price == price
            &&& run.used_fallback_limit
            &&& run.context.requested_stake_usd is None
        }),
{
    price_band::band_turns_away_what_lies_outside(price_band::fallback_price(config), config);
}

/// The states of an order have different names; the tick size is a hundredth where none is known.
pub proof fn states_have_different_names(a: ExecutionStatus, b: ExecutionStatus, t: Seq<char>)
    ensures
        status_name(a) == status_name(b) <==> a == b,
        status_name(ExecutionStatus::Filled) == "FILLED"@,
        status_name(ExecutionStatus::Partial) == "PARTIAL"@,
        status_name(ExecutionStatus::Cancelled) == "CANCELLED"@,
        status_name(ExecutionStatus::Failed) == "FAILED"@,
        status_name(ExecutionStatus::Skipped) == "SKIPPED"@,
        status_name(ExecutionStatus::Pending) == "PENDING"@,
        tick_or_default(Some(t)) == t,
        tick_or_default(None) == "0.01"@,
{
    reveal_strlit("PENDING");
    reveal_strlit("FILLED");
    reveal_strlit("PARTIAL");
    reveal_strlit("CANCELLED");
    reveal_strlit("FAILED");
    reveal_strlit("SKIPPED");
    assert("PENDING"@.len() == 7);
    assert("FILLED"@.len() == 6);
    assert("PARTIAL"@.len() == 7);
    assert("CANCELLED"@.len() == 9);
    assert("FAILED"@.len() == 6);
    assert("SKIPPED"@.len() == 7);
    assert("PENDING"@[1] != "PARTIAL"@[1]);
    assert("PENDING"@[0] != "SKIPPED"@[0]);
    assert("PARTIAL"@[0] != "SKIPPED"@[0]);
    assert("FILLED"@[1] != "FAILED"@[1]);
}

/// At most the upper end of the band is paid where the band counts, and else 98 cents.
pub proof fn dearest_price_is_bounded(config: Config)
    ensures
        config.entry_price_gate_enabled ==> max_buy_price(config) == config.price_range_max,
        !config.entry_price_gate_enabled ==> max_buy_price(config).bits == 0x3fef_5c28_f5c2_8f5c,
{
}

/// Whether a key is none of those under which the course of an entry is put down.
pub open spec fn is_extra_key(key: Seq<char>) -> bool {
    &&& key != "reason"@
    &&& key != "timeBudgetStartSec"@
    &&& key != "attempts"@
    &&& key != "fokAttempts"@
    &&& key != "noAsksCount"@
    &&& key != "gateRejectCount"@
    &&& key != "orderbookErrorCount"@
    &&& key != "lastAttemptStatus"@
    &&& key != "lastBestBid"@
    &&& key != "lastBestAsk"@
    &&& key != "lastFinalPrice"@
    &&& key != "lastTickSize"@
}

/// What is put down of an entry that was given up besides its course stays as it was given.
pub proof fn skip_keeps_its_extras(
    reason: Seq<char>,
    d: DiagnosticsView,
    extras: Seq<(Seq<char>, JsonTree)>,
    i: int,
)
    requires
        0 <= i < extras.len(),
        is_extra_key(extras[i].0),
        forall|j: int| i < j < extras.len() ==> (#[trigger] extras[j]).0 != extras[i].0,
    ensures
        json::lookup(skipped(reason, d, extras).raw, extras[i].0) == Some(extras[i].1),
{
    broadcast use json::lookup_after_put;

    json::last_of_several_members_counts(
        seq![("reason"@, JsonTree::Text(reason))],
        extras,
        i,
    );
}

proof fn lemma_extra_keys()
    ensures
        is_extra_key("gateSource"@),
        is_extra_key("gateReason"@),
        is_extra_key("gateMin"@),
        is_extra_key("gateMax"@),
        is_extra_key("observedPrice"@),
        is_extra_key("finalPrice"@),
        is_extra_key("slippedPrice"@),
        is_extra_key("fallbackPrice"@),
        is_extra_key("maxAttempts"@),
        is_extra_key("retryIntervalMs"@),
        is_extra_key("remainingMs"@),
        is_extra_key("closeTimeSec"@),
        is_extra_key("nowSec"@),
        is_extra_key("exhaustedAtSec"@),
        is_extra_key("timeToCloseSec"@),
        is_extra_key("error"@),
{
    reveal_strlit("reason");
    reveal_strlit("timeBudgetStartSec");
    reveal_strlit("attempts");
    reveal_strlit("fokAttempts");
    reveal_strlit("noAsksCount");
    reveal_strlit("gateRejectCount");
    reveal_strlit("orderbookErrorCount");
    reveal_strlit("lastAttemptStatus");
    reveal_strlit("lastBestBid");
    reveal_strlit("lastBestAsk");
    reveal_strlit("lastFinalPrice");
    reveal_strlit("lastTickSize");
    reveal_strlit("gateSource");
    reveal_strlit("gateReason");
    reveal_strlit("gateMin");
    reveal_strlit("gateMax");
    reveal_strlit("observedPrice");
    reveal_strlit("finalPrice");
    reveal_strlit("slippedPrice");
    reveal_strlit("fallbackPrice");
    reveal_strlit("maxAttempts");
    reveal_strlit("retryIntervalMs");
    reveal_strlit("remainingMs");
    reveal_strlit("closeTimeSec");
    reveal_strlit("nowSec");
    reveal_strlit("exhaustedAtSec");
    reveal_strlit("timeToCloseSec");
    reveal_strlit("error");
    assert("reason"@.len() == 6);
    assert("timeBudgetStartSec"@.len() == 18);
    assert("attempts"@.len() == 8);
    assert("fokAttempts"@.len() == 11);
    assert("noAsksCount"@.len() == 11);
    assert("gateRejectCount"@.len() == 15);
    assert("orderbookErrorCount"@.len() == 19);
    assert("lastAttemptStatus"@.len() == 17);
    assert("lastBestBid"@.len() == 11);
    assert("lastBestAsk"@.len() == 11);
    assert("lastFinalPrice"@.len() == 14);
    assert("lastTickSize"@.len() == 12);
    assert("gateSource"@.len() == 10);
    assert("gateReason"@.len() == 10);
    assert("gateMin"@.len() == 7);
    assert("gateMax"@.len() == 7);
    assert("observedPrice"@.len() == 13);
    assert("finalPrice"@.len() == 10);
    assert("slippedPrice"@.len() == 12);
    assert("fallbackPrice"@.len() == 13);
    assert("maxAttempts"@.len() == 11);
    assert("retryIntervalMs"@.len() == 15);
    assert("remainingMs"@.len() == 11);
    assert("closeTimeSec"@.len() == 12);
    assert("nowSec"@.len() == 6);
    assert("exhaustedAtSec"@.len() == 14);
    assert("timeToCloseSec"@.len() == 14);
    assert("error"@.len() == 5);
    assert("reason"@[0] != "nowSec"@[0]);
    assert("fokAttempts"@[0] != "noAsksCount"@[0]);
    assert("fokAttempts"@[0] != "lastBestBid"@[0]);
    assert("fokAttempts"@[0] != "lastBestAsk"@[0]);
    assert("fokAttempts"@[0] != "maxAttempts"@[0]);
    assert("fokAttempts"@[0] != "remainingMs"@[0]);
    assert("noAsksCount"@[0] != "lastBestBid"@[0]);
    assert("noAsksCount"@[0] != "lastBestAsk"@[0]);
    assert("noAsksCount"@[0] != "maxAttempts"@[0]);
    assert("noAsksCount"@[0] != "remainingMs"@[0]);
    assert("lastBestBid"@[8] != "lastBestAsk"@[8]);
    assert("lastBestBid"@[0] != "maxAttempts"@[0]);
    assert("lastBestBid"@[0] != "remainingMs"@[0]);
    assert("lastBestAsk"@[0] != "maxAttempts"@[0]);
    assert("lastBestAsk"@[0] != "remainingMs"@[0]);
    assert("maxAttempts"@[0] != "remainingMs"@[0]);
    assert("gateRejectCount"@[0] != "retryIntervalMs"@[0]);
    assert("lastFinalPrice"@[0] != "exhaustedAtSec"@[0]);
    assert("lastFinalPrice"@[0] != "timeToCloseSec"@[0]);
    assert("exhaustedAtSec"@[0] != "timeToCloseSec"@[0]);
    assert("lastTickSize"@[0] != "slippedPrice"@[0]);
    assert("lastTickSize"@[0] != "closeTimeSec"@[0]);
    assert("slippedPrice"@[0] != "closeTimeSec"@[0]);
    assert("gateSource"@[4] != "gateReason"@[4]);
    assert("gateSource"@[0] != "finalPrice"@[0]);
    assert("gateReason"@[0] != "finalPrice"@[0]);
    assert("gateMin"@[5] != "gateMax"@[5]);
    assert("observedPrice"@[0] != "fallbackPrice"@[0]);
}

/// An order that the band turns away is put down with the price, the band, the end of it that was
/// passed, and where the price came from.
pub proof fn refusal_of_the_band_is_put_down(
    config: Config,
    s: EntryView,
    tick_size: Option<Seq<char>>,
    slipped: Double,
    final_price: Double,
    now_sec: u64,
)
    requires
        final_price.finite(),
        s.d.last_best_ask == Some(final_price),
        config.entry_price_gate_enabled,
        config.price_range_min.finite(),
        config.price_range_max.finite(),
        config.price_range_min.units() <= config.price_range_max.units(),
        final_price.units() < config.price_range_min.units() || final_price.units()
            > config.price_range_max.units(),
        s.d.gate_reject_count < u64::MAX,
    ensures
        ({
            let (first, asked) = entry_tick_size(config, s, tick_size, now_sec);
            let (second, quoted) = entry_quote(config, s, slipped, final_price);
            let why = if final_price.units() < config.price_range_min.units() {
                "below_min"@
            } else {
                "above_max"@
            };
            let a = asked->Done_0.raw;
            let b = quoted->Done_0.raw;
            &&& asked is Done && quoted is Done
            &&& json::lookup(a, "gateSource"@) == Some(JsonTree::Text("best_ask"@))
            &&& json::lookup(b, "gateSource"@) == Some(JsonTree::Text("submit_price"@))
            &&& json::lookup(a, "gateReason"@) == Some(JsonTree::Text(why))
            &&& json::lookup(b, "gateReason"@) == Some(JsonTree::Text(why))
            &&& json::lookup(a, "gateMin"@) == Some(json::amount_tree(config.price_range_min))
            &&& json::lookup(b, "gateMax"@) == Some(json::amount_tree(config.price_range_max))
            &&& json::lookup(a, "observedPrice"@) == Some(json::amount_tree(final_price))
            &&& json::lookup(b, "finalPrice"@) == Some(json::amount_tree(final_price))
            &&& json::lookup(b, "slippedPrice"@) == Some(json::amount_tree(slipped))
            &&& first.d.gate_reject_count == s.d.gate_reject_count + 1
            &&& second.d.gate_reject_count == s.d.gate_reject_count + 1
            &&& first.d.no_asks_count == s.d.no_asks_count && first.d.fok_attempts
                == s.d.fok_attempts
            &&& first.d.last_attempt_status == Some("GATE_REJECT_BEST_ASK"@)
            &&& second.d.last_attempt_status == Some("GATE_REJECT_SUBMIT_BAND"@)
        }),
{
    lemma_extra_keys();
    reveal_strlit("gateSource");
    reveal_strlit("gateReason");
    reveal_strlit("gateMin");
    reveal_strlit("gateMax");
    reveal_strlit("observedPrice");
    reveal_strlit("finalPrice");
    reveal_strlit("slippedPrice");
    reveal_strlit("fallbackPrice");
    assert("gateSource"@.len() == 10);
    assert("gateReason"@.len() == 10);
    assert("gateMin"@.len() == 7);
    assert("gateMax"@.len() == 7);
    assert("observedPrice"@.len() == 13);
    assert("finalPrice"@.len() == 10);
    assert("slippedPrice"@.len() == 12);
    assert("fallbackPrice"@.len() == 13);
    assert("gateSource"@[4] != "gateReason"@[4]);
    assert("gateSource"@[0] != "finalPrice"@[0]);
    assert("gateReason"@[0] != "finalPrice"@[0]);
    assert("gateMin"@[5] != "gateMax"@[5]);
    assert("observedPrice"@[0] != "fallbackPrice"@[0]);
    price_band::band_turns_away_what_lies_outside(final_price, config);
    let why = price_band::band_reject(final_price, config)->Some_0;
    let band = seq![
        ("gateSource"@, JsonTree::Text("best_ask"@)),
        ("gateReason"@, JsonTree::Text(why)),
        ("gateMin"@, json::amount_tree(config.price_range_min)),
        ("gateMax"@, json::amount_tree(config.price_range_max)),
    ];
    let a = seq![("observedPrice"@, json::amount_tree(final_price))] + band;
    let other = seq![
        ("gateSource"@, JsonTree::Text("submit_price"@)),
        ("gateReason"@, JsonTree::Text(why)),
        ("gateMin"@, json::amount_tree(config.price_range_min)),
        ("gateMax"@, json::amount_tree(config.price_range_max)),
    ];
    let b = seq![
        ("finalPrice"@, json::amount_tree(final_price)),
        ("slippedPrice"@, json::amount_tree(slipped)),
    ] + other;
    let first = entry_tick_size(config, s, tick_size, now_sec).0;
    let second = entry_quote(config, s, slipped, final_price).0;
    assert(a[0].0 == "observedPrice"@ && a[1].0 == "gateSource"@ && a[2].0 == "gateReason"@ && a[3].0
        == "gateMin"@ && a[4].0 == "gateMax"@);
    assert(b[0].0 == "finalPrice"@ && b[1].0 == "slippedPrice"@ && b[2].0 == "gateSource"@ && b[3].0
        == "gateReason"@ && b[4].0 == "gateMin"@ && b[5].0 == "gateMax"@);
    skip_keeps_its_extras("buy_price_gate_reject"@, first.d, a, 0);
    skip_keeps_its_extras("buy_price_gate_reject"@, first.d, a, 1);
    skip_keeps_its_extras("buy_price_gate_reject"@, first.d, a, 2);
    skip_keeps_its_extras("buy_price_gate_reject"@, first.d, a, 3);
    skip_keeps_its_extras("buy_price_gate_reject"@, second.d, b, 0);
    skip_keeps_its_extras("buy_price_gate_reject"@, second.d, b, 1);
    skip_keeps_its_extras("buy_price_gate_reject"@, second.d, b, 2);
    skip_keeps_its_extras("buy_price_gate_reject"@, second.d, b, 3);
    skip_keeps_its_extras("buy_price_gate_reject"@, second.d, b, 5);
}

/// Each attempt notes how it ended and is counted under that end alone.
pub proof fn attempt_notes_how_it_ended(
    config: Config,
    s: EntryView,
    result: Option<ExecutionView>,
    message: Seq<char>,
    tick_size: Option<Seq<char>>,
    now_sec: u64,
)
    requires
        s.d.no_asks_count < u64::MAX,
        s.d.orderbook_error_count < u64::MAX,
    ensures
        ({
            let fok = entry_fok_result(config, s, result, now_sec);
            let gtc = entry_fallback_result(config, s, result, now_sec);
            let missing = entry_orderbook_error(config, s, message, now_sec);
            let silent = entry_tick_size(config, s, tick_size, now_sec);
            let used_up = s.d.attempts >= config.order_max_attempts;
            &&& fok.1 is Sleep || fok.1 is AttachSell ==> fok.0.d.last_attempt_status == Some(
                match result {
                    Some(value) => "FOK_"@ + status_name(value.status),
                    None => "FOK_NO_ORDER_ID"@,
                },
            )
            &&& gtc.1 is Sleep || gtc.1 is AttachSell ==> gtc.0.d.last_attempt_status == Some(
                match result {
                    Some(value) => "GTC_"@ + status_name(value.status),
                    None => "GTC_NO_ORDER_ID"@,
                },
            )
            &&& result is None && used_up ==> fok.0.d.last_attempt_status == Some(
                "ATTEMPT_LIMIT_REACHED"@,
            )
            &&& result is None && !used_up && fok.1 is Done ==> fok.0.d.last_attempt_status == Some(
                "TIME_BUDGET_AFTER_ATTEMPT"@,
            )
            &&& missing.1 is Sleep ==> missing.0.d.last_attempt_status == Some(
                "ORDERBOOK_FETCH_ERROR"@,
            )
            &&& missing.1 is Done && !used_up ==> missing.0.d.last_attempt_status == Some(
                "ORDERBOOK_ERROR_UNTIL_CLOSE"@,
            )
            &&& s.d.last_best_ask is None ==> silent.0.d.no_asks_count == s.d.no_asks_count + 1
            &&& s.d.last_best_ask is None && config.enable_fallback_gtc_limit
                ==> silent.0.d.last_attempt_status == Some("NO_ASKS_FALLBACK_GTC"@)
            &&& s.d.last_best_ask is None && silent.1 is Sleep ==> silent.0.d.last_attempt_status
                == Some("NO_ASKS_FALLBACK_DISABLED"@)
            &&& s.d.last_best_ask is Some ==> silent.0.d.no_asks_count == s.d.no_asks_count
            &&& silent.0.d.last_tick_size == Some(
                if tick_size is Some {
                    tick_size->Some_0
                } else {
                    "0.01"@
                },
            )
            &&& fok.0.counted() == s.counted() && gtc.0.counted() == s.counted()
            &&& missing.0.counted() == s.counted() + 1
        }),
{
}

} // verus!
