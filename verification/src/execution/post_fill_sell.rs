//! Selling what was bought: the wait for the stop-loss trigger, and the sell order after it.
use vstd::prelude::*;
use crate::double::Double;
use crate::execution::price_band;
use crate::execution::submit_error;
use crate::execution::submit_response;
use crate::failure::Failure;
use crate::json;
use crate::json::{Entry, Json, JsonTree};
use crate::text;
use crate::types::{Config, ExecutionResult, ExecutionView, OrderBookSnapshot};

verus! {

// ---------------------------------------------------------------------------
// The wait for the trigger
// ---------------------------------------------------------------------------

/// What a look at the market during the wait calls for.
#[derive(Clone, Copy, Debug, PartialEq, Eq, Structural)]
pub enum WatchAction {
    /// The best bid is at the trigger or below: sell.
    Sell,
    /// The market closes too soon: do not sell.
    SkipNearClose,
    /// The wait has lasted too long: do not sell.
    SkipTimeout,
    /// Look again after so many milliseconds.
    Sleep(u64),
}

/// The best bid of a book that has one.
pub open spec fn bid_of(book: OrderBookSnapshot) -> Option<Double> {
    if book.best_bid.positive() {
        Some(book.best_bid)
    } else {
        None
    }
}

pub fn best_bid_of(book: &OrderBookSnapshot) -> (r: Option<Double>)
    ensures
        r == bid_of(*book),
{
    if book.best_bid.is_positive() {
        Some(book.best_bid)
    } else {
        None
    }
}

/// Whether the market closes within the guard time.
pub open spec fn near_close(config: Config, now_sec: u64, close_time_sec: u64) -> bool {
    now_sec + config.stop_loss_deadline_before_close_sec >= close_time_sec
}

/// A look at the market during the wait. The guard before the close goes before everything else,
/// and a trigger that is hit goes before the time-out.
pub open spec fn watch(
    config: Config,
    started_sec: u64,
    close_time_sec: u64,
    now_sec: u64,
    best_bid: Option<Double>,
) -> WatchAction {
    if near_close(config, now_sec, close_time_sec) {
        WatchAction::SkipNearClose
    } else if best_bid is Some && best_bid->Some_0.at_most(config.stop_loss_price_trigger) {
        WatchAction::Sell
    } else if now_sec >= started_sec + config.stop_loss_timeout_sec {
        WatchAction::SkipTimeout
    } else {
        WatchAction::Sleep(config.interval_check_price_trigger_ms)
    }
}

pub fn watch_stop_loss(
    config: &Config,
    started_sec: u64,
    close_time_sec: u64,
    now_sec: u64,
    best_bid: Option<Double>,
) -> (r: WatchAction)
    ensures
        r == watch(*config, started_sec, close_time_sec, now_sec, best_bid),
{
    if now_sec as u128 + config.stop_loss_deadline_before_close_sec as u128
        >= close_time_sec as u128 {
        return WatchAction::SkipNearClose;
    }
    match best_bid {
        Some(bid) => if bid.le(config.stop_loss_price_trigger) {
            return WatchAction::Sell;
        },
        None => {},
    }
    if now_sec as u128 >= started_sec as u128 + config.stop_loss_timeout_sec as u128 {
        return WatchAction::SkipTimeout;
    }
    WatchAction::Sleep(config.interval_check_price_trigger_ms)
}

/// The sale is never begun within the guard time before the close, and only ever at a best bid
/// at the trigger or below.
pub proof fn sale_needs_trigger_and_time(
    config: Config,
    started_sec: u64,
    close_time_sec: u64,
    now_sec: u64,
    best_bid: Option<Double>,
)
    ensures
        watch(config, started_sec, close_time_sec, now_sec, best_bid) == WatchAction::Sell ==> {
            &&& best_bid matches Some(bid) && bid.at_most(config.stop_loss_price_trigger)
            &&& now_sec + config.stop_loss_deadline_before_close_sec < close_time_sec
        },
{
}

/// Whether a best bid is at the trigger or below.
pub open spec fn hits_trigger(config: Config, best_bid: Option<Double>) -> bool {
    best_bid matches Some(bid) && bid.at_most(config.stop_loss_price_trigger)
}

/// The first of a series of looks that is not followed by another, and what it calls for. A look
/// is the time and the best bid.
pub open spec fn watched(
    config: Config,
    started_sec: u64,
    close_time_sec: u64,
    looks: Seq<(u64, Option<Double>)>,
) -> Option<(int, WatchAction)>
    decreases looks.len(),
{
    if looks.len() == 0 {
        None
    } else {
        let (now_sec, best_bid) = looks[0];
        match watch(config, started_sec, close_time_sec, now_sec, best_bid) {
            WatchAction::Sleep(_) => match watched(
                config,
                started_sec,
                close_time_sec,
                looks.drop_first(),
            ) {
                Some((i, action)) => Some((i + 1, action)),
                None => None,
            },
            action => Some((0, action)),
        }
    }
}

/// The sale comes at the first best bid at the trigger or below, and not before, where the time
/// allows: the looks until then are neither too late nor too near the close.
pub proof fn sale_comes_at_the_first_hit(
    config: Config,
    started_sec: u64,
    close_time_sec: u64,
    looks: Seq<(u64, Option<Double>)>,
    k: int,
)
    requires
        0 <= k < looks.len(),
        hits_trigger(config, looks[k].1),
        !near_close(config, looks[k].0, close_time_sec),
        forall|j: int|
            0 <= j < k ==> !hits_trigger(config, (#[trigger] looks[j]).1) && !near_close(
                config,
                looks[j].0,
                close_time_sec,
            ) && looks[j].0 < started_sec + config.stop_loss_timeout_sec,
    ensures
        watched(config, started_sec, close_time_sec, looks) == Some((k, WatchAction::Sell)),
    decreases k,
{
    if k > 0 {
        let rest = looks.drop_first();
        assert(!hits_trigger(config, looks[0].1));
        assert forall|j: int| 0 <= j < k - 1 implies !hits_trigger(config, (#[trigger] rest[j]).1)
            && !near_close(config, rest[j].0, close_time_sec) && rest[j].0 < started_sec
            + config.stop_loss_timeout_sec by {
            assert(rest[j] == looks[j + 1]);
        }
        sale_comes_at_the_first_hit(config, started_sec, close_time_sec, rest, k - 1);
    }
}

/// Where a sale comes, its best bid is at the trigger or below, and no earlier one was.
pub proof fn no_hit_is_passed_over(
    config: Config,
    started_sec: u64,
    close_time_sec: u64,
    looks: Seq<(u64, Option<Double>)>,
    k: int,
)
    requires
        watched(config, started_sec, close_time_sec, looks) == Some((k, WatchAction::Sell)),
    ensures
        0 <= k < looks.len(),
        hits_trigger(config, looks[k].1),
        forall|j: int| 0 <= j < k ==> !hits_trigger(config, (#[trigger] looks[j]).1),
    decreases looks.len(),
{
    let (now_sec, best_bid) = looks[0];
    if watch(config, started_sec, close_time_sec, now_sec, best_bid) is Sleep {
        let rest = looks.drop_first();
        no_hit_is_passed_over(config, started_sec, close_time_sec, rest, k - 1);
        assert forall|j: int| 0 <= j < k implies !hits_trigger(
            config,
            (#[trigger] looks[j]).1,
        ) by {
            if j > 0 {
                assert(looks[j] == rest[j - 1]);
            }
        }
    }
}

// ---------------------------------------------------------------------------
// The switch
// ---------------------------------------------------------------------------

/// What follows an order that was filled.
pub enum ExitStep {
    /// Nothing is sold: the result stands as it is.
    Done(ExecutionResult),
    /// The trigger is waited for, and the sale is recorded with the result.
    Watch(ExecutionResult),
}

#[verifier::ext_equal]
pub enum ExitView {
    Done(ExecutionView),
    Watch(ExecutionView),
}

impl ExitStep {
    pub open spec fn view(self) -> ExitView {
        match self {
            ExitStep::Done(result) => ExitView::Done(result@),
            ExitStep::Watch(result) => ExitView::Watch(result@),
        }
    }
}

/// Decides whether a filled order is to be sold again.
pub fn begin_exit(config: &Config, result: ExecutionResult) -> (r: ExitStep)
    ensures
        !config.enable_stop_loss ==> r@ == ExitView::Done(result@),
        config.enable_stop_loss ==> r@ == ExitView::Watch(result@),
{
    if config.enable_stop_loss {
        ExitStep::Watch(result)
    } else {
        ExitStep::Done(result)
    }
}

// ---------------------------------------------------------------------------
// The record of the sale
// ---------------------------------------------------------------------------

/// How often a sale was tried, as the record states it.
pub open spec fn retry_tree(
    interval_ms: u64,
    max_retries: u64,
    attempts_used: u64,
    exhausted: bool,
) -> JsonTree {
    JsonTree::Object(
        seq![
            ("intervalMs"@, json::count_tree(interval_ms)),
            ("maxRetries"@, json::count_tree(max_retries)),
            ("attemptsUsed"@, json::count_tree(attempts_used)),
            ("exhausted"@, JsonTree::Bool(exhausted)),
        ],
    )
}

pub fn build_sell_submit_retry_payload(
    interval_ms: u64,
    max_retries: u64,
    attempts_used: u64,
    exhausted: bool,
) -> (r: Json)
    ensures
        r@ == retry_tree(interval_ms, max_retries, attempts_used, exhausted),
{
    let mut entries: Vec<Entry> = Vec::new();
    entries.push(json::entry("intervalMs", json::count_json(interval_ms)));
    entries.push(json::entry("maxRetries", json::count_json(max_retries)));
    entries.push(json::entry("attemptsUsed", json::count_json(attempts_used)));
    entries.push(json::entry("exhausted", Json::Bool(exhausted)));
    proof {
        json::lemma_object_tree(entries);
    }
    assert(json::record(entries@) =~= seq![
        ("intervalMs"@, json::count_tree(interval_ms)),
        ("maxRetries"@, json::count_tree(max_retries)),
        ("attemptsUsed"@, json::count_tree(attempts_used)),
        ("exhausted"@, JsonTree::Bool(exhausted)),
    ]);
    Json::Object(entries)
}

/// The record of a sale before anything was done about it.
pub open spec fn blank_record(
    token_id: Seq<char>,
    order_type: Seq<char>,
    requested_price: Double,
    size: Double,
) -> Seq<(Seq<char>, JsonTree)> {
    seq![
        ("enabled"@, JsonTree::Bool(true)),
        ("attempted"@, JsonTree::Bool(false)),
        ("orderType"@, JsonTree::Text(order_type)),
        ("tokenId"@, JsonTree::Text(token_id)),
        ("requestedPrice"@, json::amount_tree(requested_price)),
        ("finalPrice"@, JsonTree::Null),
        ("tickSize"@, JsonTree::Null),
        ("size"@, json::amount_tree(size)),
        ("success"@, JsonTree::Bool(false)),
        ("orderId"@, JsonTree::Null),
        ("status"@, JsonTree::Null),
        ("errorMsg"@, JsonTree::Null),
        ("errorCode"@, JsonTree::Null),
        ("retryable"@, JsonTree::Null),
        ("errorPhase"@, JsonTree::Null),
    ]
}

pub fn build_post_fill_sell_limit_payload(
    token_id: &str,
    order_type: &str,
    requested_price: Double,
    size: Double,
) -> (r: Vec<Entry>)
    ensures
        json::record(r@) == blank_record(token_id@, order_type@, requested_price, size),
{
    let mut p: Vec<Entry> = Vec::new();
    p.push(json::entry("enabled", Json::Bool(true)));
    p.push(json::entry("attempted", Json::Bool(false)));
    p.push(json::entry("orderType", json::text_json(order_type)));
    p.push(json::entry("tokenId", json::text_json(token_id)));
    p.push(json::entry("requestedPrice", json::amount_json(requested_price)));
    p.push(json::entry("finalPrice", Json::Null));
    p.push(json::entry("tickSize", Json::Null));
    p.push(json::entry("size", json::amount_json(size)));
    p.push(json::entry("success", Json::Bool(false)));
    p.push(json::entry("orderId", Json::Null));
    p.push(json::entry("status", Json::Null));
    p.push(json::entry("errorMsg", Json::Null));
    p.push(json::entry("errorCode", Json::Null));
    p.push(json::entry("retryable", Json::Null));
    p.push(json::entry("errorPhase", Json::Null));
    assert(json::record(p@) =~= blank_record(token_id@, order_type@, requested_price, size));
    p
}

/// The record of a sale that was not tried.
pub open spec fn not_tried(
    record: Seq<(Seq<char>, JsonTree)>,
    status: Seq<char>,
    message: Seq<char>,
    code: Seq<char>,
) -> Seq<(Seq<char>, JsonTree)> {
    let r = json::put(record, "status"@, JsonTree::Text(status));
    let r = json::put(r, "errorMsg"@, JsonTree::Text(message));
    let r = json::put(r, "errorCode"@, JsonTree::Text(code));
    json::put(r, "retryable"@, JsonTree::Bool(false))
}

fn note_not_tried(record: Vec<Entry>, status: &str, message: &str, code: &str) -> (r: Vec<Entry>)
    ensures
        json::record(r@) == not_tried(json::record(record@), status@, message@, code@),
{
    let mut r = record;
    json::set_member(&mut r, "status", json::text_json(status));
    json::set_member(&mut r, "errorMsg", json::text_json(message));
    json::set_member(&mut r, "errorCode", json::text_json(code));
    json::set_member(&mut r, "retryable", Json::Bool(false));
    r
}

/// The record of a sale that the wait for the trigger ended without.
pub open spec fn watch_skip_record(
    config: Config,
    token_id: Seq<char>,
    size: Double,
    timed_out: bool,
) -> Seq<(Seq<char>, JsonTree)> {
    let blank = blank_record(
        token_id,
        config.stop_loss_order_type@,
        config.stop_loss_price_trigger,
        size,
    );
    if timed_out {
        not_tried(
            blank,
            "skipped_stop_loss_timeout"@,
            "stop-loss trigger was not hit in time"@,
            "STOP_LOSS_TIMEOUT"@,
        )
    } else {
        not_tried(
            blank,
            "skipped_stop_loss_deadline"@,
            "market close is too near for stop-loss"@,
            "STOP_LOSS_DEADLINE"@,
        )
    }
}

pub fn skip_record(config: &Config, token_id: &str, size: Double, timed_out: bool) -> (r: Vec<
    Entry,
>)
    ensures
        json::record(r@) == watch_skip_record(*config, token_id@, size, timed_out),
{
    let blank = build_post_fill_sell_limit_payload(
        token_id,
        config.stop_loss_order_type.as_str(),
        config.stop_loss_price_trigger,
        size,
    );
    if timed_out {
        note_not_tried(
            blank,
            "skipped_stop_loss_timeout",
            "stop-loss trigger was not hit in time",
            "STOP_LOSS_TIMEOUT",
        )
    } else {
        note_not_tried(
            blank,
            "skipped_stop_loss_deadline",
            "market close is too near for stop-loss",
            "STOP_LOSS_DEADLINE",
        )
    }
}

/// A filled order with the record of its sale.
pub open spec fn with_sale(result: ExecutionView, sale: Seq<(Seq<char>, JsonTree)>) -> ExecutionView {
    ExecutionView {
        raw: json::put(result.raw, "postFillSellLimit"@, JsonTree::Object(sale)),
        ..result
    }
}

/// Records the sale of a filled order with its result, where sales are made at all.
pub fn attach_post_fill_sell_limit(
    config: &Config,
    result: ExecutionResult,
    placement: Vec<Entry>,
) -> (r: ExecutionResult)
    ensures
        !config.enable_stop_loss ==> r@ == result@,
        config.enable_stop_loss ==> r@ == with_sale(result@, json::record(placement@)),
{
    if !config.enable_stop_loss {
        return result;
    }
    let mut out = result;
    proof {
        json::lemma_object_tree(placement);
    }
    json::set_member(&mut out.raw_response, "postFillSellLimit", Json::Object(placement));
    out
}

// ---------------------------------------------------------------------------
// The sell order
// ---------------------------------------------------------------------------

/// A sale under way.
pub struct SellRun {
    payload: Vec<Entry>,
    token_id: String,
    order_type: String,
    tick_size: String,
    requested_price: Double,
    final_price: Double,
    current_size: Double,
    retry_interval_ms: u64,
    max_retries: u64,
    attempt: u64,
    last_status: String,
    last_error_message: Option<String>,
    last_error_code: Option<String>,
    last_retryable: bool,
    last_error_phase: String,
    last_post_result: Option<Json>,
}

#[verifier::ext_equal]
pub struct SellView {
    pub payload: Seq<(Seq<char>, JsonTree)>,
    pub token_id: Seq<char>,
    pub order_type: Seq<char>,
    pub tick_size: Seq<char>,
    pub requested_price: Double,
    pub final_price: Double,
    pub current_size: Double,
    pub retry_interval_ms: u64,
    pub max_retries: u64,
    pub attempt: u64,
    pub last_status: Seq<char>,
    pub last_error_message: Option<Seq<char>>,
    pub last_error_code: Option<Seq<char>>,
    pub last_retryable: bool,
    pub last_error_phase: Seq<char>,
    pub last_post_result: Option<JsonTree>,
}

pub enum SellAction {
    /// Fetch the tick size of the token and report it.
    FetchTickSize { token_id: String },
    /// Put this price on the tick grid, upwards, and report it.
    Round { price: Double, tick_size: String },
    /// Wait so many milliseconds first; then create the order, submit it and report the answer.
    Submit {
        wait_ms: u64,
        token_id: String,
        size: Double,
        price: Double,
        tick_size: String,
        order_type: String,
    },
    /// The sale has ended, with this record.
    Done(Vec<Entry>),
}

#[verifier::ext_equal]
pub enum SellMove {
    FetchTickSize { token_id: Seq<char> },
    Round { price: Double, tick_size: Seq<char> },
    Submit {
        wait_ms: u64,
        token_id: Seq<char>,
        size: Double,
        price: Double,
        tick_size: Seq<char>,
        order_type: Seq<char>,
    },
    Done(Seq<(Seq<char>, JsonTree)>),
}

impl SellAction {
    pub open spec fn view(self) -> SellMove {
        match self {
            SellAction::FetchTickSize { token_id } => SellMove::FetchTickSize {
                token_id: token_id@,
            },
            SellAction::Round { price, tick_size } => SellMove::Round {
                price,
                tick_size: tick_size@,
            },
            SellAction::Submit {
                wait_ms,
                token_id,
                size,
                price,
                tick_size,
                order_type,
            } => SellMove::Submit {
                wait_ms,
                token_id: token_id@,
                size,
                price,
                tick_size: tick_size@,
                order_type: order_type@,
            },
            SellAction::Done(payload) => SellMove::Done(json::record(payload@)),
        }
    }
}

pub open spec fn at_least_one(n: u64) -> u64 {
    if n == 0 {
        1
    } else {
        n
    }
}

/// The start of a sale: its end where there is nothing to sell, and the tick size otherwise.
pub open spec fn sell_start(config: Config, token_id: Seq<char>, size: Double) -> (
    SellView,
    SellMove,
) {
    let payload = blank_record(
        token_id,
        config.stop_loss_order_type@,
        config.stop_loss_price_trigger,
        size,
    );
    let s = SellView {
        payload,
        token_id,
        order_type: config.stop_loss_order_type@,
        tick_size: Seq::empty(),
        requested_price: config.stop_loss_price_trigger,
        final_price: Double { bits: 0 },
        current_size: size,
        retry_interval_ms: at_least_one(config.stop_loss_submit_retry_interval_ms),
        max_retries: at_least_one(config.retry_sell),
        attempt: 0,
        last_status: "order_submit_failed"@,
        last_error_message: None,
        last_error_code: None,
        last_retryable: true,
        last_error_phase: "order_submission"@,
        last_post_result: None,
    };
    if size.at_most(Double { bits: 0 }) {
        let after = SellView {
            payload: not_tried(
                payload,
                "skipped_no_filled_size"@,
                "filled size must be > 0 to place post-fill sell limit"@,
                "SELL_SIZE_INVALID"@,
            ),
            ..s
        };
        (after, SellMove::Done(after.payload))
    } else {
        (s, SellMove::FetchTickSize { token_id })
    }
}

/// The tick size is known, or the default taken for it.
pub open spec fn sell_tick_size(s: SellView, tick_size: Option<Seq<char>>) -> (SellView, SellMove) {
    let tick = match tick_size {
        Some(t) => t,
        None => "0.01"@,
    };
    let after = SellView {
        payload: json::put(s.payload, "tickSize"@, JsonTree::Text(tick)),
        tick_size: tick,
        ..s
    };
    (after, SellMove::Round { price: price_band::clamped(s.requested_price), tick_size: tick })
}

/// The next try.
pub open spec fn sell_try(s: SellView) -> (SellView, SellMove) {
    let after = SellView { attempt: (s.attempt + 1) as u64, ..s };
    (
        after,
        SellMove::Submit {
            wait_ms: if s.attempt == 0 {
                0
            } else {
                s.retry_interval_ms
            },
            token_id: s.token_id,
            size: s.current_size,
            price: s.final_price,
            tick_size: s.tick_size,
            order_type: s.order_type,
        },
    )
}

/// The price is on the grid: the first try.
pub open spec fn sell_rounded(s: SellView, rounded: Double) -> (SellView, SellMove) {
    let price = price_band::clamped(rounded);
    let payload = json::put(s.payload, "finalPrice"@, json::amount_tree(price));
    let payload = json::put(payload, "sizeAdjustedForBalance"@, JsonTree::Bool(false));
    sell_try(SellView { payload, final_price: price, ..s })
}

/// The record of a sale whose tries are used up.
pub open spec fn sell_exhausted(s: SellView) -> Seq<(Seq<char>, JsonTree)> {
    let r = json::put(s.payload, "attempted"@, JsonTree::Bool(s.attempt > 0));
    let r = json::put(r, "status"@, JsonTree::Text(s.last_status + "_retries_exhausted"@));
    let r = json::put(
        r,
        "errorMsg"@,
        JsonTree::Text(
            match s.last_error_message {
                Some(m) => m,
                None => "post-fill SELL retries exhausted after "@ + text::decimal(
                    s.attempt as nat,
                ) + " attempts"@,
            },
        ),
    );
    let r = json::put(
        r,
        "errorCode"@,
        JsonTree::Text(
            match s.last_error_code {
                Some(c) => c,
                None => "SELL_RETRY_EXHAUSTED"@,
            },
        ),
    );
    let r = json::put(r, "retryable"@, JsonTree::Bool(s.last_retryable));
    let r = json::put(r, "errorPhase"@, JsonTree::Text(s.last_error_phase));
    let r = json::put(r, "submitAttempt"@, json::count_tree(s.attempt));
    let r = json::put(
        r,
        "submitRetry"@,
        retry_tree(s.retry_interval_ms, s.max_retries, s.attempt, true),
    );
    match s.last_post_result {
        Some(answer) => json::put(r, "postResult"@, answer),
        None => r,
    }
}

/// What follows a try that failed: another one while there are any left.
pub open spec fn sell_failed(s: SellView) -> (SellView, SellMove) {
    if s.attempt < s.max_retries {
        sell_try(s)
    } else {
        let after = SellView { payload: sell_exhausted(s), ..s };
        (after, SellMove::Done(after.payload))
    }
}

/// A try that failed before the exchange answered. It is judged by the whole line of what went
/// wrong and what caused it.
pub open spec fn sell_error(s: SellView, error: Seq<Seq<char>>, creating: bool) -> (
    SellView,
    SellMove,
) {
    let (compact, code, retryable) = submit_error::classified(text::joined(error, " -> "@));
    sell_failed(
        SellView {
            last_status: if creating {
                "order_creation_failed"@
            } else {
                "order_submit_failed"@
            },
            last_error_message: Some(compact),
            last_error_code: Some(code),
            last_retryable: retryable,
            last_error_phase: if creating {
                "order_creation"@
            } else {
                "order_submission"@
            },
            ..s
        },
    )
}

/// What a rejection says: its status, its message, its code, and whether it is worth another try.
pub open spec fn rejection(answer: JsonTree) -> (Seq<char>, Seq<char>, Seq<char>, bool) {
    let message = submit_response::submit_error(answer);
    let (compact, fallback_code, fallback_retryable) = submit_error::classified(
        match message {
            Some(m) => m,
            None => "order submission rejected"@,
        },
    );
    let known = match message {
        Some(m) => submit_response::error_code(m),
        None => None,
    };
    (
        match submit_response::submit_status(answer) {
            Some(s) => s,
            None => "order_submit_rejected"@,
        },
        match message {
            Some(m) => m,
            None => compact,
        },
        match known {
            Some(c) => c,
            None => fallback_code,
        },
        match known {
            Some(c) => !submit_response::is_terminal_code(c),
            None => fallback_retryable,
        },
    )
}

/// A try that the exchange rejected: where it says that the balance does not bear the size, the
/// next try is for a smaller one.
pub open spec fn sell_rejected(
    s: SellView,
    answer: JsonTree,
    parsed_balance: Double,
    safe_size: Double,
) -> (SellView, SellMove) {
    let (status, message, code, retryable) = rejection(answer);
    let resized = match submit_error::limited_size(
        s.current_size,
        text::lowercase(message),
        parsed_balance,
        safe_size,
    ) {
        Some((balance, size)) => {
            let payload = json::put(s.payload, "sizeAdjustedForBalance"@, JsonTree::Bool(true));
            let payload = json::put(payload, "adjustedSize"@, json::amount_tree(size));
            let payload = json::put(payload, "balanceAtReject"@, json::amount_tree(balance));
            SellView { payload, current_size: size, ..s }
        },
        None => s,
    };
    sell_failed(
        SellView {
            last_status: status,
            last_error_message: Some(message),
            last_error_code: Some(code),
            last_retryable: retryable,
            last_error_phase: "order_submission"@,
            last_post_result: Some(answer),
            ..resized
        },
    )
}

/// A try whose answer names no order.
pub open spec fn sell_without_id(s: SellView, answer: JsonTree) -> (SellView, SellMove) {
    sell_failed(
        SellView {
            last_status: match submit_response::submit_status(answer) {
                Some(t) => t,
                None => "order_submit_missing_order_id"@,
            },
            last_error_message: Some("postOrder response does not contain orderID/id"@),
            last_error_code: Some("ORDER_ID_MISSING"@),
            last_retryable: true,
            last_error_phase: "response_parse"@,
            last_post_result: Some(answer),
            ..s
        },
    )
}

/// A try that put the order in.
pub open spec fn sell_accepted(s: SellView, answer: JsonTree) -> (SellView, SellMove) {
    let r = json::put(s.payload, "attempted"@, JsonTree::Bool(true));
    let r = json::put(r, "success"@, JsonTree::Bool(true));
    let r = json::put(r, "orderId"@, JsonTree::Text(submit_response::order_id_of(answer)));
    let r = json::put(r, "size"@, json::amount_tree(s.current_size));
    let r = json::put(
        r,
        "status"@,
        JsonTree::Text(
            match submit_response::submit_status(answer) {
                Some(t) => t,
                None => "submitted"@,
            },
        ),
    );
    let r = json::put(r, "postResult"@, answer);
    let r = json::put(r, "submitAttempt"@, json::count_tree(s.attempt));
    let r = json::put(
        r,
        "submitRetry"@,
        retry_tree(s.retry_interval_ms, s.max_retries, s.attempt, false),
    );
    let after = SellView { payload: r, ..s };
    (after, SellMove::Done(after.payload))
}

/// What follows the answer of the exchange.
pub open spec fn sell_answer(
    s: SellView,
    answer: JsonTree,
    parsed_balance: Double,
    safe_size: Double,
) -> (SellView, SellMove) {
    if submit_response::rejects(answer) {
        sell_rejected(s, answer, parsed_balance, safe_size)
    } else if submit_response::order_id_of(answer).len() == 0 {
        sell_without_id(s, answer)
    } else {
        sell_accepted(s, answer)
    }
}

/// Begins a sale of `size` shares, a size that is on the grid of millionths.
pub fn submit_post_fill_sell_limit(config: &Config, token_id: &str, size: Double) -> (r: (
    SellRun,
    SellAction,
))
    ensures
        (r.0@, r.1@) == sell_start(*config, token_id@, size),
        r.0.in_order(),
{
    let payload = build_post_fill_sell_limit_payload(
        token_id,
        config.stop_loss_order_type.as_str(),
        config.stop_loss_price_trigger,
        size,
    );
    let retry_interval_ms: u64 = if config.stop_loss_submit_retry_interval_ms == 0 {
        1
    } else {
        config.stop_loss_submit_retry_interval_ms
    };
    let max_retries: u64 = if config.retry_sell == 0 {
        1
    } else {
        config.retry_sell
    };
    let tick_size = String::new();
    assert(tick_size@ =~= Seq::<char>::empty());
    let mut run = SellRun {
        payload,
        token_id: token_id.to_owned(),
        order_type: config.stop_loss_order_type.clone(),
        tick_size,
        requested_price: config.stop_loss_price_trigger,
        final_price: Double::zero(),
        current_size: size,
        retry_interval_ms,
        max_retries,
        attempt: 0,
        last_status: "order_submit_failed".to_owned(),
        last_error_message: None,
        last_error_code: None,
        last_retryable: true,
        last_error_phase: "order_submission".to_owned(),
        last_post_result: None,
    };
    if size.le(Double::zero()) {
        let done = note_not_tried(
            run.payload,
            "skipped_no_filled_size",
            "filled size must be > 0 to place post-fill sell limit",
            "SELL_SIZE_INVALID",
        );
        run.payload = json::copy_record(&done);
        return (run, SellAction::Done(done));
    }
    (run, SellAction::FetchTickSize { token_id: token_id.to_owned() })
}

impl SellRun {
    pub closed spec fn view(self) -> SellView {
        SellView {
            payload: json::record(self.payload@),
            token_id: self.token_id@,
            order_type: self.order_type@,
            tick_size: self.tick_size@,
            requested_price: self.requested_price,
            final_price: self.final_price,
            current_size: self.current_size,
            retry_interval_ms: self.retry_interval_ms,
            max_retries: self.max_retries,
            attempt: self.attempt,
            last_status: self.last_status@,
            last_error_message: json::text_view(self.last_error_message),
            last_error_code: json::text_view(self.last_error_code),
            last_retryable: self.last_retryable,
            last_error_phase: self.last_error_phase@,
            last_post_result: match self.last_post_result {
                Some(v) => Some(v@),
                None => None,
            },
        }
    }

    /// No more tries were made than are allowed.
    pub open spec fn in_order(self) -> bool {
        self@.attempt <= self@.max_retries
    }

    fn try_again(&mut self) -> (r: SellAction)
        requires
            old(self)@.attempt < old(self)@.max_retries,
        ensures
            (final(self)@, r@) == sell_try(old(self)@),
    {
        let wait_ms: u64 = if self.attempt == 0 {
            0
        } else {
            self.retry_interval_ms
        };
        self.attempt = self.attempt + 1;
        SellAction::Submit {
            wait_ms,
            token_id: self.token_id.clone(),
            size: self.current_size,
            price: self.final_price,
            tick_size: self.tick_size.clone(),
            order_type: self.order_type.clone(),
        }
    }

    fn give_up(&mut self) -> (r: SellAction)
        ensures
            final(self)@ == (SellView { payload: sell_exhausted(old(self)@), ..old(self)@ }),
            r@ == SellMove::Done(sell_exhausted(old(self)@)),
    {
        let mut status = self.last_status.clone();
        status.append("_retries_exhausted");
        let message = match &self.last_error_message {
            Some(m) => m.clone(),
            None => {
                let mut m = "post-fill SELL retries exhausted after ".to_owned();
                m.append(text::decimal_u64(self.attempt).as_str());
                m.append(" attempts");
                m
            },
        };
        let code = match &self.last_error_code {
            Some(c) => c.clone(),
            None => "SELL_RETRY_EXHAUSTED".to_owned(),
        };
        let mut p = json::copy_record(&self.payload);
        json::set_member(&mut p, "attempted", Json::Bool(self.attempt > 0));
        json::set_member(&mut p, "status", json::text_json(status.as_str()));
        json::set_member(&mut p, "errorMsg", json::text_json(message.as_str()));
        json::set_member(&mut p, "errorCode", json::text_json(code.as_str()));
        json::set_member(&mut p, "retryable", Json::Bool(self.last_retryable));
        json::set_member(&mut p, "errorPhase", json::text_json(self.last_error_phase.as_str()));
        json::set_member(&mut p, "submitAttempt", json::count_json(self.attempt));
        let retry = build_sell_submit_retry_payload(
            self.retry_interval_ms,
            self.max_retries,
            self.attempt,
            true,
        );
        json::set_member(&mut p, "submitRetry", retry);
        match &self.last_post_result {
            Some(answer) => {
                json::set_member(&mut p, "postResult", answer.copy());
            },
            None => {},
        }
        self.payload = json::copy_record(&p);
        SellAction::Done(p)
    }

    fn after_failure(&mut self) -> (r: SellAction)
        requires
            old(self).in_order(),
        ensures
            (final(self)@, r@) == sell_failed(old(self)@),
            final(self).in_order(),
    {
        if self.attempt < self.max_retries {
            self.try_again()
        } else {
            self.give_up()
        }
    }

    /// The tick size was fetched, or could not be.
    pub fn on_tick_size(&mut self, tick_size: Option<String>) -> (r: SellAction)
        ensures
            (final(self)@, r@) == sell_tick_size(old(self)@, json::text_view(tick_size)),
    {
        let tick = match tick_size {
            Some(t) => t,
            None => "0.01".to_owned(),
        };
        json::set_member(&mut self.payload, "tickSize", json::text_json(tick.as_str()));
        self.tick_size = tick.clone();
        SellAction::Round { price: price_band::clamp_price(self.requested_price), tick_size: tick }
    }

    /// The price was put on the tick grid.
    pub fn on_rounded(&mut self, rounded: Double) -> (r: SellAction)
        requires
            old(self)@.attempt == 0,
            old(self)@.max_retries > 0,
        ensures
            (final(self)@, r@) == sell_rounded(old(self)@, rounded),
            final(self).in_order(),
    {
        let price = price_band::clamp_price(rounded);
        json::set_member(&mut self.payload, "finalPrice", json::amount_json(price));
        json::set_member(&mut self.payload, "sizeAdjustedForBalance", Json::Bool(false));
        self.final_price = price;
        self.try_again()
    }

    /// The order could not be created, or not be sent.
    pub fn on_error(&mut self, error: &Failure, creating: bool) -> (r: SellAction)
        requires
            old(self).in_order(),
        ensures
            (final(self)@, r@) == sell_error(old(self)@, error@, creating),
            final(self).in_order(),
    {
        let line = error.format_error_chain();
        let classified = submit_error::classify_submit_error_message(line.as_str());
        if creating {
            self.last_status = "order_creation_failed".to_owned();
            self.last_error_phase = "order_creation".to_owned();
        } else {
            self.last_status = "order_submit_failed".to_owned();
            self.last_error_phase = "order_submission".to_owned();
        }
        self.last_error_message = Some(classified.message);
        self.last_error_code = Some(classified.code);
        self.last_retryable = classified.retryable;
        self.after_failure()
    }

    /// The exchange answered. `parsed_balance` and `safe_size` are the balance that a rejection
    /// states and the size that it bears.
    pub fn on_answer(&mut self, answer: &Json, parsed_balance: Double, safe_size: Double) -> (r:
        SellAction)
        requires
            old(self).in_order(),
        ensures
            (final(self)@, r@) == sell_answer(old(self)@, answer@, parsed_balance, safe_size),
            final(self).in_order(),
    {
        let success = submit_response::extract_submit_success(answer);
        let message = submit_response::extract_submit_error_message(answer);
        let status = submit_response::extract_submit_status(answer);
        let refused = match success {
            Some(b) => !b,
            None => false,
        };
        if refused || message.is_some() {
            self.take_rejection(answer, status, message, parsed_balance, safe_size);
            return self.after_failure();
        }
        let order_id = submit_response::extract_order_id(answer);
        if order_id.as_str().is_empty() {
            self.last_status = match status {
                Some(t) => t,
                None => "order_submit_missing_order_id".to_owned(),
            };
            self.last_error_message =
            Some("postOrder response does not contain orderID/id".to_owned());
            self.last_error_code = Some("ORDER_ID_MISSING".to_owned());
            self.last_retryable = true;
            self.last_error_phase = "response_parse".to_owned();
            self.last_post_result = Some(answer.copy());
            return self.after_failure();
        }
        let status_text = match status {
            Some(t) => t,
            None => "submitted".to_owned(),
        };
        let mut p = json::copy_record(&self.payload);
        json::set_member(&mut p, "attempted", Json::Bool(true));
        json::set_member(&mut p, "success", Json::Bool(true));
        json::set_member(&mut p, "orderId", json::text_json(order_id.as_str()));
        json::set_member(&mut p, "size", json::amount_json(self.current_size));
        json::set_member(&mut p, "status", json::text_json(status_text.as_str()));
        json::set_member(&mut p, "postResult", answer.copy());
        json::set_member(&mut p, "submitAttempt", json::count_json(self.attempt));
        let retry = build_sell_submit_retry_payload(
            self.retry_interval_ms,
            self.max_retries,
            self.attempt,
            false,
        );
        json::set_member(&mut p, "submitRetry", retry);
        self.payload = json::copy_record(&p);
        SellAction::Done(p)
    }

    fn take_rejection(
        &mut self,
        answer: &Json,
        status: Option<String>,
        message: Option<String>,
        parsed_balance: Double,
        safe_size: Double,
    )
        requires
            json::text_view(status) == submit_response::submit_status(answer@),
            json::text_view(message) == submit_response::submit_error(answer@),
        ensures
            sell_failed(final(self)@) == sell_rejected(
                old(self)@,
                answer@,
                parsed_balance,
                safe_size,
            ),
            final(self)@.attempt == old(self)@.attempt,
            final(self)@.max_retries == old(self)@.max_retries,
    {
        let fallback = match &message {
            Some(m) => submit_error::classify_submit_error_message(m.as_str()),
            None => submit_error::classify_submit_error_message("order submission rejected"),
        };
        let known = match &message {
            Some(m) => submit_response::infer_submit_error_code(m.as_str()),
            None => None,
        };
        let (code, retryable) = match known {
            Some(c) => {
                let terminal = submit_response::is_non_retryable_submit_error(Some(c.as_str()));
                (c, !terminal)
            },
            None => (fallback.code, fallback.retryable),
        };
        let message_text = match message {
            Some(m) => m,
            None => fallback.message,
        };
        let limited = submit_error::apply_balance_limited_sell_size(
            self.current_size,
            message_text.as_str(),
            parsed_balance,
            safe_size,
        );
        match limited {
            Some((balance, size)) => {
                self.current_size = size;
                json::set_member(&mut self.payload, "sizeAdjustedForBalance", Json::Bool(true));
                json::set_member(&mut self.payload, "adjustedSize", json::amount_json(size));
                json::set_member(&mut self.payload, "balanceAtReject", json::amount_json(balance));
            },
            None => {},
        }
        self.last_status = match status {
            Some(t) => t,
            None => "order_submit_rejected".to_owned(),
        };
        self.last_error_message = Some(message_text);
        self.last_error_code = Some(code);
        self.last_retryable = retryable;
        self.last_error_phase = "order_submission".to_owned();
        self.last_post_result = Some(answer.copy());
    }
}

/// The balance in millionths that a rejection of a sale states, where it is one.
pub fn rejection_balance(answer: &Json) -> (r: Option<String>)
    ensures
        json::text_view(r) == submit_error::balance_digits(
            text::lowercase(rejection(answer@).1),
        ),
{
    let message = match submit_response::extract_submit_error_message(answer) {
        Some(m) => m,
        None => submit_error::classify_submit_error_message("order submission rejected").message,
    };
    submit_error::parse_balance_amount_from_rejection(message.as_str())
}

/// However the exchange answers, a sale is tried no more often than allowed, and a sale that is
/// out of tries ends.
pub proof fn tries_are_bounded(
    s: SellView,
    answer: JsonTree,
    parsed_balance: Double,
    safe_size: Double,
)
    requires
        s.attempt <= s.max_retries,
    ensures
        ({
            let (after, action) = sell_answer(s, answer, parsed_balance, safe_size);
            &&& after.attempt <= s.max_retries
            &&& after.max_retries == s.max_retries
            &&& s.attempt == s.max_retries ==> action is Done
        }),
{
}

/// A sale never grows: where a rejection changes the size of the next try, it makes it smaller.
pub proof fn sale_never_grows(
    s: SellView,
    answer: JsonTree,
    parsed_balance: Double,
    safe_size: Double,
)
    requires
        !s.current_size.nan(),
        !safe_size.nan(),
    ensures
        sell_answer(s, answer, parsed_balance, safe_size).0.current_size.at_most(s.current_size),
{
    let message = rejection(answer).1;
    submit_error::limited_size_shrinks(
        s.current_size,
        text::lowercase(message),
        parsed_balance,
        safe_size,
    );
}

/// A look during the wait skips the sale where the guard before the close is reached, sells where
/// the best bid is at the trigger or below, skips the sale where the wait has lasted its time, and
/// otherwise looks again after the time between two looks. Nothing else leads to any of these.
pub proof fn every_look_has_one_consequence(
    config: Config,
    started_sec: u64,
    close_time_sec: u64,
    now_sec: u64,
    best_bid: Option<Double>,
)
    requires
        best_bid matches Some(bid) ==> bid.finite(),
        config.stop_loss_price_trigger.finite(),
    ensures
        ({
            let next = watch(config, started_sec, close_time_sec, now_sec, best_bid);
            let guarded = close_time_sec - now_sec <= config.stop_loss_deadline_before_close_sec;
            let hit = best_bid is Some && best_bid->Some_0.units()
                <= config.stop_loss_price_trigger.units();
            let over = now_sec - started_sec >= config.stop_loss_timeout_sec;
            &&& guarded <==> next == WatchAction::SkipNearClose
            &&& !guarded && hit <==> next == WatchAction::Sell
            &&& !guarded && !hit && over <==> next == WatchAction::SkipTimeout
            &&& !guarded && !hit && !over <==> next == WatchAction::Sleep(
                config.interval_check_price_trigger_ms,
            )
        }),
{
    if best_bid is Some {
        crate::double::order_is_numeric(best_bid->Some_0, config.stop_loss_price_trigger);
    }
}

/// The best bid of a book is taken exactly where it is a price.
pub proof fn bid_is_taken_where_it_is_a_price(book: OrderBookSnapshot)
    ensures
        bid_of(book) == (if !book.best_bid.nan() && book.best_bid.key() > 0 {
            Some(book.best_bid)
        } else {
            None
        }),
{
}

proof fn lemma_blank(
    token_id: Seq<char>,
    order_type: Seq<char>,
    requested_price: Double,
    size: Double,
)
    ensures
        ({
            let r = blank_record(token_id, order_type, requested_price, size);
            &&& json::lookup(r, "attempted"@) == Some(JsonTree::Bool(false))
            &&& json::lookup(r, "success"@) == Some(JsonTree::Bool(false))
            &&& json::lookup(r, "tokenId"@) == Some(JsonTree::Text(token_id))
            &&& json::lookup(r, "orderType"@) == Some(JsonTree::Text(order_type))
            &&& json::lookup(r, "size"@) == Some(json::amount_tree(size))
            &&& json::lookup(r, "requestedPrice"@) == Some(json::amount_tree(requested_price))
            &&& json::lookup(r, "orderId"@) == Some(JsonTree::Null)
        }),
{
    reveal_strlit("enabled");
    reveal_strlit("attempted");
    reveal_strlit("orderType");
    reveal_strlit("tokenId");
    reveal_strlit("requestedPrice");
    reveal_strlit("finalPrice");
    reveal_strlit("tickSize");
    reveal_strlit("size");
    reveal_strlit("success");
    reveal_strlit("orderId");
    reveal_strlit("status");
    reveal_strlit("errorMsg");
    reveal_strlit("errorCode");
    reveal_strlit("retryable");
    reveal_strlit("errorPhase");
    assert("enabled"@.len() == 7);
    assert("attempted"@.len() == 9);
    assert("orderType"@.len() == 9);
    assert("tokenId"@.len() == 7);
    assert("requestedPrice"@.len() == 14);
    assert("finalPrice"@.len() == 10);
    assert("tickSize"@.len() == 8);
    assert("size"@.len() == 4);
    assert("success"@.len() == 7);
    assert("orderId"@.len() == 7);
    assert("status"@.len() == 6);
    assert("errorMsg"@.len() == 8);
    assert("errorCode"@.len() == 9);
    assert("retryable"@.len() == 9);
    assert("errorPhase"@.len() == 10);
    assert("enabled"@[0] != "tokenId"@[0]);
    assert("enabled"@[0] != "success"@[0]);
    assert("enabled"@[0] != "orderId"@[0]);
    assert("tokenId"@[0] != "success"@[0]);
    assert("tokenId"@[0] != "orderId"@[0]);
    assert("success"@[0] != "orderId"@[0]);
    assert("attempted"@[0] != "orderType"@[0]);
    assert("attempted"@[0] != "errorCode"@[0]);
    assert("attempted"@[0] != "retryable"@[0]);
    assert("orderType"@[0] != "errorCode"@[0]);
    assert("orderType"@[0] != "retryable"@[0]);
    assert("errorCode"@[0] != "retryable"@[0]);
    assert("finalPrice"@[0] != "errorPhase"@[0]);
    assert("tickSize"@[0] != "errorMsg"@[0]);
    let r = blank_record(token_id, order_type, requested_price, size);
    assert(r[0].0 == "enabled"@);
    assert(r[1].0 == "attempted"@);
    assert(r[2].0 == "orderType"@);
    assert(r[3].0 == "tokenId"@);
    assert(r[4].0 == "requestedPrice"@);
    assert(r[5].0 == "finalPrice"@);
    assert(r[6].0 == "tickSize"@);
    assert(r[7].0 == "size"@);
    assert(r[8].0 == "success"@);
    assert(r[9].0 == "orderId"@);
    assert(r[10].0 == "status"@);
    assert(r[11].0 == "errorMsg"@);
    assert(r[12].0 == "errorCode"@);
    assert(r[13].0 == "retryable"@);
    assert(r[14].0 == "errorPhase"@);
    json::lemma_position_bounds(r, "attempted"@);
    json::lemma_position_bounds(r, "success"@);
    json::lemma_position_bounds(r, "tokenId"@);
    json::lemma_position_bounds(r, "orderType"@);
    json::lemma_position_bounds(r, "size"@);
    json::lemma_position_bounds(r, "requestedPrice"@);
    json::lemma_position_bounds(r, "orderId"@);
}

/// A sale is begun exactly where there is something to sell: at the trigger price, for the size
/// that was filled, with at least one try and a pause between tries. Where there is nothing, its
/// record says that none was tried.
pub proof fn sale_begins_where_there_is_something_to_sell(
    config: Config,
    token_id: Seq<char>,
    size: Double,
)
    requires
        size.finite(),
    ensures
        ({
            let (s, next) = sell_start(config, token_id, size);
            &&& size.units() > 0 <==> next == (SellMove::FetchTickSize { token_id })
            &&& size.units() <= 0 <==> next is Done
            &&& next matches SellMove::Done(record) ==> json::lookup(record, "attempted"@) == Some(
                JsonTree::Bool(false),
            ) && json::lookup(record, "success"@) == Some(JsonTree::Bool(false)) && json::lookup(
                record,
                "errorCode"@,
            ) == Some(JsonTree::Text("SELL_SIZE_INVALID"@))
            &&& s.token_id == token_id && s.current_size == size && s.attempt == 0
            &&& s.requested_price == config.stop_loss_price_trigger
            &&& s.order_type == config.stop_loss_order_type@
            &&& s.max_retries >= 1 && s.retry_interval_ms >= 1
            &&& config.retry_sell >= 1 ==> s.max_retries == config.retry_sell
            &&& config.stop_loss_submit_retry_interval_ms >= 1 ==> s.retry_interval_ms
                == config.stop_loss_submit_retry_interval_ms
        }),
{
    broadcast use json::lookup_after_put;

    crate::double::sign_is_numeric(size);
    assert((Double { bits: 0 }).units() == 0);
    crate::double::order_is_numeric(size, Double { bits: 0 });
    lemma_blank(
        token_id,
        config.stop_loss_order_type@,
        config.stop_loss_price_trigger,
        size,
    );
    reveal_strlit("enabled");
    reveal_strlit("attempted");
    reveal_strlit("orderType");
    reveal_strlit("tokenId");
    reveal_strlit("requestedPrice");
    reveal_strlit("finalPrice");
    reveal_strlit("tickSize");
    reveal_strlit("size");
    reveal_strlit("success");
    reveal_strlit("orderId");
    reveal_strlit("status");
    reveal_strlit("errorMsg");
    reveal_strlit("errorCode");
    reveal_strlit("retryable");
    reveal_strlit("errorPhase");
    assert("enabled"@.len() == 7);
    assert("attempted"@.len() == 9);
    assert("orderType"@.len() == 9);
    assert("tokenId"@.len() == 7);
    assert("requestedPrice"@.len() == 14);
    assert("finalPrice"@.len() == 10);
    assert("tickSize"@.len() == 8);
    assert("size"@.len() == 4);
    assert("success"@.len() == 7);
    assert("orderId"@.len() == 7);
    assert("status"@.len() == 6);
    assert("errorMsg"@.len() == 8);
    assert("errorCode"@.len() == 9);
    assert("retryable"@.len() == 9);
    assert("errorPhase"@.len() == 10);
    assert("enabled"@[0] != "tokenId"@[0]);
    assert("enabled"@[0] != "success"@[0]);
    assert("enabled"@[0] != "orderId"@[0]);
    assert("tokenId"@[0] != "success"@[0]);
    assert("tokenId"@[0] != "orderId"@[0]);
    assert("success"@[0] != "orderId"@[0]);
    assert("attempted"@[0] != "orderType"@[0]);
    assert("attempted"@[0] != "errorCode"@[0]);
    assert("attempted"@[0] != "retryable"@[0]);
    assert("orderType"@[0] != "errorCode"@[0]);
    assert("orderType"@[0] != "retryable"@[0]);
    assert("errorCode"@[0] != "retryable"@[0]);
    assert("finalPrice"@[0] != "errorPhase"@[0]);
    assert("tickSize"@[0] != "errorMsg"@[0]);
}

/// The price of a sale is worked out on the tick size of the token, or on one cent where that is
/// not known, from the trigger as far as the exchange can take it; the first try then goes out at
/// once, for the whole size and at the price on the grid.
pub proof fn first_try_goes_out_at_once(
    s: SellView,
    tick_size: Option<Seq<char>>,
    rounded: Double,
)
    requires
        s.attempt == 0,
        rounded.finite(),
        crate::double::CENT_BITS <= rounded.key() <= crate::double::NINETY_NINE_CENT_BITS,
    ensures
        ({
            let (known, asked) = sell_tick_size(s, tick_size);
            let tick = match tick_size {
                Some(t) => t,
                None => "0.01"@,
            };
            let (after, next) = sell_rounded(known, rounded);
            &&& asked matches SellMove::Round { price, tick_size: t } && t == tick && price
                == price_band::clamped(s.requested_price)
            &&& next == (SellMove::Submit {
                wait_ms: 0,
                token_id: s.token_id,
                size: s.current_size,
                price: rounded,
                tick_size: tick,
                order_type: s.order_type,
            })
            &&& after.attempt == 1 && after.current_size == s.current_size && after.max_retries
                == s.max_retries
        }),
{
}

/// A try that failed before the exchange answered is followed by another of the same size and at
/// the same price, after the pause, exactly while tries are left. The record of one that ran out of
/// tries says that it did not succeed and at which step it failed.
pub proof fn failed_try_is_repeated_while_tries_are_left(
    s: SellView,
    error: Seq<Seq<char>>,
    creating: bool,
)
    requires
        1 <= s.attempt <= s.max_retries,
    ensures
        ({
            let (after, next) = sell_error(s, error, creating);
            let judged = submit_error::classified(text::joined(error, " -> "@));
            &&& s.attempt < s.max_retries <==> next is Submit
            &&& s.attempt < s.max_retries ==> next == (SellMove::Submit {
                wait_ms: s.retry_interval_ms,
                token_id: s.token_id,
                size: s.current_size,
                price: s.final_price,
                tick_size: s.tick_size,
                order_type: s.order_type,
            }) && after.attempt == s.attempt + 1
            &&& s.attempt == s.max_retries ==> (next matches SellMove::Done(record) && {
                &&& json::lookup(record, "errorMsg"@) == Some(JsonTree::Text(judged.0))
                &&& json::lookup(record, "errorCode"@) == Some(JsonTree::Text(judged.1))
                &&& json::lookup(record, "retryable"@) == Some(JsonTree::Bool(judged.2))
                &&& json::lookup(record, "errorPhase"@) == Some(
                    JsonTree::Text(
                        if creating {
                            "order_creation"@
                        } else {
                            "order_submission"@
                        },
                    ),
                )
                &&& json::lookup(record, "attempted"@) == Some(JsonTree::Bool(true))
                &&& json::lookup(record, "success"@) == json::lookup(s.payload, "success"@)
                &&& json::lookup(record, "submitAttempt"@) == Some(json::count_tree(s.attempt))
            })
        }),
{
    broadcast use json::lookup_after_put;

    reveal_strlit("attempted");
    reveal_strlit("status");
    reveal_strlit("errorMsg");
    reveal_strlit("errorCode");
    reveal_strlit("retryable");
    reveal_strlit("errorPhase");
    reveal_strlit("submitAttempt");
    reveal_strlit("submitRetry");
    reveal_strlit("postResult");
    reveal_strlit("success");
    assert("attempted"@.len() == 9);
    assert("status"@.len() == 6);
    assert("errorMsg"@.len() == 8);
    assert("errorCode"@.len() == 9);
    assert("retryable"@.len() == 9);
    assert("errorPhase"@.len() == 10);
    assert("submitAttempt"@.len() == 13);
    assert("submitRetry"@.len() == 11);
    assert("postResult"@.len() == 10);
    assert("success"@.len() == 7);
    assert("attempted"@[0] != "errorCode"@[0]);
    assert("attempted"@[0] != "retryable"@[0]);
    assert("errorCode"@[0] != "retryable"@[0]);
    assert("errorPhase"@[0] != "postResult"@[0]);
}

/// A sale succeeds exactly where the exchange took the order and named it. Its record then holds
/// the order's id, the size that was sold and which try it was.
pub proof fn accepted_sale_is_recorded(
    s: SellView,
    answer: JsonTree,
    parsed_balance: Double,
    safe_size: Double,
)
    requires
        !submit_response::rejects(answer),
        submit_response::order_id_of(answer).len() > 0,
    ensures
        sell_answer(s, answer, parsed_balance, safe_size).1 matches SellMove::Done(record) && {
            &&& json::lookup(record, "success"@) == Some(JsonTree::Bool(true))
            &&& json::lookup(record, "attempted"@) == Some(JsonTree::Bool(true))
            &&& json::lookup(record, "orderId"@) == Some(
                JsonTree::Text(submit_response::order_id_of(answer)),
            )
            &&& json::lookup(record, "size"@) == Some(json::amount_tree(s.current_size))
            &&& json::lookup(record, "submitAttempt"@) == Some(json::count_tree(s.attempt))
            &&& json::lookup(record, "postResult"@) == Some(answer)
        },
{
    broadcast use json::lookup_after_put;

    reveal_strlit("attempted");
    reveal_strlit("success");
    reveal_strlit("orderId");
    reveal_strlit("size");
    reveal_strlit("status");
    reveal_strlit("postResult");
    reveal_strlit("submitAttempt");
    reveal_strlit("submitRetry");
    assert("attempted"@.len() == 9);
    assert("success"@.len() == 7);
    assert("orderId"@.len() == 7);
    assert("size"@.len() == 4);
    assert("status"@.len() == 6);
    assert("postResult"@.len() == 10);
    assert("submitAttempt"@.len() == 13);
    assert("submitRetry"@.len() == 11);
    assert("success"@[0] != "orderId"@[0]);
}

/// A sale that the exchange rejected, or took without naming the order, is tried again exactly
/// while tries are left, after the pause and at the same price. Its size changes only where the
/// exchange says that the balance does not bear it, and then to what the balance bears.
pub proof fn rejected_sale_is_tried_again(
    s: SellView,
    answer: JsonTree,
    parsed_balance: Double,
    safe_size: Double,
)
    requires
        1 <= s.attempt <= s.max_retries,
        submit_response::rejects(answer) || submit_response::order_id_of(answer).len() == 0,
        s.current_size.finite(),
        safe_size.finite(),
    ensures
        ({
            let (after, next) = sell_answer(s, answer, parsed_balance, safe_size);
            let lower = text::lowercase(rejection(answer).1);
            let short = submit_response::rejects(answer) && text::contains(
                lower,
                "not enough balance"@,
            ) && submit_error::balance_digits(lower) is Some && 0 < safe_size.units()
                < s.current_size.units();
            &&& after.current_size == (if short {
                safe_size
            } else {
                s.current_size
            })
            &&& s.attempt < s.max_retries <==> next is Submit
            &&& s.attempt < s.max_retries ==> next == (SellMove::Submit {
                wait_ms: s.retry_interval_ms,
                token_id: s.token_id,
                size: after.current_size,
                price: s.final_price,
                tick_size: s.tick_size,
                order_type: s.order_type,
            }) && after.attempt == s.attempt + 1
            &&& s.attempt == s.max_retries ==> next is Done
            &&& after.last_post_result == Some(answer)
        }),
{
    submit_error::size_is_cut_to_what_the_balance_bears(
        s.current_size,
        text::lowercase(rejection(answer).1),
        parsed_balance,
        safe_size,
    );
}

/// A rejection is told in the exchange's own words where it has any, and is worth another try
/// unless its code is one of those that are not.
pub proof fn rejection_is_told_in_its_words(answer: JsonTree, message: Seq<char>)
    requires
        submit_response::submit_error(answer) == Some(message),
    ensures
        rejection(answer).1 == message,
        submit_response::error_code(message) matches Some(code) ==> rejection(answer).2 == code
            && rejection(answer).3 == !submit_response::is_terminal_code(code),
        submit_response::submit_status(answer) matches Some(status) ==> rejection(answer).0
            == status,
{
}

/// The record of a sale that was not made says so, and why: the close was too near, or the trigger
/// was not hit in time.
pub proof fn skipped_sale_says_why(
    config: Config,
    token_id: Seq<char>,
    size: Double,
    timed_out: bool,
)
    ensures
        ({
            let record = watch_skip_record(config, token_id, size, timed_out);
            &&& json::lookup(record, "attempted"@) == Some(JsonTree::Bool(false))
            &&& json::lookup(record, "success"@) == Some(JsonTree::Bool(false))
            &&& json::lookup(record, "tokenId"@) == Some(JsonTree::Text(token_id))
            &&& json::lookup(record, "size"@) == Some(json::amount_tree(size))
            &&& json::lookup(record, "errorCode"@) == Some(
                JsonTree::Text(
                    if timed_out {
                        "STOP_LOSS_TIMEOUT"@
                    } else {
                        "STOP_LOSS_DEADLINE"@
                    },
                ),
            )
            &&& json::lookup(record, "retryable"@) == Some(JsonTree::Bool(false))
        }),
{
    broadcast use json::lookup_after_put;

    lemma_blank(token_id, config.stop_loss_order_type@, config.stop_loss_price_trigger, size);
    reveal_strlit("enabled");
    reveal_strlit("attempted");
    reveal_strlit("orderType");
    reveal_strlit("tokenId");
    reveal_strlit("requestedPrice");
    reveal_strlit("finalPrice");
    reveal_strlit("tickSize");
    reveal_strlit("size");
    reveal_strlit("success");
    reveal_strlit("orderId");
    reveal_strlit("status");
    reveal_strlit("errorMsg");
    reveal_strlit("errorCode");
    reveal_strlit("retryable");
    reveal_strlit("errorPhase");
    assert("enabled"@.len() == 7);
    assert("attempted"@.len() == 9);
    assert("orderType"@.len() == 9);
    assert("tokenId"@.len() == 7);
    assert("requestedPrice"@.len() == 14);
    assert("finalPrice"@.len() == 10);
    assert("tickSize"@.len() == 8);
    assert("size"@.len() == 4);
    assert("success"@.len() == 7);
    assert("orderId"@.len() == 7);
    assert("status"@.len() == 6);
    assert("errorMsg"@.len() == 8);
    assert("errorCode"@.len() == 9);
    assert("retryable"@.len() == 9);
    assert("errorPhase"@.len() == 10);
    assert("enabled"@[0] != "tokenId"@[0]);
    assert("enabled"@[0] != "success"@[0]);
    assert("enabled"@[0] != "orderId"@[0]);
    assert("tokenId"@[0] != "success"@[0]);
    assert("tokenId"@[0] != "orderId"@[0]);
    assert("success"@[0] != "orderId"@[0]);
    assert("attempted"@[0] != "orderType"@[0]);
    assert("attempted"@[0] != "errorCode"@[0]);
    assert("attempted"@[0] != "retryable"@[0]);
    assert("orderType"@[0] != "errorCode"@[0]);
    assert("orderType"@[0] != "retryable"@[0]);
    assert("errorCode"@[0] != "retryable"@[0]);
    assert("finalPrice"@[0] != "errorPhase"@[0]);
    assert("tickSize"@[0] != "errorMsg"@[0]);
}

/// A sale is recorded beside what is known of the order that it sells, and changes nothing of it.
pub proof fn sale_is_recorded_beside_the_order(
    result: ExecutionView,
    sale: Seq<(Seq<char>, JsonTree)>,
    key: Seq<char>,
)
    ensures
        with_sale(result, sale) == (ExecutionView { raw: with_sale(result, sale).raw, ..result }),
        json::lookup(with_sale(result, sale).raw, "postFillSellLimit"@) == Some(
            JsonTree::Object(sale),
        ),
        key != "postFillSellLimit"@ ==> json::lookup(with_sale(result, sale).raw, key)
            == json::lookup(result.raw, key),
{
    broadcast use json::lookup_after_put;

}

/// What is put down of a sale that was given up or accepted tells how it was tried: the pause between
/// the tries, how many were allowed and used, and whether that was all of them.
pub proof fn tries_are_put_down(
    s: SellView,
    answer: JsonTree,
    parsed_balance: Double,
    safe_size: Double,
    error: Seq<Seq<char>>,
    creating: bool,
)
    requires
        1 <= s.attempt == s.max_retries,
        !submit_response::rejects(answer),
    ensures
        ({
            let given_up = sell_error(s, error, creating).1->Done_0;
            let retry = json::lookup(given_up, "submitRetry"@)->Some_0->Object_0;
            &&& json::lookup(given_up, "submitRetry"@) is Some && json::lookup(
                given_up,
                "submitRetry"@,
            )->Some_0 is Object
            &&& json::lookup(retry, "intervalMs"@) == Some(json::count_tree(s.retry_interval_ms))
            &&& json::lookup(retry, "maxRetries"@) == Some(json::count_tree(s.max_retries))
            &&& json::lookup(retry, "attemptsUsed"@) == Some(json::count_tree(s.attempt))
            &&& json::lookup(retry, "exhausted"@) == Some(JsonTree::Bool(true))
        }),
        submit_response::order_id_of(answer).len() > 0 ==> ({
            let taken = sell_answer(s, answer, parsed_balance, safe_size).1->Done_0;
            let retry = json::lookup(taken, "submitRetry"@)->Some_0->Object_0;
            &&& json::lookup(taken, "submitRetry"@) is Some
            &&& json::lookup(retry, "attemptsUsed"@) == Some(json::count_tree(s.attempt))
            &&& json::lookup(retry, "exhausted"@) == Some(JsonTree::Bool(false))
            &&& submit_response::submit_status(answer) matches Some(t) ==> json::lookup(
                taken,
                "status"@,
            ) == Some(JsonTree::Text(t))
            &&& submit_response::submit_status(answer) is None ==> json::lookup(taken, "status"@)
                == Some(JsonTree::Text("submitted"@))
        }),
        submit_response::order_id_of(answer).len() == 0 ==> ({
            let lost = sell_answer(s, answer, parsed_balance, safe_size).1->Done_0;
            &&& json::lookup(lost, "errorCode"@) == Some(JsonTree::Text("ORDER_ID_MISSING"@))
            &&& json::lookup(lost, "errorMsg"@) == Some(
                JsonTree::Text("postOrder response does not contain orderID/id"@),
            )
            &&& json::lookup(lost, "retryable"@) == Some(JsonTree::Bool(true))
            &&& json::lookup(lost, "errorPhase"@) == Some(JsonTree::Text("response_parse"@))
            &&& json::lookup(lost, "postResult"@) == Some(answer)
            &&& submit_response::submit_status(answer) matches Some(t) ==> json::lookup(
                lost,
                "status"@,
            ) == Some(JsonTree::Text(t + "_retries_exhausted"@))
            &&& submit_response::submit_status(answer) is None ==> json::lookup(lost, "status"@)
                == Some(
                JsonTree::Text("order_submit_missing_order_id"@ + "_retries_exhausted"@),
            )
        }),
{
    broadcast use json::lookup_after_put;

    reveal_strlit("attempted");
    reveal_strlit("success");
    reveal_strlit("orderId");
    reveal_strlit("size");
    reveal_strlit("status");
    reveal_strlit("postResult");
    reveal_strlit("submitAttempt");
    reveal_strlit("submitRetry");
    reveal_strlit("errorMsg");
    reveal_strlit("errorCode");
    reveal_strlit("retryable");
    reveal_strlit("errorPhase");
    assert("attempted"@.len() == 9);
    assert("success"@.len() == 7);
    assert("orderId"@.len() == 7);
    assert("size"@.len() == 4);
    assert("status"@.len() == 6);
    assert("postResult"@.len() == 10);
    assert("submitAttempt"@.len() == 13);
    assert("submitRetry"@.len() == 11);
    assert("errorMsg"@.len() == 8);
    assert("errorCode"@.len() == 9);
    assert("retryable"@.len() == 9);
    assert("errorPhase"@.len() == 10);
    assert("attempted"@[0] != "errorCode"@[0]);
    assert("attempted"@[0] != "retryable"@[0]);
    assert("errorCode"@[0] != "retryable"@[0]);
    assert("success"@[0] != "orderId"@[0]);
    assert("postResult"@[0] != "errorPhase"@[0]);
    lemma_retry_tree(s.retry_interval_ms, s.max_retries, s.attempt, true);
    lemma_retry_tree(s.retry_interval_ms, s.max_retries, s.attempt, false);
}

proof fn lemma_retry_tree(interval_ms: u64, max_retries: u64, used: u64, exhausted: bool)
    ensures
        ({
            let retry = retry_tree(interval_ms, max_retries, used, exhausted)->Object_0;
            &&& json::lookup(retry, "intervalMs"@) == Some(json::count_tree(interval_ms))
            &&& json::lookup(retry, "maxRetries"@) == Some(json::count_tree(max_retries))
            &&& json::lookup(retry, "attemptsUsed"@) == Some(json::count_tree(used))
            &&& json::lookup(retry, "exhausted"@) == Some(JsonTree::Bool(exhausted))
        }),
{
    reveal_strlit("intervalMs");
    reveal_strlit("maxRetries");
    reveal_strlit("attemptsUsed");
    reveal_strlit("exhausted");
    assert("intervalMs"@.len() == 10);
    assert("maxRetries"@.len() == 10);
    assert("attemptsUsed"@.len() == 12);
    assert("exhausted"@.len() == 9);
    assert("intervalMs"@[0] != "maxRetries"@[0]);
    let m = retry_tree(interval_ms, max_retries, used, exhausted)->Object_0;
    assert(m[0].0 == "intervalMs"@ && m[1].0 == "maxRetries"@ && m[2].0 == "attemptsUsed"@ && m[3].0
        == "exhausted"@);
    json::first_member_is_found(m, "intervalMs"@, 0);
    json::first_member_is_found(m, "maxRetries"@, 1);
    json::first_member_is_found(m, "attemptsUsed"@, 2);
    json::first_member_is_found(m, "exhausted"@, 3);
}

/// A sale begins with what it was asked to be put down, and with nothing of how it went; the tick size
/// and the price follow as they become known, and no size is cut yet.
pub proof fn sale_begins_with_its_terms(
    config: Config,
    token_id: Seq<char>,
    size: Double,
    tick_size: Option<Seq<char>>,
    rounded: Double,
)
    requires
        size.finite(),
        size.units() > 0,
        rounded.finite(),
    ensures
        ({
            let (begun, _) = sell_start(config, token_id, size);
            let (known, _) = sell_tick_size(begun, tick_size);
            let (tried, _) = sell_rounded(known, rounded);
            &&& json::lookup(begun.payload, "enabled"@) == Some(JsonTree::Bool(true))
            &&& json::lookup(begun.payload, "attempted"@) == Some(JsonTree::Bool(false))
            &&& json::lookup(begun.payload, "success"@) == Some(JsonTree::Bool(false))
            &&& json::lookup(begun.payload, "tokenId"@) == Some(JsonTree::Text(token_id))
            &&& json::lookup(begun.payload, "orderType"@) == Some(
                JsonTree::Text(config.stop_loss_order_type@),
            )
            &&& json::lookup(begun.payload, "size"@) == Some(json::amount_tree(size))
            &&& json::lookup(begun.payload, "requestedPrice"@) == Some(
                json::amount_tree(config.stop_loss_price_trigger),
            )
            &&& json::lookup(begun.payload, "orderId"@) == Some(JsonTree::Null)
            &&& json::lookup(begun.payload, "status"@) == Some(JsonTree::Null)
            &&& json::lookup(begun.payload, "errorMsg"@) == Some(JsonTree::Null)
            &&& json::lookup(begun.payload, "errorCode"@) == Some(JsonTree::Null)
            &&& json::lookup(begun.payload, "retryable"@) == Some(JsonTree::Null)
            &&& json::lookup(begun.payload, "errorPhase"@) == Some(JsonTree::Null)
            &&& json::lookup(begun.payload, "finalPrice"@) == Some(JsonTree::Null)
            &&& json::lookup(begun.payload, "tickSize"@) == Some(JsonTree::Null)
            &&& tick_size matches Some(t) ==> json::lookup(tried.payload, "tickSize"@) == Some(
                JsonTree::Text(t),
            )
            &&& tick_size is None ==> json::lookup(tried.payload, "tickSize"@) == Some(
                JsonTree::Text("0.01"@),
            )
            &&& json::lookup(tried.payload, "finalPrice"@) == Some(
                json::amount_tree(price_band::clamped(rounded)),
            )
            &&& json::lookup(tried.payload, "sizeAdjustedForBalance"@) == Some(
                JsonTree::Bool(false),
            )
            &&& json::lookup(tried.payload, "size"@) == Some(json::amount_tree(size))
            &&& tried.final_price == price_band::clamped(rounded)
            &&& begun.last_status == "order_submit_failed"@ && begun.last_error_phase
                == "order_submission"@ && begun.last_retryable
            &&& begun.last_error_message is None && begun.last_error_code is None
                && begun.last_post_result is None
        }),
{
    broadcast use json::lookup_after_put;

    reveal_strlit("enabled");
    reveal_strlit("attempted");
    reveal_strlit("orderType");
    reveal_strlit("tokenId");
    reveal_strlit("requestedPrice");
    reveal_strlit("finalPrice");
    reveal_strlit("tickSize");
    reveal_strlit("size");
    reveal_strlit("success");
    reveal_strlit("orderId");
    reveal_strlit("status");
    reveal_strlit("errorMsg");
    reveal_strlit("errorCode");
    reveal_strlit("retryable");
    reveal_strlit("errorPhase");
    reveal_strlit("sizeAdjustedForBalance");
    assert("enabled"@.len() == 7);
    assert("attempted"@.len() == 9);
    assert("orderType"@.len() == 9);
    assert("tokenId"@.len() == 7);
    assert("requestedPrice"@.len() == 14);
    assert("finalPrice"@.len() == 10);
    assert("tickSize"@.len() == 8);
    assert("size"@.len() == 4);
    assert("success"@.len() == 7);
    assert("orderId"@.len() == 7);
    assert("status"@.len() == 6);
    assert("errorMsg"@.len() == 8);
    assert("errorCode"@.len() == 9);
    assert("retryable"@.len() == 9);
    assert("errorPhase"@.len() == 10);
    assert("sizeAdjustedForBalance"@.len() == 22);
    assert("enabled"@[0] != "tokenId"@[0]);
    assert("enabled"@[0] != "success"@[0]);
    assert("enabled"@[0] != "orderId"@[0]);
    assert("tokenId"@[0] != "success"@[0]);
    assert("tokenId"@[0] != "orderId"@[0]);
    assert("success"@[0] != "orderId"@[0]);
    assert("attempted"@[0] != "orderType"@[0]);
    assert("attempted"@[0] != "errorCode"@[0]);
    assert("attempted"@[0] != "retryable"@[0]);
    assert("orderType"@[0] != "errorCode"@[0]);
    assert("orderType"@[0] != "retryable"@[0]);
    assert("errorCode"@[0] != "retryable"@[0]);
    assert("finalPrice"@[0] != "errorPhase"@[0]);
    assert("tickSize"@[0] != "errorMsg"@[0]);
    assert((Double { bits: 0 }).units() == 0);
    crate::double::order_is_numeric(size, Double { bits: 0 });
    let m = sell_start(config, token_id, size).0.payload;
    assert(m[0].0 == "enabled"@);
    assert(m[1].0 == "attempted"@);
    assert(m[2].0 == "orderType"@);
    assert(m[3].0 == "tokenId"@);
    assert(m[4].0 == "requestedPrice"@);
    assert(m[5].0 == "finalPrice"@);
    assert(m[6].0 == "tickSize"@);
    assert(m[7].0 == "size"@);
    assert(m[8].0 == "success"@);
    assert(m[9].0 == "orderId"@);
    assert(m[10].0 == "status"@);
    assert(m[11].0 == "errorMsg"@);
    assert(m[12].0 == "errorCode"@);
    assert(m[13].0 == "retryable"@);
    assert(m[14].0 == "errorPhase"@);
    json::first_member_is_found(m, "enabled"@, 0);
    json::first_member_is_found(m, "attempted"@, 1);
    json::first_member_is_found(m, "orderType"@, 2);
    json::first_member_is_found(m, "tokenId"@, 3);
    json::first_member_is_found(m, "requestedPrice"@, 4);
    json::first_member_is_found(m, "finalPrice"@, 5);
    json::first_member_is_found(m, "tickSize"@, 6);
    json::first_member_is_found(m, "size"@, 7);
    json::first_member_is_found(m, "success"@, 8);
    json::first_member_is_found(m, "orderId"@, 9);
    json::first_member_is_found(m, "status"@, 10);
    json::first_member_is_found(m, "errorMsg"@, 11);
    json::first_member_is_found(m, "errorCode"@, 12);
    json::first_member_is_found(m, "retryable"@, 13);
    json::first_member_is_found(m, "errorPhase"@, 14);
}

/// A sale whose size is cut to the balance puts down the cut, the new size and the balance that was
/// stated; one that is skipped puts down which way it was skipped.
pub proof fn cut_sale_is_put_down(
    s: SellView,
    answer: JsonTree,
    parsed_balance: Double,
    safe_size: Double,
    config: Config,
    token_id: Seq<char>,
    size: Double,
)
    requires
        submit_response::rejects(answer),
        s.current_size.finite(),
        safe_size.finite(),
        1 <= s.attempt < s.max_retries,
        text::contains(text::lowercase(rejection(answer).1), "not enough balance"@),
        submit_error::balance_digits(text::lowercase(rejection(answer).1)) is Some,
        0 < safe_size.units() < s.current_size.units(),
    ensures
        ({
            let after = sell_answer(s, answer, parsed_balance, safe_size).0;
            &&& json::lookup(after.payload, "sizeAdjustedForBalance"@) == Some(
                JsonTree::Bool(true),
            )
            &&& json::lookup(after.payload, "adjustedSize"@) == Some(json::amount_tree(safe_size))
            &&& json::lookup(after.payload, "balanceAtReject"@) == Some(
                json::amount_tree(parsed_balance),
            )
            &&& after.last_error_phase == "order_submission"@
            &&& after.last_error_message == Some(rejection(answer).1)
            &&& after.last_error_code == Some(rejection(answer).2)
            &&& after.last_retryable == rejection(answer).3
            &&& after.last_status == rejection(answer).0
        }),
        json::lookup(watch_skip_record(config, token_id, size, true), "status"@) == Some(
            JsonTree::Text("skipped_stop_loss_timeout"@),
        ),
        json::lookup(watch_skip_record(config, token_id, size, false), "status"@) == Some(
            JsonTree::Text("skipped_stop_loss_deadline"@),
        ),
{
    broadcast use json::lookup_after_put;

    reveal_strlit("sizeAdjustedForBalance");
    reveal_strlit("adjustedSize");
    reveal_strlit("balanceAtReject");
    reveal_strlit("status");
    reveal_strlit("errorMsg");
    reveal_strlit("errorCode");
    reveal_strlit("retryable");
    assert("sizeAdjustedForBalance"@.len() == 22);
    assert("adjustedSize"@.len() == 12);
    assert("balanceAtReject"@.len() == 15);
    assert("status"@.len() == 6);
    assert("errorMsg"@.len() == 8);
    assert("errorCode"@.len() == 9);
    assert("retryable"@.len() == 9);
    assert("errorCode"@[0] != "retryable"@[0]);
    submit_error::size_is_cut_to_what_the_balance_bears(
        s.current_size,
        text::lowercase(rejection(answer).1),
        parsed_balance,
        safe_size,
    );
}

/// A sale that was given up puts down whether its orders could not be made or not be sent.
pub proof fn given_up_sale_says_where_it_failed(
    s: SellView,
    error: Seq<Seq<char>>,
    creating: bool,
)
    requires
        1 <= s.attempt == s.max_retries,
    ensures
        sell_error(s, error, creating).1 matches SellMove::Done(record) && json::lookup(
            record,
            "status"@,
        ) == Some(
            JsonTree::Text(
                (if creating {
                    "order_creation_failed"@
                } else {
                    "order_submit_failed"@
                }) + "_retries_exhausted"@,
            ),
        ),
{
    broadcast use json::lookup_after_put;

    reveal_strlit("attempted");
    reveal_strlit("status");
    reveal_strlit("postResult");
    reveal_strlit("submitAttempt");
    reveal_strlit("submitRetry");
    reveal_strlit("errorMsg");
    reveal_strlit("errorCode");
    reveal_strlit("retryable");
    reveal_strlit("errorPhase");
    assert("attempted"@.len() == 9);
    assert("status"@.len() == 6);
    assert("postResult"@.len() == 10);
    assert("submitAttempt"@.len() == 13);
    assert("submitRetry"@.len() == 11);
    assert("errorMsg"@.len() == 8);
    assert("errorCode"@.len() == 9);
    assert("retryable"@.len() == 9);
    assert("errorPhase"@.len() == 10);
    assert("attempted"@[0] != "errorCode"@[0]);
    assert("attempted"@[0] != "retryable"@[0]);
    assert("errorCode"@[0] != "retryable"@[0]);
    assert("postResult"@[0] != "errorPhase"@[0]);
}

} // verus!
