//! Following an order until the exchange says what became of it.
use vstd::prelude::*;
use crate::double::Double;
use crate::execution::price_band;
use crate::execution::spent;
use crate::execution::spent::SpentComputationContext;
use crate::execution::submit_response;
use crate::json;
use crate::json::{Entry, Json, JsonTree, Reading, ReadingTree};
use crate::text;
use crate::types::{Config, ExecutionResult, ExecutionStatus, ExecutionView};

verus! {

/// How many warnings in a row are worth a line each.
pub const STATUS_POLL_WARN_BURST: u64 = 3;

/// After how many answers without a status the poll is given up.
pub const STATUS_POLL_UNAVAILABLE_ABORT_COUNT: u64 = 8;

/// Until when an order is followed.
pub open spec fn poll_deadline(close_time_sec: u64, grace_sec: u64) -> u64 {
    if close_time_sec + grace_sec > u64::MAX {
        u64::MAX
    } else {
        (close_time_sec + grace_sec) as u64
    }
}

pub fn status_poll_deadline_sec(close_time_sec: u64, status_poll_grace_sec: u64) -> (r: u64)
    ensures
        r == poll_deadline(close_time_sec, status_poll_grace_sec),
{
    close_time_sec.saturating_add(status_poll_grace_sec)
}

/// Which of a run of warnings are logged: the first few, and then every fifth.
pub fn should_log_poll_warning(count: u64) -> (r: bool)
    ensures
        r == (count <= STATUS_POLL_WARN_BURST || count % 5 == 0),
{
    count <= STATUS_POLL_WARN_BURST || count % 5 == 0
}

/// How often the exchange had no status to give.
#[derive(Clone, Copy)]
pub struct PollTimeoutDiagnostics {
    pub empty_status_count: u64,
    pub unsupported_payload_count: u64,
    pub aborted_due_to_unavailable: bool,
}

impl PollTimeoutDiagnostics {
    /// How many answers were of no use.
    pub open spec fn unavailable(self) -> int {
        self.empty_status_count + self.unsupported_payload_count
    }

    /// The poll has not been given up, and was given no reason to.
    pub open spec fn live(self) -> bool {
        !self.aborted_due_to_unavailable && self.unavailable()
            < STATUS_POLL_UNAVAILABLE_ABORT_COUNT
    }
}

/// An order status as the exchange gave it.
pub struct StatusReading {
    pub raw_status: String,
    pub filled_size: Option<Reading>,
    pub filled_price: Option<Reading>,
    pub record: Vec<Entry>,
}

#[verifier::ext_equal]
pub struct StatusView {
    pub raw_status: Seq<char>,
    pub filled_size: Option<ReadingTree>,
    pub filled_price: Option<ReadingTree>,
    pub record: Seq<(Seq<char>, JsonTree)>,
}

impl StatusReading {
    pub open spec fn view(self) -> StatusView {
        StatusView {
            raw_status: self.raw_status@,
            filled_size: json::reading_view(self.filled_size),
            filled_price: json::reading_view(self.filled_price),
            record: json::record(self.record@),
        }
    }
}

/// The word that a status record uses for the status, before its case is settled.
pub open spec fn status_word(record: Seq<(Seq<char>, JsonTree)>) -> Seq<char> {
    match json::lookup(record, "status"@) {
        Some(JsonTree::Text(s)) => s,
        _ => "PENDING"@,
    }
}

/// A status record with its word in upper case.
pub open spec fn read_status(record: Seq<(Seq<char>, JsonTree)>, upper: Seq<char>) -> StatusView {
    StatusView {
        raw_status: upper,
        filled_size: json::member_reading(record, "size_matched"@),
        filled_price: json::member_reading(record, "price"@),
        record,
    }
}

/// What a round of the poll came to.
pub enum PollRound {
    /// The answer held no status. The poll goes on, unless it is to be given up.
    Unavailable,
    /// The answer held a status.
    Read(StatusReading),
}

/// The order status that an answer holds.
pub open spec fn status_of(payload: Option<JsonTree>) -> Option<Seq<(Seq<char>, JsonTree)>> {
    match payload {
        Some(tree) => submit_response::status_record(tree),
        None => None,
    }
}

/// The counts after an answer that held no status.
pub open spec fn counted(
    before: PollTimeoutDiagnostics,
    payload: Option<JsonTree>,
) -> PollTimeoutDiagnostics {
    let empty = if payload is None {
        (before.empty_status_count + 1) as u64
    } else {
        before.empty_status_count
    };
    let unsupported = if payload is None {
        before.unsupported_payload_count
    } else {
        (before.unsupported_payload_count + 1) as u64
    };
    PollTimeoutDiagnostics {
        empty_status_count: empty,
        unsupported_payload_count: unsupported,
        aborted_due_to_unavailable: before.aborted_due_to_unavailable || empty + unsupported
            >= STATUS_POLL_UNAVAILABLE_ABORT_COUNT,
    }
}

/// The start of a poll.
pub fn begin_poll() -> (r: PollTimeoutDiagnostics)
    ensures
        r.live(),
        r.unavailable() == 0,
{
    PollTimeoutDiagnostics {
        empty_status_count: 0,
        unsupported_payload_count: 0,
        aborted_due_to_unavailable: false,
    }
}

/// Whether there is time for another round.
pub fn poll_in_time(now_sec: u64, poll_until_sec: u64) -> (r: bool)
    ensures
        r == (now_sec <= poll_until_sec),
{
    now_sec <= poll_until_sec
}

/// One round of the poll: takes in what the exchange answered, or that it answered nothing.
pub fn poll_round(counts: &mut PollTimeoutDiagnostics, payload: Option<&Json>) -> (r: PollRound)
    requires
        old(counts).live(),
    ensures
        ({
            let tree = match payload {
                Some(p) => Some(p@),
                None => None,
            };
            match status_of(tree) {
                Some(record) => *final(counts) == *old(counts) && (r matches PollRound::Read(status)
                    && status@ == read_status(record, text::uppercase(status_word(record)))),
                None => *final(counts) == counted(*old(counts), tree) && r is Unavailable,
            }
        }),
{
    let found = match payload {
        Some(p) => submit_response::extract_status_record(p),
        None => None,
    };
    match found {
        Some(entries) => {
            let word = match json::find_member(entries, "status") {
                Some(v) => match v.as_str() {
                    Some(s) => s,
                    None => "PENDING",
                },
                None => "PENDING",
            };
            let upper = text::upper(word);
            PollRound::Read(with_upper_case(entries, upper))
        },
        None => {
            match payload {
                Some(_) => {
                    counts.unsupported_payload_count = counts.unsupported_payload_count + 1;
                },
                None => {
                    counts.empty_status_count = counts.empty_status_count + 1;
                },
            }
            if counts.empty_status_count + counts.unsupported_payload_count
                >= STATUS_POLL_UNAVAILABLE_ABORT_COUNT {
                counts.aborted_due_to_unavailable = true;
            }
            PollRound::Unavailable
        },
    }
}

/// Reads a status record whose status word is given in upper case.
pub fn with_upper_case(record: &Vec<Entry>, upper: String) -> (r: StatusReading)
    ensures
        r@ == read_status(json::record(record@), upper@),
{
    StatusReading {
        raw_status: upper,
        filled_size: json::read_member(record, "size_matched"),
        filled_price: json::read_member(record, "price"),
        record: json::copy_record(record),
    }
}

/// Whether a status in upper case says that the order has ended without being filled whole.
pub open spec fn is_ended(status: Seq<char>) -> bool {
    status == "CANCELED"@ || status == "CANCELLED"@ || status == "REJECTED"@
}

/// The outcome of the order, where its status is a last one.
pub open spec fn outcome(
    config: Config,
    order_id: Seq<char>,
    status: StatusView,
    filled_size: Double,
    filled_price: Double,
    size_x_price: Double,
    context: SpentComputationContext,
    used_fallback_limit: bool,
) -> Option<ExecutionView> {
    let cost = spent::spent(context, status.raw_status, filled_size, filled_price, size_x_price);
    let raw = json::put(status.record, "spentSource"@, JsonTree::Text(cost.spent_source));
    let raw = json::put(raw, "impliedSpentUsd"@, json::amount_tree(cost.implied_spent_usd));
    let raw = json::put(
        raw,
        "requestedStakeUsd"@,
        json::optional_amount_tree(cost.requested_stake_usd),
    );
    let with = |s: ExecutionStatus|
        ExecutionView {
            status: s,
            order_id,
            filled_price,
            filled_size,
            spent_usd: cost.spent_usd,
            used_fallback_limit,
            raw,
        };
    if spent::is_filled(status.raw_status) {
        Some(price_band::audited(with(ExecutionStatus::Filled), config))
    } else if is_ended(status.raw_status) {
        if filled_size.positive() {
            Some(price_band::audited(with(ExecutionStatus::Partial), config))
        } else {
            Some(price_band::audited(with(ExecutionStatus::Cancelled), config))
        }
    } else {
        None
    }
}

/// Judges a status. `filled_size` and `filled_price` are its readings as numbers, zero where
/// there is none, and `size_x_price` is their product. Gives nothing while the order is open.
pub fn judge_status(
    config: &Config,
    order_id: &str,
    status: &StatusReading,
    filled_size: Double,
    filled_price: Double,
    size_x_price: Double,
    context: SpentComputationContext,
    used_fallback_limit: bool,
) -> (r: Option<ExecutionResult>)
    ensures
        (match r {
            Some(result) => Some(result@),
            None => None,
        }) == outcome(
            *config,
            order_id@,
            status@,
            filled_size,
            filled_price,
            size_x_price,
            context,
            used_fallback_limit,
        ),
{
    let word = status.raw_status.as_str();
    let cost = spent::compute_spent_usd(context, word, filled_size, filled_price, size_x_price);
    let filled = spent::says_filled(word);
    let ended = text::text_eq(word, "CANCELED") || text::text_eq(word, "CANCELLED")
        || text::text_eq(word, "REJECTED");
    if !filled && !ended {
        return None;
    }
    let mut raw = json::copy_record(&status.record);
    json::set_member(&mut raw, "spentSource", json::text_json(cost.spent_source));
    json::set_member(&mut raw, "impliedSpentUsd", json::amount_json(cost.implied_spent_usd));
    json::set_member(
        &mut raw,
        "requestedStakeUsd",
        json::optional_amount_json(cost.requested_stake_usd),
    );
    let verdict = if filled {
        ExecutionStatus::Filled
    } else if filled_size.is_positive() {
        ExecutionStatus::Partial
    } else {
        ExecutionStatus::Cancelled
    };
    let result = ExecutionResult {
        status: verdict,
        order_id: order_id.to_owned(),
        filled_price,
        filled_size,
        spent_usd: cost.spent_usd,
        used_fallback_limit,
        raw_response: raw,
    };
    Some(price_band::attach_fill_band_audit(result, config))
}

/// What is known of an order that was sent and whose outcome was never seen.
pub open spec fn unseen(
    config: Config,
    answer: JsonTree,
    counts: PollTimeoutDiagnostics,
    poll_until_sec: u64,
    order_id: Seq<char>,
    price: Double,
    used_fallback_limit: bool,
) -> ExecutionView {
    let reason = if counts.aborted_due_to_unavailable {
        "order_status_unavailable"@
    } else {
        "order_status_poll_timeout"@
    };
    let raw = json::put(submit_response::raw_map(answer), "reason"@, JsonTree::Text(reason));
    let raw = json::put(
        raw,
        "statusPollIntervalMs"@,
        json::count_tree(config.status_poll_interval_ms),
    );
    let raw = json::put(raw, "statusPollGraceSec"@, json::count_tree(config.status_poll_grace_sec));
    let raw = json::put(raw, "statusPollEmptyCount"@, json::count_tree(counts.empty_status_count));
    let raw = json::put(
        raw,
        "statusPollUnsupportedCount"@,
        json::count_tree(counts.unsupported_payload_count),
    );
    let raw = json::put(
        raw,
        "statusPollAbortedUnavailable"@,
        JsonTree::Bool(counts.aborted_due_to_unavailable),
    );
    let raw = json::put(
        raw,
        "statusPollAbortCount"@,
        json::count_tree(STATUS_POLL_UNAVAILABLE_ABORT_COUNT),
    );
    let raw = json::put(raw, "statusPollUntilSec"@, json::count_tree(poll_until_sec));
    ExecutionView {
        status: ExecutionStatus::Pending,
        order_id,
        filled_price: price,
        filled_size: Double { bits: 0 },
        spent_usd: Double { bits: 0 },
        used_fallback_limit,
        raw,
    }
}

/// The result of an order whose poll ran out of time or was given up.
pub fn unseen_result(
    config: &Config,
    post_result: &Json,
    counts: PollTimeoutDiagnostics,
    poll_until_sec: u64,
    order_id: String,
    price: Double,
    used_fallback_limit: bool,
) -> (r: ExecutionResult)
    ensures
        r@ == unseen(
            *config,
            post_result@,
            counts,
            poll_until_sec,
            order_id@,
            price,
            used_fallback_limit,
        ),
{
    let reason = if counts.aborted_due_to_unavailable {
        "order_status_unavailable"
    } else {
        "order_status_poll_timeout"
    };
    let mut raw = submit_response::to_raw_map(post_result);
    json::set_member(&mut raw, "reason", json::text_json(reason));
    json::set_member(
        &mut raw,
        "statusPollIntervalMs",
        json::count_json(config.status_poll_interval_ms),
    );
    json::set_member(
        &mut raw,
        "statusPollGraceSec",
        json::count_json(config.status_poll_grace_sec),
    );
    json::set_member(
        &mut raw,
        "statusPollEmptyCount",
        json::count_json(counts.empty_status_count),
    );
    json::set_member(
        &mut raw,
        "statusPollUnsupportedCount",
        json::count_json(counts.unsupported_payload_count),
    );
    json::set_member(
        &mut raw,
        "statusPollAbortedUnavailable",
        Json::Bool(counts.aborted_due_to_unavailable),
    );
    json::set_member(
        &mut raw,
        "statusPollAbortCount",
        json::count_json(STATUS_POLL_UNAVAILABLE_ABORT_COUNT),
    );
    json::set_member(&mut raw, "statusPollUntilSec", json::count_json(poll_until_sec));
    ExecutionResult {
        status: ExecutionStatus::Pending,
        order_id,
        filled_price: price,
        filled_size: Double::zero(),
        spent_usd: Double::zero(),
        used_fallback_limit,
        raw_response: raw,
    }
}

// ---------------------------------------------------------------------------
// The poll
// ---------------------------------------------------------------------------

/// An order that is followed.
pub struct PollRun {
    order_id: String,
    answer: Json,
    price: Double,
    context: SpentComputationContext,
    used_fallback_limit: bool,
    until_sec: u64,
    counts: PollTimeoutDiagnostics,
}

#[verifier::ext_equal]
pub struct PollView {
    pub order_id: Seq<char>,
    /// How the exchange answered when the order was sent.
    pub answer: JsonTree,
    pub price: Double,
    pub context: SpentComputationContext,
    pub used_fallback_limit: bool,
    pub until_sec: u64,
    pub counts: PollTimeoutDiagnostics,
}

/// What is to be done next.
pub enum PollAction {
    /// Fetch the status of the order and report it.
    FetchStatus { order_id: String },
    /// Work out the numbers that a status holds and report them.
    Convert(StatusReading),
    /// Wait so many milliseconds and report the time.
    Sleep(u64),
    /// The order is followed no more.
    Done(ExecutionResult),
}

#[verifier::ext_equal]
pub enum PollMove {
    FetchStatus { order_id: Seq<char> },
    Convert(StatusView),
    Sleep(u64),
    Done(ExecutionView),
}

impl PollAction {
    pub open spec fn view(self) -> PollMove {
        match self {
            PollAction::FetchStatus { order_id } => PollMove::FetchStatus { order_id: order_id@ },
            PollAction::Convert(status) => PollMove::Convert(status@),
            PollAction::Sleep(ms) => PollMove::Sleep(ms),
            PollAction::Done(result) => PollMove::Done(result@),
        }
    }
}

/// The counts at the start of a poll.
pub open spec fn no_counts() -> PollTimeoutDiagnostics {
    PollTimeoutDiagnostics {
        empty_status_count: 0,
        unsupported_payload_count: 0,
        aborted_due_to_unavailable: false,
    }
}

/// The result of a poll that ends without an outcome.
pub open spec fn given_up(config: Config, s: PollView) -> ExecutionView {
    unseen(
        config,
        s.answer,
        s.counts,
        s.until_sec,
        s.order_id,
        s.price,
        s.used_fallback_limit,
    )
}

/// The clock: another look, or the end where the time is up.
pub open spec fn poll_time(config: Config, s: PollView, now_sec: u64) -> PollMove {
    if now_sec <= s.until_sec {
        PollMove::FetchStatus { order_id: s.order_id }
    } else {
        PollMove::Done(given_up(config, s))
    }
}

/// An answer: its status, where it holds one. An answer without is waited out, and ends the poll
/// as the last of those that are tolerated.
pub open spec fn poll_answer(config: Config, s: PollView, payload: Option<JsonTree>) -> (
    PollView,
    PollMove,
) {
    match status_of(payload) {
        Some(record) => (
            s,
            PollMove::Convert(read_status(record, text::uppercase(status_word(record)))),
        ),
        None => {
            let after = PollView { counts: counted(s.counts, payload), ..s };
            if after.counts.aborted_due_to_unavailable {
                (after, PollMove::Done(given_up(config, after)))
            } else {
                (after, PollMove::Sleep(config.status_poll_interval_ms))
            }
        },
    }
}

/// A status with its numbers: the outcome where it is a last one, and a wait otherwise.
pub open spec fn poll_numbers(
    config: Config,
    s: PollView,
    status: StatusView,
    filled_size: Double,
    filled_price: Double,
    size_x_price: Double,
) -> PollMove {
    match outcome(
        config,
        s.order_id,
        status,
        filled_size,
        filled_price,
        size_x_price,
        s.context,
        s.used_fallback_limit,
    ) {
        Some(result) => PollMove::Done(result),
        None => PollMove::Sleep(config.status_poll_interval_ms),
    }
}

/// Begins to follow an order, given how the exchange answered when it was sent.
pub fn poll_final_order_status(
    config: &Config,
    close_time_sec: u64,
    post_result: &Json,
    order_id: String,
    price: Double,
    context: SpentComputationContext,
    used_fallback_limit: bool,
) -> (r: PollRun)
    ensures
        r@ == (PollView {
            order_id: order_id@,
            answer: post_result@,
            price,
            context,
            used_fallback_limit,
            until_sec: poll_deadline(close_time_sec, config.status_poll_grace_sec),
            counts: no_counts(),
        }),
{
    PollRun {
        order_id,
        answer: post_result.copy(),
        price,
        context,
        used_fallback_limit,
        until_sec: status_poll_deadline_sec(close_time_sec, config.status_poll_grace_sec),
        counts: begin_poll(),
    }
}

impl PollRun {
    pub closed spec fn view(self) -> PollView {
        PollView {
            order_id: self.order_id@,
            answer: self.answer@,
            price: self.price,
            context: self.context,
            used_fallback_limit: self.used_fallback_limit,
            until_sec: self.until_sec,
            counts: self.counts,
        }
    }

    fn give_up(&self, config: &Config) -> (r: ExecutionResult)
        ensures
            r@ == given_up(*config, self@),
    {
        unseen_result(
            config,
            &self.answer,
            self.counts,
            self.until_sec,
            self.order_id.clone(),
            self.price,
            self.used_fallback_limit,
        )
    }

    /// The clock was read before a look.
    pub fn on_time(&self, config: &Config, now_sec: u64) -> (r: PollAction)
        ensures
            r@ == poll_time(*config, self@, now_sec),
    {
        if poll_in_time(now_sec, self.until_sec) {
            PollAction::FetchStatus { order_id: self.order_id.clone() }
        } else {
            PollAction::Done(self.give_up(config))
        }
    }

    /// The exchange answered, or had nothing to answer.
    pub fn on_status(&mut self, config: &Config, payload: Option<&Json>) -> (r: PollAction)
        requires
            old(self)@.counts.live(),
        ensures
            ({
                let tree = match payload {
                    Some(p) => Some(p@),
                    None => None,
                };
                (final(self)@, r@) == poll_answer(*config, old(self)@, tree)
            }),
            !(r@ is Done) ==> final(self)@.counts.live(),
    {
        match poll_round(&mut self.counts, payload) {
            PollRound::Read(status) => PollAction::Convert(status),
            PollRound::Unavailable => if self.counts.aborted_due_to_unavailable {
                PollAction::Done(self.give_up(config))
            } else {
                PollAction::Sleep(config.status_poll_interval_ms)
            },
        }
    }

    /// The numbers of a status were worked out: its readings as numbers, zero where there is none,
    /// and their product.
    pub fn on_numbers(
        &self,
        config: &Config,
        status: &StatusReading,
        filled_size: Double,
        filled_price: Double,
        size_x_price: Double,
    ) -> (r: PollAction)
        ensures
            r@ == poll_numbers(
                *config,
                self@,
                status@,
                filled_size,
                filled_price,
                size_x_price,
            ),
    {
        match judge_status(
            config,
            self.order_id.as_str(),
            status,
            filled_size,
            filled_price,
            size_x_price,
            self.context,
            self.used_fallback_limit,
        ) {
            Some(result) => PollAction::Done(result),
            None => PollAction::Sleep(config.status_poll_interval_ms),
        }
    }
}

/// One look at an order: what the exchange answered, and the numbers that the answer holds.
pub struct PollLook {
    pub payload: Option<JsonTree>,
    pub filled_size: Double,
    pub filled_price: Double,
    pub size_x_price: Double,
}

impl PollLook {
    /// The answer holds no status.
    pub open spec fn unusable(self) -> bool {
        status_of(self.payload) is None
    }

    /// The status that the answer holds.
    pub open spec fn status(self) -> StatusView {
        let record = status_of(self.payload)->Some_0;
        read_status(record, text::uppercase(status_word(record)))
    }

    /// The status is a last one.
    pub open spec fn ends(self) -> bool {
        !self.unusable() && (spent::is_filled(self.status().raw_status) || is_ended(
            self.status().raw_status,
        ))
    }
}

/// What a look calls for.
pub open spec fn poll_look(config: Config, s: PollView, look: PollLook) -> (PollView, PollMove) {
    let (after, action) = poll_answer(config, s, look.payload);
    match action {
        PollMove::Convert(status) => (
            after,
            poll_numbers(
                config,
                after,
                status,
                look.filled_size,
                look.filled_price,
                look.size_x_price,
            ),
        ),
        other => (after, other),
    }
}

/// What an order is found to have come to after a series of looks.
pub open spec fn followed(config: Config, s: PollView, looks: Seq<PollLook>) -> Option<
    ExecutionView,
>
    decreases looks.len(),
{
    if looks.len() == 0 {
        None
    } else {
        let (after, action) = poll_look(config, s, looks[0]);
        match action {
            PollMove::Done(result) => Some(result),
            _ => followed(config, after, looks.drop_first()),
        }
    }
}

/// How many of several looks were of no use.
pub open spec fn unusable_count(looks: Seq<PollLook>) -> int
    decreases looks.len(),
{
    if looks.len() == 0 {
        0
    } else {
        (if looks[0].unusable() {
            1int
        } else {
            0
        }) + unusable_count(looks.drop_first())
    }
}

proof fn lemma_unusable_count(looks: Seq<PollLook>)
    ensures
        0 <= unusable_count(looks) <= looks.len(),
    decreases looks.len(),
{
    if looks.len() > 0 {
        lemma_unusable_count(looks.drop_first());
    }
}

/// The first status that is a last one decides what an order came to, unless as many looks as are
/// tolerated were of no use before.
pub proof fn first_ending_status_decides(
    config: Config,
    s: PollView,
    looks: Seq<PollLook>,
    k: int,
)
    requires
        s.counts.live(),
        0 <= k < looks.len(),
        looks[k].ends(),
        forall|j: int| 0 <= j < k ==> !(#[trigger] looks[j]).ends(),
        s.counts.unavailable() + unusable_count(looks.take(k))
            < STATUS_POLL_UNAVAILABLE_ABORT_COUNT,
    ensures
        followed(config, s, looks) is Some,
        followed(config, s, looks) == outcome(
            config,
            s.order_id,
            looks[k].status(),
            looks[k].filled_size,
            looks[k].filled_price,
            looks[k].size_x_price,
            s.context,
            s.used_fallback_limit,
        ),
    decreases k,
{
    if k > 0 {
        let rest = looks.drop_first();
        let after = poll_look(config, s, looks[0]).0;
        assert(!looks[0].ends());
        assert(looks.take(k)[0] == looks[0]);
        assert(looks.take(k).drop_first() =~= rest.take(k - 1));
        lemma_unusable_count(rest.take(k - 1));
        assert forall|j: int| 0 <= j < k - 1 implies !(#[trigger] rest[j]).ends() by {
            assert(rest[j] == looks[j + 1]);
        }
        first_ending_status_decides(config, after, rest, k - 1);
    }
}

/// As many looks of no use as are tolerated end the poll: the order is left pending, and its
/// record says that its status could not be had.
pub proof fn too_many_unusable_answers_stop(
    config: Config,
    s: PollView,
    looks: Seq<PollLook>,
    k: int,
)
    requires
        s.counts.live(),
        0 <= k < looks.len(),
        looks[k].unusable(),
        forall|j: int| 0 <= j < k ==> !(#[trigger] looks[j]).ends(),
        s.counts.unavailable() + unusable_count(looks.take(k)) + 1
            == STATUS_POLL_UNAVAILABLE_ABORT_COUNT,
    ensures
        exists|counts: PollTimeoutDiagnostics|
            counts.aborted_due_to_unavailable && counts.unavailable()
                == STATUS_POLL_UNAVAILABLE_ABORT_COUNT && followed(config, s, looks) == Some(
                #[trigger] given_up(config, PollView { counts, ..s }),
            ),
    decreases k,
{
    let after = poll_look(config, s, looks[0]).0;
    if k == 0 {
        assert(looks.take(0) =~= Seq::<PollLook>::empty());
        assert(after == PollView { counts: after.counts, ..s });
        assert(followed(config, s, looks) == Some(
            given_up(config, PollView { counts: after.counts, ..s }),
        ));
    } else {
        let rest = looks.drop_first();
        assert(!looks[0].ends());
        assert(looks.take(k)[0] == looks[0]);
        assert(looks.take(k).drop_first() =~= rest.take(k - 1));
        lemma_unusable_count(rest.take(k - 1));
        assert forall|j: int| 0 <= j < k - 1 implies !(#[trigger] rest[j]).ends() by {
            assert(rest[j] == looks[j + 1]);
        }
        too_many_unusable_answers_stop(config, after, rest, k - 1);
        let counts = choose|counts: PollTimeoutDiagnostics|
            counts.aborted_due_to_unavailable && counts.unavailable()
                == STATUS_POLL_UNAVAILABLE_ABORT_COUNT && followed(config, after, rest) == Some(
                #[trigger] given_up(config, PollView { counts, ..after }),
            );
        assert(PollView { counts, ..after } == PollView { counts, ..s });
        assert(followed(config, s, looks) == Some(
            given_up(config, PollView { counts, ..s }),
        ));
    }
}

/// A missing status, and one that is neither an object nor a list, holds no order status; such an
/// answer counts as one more that was of no use and ends the poll only as the last of the number
/// that is tolerated.
pub proof fn missing_status_is_transient(
    before: PollTimeoutDiagnostics,
    payload: Option<JsonTree>,
)
    requires
        before.live(),
        payload matches Some(tree) ==> !(tree is Object) && !(tree is Array),
    ensures
        status_of(payload) is None,
        counted(before, payload).unavailable() == before.unavailable() + 1,
        counted(before, payload).live() <==> before.unavailable() + 1
            < STATUS_POLL_UNAVAILABLE_ABORT_COUNT,
{
}

/// A market order to buy that the exchange reports as filled is recorded with the requested stake
/// as its cost.
pub proof fn filled_order_is_recorded_at_its_stake(
    config: Config,
    order_id: Seq<char>,
    status: StatusView,
    filled_size: Double,
    filled_price: Double,
    size_x_price: Double,
    requested: Double,
)
    requires
        requested.finite(),
        requested.positive(),
        spent::is_filled(status.raw_status),
    ensures
        ({
            outcome(
                config,
                order_id,
                status,
                filled_size,
                filled_price,
                size_x_price,
                spent::fok_terms(requested),
                false,
            ) matches Some(result) && result.status == ExecutionStatus::Filled
                && result.spent_usd == requested
        }),
{
}

/// An order that ended as `CANCELED`, `CANCELLED` or `REJECTED` is recorded as filled in part
/// exactly where something was bought, and as cancelled exactly where nothing was.
pub proof fn ended_order_is_partial_where_it_bought(
    config: Config,
    order_id: Seq<char>,
    status: StatusView,
    filled_size: Double,
    filled_price: Double,
    size_x_price: Double,
    context: SpentComputationContext,
    used_fallback_limit: bool,
)
    requires
        status.raw_status == "CANCELED"@ || status.raw_status == "CANCELLED"@
            || status.raw_status == "REJECTED"@,
    ensures
        ({
            let bought = !filled_size.nan() && filled_size.key() > 0;
            outcome(
                config,
                order_id,
                status,
                filled_size,
                filled_price,
                size_x_price,
                context,
                used_fallback_limit,
            ) matches Some(result) && (result.status == ExecutionStatus::Partial <==> bought) && (
            result.status == ExecutionStatus::Cancelled <==> !bought)
        }),
{
    reveal_strlit("CANCELED");
    reveal_strlit("CANCELLED");
    reveal_strlit("REJECTED");
    reveal_strlit("MATCHED");
    reveal_strlit("FILLED");
    assert("CANCELED"@.len() == 8);
    assert("CANCELLED"@.len() == 9);
    assert("REJECTED"@.len() == 8);
    assert("MATCHED"@.len() == 7);
    assert("FILLED"@.len() == 6);
    assert("CANCELED"@[0] != "REJECTED"@[0]);
}

/// Whatever became of an order, one that is recorded as cancelled bought nothing, one that is
/// recorded as filled in part bought something, and only a report of `MATCHED` or `FILLED` makes
/// it a filled one.
pub proof fn recorded_status_agrees_with_the_fill(
    config: Config,
    order_id: Seq<char>,
    status: StatusView,
    filled_size: Double,
    filled_price: Double,
    size_x_price: Double,
    context: SpentComputationContext,
    used_fallback_limit: bool,
)
    ensures
        outcome(
            config,
            order_id,
            status,
            filled_size,
            filled_price,
            size_x_price,
            context,
            used_fallback_limit,
        ) matches Some(result) ==> {
            &&& result.status == ExecutionStatus::Cancelled ==> !result.filled_size.positive()
            &&& result.status == ExecutionStatus::Partial ==> result.filled_size.positive()
            &&& result.status == ExecutionStatus::Filled <==> status.raw_status == "MATCHED"@
                || status.raw_status == "FILLED"@
            &&& result.status == ExecutionStatus::Filled || result.status
                == ExecutionStatus::Partial || result.status == ExecutionStatus::Cancelled
        },
{
}

/// An order is followed for as long as its status is none of the five that end it, and no longer.
pub proof fn open_order_is_followed_on(
    config: Config,
    s: PollView,
    status: StatusView,
    filled_size: Double,
    filled_price: Double,
    size_x_price: Double,
)
    ensures
        ({
            let ended = status.raw_status == "MATCHED"@ || status.raw_status == "FILLED"@
                || status.raw_status == "CANCELED"@ || status.raw_status == "CANCELLED"@
                || status.raw_status == "REJECTED"@;
            let next = poll_numbers(
                config,
                s,
                status,
                filled_size,
                filled_price,
                size_x_price,
            );
            &&& ended <==> next is Done
            &&& !ended <==> next == PollMove::Sleep(config.status_poll_interval_ms)
        }),
{
}

/// The record of an order holds its id, its fill and what was reported of it as they were given;
/// only the notes on its cost and on the band are added.
pub proof fn outcome_keeps_what_was_reported(
    config: Config,
    order_id: Seq<char>,
    status: StatusView,
    filled_size: Double,
    filled_price: Double,
    size_x_price: Double,
    context: SpentComputationContext,
    used_fallback_limit: bool,
    key: Seq<char>,
)
    requires
        key != "spentSource"@,
        key != "impliedSpentUsd"@,
        key != "requestedStakeUsd"@,
        key != "fillBandViolation"@,
        key != "fillBandViolationReason"@,
        key != "fillBandObservedPrice"@,
        key != "fillBandMin"@,
        key != "fillBandMax"@,
    ensures
        outcome(
            config,
            order_id,
            status,
            filled_size,
            filled_price,
            size_x_price,
            context,
            used_fallback_limit,
        ) matches Some(result) ==> {
            &&& result.order_id == order_id
            &&& result.filled_size == filled_size
            &&& result.filled_price == filled_price
            &&& result.used_fallback_limit == used_fallback_limit
            &&& json::lookup(result.raw, key) == json::lookup(status.record, key)
        },
{
    broadcast use json::lookup_after_put;

    let cost = spent::spent(context, status.raw_status, filled_size, filled_price, size_x_price);
    let raw = json::put(status.record, "spentSource"@, JsonTree::Text(cost.spent_source));
    let raw = json::put(raw, "impliedSpentUsd"@, json::amount_tree(cost.implied_spent_usd));
    let raw = json::put(
        raw,
        "requestedStakeUsd"@,
        json::optional_amount_tree(cost.requested_stake_usd),
    );
    let verdict = if status.raw_status == "MATCHED"@ || status.raw_status == "FILLED"@ {
        ExecutionStatus::Filled
    } else if filled_size.positive() {
        ExecutionStatus::Partial
    } else {
        ExecutionStatus::Cancelled
    };
    price_band::audit_notes_fills_outside_the_band(
        ExecutionView {
            status: verdict,
            order_id,
            filled_price,
            filled_size,
            spent_usd: cost.spent_usd,
            used_fallback_limit,
            raw,
        },
        config,
        key,
    );
}

/// A cancelled order to buy at once that had bought something is charged for that, and one that
/// bought nothing costs nothing; neither costs more than its stake.
pub proof fn ended_order_is_charged_for_its_fill(
    config: Config,
    order_id: Seq<char>,
    status: StatusView,
    filled_size: Double,
    filled_price: Double,
    size_x_price: Double,
    requested: Double,
)
    requires
        status.raw_status == "CANCELED"@ || status.raw_status == "CANCELLED"@
            || status.raw_status == "REJECTED"@,
        requested.finite(),
        requested.positive(),
        filled_size.finite(),
        filled_price.finite(),
        filled_price.positive(),
        size_x_price.finite(),
        filled_size.positive() ==> size_x_price.positive(),
    ensures
        outcome(
            config,
            order_id,
            status,
            filled_size,
            filled_price,
            size_x_price,
            spent::fok_terms(requested),
            false,
        ) matches Some(result) && {
            &&& !filled_size.positive() ==> result.spent_usd.key() == 0
            &&& filled_size.positive() && size_x_price.key() < requested.key()
                ==> result.spent_usd == size_x_price
            &&& filled_size.positive() && size_x_price.key() > requested.key()
                ==> result.spent_usd == requested
            &&& result.spent_usd.key() <= requested.key()
        },
{
    reveal_strlit("CANCELED");
    reveal_strlit("CANCELLED");
    reveal_strlit("REJECTED");
    reveal_strlit("MATCHED");
    reveal_strlit("FILLED");
    assert("CANCELED"@.len() == 8);
    assert("CANCELLED"@.len() == 9);
    assert("REJECTED"@.len() == 8);
    assert("MATCHED"@.len() == 7);
    assert("FILLED"@.len() == 6);
    assert("CANCELED"@[0] != "REJECTED"@[0]);
    spent::partial_market_buy_costs_its_fill_up_to_its_stake(
        requested,
        status.raw_status,
        filled_size,
        filled_price,
        size_x_price,
    );
    spent::market_buy_never_exceeds_its_stake(
        requested,
        status.raw_status,
        filled_size,
        filled_price,
        size_x_price,
    );
}

/// An order is looked at for as long as the clock stands before the close and the grace after it,
/// and given up as soon as it is past that.
pub proof fn order_is_followed_until_the_grace_is_over(
    config: Config,
    s: PollView,
    close_time_sec: u64,
    now_sec: u64,
)
    requires
        s.until_sec == poll_deadline(close_time_sec, config.status_poll_grace_sec),
        close_time_sec + config.status_poll_grace_sec <= u64::MAX,
    ensures
        now_sec <= close_time_sec + config.status_poll_grace_sec ==> poll_time(config, s, now_sec)
            == (PollMove::FetchStatus { order_id: s.order_id }),
        now_sec > close_time_sec + config.status_poll_grace_sec ==> poll_time(
            config,
            s,
            now_sec,
        ) is Done,
{
}

/// An order that is given up is left pending, with nothing bought and nothing spent, under its id
/// and at the price it was sent at; its record says whether the time was up or the status could
/// not be had.
pub proof fn order_that_is_given_up_is_left_pending(config: Config, s: PollView)
    ensures
        ({
            let result = given_up(config, s);
            &&& result.status == ExecutionStatus::Pending
            &&& result.order_id == s.order_id
            &&& result.filled_price == s.price
            &&& result.filled_size.key() == 0
            &&& result.spent_usd.key() == 0
            &&& result.used_fallback_limit == s.used_fallback_limit
            &&& json::lookup(result.raw, "reason"@) == Some(
                JsonTree::Text(
                    if s.counts.aborted_due_to_unavailable {
                        "order_status_unavailable"@
                    } else {
                        "order_status_poll_timeout"@
                    },
                ),
            )
            &&& json::lookup(result.raw, "statusPollAbortedUnavailable"@) == Some(
                JsonTree::Bool(s.counts.aborted_due_to_unavailable),
            )
            &&& json::lookup(result.raw, "statusPollEmptyCount"@) == Some(
                json::count_tree(s.counts.empty_status_count),
            )
            &&& json::lookup(result.raw, "statusPollUnsupportedCount"@) == Some(
                json::count_tree(s.counts.unsupported_payload_count),
            )
            &&& json::lookup(result.raw, "statusPollUntilSec"@) == Some(
                json::count_tree(s.until_sec),
            )
        }),
{
    broadcast use json::lookup_after_put;

    reveal_strlit("reason");
    reveal_strlit("statusPollIntervalMs");
    reveal_strlit("statusPollGraceSec");
    reveal_strlit("statusPollEmptyCount");
    reveal_strlit("statusPollUnsupportedCount");
    reveal_strlit("statusPollAbortedUnavailable");
    reveal_strlit("statusPollAbortCount");
    reveal_strlit("statusPollUntilSec");
    assert("reason"@.len() == 6);
    assert("statusPollIntervalMs"@.len() == 20);
    assert("statusPollGraceSec"@.len() == 18);
    assert("statusPollEmptyCount"@.len() == 20);
    assert("statusPollUnsupportedCount"@.len() == 26);
    assert("statusPollAbortedUnavailable"@.len() == 28);
    assert("statusPollAbortCount"@.len() == 20);
    assert("statusPollUntilSec"@.len() == 18);
    assert("statusPollIntervalMs"@[10] != "statusPollEmptyCount"@[10]);
    assert("statusPollIntervalMs"@[10] != "statusPollAbortCount"@[10]);
    assert("statusPollEmptyCount"@[10] != "statusPollAbortCount"@[10]);
    assert("statusPollGraceSec"@[10] != "statusPollUntilSec"@[10]);
}

/// Seven answers without a status are waited out, each for the time between two looks, and the
/// eighth ends the following of the order; answers with a status are never counted.
pub proof fn eighth_unusable_answer_ends_the_poll(
    config: Config,
    s: PollView,
    payload: Option<JsonTree>,
)
    requires
        s.counts.live(),
    ensures
        ({
            let (after, next) = poll_answer(config, s, payload);
            &&& status_of(payload) is Some ==> after == s && next is Convert
            &&& status_of(payload) is None && s.counts.unavailable() + 1 < 8 ==> next
                == PollMove::Sleep(config.status_poll_interval_ms) && after.counts.unavailable()
                == s.counts.unavailable() + 1
            &&& status_of(payload) is None && s.counts.unavailable() + 1 >= 8 ==> next is Done
            &&& payload is None ==> after.counts.empty_status_count
                == s.counts.empty_status_count + 1
            &&& payload is Some && status_of(payload) is None
                ==> after.counts.unsupported_payload_count == s.counts.unsupported_payload_count
                + 1
        }),
{
}

/// A status is read from the record that holds it: its word in upper case, `PENDING` where it has
/// none, and the filled size and the price from their fields.
pub proof fn status_is_read_from_its_record(
    config: Config,
    s: PollView,
    members: Seq<(Seq<char>, JsonTree)>,
    word: Seq<char>,
)
    requires
        json::has_key(members, "status"@) || json::has_key(members, "size_matched"@)
            || json::has_key(members, "price"@),
    ensures
        ({
            poll_answer(config, s, Some(JsonTree::Object(members))).1 matches PollMove::Convert(
                status,
            ) && {
                &&& json::lookup(members, "status"@) == Some(JsonTree::Text(word))
                    ==> status.raw_status == text::uppercase(word)
                &&& json::lookup(members, "status"@) is None ==> status.raw_status
                    == text::uppercase("PENDING"@)
                &&& status.filled_size == json::member_reading(members, "size_matched"@)
                &&& status.filled_price == json::member_reading(members, "price"@)
                &&& status.record == members
            }
        }),
{
}

/// An order is followed until the grace after the close is over.
pub proof fn deadline_is_the_close_and_the_grace(close_time_sec: u64, grace_sec: u64)
    ensures
        close_time_sec + grace_sec <= u64::MAX ==> poll_deadline(close_time_sec, grace_sec)
            == close_time_sec + grace_sec,
        poll_deadline(close_time_sec, grace_sec) >= close_time_sec,
        no_counts().empty_status_count == 0,
        no_counts().unsupported_payload_count == 0,
        !no_counts().aborted_due_to_unavailable,
{
}

} // verus!
