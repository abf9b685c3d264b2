//! The parts of a cycle: the windows, the market, the side, the entry and the trade.
use std::collections::HashSet;
use vstd::prelude::*;
use crate::double::Double;
use crate::execution::price_band;
use crate::json;
use crate::json::JsonTree;
use crate::orchestrator::claims;
use crate::orchestrator::claims::PendingView;
use crate::settlement::settlement_service;
use crate::text;
use crate::types::{
    ClaimStatus, Config, DiscoveredMarket, ExecutionResult, MarketSide, MarketWindow,
    OrderBookSnapshot, PendingClaim, SettlementOutcome, TradeRecord, TradeResult,
};

verus! {

/// What a cycle came to.
#[derive(Clone, Copy, Debug, PartialEq, Eq, Structural)]
pub enum CycleOutcome {
    NoTrade,
    Win,
    Loss,
}

// ---------------------------------------------------------------------------
// The windows that are done with
// ---------------------------------------------------------------------------

/// From how many windows on the old ones are forgotten.
pub const MAX_REMEMBERED_WINDOWS: usize = 512;

/// How long a window is remembered at least, in seconds.
pub const REMEMBERED_SPAN_SEC: u64 = 3_600;

/// A set of windows, by their starts.
pub struct WindowSet {
    windows: HashSet<u64>,
}

/// The windows that are remembered when a window begins.
pub open spec fn remembered(windows: Set<u64>, current: u64) -> Set<u64> {
    if windows.len() < MAX_REMEMBERED_WINDOWS {
        windows
    } else {
        windows.filter(|w: u64| w + REMEMBERED_SPAN_SEC >= current)
    }
}

impl WindowSet {
    pub closed spec fn view(self) -> Set<u64> {
        self.windows@
    }

    pub fn new() -> (r: WindowSet)
        ensures
            r@ == Set::<u64>::empty(),
    {
        WindowSet { windows: HashSet::new() }
    }

    pub fn contains(&self, window_start_sec: u64) -> (r: bool)
        ensures
            r == self@.contains(window_start_sec),
    {
        broadcast use vstd::std_specs::hash::group_hash_axioms;

        self.windows.contains(&window_start_sec)
    }

    pub fn insert(&mut self, window_start_sec: u64)
        ensures
            final(self)@ == old(self)@.insert(window_start_sec),
    {
        broadcast use vstd::std_specs::hash::group_hash_axioms;

        self.windows.insert(window_start_sec);
    }
}

/// Forgets windows that began too long ago, where too many are remembered.
pub fn cleanup_processed_windows(windows: &mut WindowSet, current_window_start_sec: u64)
    ensures
        final(windows)@ == remembered(old(windows)@, current_window_start_sec),
{
    broadcast use vstd::std_specs::hash::group_hash_axioms;

    if windows.windows.len() < MAX_REMEMBERED_WINDOWS {
        return;
    }
    let min_keep: u64 = current_window_start_sec.saturating_sub(REMEMBERED_SPAN_SEC);
    let ghost before = windows.windows@;
    let ghost all = vstd::std_specs::iter::IteratorSpec::remaining(
        &windows.windows.iter(),
    ).unref();
    let mut kept: HashSet<u64> = HashSet::new();
    for w in it: windows.windows.iter()
        invariant
            all == it.seq().unref(),
            all.to_set() == before,
            forall|x: u64| #[trigger]
                kept@.contains(x) <==> x >= min_keep && all.take(it.index() as int).contains(x),
    {
        broadcast use vstd::std_specs::hash::group_hash_axioms;

        let ghost seen = all.take(it.index() as int);
        proof {
            assert(all.take(it.index() + 1) =~= seen.push(*w));
            assert forall|x: u64| #[trigger] seen.push(*w).contains(x) <==> seen.contains(x) || x
                == *w by {
                lemma_push_contains(seen, *w, x);
            }
        }
        if *w >= min_keep {
            kept.insert(*w);
        }
    }
    windows.windows = kept;
    assert(all.take(all.len() as int) =~= all);
    assert(windows.windows@ =~= remembered(before, current_window_start_sec));
}

proof fn lemma_push_contains(s: Seq<u64>, w: u64, x: u64)
    ensures
        s.push(w).contains(x) <==> s.contains(x) || x == w,
{
    let t = s.push(w);
    if s.contains(x) {
        let k = choose|k: int| 0 <= k < s.len() && s[k] == x;
        assert(t[k] == x);
    }
    assert(t[s.len() as int] == w);
    if t.contains(x) && x != w {
        let k = choose|k: int| 0 <= k < t.len() && t[k] == x;
        assert(s[k] == x);
    }
}

// ---------------------------------------------------------------------------
// The start
// ---------------------------------------------------------------------------

/// When to enter.
pub open spec fn entry_target(config: Config, window: MarketWindow) -> u64 {
    if window.close_time_sec < config.check_before_close_sec {
        0
    } else {
        (window.close_time_sec - config.check_before_close_sec) as u64
    }
}

pub fn entry_target_sec(config: &Config, window: &MarketWindow) -> (r: u64)
    ensures
        r == entry_target(*config, *window),
{
    window.close_time_sec.saturating_sub(config.check_before_close_sec)
}

// ---------------------------------------------------------------------------
// The market
// ---------------------------------------------------------------------------

/// A time in milliseconds, within the range of the type.
pub open spec fn in_ms(sec: u64) -> u64 {
    if sec * 1000 > u64::MAX {
        u64::MAX
    } else {
        (sec * 1000) as u64
    }
}

fn to_ms(sec: u64) -> (r: u64)
    ensures
        r == in_ms(sec),
{
    let product: u128 = sec as u128 * 1000;
    if product > u64::MAX as u128 {
        u64::MAX
    } else {
        product as u64
    }
}

/// The search for a market, by when it began.
#[derive(Clone, Copy)]
pub struct MarketLookup {
    pub started_at_ms: u64,
}

/// Begins the search for a market.
pub fn begin_lookup(now_sec: u64) -> (r: MarketLookup)
    ensures
        r.started_at_ms == in_ms(now_sec),
{
    MarketLookup { started_at_ms: to_ms(now_sec) }
}

/// Whether the search for a market is over without one.
pub open spec fn lookup_is_over(
    lookup: MarketLookup,
    config: Config,
    close_time_sec: u64,
    now_sec: u64,
) -> bool {
    ||| in_ms(now_sec) - lookup.started_at_ms >= config.market_lookup_max_wait_ms
    ||| config.market_lookup_max_wait_ms == 0
    ||| now_sec >= close_time_sec
}

impl MarketLookup {
    /// After a look that found no market: how long to wait for the next, or nothing where the
    /// search is over.
    pub fn lookup_market_until_deadline(
        &self,
        config: &Config,
        close_time_sec: u64,
        now_sec: u64,
    ) -> (r: Option<u64>)
        ensures
            r == (if lookup_is_over(*self, *config, close_time_sec, now_sec) {
                None::<u64>
            } else {
                Some(config.market_poll_interval_ms)
            }),
    {
        let elapsed: u64 = to_ms(now_sec).saturating_sub(self.started_at_ms);
        if elapsed >= config.market_lookup_max_wait_ms || now_sec >= close_time_sec {
            None
        } else {
            Some(config.market_poll_interval_ms)
        }
    }
}

// ---------------------------------------------------------------------------
// The side
// ---------------------------------------------------------------------------

/// A side that can be bought.
pub struct SideCandidate {
    pub side: MarketSide,
    pub token_id: String,
    pub ask_price: Double,
    pub bid_price: Double,
}

#[verifier::ext_equal]
pub struct CandidateView {
    pub side: MarketSide,
    pub token_id: Seq<char>,
    pub ask_price: Double,
    pub bid_price: Double,
}

impl SideCandidate {
    pub open spec fn view(self) -> CandidateView {
        CandidateView {
            side: self.side,
            token_id: self.token_id@,
            ask_price: self.ask_price,
            bid_price: self.bid_price,
        }
    }
}

pub open spec fn candidate_view(c: Option<SideCandidate>) -> Option<CandidateView> {
    match c {
        Some(candidate) => Some(candidate@),
        None => None,
    }
}

/// Whether an order book offers anything.
pub open spec fn has_offer(book: OrderBookSnapshot) -> bool {
    book.asks_present && !book.best_ask.at_most(Double { bits: 0 })
}

/// A side as it can be bought: there is an offer, and its price is within the band.
pub open spec fn candidate(
    config: Config,
    side: MarketSide,
    token_id: Seq<char>,
    book: Option<OrderBookSnapshot>,
) -> Option<CandidateView> {
    match book {
        Some(b) => if has_offer(b) && price_band::band_reject(b.best_ask, config) is None {
            Some(
                CandidateView { side, token_id, ask_price: b.best_ask, bid_price: b.best_bid },
            )
        } else {
            None
        },
        None => None,
    }
}

pub fn fetch_side_candidate(
    config: &Config,
    side: MarketSide,
    token_id: &str,
    book: &Option<OrderBookSnapshot>,
) -> (r: Option<SideCandidate>)
    ensures
        candidate_view(r) == candidate(*config, side, token_id@, *book),
{
    match book {
        Some(b) => {
            if !b.asks_present || b.best_ask.le(Double::zero()) {
                return None;
            }
            if price_band::buy_band_reject_reason(b.best_ask, config).is_some() {
                return None;
            }
            Some(
                SideCandidate {
                    side,
                    token_id: token_id.to_owned(),
                    ask_price: b.best_ask,
                    bid_price: b.best_bid,
                },
            )
        },
        None => None,
    }
}

/// Whether the price of a side is outside the band without being above it: it may still rise
/// into it.
pub open spec fn may_rise(config: Config, book: Option<OrderBookSnapshot>) -> bool {
    match book {
        Some(b) => has_offer(b) && b.best_ask.at_most(config.price_range_max)
            && price_band::band_reject(b.best_ask, config) is Some,
        None => false,
    }
}

fn can_rise(config: &Config, book: &Option<OrderBookSnapshot>) -> (r: bool)
    ensures
        r == may_rise(*config, *book),
{
    match book {
        Some(b) => b.asks_present && !b.best_ask.le(Double::zero()) && b.best_ask.le(
            config.price_range_max,
        ) && price_band::buy_band_reject_reason(b.best_ask, config).is_some(),
        None => false,
    }
}

/// Where the choice of a side stands. Each check looks at UP first and at DOWN where UP fails.
#[derive(Clone, Copy)]
pub enum SideSelection {
    /// The order book of UP is asked for, after so many repeated checks.
    UpAsked { retries: u64 },
    /// The order book of DOWN is asked for; `up_may_rise` says how UP failed.
    DownAsked { retries: u64, up_may_rise: bool },
    /// The next check is waited for.
    Pausing { retries: u64 },
    Ended,
}

/// What is to be done next to choose a side.
pub enum SelectAction {
    FetchBook { side: MarketSide, token_id: String },
    Sleep(u64),
    Done(Option<SideCandidate>),
}

#[verifier::ext_equal]
pub enum SelectMove {
    FetchBook { side: MarketSide, token_id: Seq<char> },
    Sleep(u64),
    Done(Option<CandidateView>),
}

impl SelectAction {
    pub open spec fn view(self) -> SelectMove {
        match self {
            SelectAction::FetchBook { side, token_id } => SelectMove::FetchBook {
                side,
                token_id: token_id@,
            },
            SelectAction::Sleep(ms) => SelectMove::Sleep(ms),
            SelectAction::Done(c) => SelectMove::Done(candidate_view(c)),
        }
    }
}

/// Looks at DOWN.
pub open spec fn check_down(market: DiscoveredMarket, retries: u64, up_may_rise: bool) -> (
    SideSelection,
    SelectMove,
) {
    if text::is_blank(market.no_token_id@) {
        (SideSelection::Ended, SelectMove::Done(None))
    } else {
        (
            SideSelection::DownAsked { retries, up_may_rise },
            SelectMove::FetchBook { side: MarketSide::Down, token_id: market.no_token_id@ },
        )
    }
}

/// Looks at UP, or at DOWN where UP has no token.
pub open spec fn check_up(market: DiscoveredMarket, retries: u64) -> (SideSelection, SelectMove) {
    if text::is_blank(market.yes_token_id@) {
        check_down(market, retries, false)
    } else {
        (
            SideSelection::UpAsked { retries },
            SelectMove::FetchBook { side: MarketSide::Up, token_id: market.yes_token_id@ },
        )
    }
}

/// What an order book calls for: none where it could not be had.
pub open spec fn after_book(
    config: Config,
    market: DiscoveredMarket,
    selection: SideSelection,
    book: Option<OrderBookSnapshot>,
) -> (SideSelection, SelectMove) {
    match selection {
        SideSelection::UpAsked { retries } => match candidate(
            config,
            MarketSide::Up,
            market.yes_token_id@,
            book,
        ) {
            Some(c) => (SideSelection::Ended, SelectMove::Done(Some(c))),
            None => check_down(market, retries, may_rise(config, book)),
        },
        SideSelection::DownAsked { retries, up_may_rise } => match candidate(
            config,
            MarketSide::Down,
            market.no_token_id@,
            book,
        ) {
            Some(c) => (SideSelection::Ended, SelectMove::Done(Some(c))),
            None => if up_may_rise && may_rise(config, book) && retries
                < config.entry_price_max_retries {
                (
                    SideSelection::Pausing { retries: (retries + 1) as u64 },
                    SelectMove::Sleep(config.entry_price_retry_interval_ms),
                )
            } else {
                (SideSelection::Ended, SelectMove::Done(None))
            },
        },
        _ => (SideSelection::Ended, SelectMove::Done(None)),
    }
}

fn look_at_down(market: &DiscoveredMarket, retries: u64, up_may_rise: bool) -> (r: (
    SideSelection,
    SelectAction,
))
    ensures
        (r.0, r.1@) == check_down(*market, retries, up_may_rise),
{
    if text::blank(market.no_token_id.as_str()) {
        (SideSelection::Ended, SelectAction::Done(None))
    } else {
        (
            SideSelection::DownAsked { retries, up_may_rise },
            SelectAction::FetchBook {
                side: MarketSide::Down,
                token_id: market.no_token_id.clone(),
            },
        )
    }
}

fn look_at_up(market: &DiscoveredMarket, retries: u64) -> (r: (SideSelection, SelectAction))
    ensures
        (r.0, r.1@) == check_up(*market, retries),
{
    if text::blank(market.yes_token_id.as_str()) {
        look_at_down(market, retries, false)
    } else {
        (
            SideSelection::UpAsked { retries },
            SelectAction::FetchBook { side: MarketSide::Up, token_id: market.yes_token_id.clone() },
        )
    }
}

/// Begins to choose a side.
pub fn select_side_candidate(market: &DiscoveredMarket) -> (r: (SideSelection, SelectAction))
    ensures
        (r.0, r.1@) == check_up(*market, 0),
{
    look_at_up(market, 0)
}

impl SideSelection {
    /// Takes in the order book that was asked for.
    pub fn on_book(
        self,
        config: &Config,
        market: &DiscoveredMarket,
        book: &Option<OrderBookSnapshot>,
    ) -> (r: (SideSelection, SelectAction))
        ensures
            (r.0, r.1@) == after_book(*config, *market, self, *book),
    {
        match self {
            SideSelection::UpAsked { retries } => {
                let found = fetch_side_candidate(
                    config,
                    MarketSide::Up,
                    market.yes_token_id.as_str(),
                    book,
                );
                if found.is_some() {
                    (SideSelection::Ended, SelectAction::Done(found))
                } else {
                    look_at_down(market, retries, can_rise(config, book))
                }
            },
            SideSelection::DownAsked { retries, up_may_rise } => {
                let found = fetch_side_candidate(
                    config,
                    MarketSide::Down,
                    market.no_token_id.as_str(),
                    book,
                );
                if found.is_some() {
                    (SideSelection::Ended, SelectAction::Done(found))
                } else if up_may_rise && can_rise(config, book) && retries
                    < config.entry_price_max_retries {
                    (
                        SideSelection::Pausing { retries: retries + 1 },
                        SelectAction::Sleep(config.entry_price_retry_interval_ms),
                    )
                } else {
                    (SideSelection::Ended, SelectAction::Done(None))
                }
            },
            _ => (SideSelection::Ended, SelectAction::Done(None)),
        }
    }

    /// The pause is over.
    pub fn on_pause_over(self, market: &DiscoveredMarket) -> (r: (SideSelection, SelectAction))
        requires
            self is Pausing,
        ensures
            (r.0, r.1@) == check_up(*market, self->Pausing_retries),
    {
        match self {
            SideSelection::Pausing { retries } => look_at_up(market, retries),
            _ => (SideSelection::Ended, SelectAction::Done(None)),
        }
    }

    /// How many checks were repeated.
    pub open spec fn repeated(self) -> int {
        match self {
            SideSelection::UpAsked { retries } => retries as int,
            SideSelection::DownAsked { retries, .. } => retries as int,
            SideSelection::Pausing { retries } => retries as int,
            SideSelection::Ended => 0,
        }
    }
}

/// A side that is chosen has an offer within the band, UP comes before DOWN, and no more checks
/// are repeated than the settings allow.
pub proof fn chosen_side_is_in_the_band(
    config: Config,
    market: DiscoveredMarket,
    selection: SideSelection,
    book: Option<OrderBookSnapshot>,
)
    requires
        selection.repeated() <= config.entry_price_max_retries,
    ensures
        ({
            let (next, action) = after_book(config, market, selection, book);
            &&& next.repeated() <= config.entry_price_max_retries
            &&& action matches SelectMove::Done(Some(c)) ==> price_band::band_reject(
                c.ask_price,
                config,
            ) is None && (book matches Some(b) && has_offer(b) && c.ask_price == b.best_ask)
            &&& (action matches SelectMove::Done(Some(c)) && c.side == MarketSide::Down)
                ==> selection is DownAsked
            &&& selection is UpAsked && candidate(
                config,
                MarketSide::Up,
                market.yes_token_id@,
                book,
            ) is Some ==> (action matches SelectMove::Done(Some(c)) && c.side == MarketSide::Up)
        }),
{
}

// ---------------------------------------------------------------------------
// After the entry
// ---------------------------------------------------------------------------

/// Whether an entry bought anything.
pub open spec fn was_filled(execution: ExecutionResult) -> bool {
    execution.filled_size.positive() && execution.spent_usd.positive()
}

/// What follows an entry.
pub enum EntryReport {
    /// Something was bought: it is settled from this time on.
    Filled { resolve_target_sec: u64 },
    /// Nothing was bought, for this reason, where one is known.
    NotFilled { reason: String },
}

/// When a trade is settled.
pub open spec fn resolve_target(config: Config, window: MarketWindow) -> u64 {
    if window.close_time_sec + config.resolve_delay_sec > u64::MAX {
        u64::MAX
    } else {
        (window.close_time_sec + config.resolve_delay_sec) as u64
    }
}

/// The reason that an entry gives.
pub open spec fn entry_reason(execution: ExecutionResult) -> Seq<char> {
    match json::lookup(json::record(execution.raw_response@), "reason"@) {
        Some(JsonTree::Text(s)) => s,
        _ => Seq::empty(),
    }
}

/// Takes in what became of an entry. A window in which nothing was bought is done with.
pub fn report_entry(
    config: &Config,
    windows: &mut WindowSet,
    window: &MarketWindow,
    execution: &ExecutionResult,
) -> (r: EntryReport)
    ensures
        if was_filled(*execution) {
            &&& final(windows)@ == old(windows)@
            &&& r matches EntryReport::Filled { resolve_target_sec } && resolve_target_sec
                == resolve_target(*config, *window)
        } else {
            &&& final(windows)@ == old(windows)@.insert(window.window_start_sec)
            &&& r matches EntryReport::NotFilled { reason } && reason@ == entry_reason(*execution)
        },
{
    if execution.filled_size.is_positive() && execution.spent_usd.is_positive() {
        return EntryReport::Filled {
            resolve_target_sec: window.close_time_sec.saturating_add(config.resolve_delay_sec),
        };
    }
    windows.insert(window.window_start_sec);
    let reason = match json::find_member(&execution.raw_response, "reason") {
        Some(value) => match value.as_str() {
            Some(s) => s.to_owned(),
            None => String::new(),
        },
        None => String::new(),
    };
    EntryReport::NotFilled { reason }
}

// ---------------------------------------------------------------------------
// The trade
// ---------------------------------------------------------------------------

/// Calls `Uuid::new_v4` and writes it without hyphens: 32 hexadecimal digits in lower case. Which
/// ones is left to chance.
#[verifier::external_body]
fn new_uuid() -> (r: String)
    ensures
        is_uuid(r@),
{
    uuid::Uuid::new_v4().simple().to_string()
}

pub open spec fn is_uuid(s: Seq<char>) -> bool {
    &&& s.len() == 32
    &&& forall|i: int|
        0 <= i < s.len() ==> text::is_hex(#[trigger] s[i]) && text::hex_lower(s[i]) == s[i]
}

/// The identifier of a trade.
pub open spec fn trade_name(window_start_sec: u64, suffix: Seq<char>) -> Seq<char> {
    "v2_"@ + text::decimal(window_start_sec as nat) + "_"@ + suffix
}

/// The identifier of a trade with a given end.
pub fn trade_id_with(window_start_sec: u64, suffix: &str) -> (r: String)
    ensures
        r@ == trade_name(window_start_sec, suffix@),
{
    let mut out = "v2_".to_owned();
    out.append(text::decimal_u64(window_start_sec).as_str());
    out.append("_");
    out.append(suffix);
    out
}

/// A new identifier for a trade.
pub fn trade_id(window_start_sec: u64) -> (r: String)
    ensures
        exists|suffix: Seq<char>| #[trigger] is_uuid(suffix) && r@ == trade_name(
            window_start_sec,
            suffix,
        ),
{
    let suffix = new_uuid();
    trade_id_with(window_start_sec, suffix.as_str())
}

/// A trade that has been settled.
pub struct SettledTrade {
    pub record: TradeRecord,
    /// Its open claim, where claims are made.
    pub claim: Option<PendingClaim>,
    pub outcome: CycleOutcome,
}

/// Whether a record tells of a trade that was settled.
pub open spec fn is_record(
    record: TradeRecord,
    config: Config,
    window: MarketWindow,
    market: DiscoveredMarket,
    chosen: CandidateView,
    execution: ExecutionResult,
    settlement: SettlementOutcome,
    payout_less_spent: Double,
    id: Seq<char>,
    timestamp_ms: u64,
) -> bool {
    let pnl = settlement_service::trade_pnl(
        chosen.side,
        execution,
        settlement.outcome,
        payout_less_spent,
    );
    let claimed = config.enable_live_trading && config.on_chain_auto_claim_enabled;
    &&& record.id@ == id
    &&& record.timestamp_ms == timestamp_ms
    &&& record.mode@ == config.mode_name()
    &&& record.window == window
    &&& record.market == market
    &&& record.side == chosen.side
    &&& record.selected_ask_price == chosen.ask_price
    &&& record.selected_bid_price == chosen.bid_price
    &&& record.stake_usd == execution.spent_usd
    &&& record.execution@ == execution@
    &&& record.settlement == settlement
    &&& record.outcome == pnl.outcome
    &&& record.redeemed_usd == pnl.redeemed_usd
    &&& record.pnl_usd == pnl.pnl_usd
    &&& record.claim_status == (if claimed {
        Some(ClaimStatus::Pending)
    } else {
        None
    })
    &&& record.claim_attempts == (if claimed {
        Some(0u64)
    } else {
        None
    })
    &&& record.claim_tx_hash is None
    &&& record.claim_last_error is None
    &&& record.claim_updated_at_ms == (if claimed {
        Some(timestamp_ms)
    } else {
        None
    })
    &&& record.market_resolved == (if claimed {
        Some(false)
    } else {
        None
    })
    &&& record.market_resolution_source is None
    &&& record.market_resolved_at_ms is None
}

/// The open claim of a new trade.
pub open spec fn new_claim(
    window: MarketWindow,
    market: DiscoveredMarket,
    id: Seq<char>,
    timestamp_ms: u64,
) -> PendingView {
    PendingView {
        trade_id: id,
        window_slug: window.slug@,
        condition_id: market.condition_id@,
        yes_token_id: market.yes_token_id@,
        no_token_id: market.no_token_id@,
        created_at_ms: timestamp_ms,
        poll_count: 0,
        claim_attempts: 0,
        last_update_ms: timestamp_ms,
        last_error: None,
    }
}

/// Settles a trade: what it came to, its record and its claim.
pub fn settle_trade(
    config: &Config,
    window: &MarketWindow,
    market: &DiscoveredMarket,
    chosen: &SideCandidate,
    execution: &ExecutionResult,
    settlement: SettlementOutcome,
    payout_less_spent: Double,
    id: &str,
    timestamp_ms: u64,
) -> (r: SettledTrade)
    ensures
        is_record(
            r.record,
            *config,
            *window,
            *market,
            chosen@,
            *execution,
            settlement,
            payout_less_spent,
            id@,
            timestamp_ms,
        ),
        match r.claim {
            Some(claim) => config.enable_live_trading && config.on_chain_auto_claim_enabled
                && claims::pending_view(claim) == new_claim(*window, *market, id@, timestamp_ms),
            None => !(config.enable_live_trading && config.on_chain_auto_claim_enabled),
        },
        r.outcome == (if chosen.side == settlement.outcome {
            CycleOutcome::Win
        } else {
            CycleOutcome::Loss
        }),
{
    let pnl = settlement_service::compute_trade_pnl(
        chosen.side,
        execution,
        settlement.outcome,
        payout_less_spent,
    );
    let claimed = claims::should_manage_claims(config);
    let record = TradeRecord {
        id: id.to_owned(),
        timestamp_ms,
        mode: config.mode().to_owned(),
        window: window.copy(),
        market: market.copy(),
        side: chosen.side,
        selected_ask_price: chosen.ask_price,
        selected_bid_price: chosen.bid_price,
        stake_usd: execution.spent_usd,
        execution: execution.copy(),
        settlement,
        outcome: pnl.outcome,
        redeemed_usd: pnl.redeemed_usd,
        pnl_usd: pnl.pnl_usd,
        claim_status: if claimed {
            Some(ClaimStatus::Pending)
        } else {
            None
        },
        claim_attempts: if claimed {
            Some(0)
        } else {
            None
        },
        claim_tx_hash: None,
        claim_last_error: None,
        claim_updated_at_ms: if claimed {
            Some(timestamp_ms)
        } else {
            None
        },
        market_resolved: if claimed {
            Some(false)
        } else {
            None
        },
        market_resolution_source: None,
        market_resolved_at_ms: None,
    };
    let claim = if claimed {
        Some(
            PendingClaim {
                trade_id: id.to_owned(),
                window_slug: window.slug.clone(),
                condition_id: market.condition_id.clone(),
                yes_token_id: market.yes_token_id.clone(),
                no_token_id: market.no_token_id.clone(),
                created_at_ms: timestamp_ms,
                poll_count: 0,
                claim_attempts: 0,
                last_update_ms: timestamp_ms,
                last_error: None,
            },
        )
    } else {
        None
    };
    let outcome = match pnl.outcome {
        TradeResult::Win => CycleOutcome::Win,
        TradeResult::Loss => CycleOutcome::Loss,
    };
    SettledTrade { record, claim, outcome }
}

/// A new trade whose market is known is restored from its record as the claim that it was given.
pub proof fn new_claim_is_restored(
    record: TradeRecord,
    config: Config,
    window: MarketWindow,
    market: DiscoveredMarket,
    chosen: CandidateView,
    execution: ExecutionResult,
    settlement: SettlementOutcome,
    payout_less_spent: Double,
    id: Seq<char>,
    timestamp_ms: u64,
)
    requires
        config.enable_live_trading,
        config.on_chain_auto_claim_enabled,
        claims::can_be_claimed(record),
        is_record(
            record,
            config,
            window,
            market,
            chosen,
            execution,
            settlement,
            payout_less_spent,
            id,
            timestamp_ms,
        ),
    ensures
        claims::open_claim(record, timestamp_ms) matches Some(claim) && claims::pending_view(claim)
            == new_claim(window, market, id, timestamp_ms),
{
}

/// The windows that are done with are all kept while there are fewer than 512; of more, those of
/// the last hour are kept and older ones forgotten. None is ever added.
pub proof fn windows_of_the_last_hour_are_kept(windows: Set<u64>, current: u64, w: u64)
    ensures
        remembered(windows, current).contains(w) ==> windows.contains(w),
        windows.contains(w) && windows.len() < 512 ==> remembered(windows, current).contains(w),
        windows.contains(w) && current - w <= 3600 ==> remembered(windows, current).contains(w),
        windows.len() >= 512 && current - w > 3600 ==> !remembered(windows, current).contains(w),
{
}

/// The time to enter lies the set number of seconds before the close, and never after it.
pub proof fn entry_time_lies_before_the_close(config: Config, window: MarketWindow)
    ensures
        entry_target(config, window) <= window.close_time_sec,
        config.check_before_close_sec <= window.close_time_sec ==> entry_target(config, window)
            + config.check_before_close_sec == window.close_time_sec,
{
}

/// The market is looked for until it has taken as long as is allowed, or until the window closes,
/// and no longer.
pub proof fn market_is_looked_for_as_long_as_allowed(
    config: Config,
    close_time_sec: u64,
    started_sec: u64,
    now_sec: u64,
)
    requires
        started_sec <= now_sec,
        now_sec * 1000 <= u64::MAX,
    ensures
        lookup_is_over(
            MarketLookup { started_at_ms: in_ms(started_sec) },
            config,
            close_time_sec,
            now_sec,
        ) <==> (now_sec - started_sec) * 1000 >= config.market_lookup_max_wait_ms || now_sec
            >= close_time_sec,
{
}

/// A side is a candidate exactly where its book has an offer at a real price and the band allows
/// that price; the candidate is that offer, with the side, the token and the bid beside it.
pub proof fn candidate_is_an_offer_in_the_band(
    config: Config,
    side: MarketSide,
    token_id: Seq<char>,
    book: Option<OrderBookSnapshot>,
)
    requires
        book matches Some(b) ==> b.best_ask.finite(),
        config.price_range_min.finite(),
        config.price_range_max.finite(),
        config.price_range_min.units() <= config.price_range_max.units(),
    ensures
        candidate(config, side, token_id, book) is Some <==> book is Some
            && book->Some_0.asks_present && book->Some_0.best_ask.units() > 0 && (
        config.entry_price_gate_enabled ==> config.price_range_min.units()
            <= book->Some_0.best_ask.units() <= config.price_range_max.units()),
        candidate(config, side, token_id, book) matches Some(c) ==> c.side == side && c.token_id
            == token_id && c.ask_price == book->Some_0.best_ask && c.bid_price
            == book->Some_0.best_bid,
{
    if book is Some {
        let ask = book->Some_0.best_ask;
        price_band::band_turns_away_what_lies_outside(ask, config);
        assert((Double { bits: 0 }).units() == 0);
        crate::double::order_is_numeric(ask, Double { bits: 0 });
    }
}

/// The choice of a side looks at the rising side first and at the falling one where the first is no
/// candidate. It is repeated, after a pause, exactly where both sides have an offer that is still
/// below the band and repetitions are left. Otherwise it ends without a candidate.
pub proof fn rising_side_goes_first(
    config: Config,
    market: DiscoveredMarket,
    retries: u64,
    up_may_rise: bool,
    book: Option<OrderBookSnapshot>,
)
    requires
        text::trimmed(market.yes_token_id@).len() > 0,
        text::trimmed(market.no_token_id@).len() > 0,
        book matches Some(b) ==> b.best_ask.finite(),
        config.price_range_min.finite(),
        config.price_range_max.finite(),
        config.price_range_min.units() <= config.price_range_max.units(),
        retries < u64::MAX,
    ensures
        ({
            let below = config.entry_price_gate_enabled && book is Some
                && book->Some_0.asks_present && 0 < book->Some_0.best_ask.units()
                < config.price_range_min.units();
            let up = candidate(config, MarketSide::Up, market.yes_token_id@, book);
            let down = candidate(config, MarketSide::Down, market.no_token_id@, book);
            let asked_up = after_book(
                config,
                market,
                SideSelection::UpAsked { retries },
                book,
            );
            let asked_down = after_book(
                config,
                market,
                SideSelection::DownAsked { retries, up_may_rise },
                book,
            );
            &&& check_up(market, retries) == (
                SideSelection::UpAsked { retries },
                SelectMove::FetchBook { side: MarketSide::Up, token_id: market.yes_token_id@ },
            )
            &&& up is Some ==> asked_up.1 == SelectMove::Done(up)
            &&& up is None ==> asked_up == (
                SideSelection::DownAsked { retries, up_may_rise: below },
                SelectMove::FetchBook { side: MarketSide::Down, token_id: market.no_token_id@ },
            )
            &&& down is Some ==> asked_down.1 == SelectMove::Done(down)
            &&& down is None ==> (asked_down.1 is Sleep <==> up_may_rise && below && retries
                < config.entry_price_max_retries)
            &&& asked_down.1 is Sleep ==> asked_down == (
                SideSelection::Pausing { retries: (retries + 1) as u64 },
                SelectMove::Sleep(config.entry_price_retry_interval_ms),
            )
            &&& down is None && !(asked_down.1 is Sleep) ==> asked_down.1 == SelectMove::Done(None)
        }),
{
    if book is Some {
        let ask = book->Some_0.best_ask;
        price_band::band_turns_away_what_lies_outside(ask, config);
        assert((Double { bits: 0 }).units() == 0);
        crate::double::order_is_numeric(ask, Double { bits: 0 });
        crate::double::order_is_numeric(ask, config.price_range_max);
    }
}

/// An entry bought something exactly where both its size and its cost are above zero. What was
/// bought is settled once the set delay after the close is over.
pub proof fn bought_is_what_has_size_and_cost(
    config: Config,
    window: MarketWindow,
    execution: ExecutionResult,
)
    requires
        execution.filled_size.finite(),
        execution.spent_usd.finite(),
    ensures
        was_filled(execution) <==> execution.filled_size.units() > 0 && execution.spent_usd.units()
            > 0,
        window.close_time_sec + config.resolve_delay_sec <= u64::MAX ==> resolve_target(
            config,
            window,
        ) == window.close_time_sec + config.resolve_delay_sec,
        resolve_target(config, window) >= window.close_time_sec,
{
    crate::double::sign_is_numeric(execution.filled_size);
    crate::double::sign_is_numeric(execution.spent_usd);
}

/// The identifier of a trade tells its window and its end: two trades with ends of the same length
/// have the same identifier only where both agree in both.
pub proof fn trade_id_tells_window_and_end(a: u64, b: u64, x: Seq<char>, y: Seq<char>)
    requires
        x.len() == y.len(),
        trade_name(a, x) == trade_name(b, y),
    ensures
        a == b,
        x == y,
{
    let p = text::decimal(a as nat);
    let q = text::decimal(b as nat);
    let s = trade_name(a, x);
    let t = trade_name(b, y);
    reveal_strlit("v2_");
    reveal_strlit("_");
    assert(s.len() == 4 + p.len() + x.len());
    assert(t.len() == 4 + q.len() + y.len());
    assert(s.subrange(3, 3 + p.len() as int) =~= p);
    assert(t.subrange(3, 3 + q.len() as int) =~= q);
    assert(s.skip(4 + p.len() as int) =~= x);
    assert(t.skip(4 + q.len() as int) =~= y);
    text::decimal_round_trip(a as nat);
    text::decimal_round_trip(b as nat);
}

/// The record of a settled trade tells what was bought and what it came to: it is won exactly where
/// the chosen side is the one that the window ended on, and its gain, its payout and its stake are
/// those of the order. It has an open claim exactly where claims are made.
pub proof fn record_tells_what_the_trade_came_to(
    record: TradeRecord,
    config: Config,
    window: MarketWindow,
    market: DiscoveredMarket,
    chosen: CandidateView,
    execution: ExecutionResult,
    settlement: SettlementOutcome,
    payout_less_spent: Double,
    id: Seq<char>,
    timestamp_ms: u64,
)
    requires
        execution.filled_size.finite(),
        execution.spent_usd.finite(),
        is_record(
            record,
            config,
            window,
            market,
            chosen,
            execution,
            settlement,
            payout_less_spent,
            id,
            timestamp_ms,
        ),
    ensures
        record.id@ == id,
        record.side == chosen.side,
        record.window == window && record.market == market,
        record.stake_usd == execution.spent_usd,
        record.outcome == TradeResult::Win <==> chosen.side == settlement.outcome,
        chosen.side == settlement.outcome ==> record.pnl_usd == payout_less_spent,
        chosen.side != settlement.outcome ==> record.pnl_usd.units()
            == -execution.spent_usd.units() && record.redeemed_usd.units() == 0,
        record.claim_status == Some(ClaimStatus::Pending) <==> config.enable_live_trading
            && config.on_chain_auto_claim_enabled,
        record.claim_status is None <==> !(config.enable_live_trading
            && config.on_chain_auto_claim_enabled),
        record.claim_tx_hash is None,
{
    settlement_service::winning_side_gains_its_payout(
        chosen.side,
        execution,
        settlement.outcome,
        payout_less_spent,
    );
}

/// A new claim is about the trade's own window, condition and tokens, and has been neither looked
/// at nor tried.
pub proof fn new_claim_is_about_its_trade(
    window: MarketWindow,
    market: DiscoveredMarket,
    id: Seq<char>,
    timestamp_ms: u64,
)
    ensures
        ({
            let claim = new_claim(window, market, id, timestamp_ms);
            &&& claim.trade_id == id
            &&& claim.window_slug == window.slug@
            &&& claim.condition_id == market.condition_id@
            &&& claim.yes_token_id == market.yes_token_id@
            &&& claim.no_token_id == market.no_token_id@
            &&& claim.poll_count == 0 && claim.claim_attempts == 0
            &&& claim.created_at_ms == timestamp_ms && claim.last_error is None
        }),
{
}

/// The reason of an entry is what its order was put down with, and none where there is no text.
pub proof fn reason_is_what_was_put_down(execution: ExecutionResult, s: Seq<char>)
    ensures
        json::lookup(json::record(execution.raw_response@), "reason"@) == Some(JsonTree::Text(s))
            ==> entry_reason(execution) == s,
        json::lookup(json::record(execution.raw_response@), "reason"@) is None ==> entry_reason(
            execution,
        ).len() == 0,
{
}

/// A side without a token is passed over: only the falling side is asked for where the rising one has
/// none, and neither where both have none.
pub proof fn sides_without_tokens_are_passed_over(market: DiscoveredMarket, retries: u64)
    requires
        text::trimmed(market.yes_token_id@).len() == 0,
    ensures
        text::trimmed(market.no_token_id@).len() > 0 ==> check_up(market, retries) == (
            SideSelection::DownAsked { retries, up_may_rise: false },
            SelectMove::FetchBook { side: MarketSide::Down, token_id: market.no_token_id@ },
        ),
        text::trimmed(market.no_token_id@).len() == 0 ==> check_up(market, retries).1
            == SelectMove::Done(None),
{
}

} // verus!
