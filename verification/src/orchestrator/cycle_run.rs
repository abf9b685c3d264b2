//! One cycle: from the window to the trade.
use vstd::prelude::*;
use crate::double::Double;
use crate::orchestrator::claims;
use crate::orchestrator::claims::PendingView;
use crate::orchestrator::cycle;
use crate::orchestrator::cycle::{
    CandidateView, CycleOutcome, EntryReport, MarketLookup, SelectAction, SelectMove,
    SideCandidate, SideSelection, WindowSet,
};
use crate::table::Table;
use crate::types::{
    Config, DiscoveredMarket, ExecutionResult, MarketSide, MarketWindow, OrderBookSnapshot,
    PendingClaim, SettlementOutcome, TradeRecord,
};

verus! {

// ---------------------------------------------------------------------------
// The state of a cycle
// ---------------------------------------------------------------------------

/// Where a cycle stands.
enum CyclePhase {
    Waiting,
    Looking(MarketLookup),
    Selecting(DiscoveredMarket, SideSelection),
    Entering(DiscoveredMarket, SideCandidate),
    Resolving(DiscoveredMarket, SideCandidate, ExecutionResult),
    Ended(Option<CycleOutcome>),
}

#[verifier::ext_equal]
pub enum PhaseView {
    /// It is waited for the time to enter.
    Waiting,
    /// The market is looked for.
    Looking { lookup: MarketLookup },
    /// A side is chosen.
    Selecting { market: DiscoveredMarket, selection: SideSelection },
    /// The position is entered.
    Entering { market: DiscoveredMarket, chosen: CandidateView },
    /// Something was bought, and its settlement is waited for.
    Resolving { market: DiscoveredMarket, chosen: CandidateView, execution: ExecutionResult },
    /// The cycle is over, with an outcome or with none where the entry failed.
    Ended(Option<CycleOutcome>),
}

/// A cycle under way.
pub struct CycleRun {
    window: MarketWindow,
    phase: CyclePhase,
}

#[verifier::ext_equal]
pub struct CycleView {
    pub window: MarketWindow,
    pub phase: PhaseView,
}

/// Why a cycle is over.
pub enum CycleEnd {
    AlreadyProcessed,
    LiveTradingDisabled,
    WindowClosed,
    MarketNotFound,
    NoCandidate,
    /// The entry could not be made.
    EntryFailed,
    /// Nothing was bought, for this reason, where one is known.
    NotFilled { reason: String },
    /// It could not be found out how the window ended.
    Unresolved,
    /// The trade is settled, with this record.
    Settled(TradeRecord),
}

#[verifier::ext_equal]
pub enum EndView {
    AlreadyProcessed,
    LiveTradingDisabled,
    WindowClosed,
    MarketNotFound,
    NoCandidate,
    EntryFailed,
    NotFilled { reason: Seq<char> },
    Unresolved,
    Settled,
}

/// What is to be done next.
pub enum CycleAction {
    /// Wait until then, and report the time.
    WaitUntil(u64),
    /// Fetch the market and report it.
    FetchMarket { slug: String },
    /// Wait so many milliseconds, and report that the pause is over.
    Sleep(u64),
    /// Fetch an order book and report it.
    FetchBook { side: MarketSide, token_id: String },
    /// Enter the position and report what became of it.
    Enter {
        side: MarketSide,
        token_id: String,
        ask_price: Double,
        bid_price: Double,
        stake_usd: Double,
        close_time_sec: u64,
    },
    /// Wait until then, find out how the window ended, and report it.
    Resolve { at_sec: u64 },
    Done(CycleEnd),
}

#[verifier::ext_equal]
pub enum CycleMove {
    WaitUntil(u64),
    FetchMarket { slug: Seq<char> },
    Sleep(u64),
    FetchBook { side: MarketSide, token_id: Seq<char> },
    Enter { chosen: CandidateView, stake_usd: Double, close_time_sec: u64 },
    Resolve { at_sec: u64 },
    Done(EndView),
}

impl CycleEnd {
    pub open spec fn view(self) -> EndView {
        match self {
            CycleEnd::AlreadyProcessed => EndView::AlreadyProcessed,
            CycleEnd::LiveTradingDisabled => EndView::LiveTradingDisabled,
            CycleEnd::WindowClosed => EndView::WindowClosed,
            CycleEnd::MarketNotFound => EndView::MarketNotFound,
            CycleEnd::NoCandidate => EndView::NoCandidate,
            CycleEnd::EntryFailed => EndView::EntryFailed,
            CycleEnd::NotFilled { reason } => EndView::NotFilled { reason: reason@ },
            CycleEnd::Unresolved => EndView::Unresolved,
            CycleEnd::Settled(_) => EndView::Settled,
        }
    }
}

impl CycleAction {
    pub open spec fn view(self) -> CycleMove {
        match self {
            CycleAction::WaitUntil(sec) => CycleMove::WaitUntil(sec),
            CycleAction::FetchMarket { slug } => CycleMove::FetchMarket { slug: slug@ },
            CycleAction::Sleep(ms) => CycleMove::Sleep(ms),
            CycleAction::FetchBook { side, token_id } => CycleMove::FetchBook {
                side,
                token_id: token_id@,
            },
            CycleAction::Enter {
                side,
                token_id,
                ask_price,
                bid_price,
                stake_usd,
                close_time_sec,
            } => CycleMove::Enter {
                chosen: CandidateView { side, token_id: token_id@, ask_price, bid_price },
                stake_usd,
                close_time_sec,
            },
            CycleAction::Resolve { at_sec } => CycleMove::Resolve { at_sec },
            CycleAction::Done(end) => CycleMove::Done(end@),
        }
    }
}

// ---------------------------------------------------------------------------
// The steps of a cycle
// ---------------------------------------------------------------------------

/// The end of a cycle that is done with its window.
pub open spec fn close_cycle(
    window: MarketWindow,
    windows: Set<u64>,
    outcome: CycleOutcome,
    end: EndView,
) -> (CycleView, Set<u64>, CycleMove) {
    (
        CycleView { window, phase: PhaseView::Ended(Some(outcome)) },
        windows.insert(window.window_start_sec),
        CycleMove::Done(end),
    )
}

/// The start of a cycle: the end of it where its window is done with or nothing is traded, and a
/// wait for the time to enter otherwise.
pub open spec fn cycle_begin(config: Config, windows: Set<u64>, window: MarketWindow) -> (
    CycleView,
    Set<u64>,
    CycleMove,
) {
    let done = cycle::remembered(windows, window.window_start_sec);
    if done.contains(window.window_start_sec) {
        (
            CycleView { window, phase: PhaseView::Ended(Some(CycleOutcome::NoTrade)) },
            done,
            CycleMove::Done(EndView::AlreadyProcessed),
        )
    } else if !config.enable_live_trading {
        close_cycle(window, done, CycleOutcome::NoTrade, EndView::LiveTradingDisabled)
    } else {
        (
            CycleView { window, phase: PhaseView::Waiting },
            done,
            CycleMove::WaitUntil(cycle::entry_target(config, window)),
        )
    }
}

/// The time to enter: too late where the window is closed.
pub open spec fn cycle_clock(window: MarketWindow, windows: Set<u64>, now_sec: u64) -> (
    CycleView,
    Set<u64>,
    CycleMove,
) {
    if now_sec >= window.close_time_sec {
        close_cycle(window, windows, CycleOutcome::NoTrade, EndView::WindowClosed)
    } else {
        let lookup = MarketLookup { started_at_ms: cycle::in_ms(now_sec) };
        (
            CycleView { window, phase: PhaseView::Looking { lookup } },
            windows,
            CycleMove::FetchMarket { slug: window.slug@ },
        )
    }
}

/// What a step of the choice of a side calls for.
pub open spec fn after_selection(
    config: Config,
    window: MarketWindow,
    windows: Set<u64>,
    market: DiscoveredMarket,
    step: (SideSelection, SelectMove),
) -> (CycleView, Set<u64>, CycleMove) {
    let selecting = CycleView {
        window,
        phase: PhaseView::Selecting { market, selection: step.0 },
    };
    match step.1 {
        SelectMove::FetchBook { side, token_id } => (
            selecting,
            windows,
            CycleMove::FetchBook { side, token_id },
        ),
        SelectMove::Sleep(ms) => (selecting, windows, CycleMove::Sleep(ms)),
        SelectMove::Done(Some(chosen)) => (
            CycleView { window, phase: PhaseView::Entering { market, chosen } },
            windows,
            CycleMove::Enter {
                chosen,
                stake_usd: config.stake_usd,
                close_time_sec: window.close_time_sec,
            },
        ),
        SelectMove::Done(None) => close_cycle(
            window,
            windows,
            CycleOutcome::NoTrade,
            EndView::NoCandidate,
        ),
    }
}

/// A look for the market, with what it found.
pub open spec fn cycle_market(
    config: Config,
    window: MarketWindow,
    lookup: MarketLookup,
    windows: Set<u64>,
    found: Option<DiscoveredMarket>,
    now_sec: u64,
) -> (CycleView, Set<u64>, CycleMove) {
    match found {
        Some(market) => after_selection(
            config,
            window,
            windows,
            market,
            cycle::check_up(market, 0),
        ),
        None => if cycle::lookup_is_over(lookup, config, window.close_time_sec, now_sec) {
            close_cycle(window, windows, CycleOutcome::NoTrade, EndView::MarketNotFound)
        } else {
            (
                CycleView { window, phase: PhaseView::Looking { lookup } },
                windows,
                CycleMove::Sleep(config.market_poll_interval_ms),
            )
        },
    }
}

/// The end of a pause.
pub open spec fn cycle_pause_over(config: Config, run: CycleView, windows: Set<u64>) -> (
    CycleView,
    Set<u64>,
    CycleMove,
) {
    match run.phase {
        PhaseView::Selecting { market, selection } => after_selection(
            config,
            run.window,
            windows,
            market,
            cycle::check_up(market, selection->Pausing_retries),
        ),
        _ => (run, windows, CycleMove::FetchMarket { slug: run.window.slug@ }),
    }
}

/// What became of the entry: nothing where it could not be made.
pub open spec fn cycle_execution(
    config: Config,
    window: MarketWindow,
    market: DiscoveredMarket,
    chosen: CandidateView,
    windows: Set<u64>,
    execution: Option<ExecutionResult>,
) -> (CycleView, Set<u64>, CycleMove) {
    match execution {
        None => (
            CycleView { window, phase: PhaseView::Ended(None) },
            windows,
            CycleMove::Done(EndView::EntryFailed),
        ),
        Some(e) => if cycle::was_filled(e) {
            (
                CycleView {
                    window,
                    phase: PhaseView::Resolving { market, chosen, execution: e },
                },
                windows,
                CycleMove::Resolve { at_sec: cycle::resolve_target(config, window) },
            )
        } else {
            close_cycle(
                window,
                windows,
                CycleOutcome::NoTrade,
                EndView::NotFilled { reason: cycle::entry_reason(e) },
            )
        },
    }
}

/// The settlement of the trade: nothing where it could not be found out.
pub open spec fn cycle_settlement(
    window: MarketWindow,
    chosen: CandidateView,
    windows: Set<u64>,
    settlement: Option<SettlementOutcome>,
) -> (CycleView, Set<u64>, CycleMove) {
    match settlement {
        None => close_cycle(window, windows, CycleOutcome::NoTrade, EndView::Unresolved),
        Some(s) => close_cycle(
            window,
            windows,
            if chosen.side == s.outcome {
                CycleOutcome::Win
            } else {
                CycleOutcome::Loss
            },
            EndView::Settled,
        ),
    }
}

/// Open claims by what is known of them.
pub open spec fn claim_views(open: Map<Seq<char>, PendingClaim>) -> Map<Seq<char>, PendingView> {
    open.map_values(|p: PendingClaim| claims::pending_view(p))
}

/// The open claims after the settlement of a trade: it has one of its own, where claims are made.
pub open spec fn claims_after(
    config: Config,
    window: MarketWindow,
    market: DiscoveredMarket,
    open: Map<Seq<char>, PendingView>,
    settlement: Option<SettlementOutcome>,
    id: Seq<char>,
    timestamp_ms: u64,
) -> Map<Seq<char>, PendingView> {
    if settlement is Some && config.enable_live_trading && config.on_chain_auto_claim_enabled {
        open.insert(id, cycle::new_claim(window, market, id, timestamp_ms))
    } else {
        open
    }
}

// ---------------------------------------------------------------------------
// Running a cycle
// ---------------------------------------------------------------------------

fn close(window: MarketWindow, windows: &mut WindowSet, outcome: CycleOutcome, end: CycleEnd) -> (r:
    (CycleRun, CycleAction))
    ensures
        (r.0@, final(windows)@, r.1@) == close_cycle(window, old(windows)@, outcome, end@),
        r.1 == CycleAction::Done(end),
{
    windows.insert(window.window_start_sec);
    (CycleRun { window, phase: CyclePhase::Ended(Some(outcome)) }, CycleAction::Done(end))
}

fn selected(
    config: &Config,
    window: MarketWindow,
    windows: &mut WindowSet,
    market: DiscoveredMarket,
    step: (SideSelection, SelectAction),
) -> (r: (CycleRun, CycleAction))
    ensures
        (r.0@, final(windows)@, r.1@) == after_selection(
            *config,
            window,
            old(windows)@,
            market,
            (step.0, step.1@),
        ),
{
    let (selection, action) = step;
    match action {
        SelectAction::FetchBook { side, token_id } => (
            CycleRun { window, phase: CyclePhase::Selecting(market, selection) },
            CycleAction::FetchBook { side, token_id },
        ),
        SelectAction::Sleep(ms) => (
            CycleRun { window, phase: CyclePhase::Selecting(market, selection) },
            CycleAction::Sleep(ms),
        ),
        SelectAction::Done(Some(chosen)) => {
            let action = CycleAction::Enter {
                side: chosen.side,
                token_id: chosen.token_id.clone(),
                ask_price: chosen.ask_price,
                bid_price: chosen.bid_price,
                stake_usd: config.stake_usd,
                close_time_sec: window.close_time_sec,
            };
            (CycleRun { window, phase: CyclePhase::Entering(market, chosen) }, action)
        },
        SelectAction::Done(None) => close(
            window,
            windows,
            CycleOutcome::NoTrade,
            CycleEnd::NoCandidate,
        ),
    }
}

/// Begins the cycle of a window.
pub fn run_cycle(config: &Config, windows: &mut WindowSet, window: MarketWindow) -> (r: (
    CycleRun,
    CycleAction,
))
    ensures
        (r.0@, final(windows)@, r.1@) == cycle_begin(*config, old(windows)@, window),
{
    cycle::cleanup_processed_windows(windows, window.window_start_sec);
    if windows.contains(window.window_start_sec) {
        return (
            CycleRun { window, phase: CyclePhase::Ended(Some(CycleOutcome::NoTrade)) },
            CycleAction::Done(CycleEnd::AlreadyProcessed),
        );
    }
    if !config.enable_live_trading {
        return close(
            window,
            windows,
            CycleOutcome::NoTrade,
            CycleEnd::LiveTradingDisabled,
        );
    }
    let target: u64 = cycle::entry_target_sec(config, &window);
    (CycleRun { window, phase: CyclePhase::Waiting }, CycleAction::WaitUntil(target))
}

impl CycleRun {
    pub closed spec fn view(self) -> CycleView {
        CycleView {
            window: self.window,
            phase: match self.phase {
                CyclePhase::Waiting => PhaseView::Waiting,
                CyclePhase::Looking(lookup) => PhaseView::Looking { lookup },
                CyclePhase::Selecting(market, selection) => PhaseView::Selecting {
                    market,
                    selection,
                },
                CyclePhase::Entering(market, chosen) => PhaseView::Entering {
                    market,
                    chosen: chosen@,
                },
                CyclePhase::Resolving(market, chosen, execution) => PhaseView::Resolving {
                    market,
                    chosen: chosen@,
                    execution,
                },
                CyclePhase::Ended(outcome) => PhaseView::Ended(outcome),
            },
        }
    }

    /// The window of the cycle.
    pub fn window(&self) -> (r: &MarketWindow)
        ensures
            *r == self@.window,
    {
        &self.window
    }

    /// What the cycle came to, where it is over and its entry did not fail.
    pub fn outcome(&self) -> (r: Option<CycleOutcome>)
        ensures
            r == (match self@.phase {
                PhaseView::Ended(outcome) => outcome,
                _ => None,
            }),
    {
        match self.phase {
            CyclePhase::Ended(outcome) => outcome,
            _ => None,
        }
    }

    /// What was bought, while its settlement is waited for.
    pub fn bought(&self) -> (r: Option<&ExecutionResult>)
        ensures
            match self@.phase {
                PhaseView::Resolving { execution, .. } => r == Some(&execution),
                _ => r is None,
            },
    {
        match &self.phase {
            CyclePhase::Resolving(_, _, execution) => Some(execution),
            _ => None,
        }
    }

    /// The time to enter has come.
    pub fn on_clock(self, windows: &mut WindowSet, now_sec: u64) -> (r: (CycleRun, CycleAction))
        requires
            self@.phase is Waiting,
        ensures
            (r.0@, final(windows)@, r.1@) == cycle_clock(self@.window, old(windows)@, now_sec),
    {
        let window = self.window;
        if now_sec >= window.close_time_sec {
            return close(window, windows, CycleOutcome::NoTrade, CycleEnd::WindowClosed);
        }
        let slug = window.slug.clone();
        (
            CycleRun { window, phase: CyclePhase::Looking(cycle::begin_lookup(now_sec)) },
            CycleAction::FetchMarket { slug },
        )
    }

    /// The market was looked for.
    pub fn on_market(
        self,
        config: &Config,
        windows: &mut WindowSet,
        found: Option<DiscoveredMarket>,
        now_sec: u64,
    ) -> (r: (CycleRun, CycleAction))
        requires
            self@.phase is Looking,
        ensures
            (r.0@, final(windows)@, r.1@) == cycle_market(
                *config,
                self@.window,
                self@.phase->lookup,
                old(windows)@,
                found,
                now_sec,
            ),
    {
        let window = self.window;
        match self.phase {
            CyclePhase::Looking(lookup) => match found {
                Some(market) => {
                    let step = cycle::select_side_candidate(&market);
                    selected(config, window, windows, market, step)
                },
                None => match lookup.lookup_market_until_deadline(
                    config,
                    window.close_time_sec,
                    now_sec,
                ) {
                    Some(ms) => (
                        CycleRun { window, phase: CyclePhase::Looking(lookup) },
                        CycleAction::Sleep(ms),
                    ),
                    None => close(
                        window,
                        windows,
                        CycleOutcome::NoTrade,
                        CycleEnd::MarketNotFound,
                    ),
                },
            },
            phase => (CycleRun { window, phase }, CycleAction::Sleep(0)),
        }
    }

    /// A pause is over: the market is looked for again, or the sides are checked again.
    pub fn on_pause_over(self, config: &Config, windows: &mut WindowSet) -> (r: (
        CycleRun,
        CycleAction,
    ))
        requires
            self@.phase is Looking || (self@.phase matches PhaseView::Selecting { selection, .. }
                && selection is Pausing),
        ensures
            (r.0@, final(windows)@, r.1@) == cycle_pause_over(*config, self@, old(windows)@),
    {
        let window = self.window;
        match self.phase {
            CyclePhase::Selecting(market, selection) => {
                let step = selection.on_pause_over(&market);
                selected(config, window, windows, market, step)
            },
            phase => {
                let slug = window.slug.clone();
                (CycleRun { window, phase }, CycleAction::FetchMarket { slug })
            },
        }
    }

    /// An order book was fetched, or could not be.
    pub fn on_book(
        self,
        config: &Config,
        windows: &mut WindowSet,
        book: &Option<OrderBookSnapshot>,
    ) -> (r: (CycleRun, CycleAction))
        requires
            self@.phase is Selecting,
        ensures
            (r.0@, final(windows)@, r.1@) == after_selection(
                *config,
                self@.window,
                old(windows)@,
                self@.phase->Selecting_market,
                cycle::after_book(
                    *config,
                    self@.phase->Selecting_market,
                    self@.phase->selection,
                    *book,
                ),
            ),
    {
        let window = self.window;
        match self.phase {
            CyclePhase::Selecting(market, selection) => {
                let step = selection.on_book(config, &market, book);
                selected(config, window, windows, market, step)
            },
            phase => (CycleRun { window, phase }, CycleAction::Sleep(0)),
        }
    }

    /// The entry came to a result, or could not be made.
    pub fn on_execution(
        self,
        config: &Config,
        windows: &mut WindowSet,
        execution: Option<ExecutionResult>,
    ) -> (r: (CycleRun, CycleAction))
        requires
            self@.phase is Entering,
        ensures
            (r.0@, final(windows)@, r.1@) == cycle_execution(
                *config,
                self@.window,
                self@.phase->Entering_market,
                self@.phase->Entering_chosen,
                old(windows)@,
                execution,
            ),
    {
        let window = self.window;
        match self.phase {
            CyclePhase::Entering(market, chosen) => match execution {
                None => (
                    CycleRun { window, phase: CyclePhase::Ended(None) },
                    CycleAction::Done(CycleEnd::EntryFailed),
                ),
                Some(e) => match cycle::report_entry(config, windows, &window, &e) {
                    EntryReport::Filled { resolve_target_sec } => (
                        CycleRun { window, phase: CyclePhase::Resolving(market, chosen, e) },
                        CycleAction::Resolve { at_sec: resolve_target_sec },
                    ),
                    EntryReport::NotFilled { reason } => (
                        CycleRun {
                            window,
                            phase: CyclePhase::Ended(Some(CycleOutcome::NoTrade)),
                        },
                        CycleAction::Done(CycleEnd::NotFilled { reason }),
                    ),
                },
            },
            phase => (CycleRun { window, phase }, CycleAction::Sleep(0)),
        }
    }

    /// It was found out how the window ended, or could not be. The trade is recorded under `id`,
    /// and its claim is opened, where claims are made.
    pub fn on_settlement(
        self,
        config: &Config,
        windows: &mut WindowSet,
        open: &mut Table<PendingClaim>,
        settlement: Option<SettlementOutcome>,
        payout_less_spent: Double,
        id: &str,
        timestamp_ms: u64,
    ) -> (r: (CycleRun, CycleAction))
        requires
            self@.phase is Resolving,
            old(open).wf(),
        ensures
            (r.0@, final(windows)@, r.1@) == cycle_settlement(
                self@.window,
                self@.phase->Resolving_chosen,
                old(windows)@,
                settlement,
            ),
            final(open).wf(),
            claim_views(final(open)@) == claims_after(
                *config,
                self@.window,
                self@.phase->Resolving_market,
                claim_views(old(open)@),
                settlement,
                id@,
                timestamp_ms,
            ),
            settlement matches Some(s) ==> (r.1 matches CycleAction::Done(CycleEnd::Settled(record))
                && cycle::is_record(
                record,
                *config,
                self@.window,
                self@.phase->Resolving_market,
                self@.phase->Resolving_chosen,
                self@.phase->execution,
                s,
                payout_less_spent,
                id@,
                timestamp_ms,
            )),
    {
        let window = self.window;
        match self.phase {
            CyclePhase::Resolving(market, chosen, execution) => match settlement {
                None => close(window, windows, CycleOutcome::NoTrade, CycleEnd::Unresolved),
                Some(s) => {
                    let trade = cycle::settle_trade(
                        config,
                        &window,
                        &market,
                        &chosen,
                        &execution,
                        s,
                        payout_less_spent,
                        id,
                        timestamp_ms,
                    );
                    let ghost before = open@;
                    match trade.claim {
                        Some(claim) => {
                            open.insert(id, claim);
                            assert(claim_views(open@) =~= claim_views(before).insert(
                                id@,
                                claims::pending_view(claim),
                            ));
                        },
                        None => {},
                    }
                    close(window, windows, trade.outcome, CycleEnd::Settled(trade.record))
                },
            },
            phase => (CycleRun { window, phase }, CycleAction::Sleep(0)),
        }
    }
}

// ---------------------------------------------------------------------------
// Whole cycles
// ---------------------------------------------------------------------------

/// What can happen in a cycle.
pub enum CycleEvent {
    Clock(u64),
    Market { found: Option<DiscoveredMarket>, now_sec: u64 },
    PauseOver,
    Book(Option<OrderBookSnapshot>),
    Execution(Option<ExecutionResult>),
    Settlement { settlement: Option<SettlementOutcome>, id: Seq<char>, timestamp_ms: u64 },
}

/// A cycle with all that it changes, and how often it had a position entered.
#[verifier::ext_equal]
pub struct CycleTrace {
    pub run: CycleView,
    pub windows: Set<u64>,
    pub claims: Map<Seq<char>, PendingView>,
    pub entries: nat,
}

/// A cycle after a step.
pub open spec fn stepped(t: CycleTrace, step: (CycleView, Set<u64>, CycleMove)) -> CycleTrace {
    CycleTrace {
        run: step.0,
        windows: step.1,
        claims: t.claims,
        entries: if step.2 is Enter {
            t.entries + 1
        } else {
            t.entries
        },
    }
}

/// A cycle after something happened. What it does not wait for is passed over.
pub open spec fn cycle_step(config: Config, t: CycleTrace, event: CycleEvent) -> CycleTrace {
    let window = t.run.window;
    match (t.run.phase, event) {
        (PhaseView::Waiting, CycleEvent::Clock(now_sec)) => stepped(
            t,
            cycle_clock(window, t.windows, now_sec),
        ),
        (PhaseView::Looking { lookup }, CycleEvent::Market { found, now_sec }) => stepped(
            t,
            cycle_market(config, window, lookup, t.windows, found, now_sec),
        ),
        (PhaseView::Looking { .. }, CycleEvent::PauseOver) => stepped(
            t,
            cycle_pause_over(config, t.run, t.windows),
        ),
        (PhaseView::Selecting { selection, .. }, CycleEvent::PauseOver) => if selection
            is Pausing {
            stepped(t, cycle_pause_over(config, t.run, t.windows))
        } else {
            t
        },
        (PhaseView::Selecting { market, selection }, CycleEvent::Book(book)) => stepped(
            t,
            after_selection(
                config,
                window,
                t.windows,
                market,
                cycle::after_book(config, market, selection, book),
            ),
        ),
        (PhaseView::Entering { market, chosen }, CycleEvent::Execution(execution)) => stepped(
            t,
            cycle_execution(config, window, market, chosen, t.windows, execution),
        ),
        (
            PhaseView::Resolving { market, chosen, execution: _ },
            CycleEvent::Settlement { settlement, id, timestamp_ms },
        ) => CycleTrace {
            claims: claims_after(
                config,
                window,
                market,
                t.claims,
                settlement,
                id,
                timestamp_ms,
            ),
            ..stepped(t, cycle_settlement(window, chosen, t.windows, settlement))
        },
        _ => t,
    }
}

/// A cycle after a series of happenings.
pub open spec fn cycle_after(
    config: Config,
    window: MarketWindow,
    windows: Set<u64>,
    open: Map<Seq<char>, PendingView>,
    events: Seq<CycleEvent>,
) -> CycleTrace
    decreases events.len(),
{
    if events.len() == 0 {
        let (run, done, _) = cycle_begin(config, windows, window);
        CycleTrace { run, windows: done, claims: open, entries: 0 }
    } else {
        cycle_step(
            config,
            cycle_after(config, window, windows, open, events.drop_last()),
            events.last(),
        )
    }
}

/// Whether a cycle came to its end without its entry failing.
pub open spec fn finished(t: CycleTrace) -> bool {
    t.run.phase matches PhaseView::Ended(outcome) && outcome is Some
}

/// Whether a position was entered and filled among several happenings.
pub open spec fn was_bought(events: Seq<CycleEvent>) -> bool {
    exists|i: int|
        0 <= i < events.len() && (#[trigger] events[i] matches CycleEvent::Execution(Some(e))
            && cycle::was_filled(e))
}

/// Whatever happens in a cycle: a position is entered once at most, and only where something is
/// traded and the window is not done with; a cycle that comes to its end leaves its window done
/// with; it is won or lost only where a position was entered and filled; and claims are opened
/// only by a trade that is won or lost.
pub proof fn cycle_enters_once_and_marks_its_window(
    config: Config,
    window: MarketWindow,
    windows: Set<u64>,
    open: Map<Seq<char>, PendingView>,
    events: Seq<CycleEvent>,
)
    ensures
        ({
            let t = cycle_after(config, window, windows, open, events);
            &&& t.run.window == window
            &&& t.entries <= 1
            &&& finished(t) ==> t.windows.contains(window.window_start_sec)
            &&& (t.run.phase is Waiting || t.run.phase is Looking || t.run.phase is Selecting)
                ==> t.entries == 0
            &&& (t.run.phase matches PhaseView::Ended(Some(outcome)) && outcome
                != CycleOutcome::NoTrade) ==> t.entries == 1 && was_bought(events)
            &&& t.run.phase is Entering ==> t.entries == 1
            &&& t.run.phase is Resolving ==> t.entries == 1 && was_bought(events)
            &&& !(t.run.phase matches PhaseView::Ended(Some(outcome)) && outcome
                != CycleOutcome::NoTrade) ==> t.claims == open
            &&& windows.contains(window.window_start_sec) || !config.enable_live_trading ==> {
                &&& t.entries == 0
                &&& t.claims == open
                &&& t.run.phase == PhaseView::Ended(Some(CycleOutcome::NoTrade))
            }
        }),
    decreases events.len(),
{
    if events.len() > 0 {
        let head = events.drop_last();
        let event = events.last();
        cycle_enters_once_and_marks_its_window(config, window, windows, open, head);
        let before = cycle_after(config, window, windows, open, head);
        if was_bought(head) {
            let i = choose|i: int|
                0 <= i < head.len() && (#[trigger] head[i] matches CycleEvent::Execution(Some(e))
                    && cycle::was_filled(e));
            assert(events[i] == head[i]);
            assert(was_bought(events));
        }
        if event matches CycleEvent::Execution(Some(e)) && cycle::was_filled(e) {
            assert(events[events.len() - 1] == event);
            assert(was_bought(events));
        }
    }
}

/// A window trades once at most: after a cycle that came to its end, another cycle of the same
/// window enters nothing, opens no claim and comes to no trade.
pub proof fn window_trades_once(
    config: Config,
    window: MarketWindow,
    again: MarketWindow,
    windows: Set<u64>,
    open: Map<Seq<char>, PendingView>,
    first: Seq<CycleEvent>,
    second: Seq<CycleEvent>,
)
    requires
        again.window_start_sec == window.window_start_sec,
        finished(cycle_after(config, window, windows, open, first)),
    ensures
        ({
            let one = cycle_after(config, window, windows, open, first);
            let two = cycle_after(config, again, one.windows, one.claims, second);
            &&& one.entries + two.entries <= 1
            &&& two.entries == 0
            &&& two.claims == one.claims
            &&& two.run.phase == PhaseView::Ended(Some(CycleOutcome::NoTrade))
        }),
{
    cycle_enters_once_and_marks_its_window(config, window, windows, open, first);
    let one = cycle_after(config, window, windows, open, first);
    cycle_enters_once_and_marks_its_window(config, again, one.windows, one.claims, second);
}

/// A cycle of a window that is not done with waits for its time to enter exactly where trading is
/// live; one of a window that is done with ends at once, and so does one without live trading,
/// which leaves the window done with.
pub proof fn cycle_waits_for_its_time(config: Config, windows: Set<u64>, window: MarketWindow)
    requires
        windows.len() < 512,
        config.check_before_close_sec <= window.close_time_sec,
    ensures
        ({
            let (run, done, next) = cycle_begin(config, windows, window);
            let known = windows.contains(window.window_start_sec);
            &&& known <==> next == CycleMove::Done(EndView::AlreadyProcessed)
            &&& !known && !config.enable_live_trading <==> next == CycleMove::Done(
                EndView::LiveTradingDisabled,
            )
            &&& !known && config.enable_live_trading <==> next is WaitUntil
            &&& next is WaitUntil ==> next == CycleMove::WaitUntil(
                (window.close_time_sec - config.check_before_close_sec) as u64,
            ) && done == windows && run.phase is Waiting
            &&& next is Done ==> done.contains(window.window_start_sec) && run.phase
                == PhaseView::Ended(Some(CycleOutcome::NoTrade))
        }),
{
}

/// When the time to enter has come, the market of the window is looked for exactly where the window
/// is not closed.
pub proof fn open_window_is_looked_up(window: MarketWindow, windows: Set<u64>, now_sec: u64)
    ensures
        ({
            let (run, done, next) = cycle_clock(window, windows, now_sec);
            &&& now_sec < window.close_time_sec <==> next == (CycleMove::FetchMarket {
                slug: window.slug@,
            })
            &&& now_sec < window.close_time_sec ==> done == windows && run.phase is Looking
            &&& now_sec >= window.close_time_sec ==> next == CycleMove::Done(EndView::WindowClosed)
                && done == windows.insert(window.window_start_sec)
        }),
{
}

/// A market that was found is looked at for a side; one that was not is looked for again after a
/// pause while there is time, and given up otherwise.
pub proof fn market_is_looked_for_again_while_there_is_time(
    config: Config,
    window: MarketWindow,
    windows: Set<u64>,
    found: Option<DiscoveredMarket>,
    started_sec: u64,
    now_sec: u64,
)
    requires
        started_sec <= now_sec,
        now_sec * 1000 <= u64::MAX,
        found matches Some(m) ==> crate::text::trimmed(m.yes_token_id@).len() > 0,
    ensures
        ({
            let lookup = MarketLookup { started_at_ms: cycle::in_ms(started_sec) };
            let (run, done, next) = cycle_market(config, window, lookup, windows, found, now_sec);
            let over = (now_sec - started_sec) * 1000 >= config.market_lookup_max_wait_ms || now_sec
                >= window.close_time_sec;
            &&& found matches Some(m) ==> next == (CycleMove::FetchBook {
                side: MarketSide::Up,
                token_id: m.yes_token_id@,
            }) && done == windows
            &&& found is None && !over ==> next == CycleMove::Sleep(config.market_poll_interval_ms)
                && done == windows && run.phase is Looking
            &&& found is None && over ==> next == CycleMove::Done(EndView::MarketNotFound) && done
                == windows.insert(window.window_start_sec)
        }),
{
    cycle::market_is_looked_for_as_long_as_allowed(
        config,
        window.close_time_sec,
        started_sec,
        now_sec,
    );
}

/// A side that was chosen is entered for the whole stake and until the close; without a side the
/// cycle ends and its window is done with.
pub proof fn chosen_side_is_entered_for_the_stake(
    config: Config,
    window: MarketWindow,
    windows: Set<u64>,
    market: DiscoveredMarket,
    selection: SideSelection,
    chosen: Option<CandidateView>,
)
    ensures
        ({
            let (run, done, next) = after_selection(
                config,
                window,
                windows,
                market,
                (selection, SelectMove::Done(chosen)),
            );
            &&& chosen matches Some(c) ==> next == (CycleMove::Enter {
                chosen: c,
                stake_usd: config.stake_usd,
                close_time_sec: window.close_time_sec,
            }) && done == windows && run.phase == (PhaseView::Entering { market, chosen: c })
            &&& chosen is None ==> next == CycleMove::Done(EndView::NoCandidate) && done
                == windows.insert(window.window_start_sec) && run.phase == PhaseView::Ended(
                Some(CycleOutcome::NoTrade),
            )
        }),
{
}

/// An entry that bought something is settled when the delay after the close is over; its window
/// stays open until then. One that bought nothing ends the cycle without a trade, and its window is
/// done with. One that failed ends it without an outcome, and the window may be tried again.
pub proof fn bought_position_is_settled_after_the_close(
    config: Config,
    window: MarketWindow,
    market: DiscoveredMarket,
    chosen: CandidateView,
    windows: Set<u64>,
    execution: Option<ExecutionResult>,
)
    requires
        execution matches Some(e) ==> e.filled_size.finite() && e.spent_usd.finite(),
        window.close_time_sec + config.resolve_delay_sec <= u64::MAX,
    ensures
        ({
            let (run, done, next) = cycle_execution(
                config,
                window,
                market,
                chosen,
                windows,
                execution,
            );
            let bought = execution is Some && execution->Some_0.filled_size.units() > 0
                && execution->Some_0.spent_usd.units() > 0;
            &&& bought <==> next is Resolve
            &&& bought ==> next == (CycleMove::Resolve {
                at_sec: (window.close_time_sec + config.resolve_delay_sec) as u64,
            }) && done == windows && run.phase == (PhaseView::Resolving {
                market,
                chosen,
                execution: execution->Some_0,
            })
            &&& execution is Some && !bought ==> (next matches CycleMove::Done(end)
                && end is NotFilled) && done == windows.insert(window.window_start_sec)
                && run.phase == PhaseView::Ended(Some(CycleOutcome::NoTrade))
            &&& execution is None ==> next == CycleMove::Done(EndView::EntryFailed) && done
                == windows && run.phase == PhaseView::Ended(None)
        }),
{
    if execution is Some {
        cycle::bought_is_what_has_size_and_cost(config, window, execution->Some_0);
    }
}

/// A trade is won exactly where the chosen side is the one that the window ended on, and lost where
/// it is the other; where that is not known there is no trade. The window is done with in any case,
/// and a claim is opened exactly where the trade was settled and claims are made.
pub proof fn side_that_the_window_ended_on_wins(
    config: Config,
    window: MarketWindow,
    market: DiscoveredMarket,
    chosen: CandidateView,
    windows: Set<u64>,
    open: Map<Seq<char>, PendingView>,
    settlement: Option<SettlementOutcome>,
    id: Seq<char>,
    timestamp_ms: u64,
)
    requires
        !open.contains_key(id),
    ensures
        ({
            let (run, done, next) = cycle_settlement(window, chosen, windows, settlement);
            let after = claims_after(config, window, market, open, settlement, id, timestamp_ms);
            &&& run.phase == PhaseView::Ended(Some(CycleOutcome::Win)) <==> settlement is Some
                && settlement->Some_0.outcome == chosen.side
            &&& run.phase == PhaseView::Ended(Some(CycleOutcome::Loss)) <==> settlement is Some
                && settlement->Some_0.outcome != chosen.side
            &&& settlement is None <==> next == CycleMove::Done(EndView::Unresolved)
            &&& settlement is Some <==> next == CycleMove::Done(EndView::Settled)
            &&& done == windows.insert(window.window_start_sec)
            &&& after.contains_key(id) <==> settlement is Some && config.enable_live_trading
                && config.on_chain_auto_claim_enabled
            &&& forall|other: Seq<char>| #[trigger]
                open.contains_key(other) ==> after.contains_key(other) && after[other]
                    == open[other]
            &&& after.contains_key(id) ==> after[id].trade_id == id && after[id].condition_id
                == market.condition_id@ && after[id].claim_attempts == 0
        }),
{
}

/// When a pause is over, what was paused goes on: a look for a market with another one, and a choice of
/// a side with the rising side again, its repetitions counted.
pub proof fn paused_cycle_goes_on(
    config: Config,
    run: CycleView,
    windows: Set<u64>,
    market: DiscoveredMarket,
    retries: u64,
)
    requires
        run.phase is Looking || run.phase == (PhaseView::Selecting {
            market,
            selection: SideSelection::Pausing { retries },
        }),
        crate::text::trimmed(market.yes_token_id@).len() > 0,
    ensures
        ({
            let (after, done, next) = cycle_pause_over(config, run, windows);
            &&& done == windows && after.window == run.window
            &&& run.phase is Looking ==> next == (CycleMove::FetchMarket { slug: run.window.slug@ })
                && after == run
            &&& run.phase is Selecting ==> next == (CycleMove::FetchBook {
                side: MarketSide::Up,
                token_id: market.yes_token_id@,
            }) && after.phase == (PhaseView::Selecting {
                market,
                selection: SideSelection::UpAsked { retries },
            })
        }),
{
}

/// A cycle takes each event in the phase that it belongs to, and an event in another phase changes
/// nothing; an entry is counted exactly where one is begun.
pub proof fn events_are_taken_in_their_phase(config: Config, t: CycleTrace, event: CycleEvent)
    ensures
        ({
            let after = cycle_step(config, t, event);
            &&& t.run.phase is Ended ==> after == t
            &&& event is Clock && !(t.run.phase is Waiting) ==> after == t
            &&& event is Market && !(t.run.phase is Looking) ==> after == t
            &&& event is Book && !(t.run.phase is Selecting) ==> after == t
            &&& event is Execution && !(t.run.phase is Entering) ==> after == t
            &&& event is Settlement && !(t.run.phase is Resolving) ==> after == t
            &&& t.run.phase is Waiting ==> (event matches CycleEvent::Clock(now_sec) ==> (after.run,
                after.windows) == (
                cycle_clock(t.run.window, t.windows, now_sec).0,
                cycle_clock(t.run.window, t.windows, now_sec).1,
            ))
            &&& t.run.phase matches PhaseView::Entering { market, chosen } ==> (event matches
                CycleEvent::Execution(execution) ==> after.run == cycle_execution(
                config,
                t.run.window,
                market,
                chosen,
                t.windows,
                execution,
            ).0)
            &&& t.run.phase matches PhaseView::Resolving { market, chosen, execution } ==> (
            event matches CycleEvent::Settlement { settlement, id, timestamp_ms } ==> after.run
                == cycle_settlement(t.run.window, chosen, t.windows, settlement).0 && after.claims
                == claims_after(
                config,
                t.run.window,
                market,
                t.claims,
                settlement,
                id,
                timestamp_ms,
            ))
            &&& !(event is Settlement) ==> after.claims == t.claims
            &&& after.entries == t.entries || after.entries == t.entries + 1
            &&& after.entries == t.entries + 1 <==> after.run.phase is Entering
                && !(t.run.phase is Entering)
        }),
{
}

} // verus!
