//! The rounds of the bot: whether it may trade, and what a loss leads to.
use vstd::prelude::*;
use crate::notifications::telegram_notifier;
use crate::notifications::telegram_notifier::TelegramNotifier;
use crate::orchestrator::cycle::CycleOutcome;
use crate::text;
use crate::types::Config;

verus! {

/// What the bot is doing.
#[derive(Clone, Copy, Debug, PartialEq, Eq, Structural)]
pub enum RuntimeStage {
    Boot,
    Idle,
    Cycle,
    WaitT10,
    LookupMarket,
    WaitResolve,
    Resolving,
    ClaimSweep,
}

/// How long a round waits while trading is paused or cools down, in milliseconds.
pub const PAUSE_POLL_MS: u64 = 2_000;

/// What the bot remembers from round to round.
#[derive(Clone, Copy, Debug, PartialEq, Eq, Structural)]
pub struct RunState {
    pub pause_notice_sent: bool,
    pub losses_since_resume: u64,
    pub paused_by_loss_limit: bool,
    pub loss_cooldown_until_sec: Option<u64>,
}

/// What a round does.
#[derive(Clone, Copy, Debug, PartialEq, Eq, Structural)]
pub enum RoundAction {
    /// Wait for so many milliseconds.
    Wait(u64),
    /// Run a cycle.
    RunCycle,
}

/// A round: what is said first, and what is done.
pub struct RoundPlan {
    pub notices: Vec<String>,
    pub action: RoundAction,
}

/// The state after a look at the pause.
pub open spec fn after_pause_check(state: RunState, paused: bool) -> RunState {
    if paused {
        RunState { pause_notice_sent: true, ..state }
    } else if state.pause_notice_sent {
        RunState {
            pause_notice_sent: false,
            paused_by_loss_limit: false,
            losses_since_resume: if state.paused_by_loss_limit {
                0
            } else {
                state.losses_since_resume
            },
            ..state
        }
    } else {
        state
    }
}

/// Whether trading still cools down.
pub open spec fn cools_down(state: RunState, now_sec: u64) -> bool {
    state.loss_cooldown_until_sec matches Some(until) && now_sec < until
}

/// The state after a round has begun.
pub open spec fn round_state(state: RunState, paused: bool, now_sec: u64) -> RunState {
    let checked = after_pause_check(state, paused);
    if paused || cools_down(state, now_sec) {
        checked
    } else {
        RunState { loss_cooldown_until_sec: None, ..checked }
    }
}

/// What a round does.
pub open spec fn round_action(state: RunState, paused: bool, now_sec: u64) -> RoundAction {
    if paused || cools_down(state, now_sec) {
        RoundAction::Wait(PAUSE_POLL_MS)
    } else {
        RoundAction::RunCycle
    }
}

/// What is said at the beginning of a round.
pub open spec fn round_notices(state: RunState, paused: bool, now_sec: u64) -> Seq<Seq<char>> {
    if paused {
        Seq::empty()
    } else {
        (if state.pause_notice_sent && state.paused_by_loss_limit {
            seq!["[POLYMARKET BOT LOSS GUARD RESET]\nlosses   : 0\nstate    : RUNNING"@]
        } else {
            Seq::empty()
        }) + (if state.loss_cooldown_until_sec is Some && !cools_down(state, now_sec) {
            seq!["[POLYMARKET BOT LOSS COOLDOWN END]\nstate    : RUNNING"@]
        } else {
            Seq::empty()
        })
    }
}

impl RunState {
    pub fn new() -> (r: RunState)
        ensures
            r == (RunState {
                pause_notice_sent: false,
                losses_since_resume: 0,
                paused_by_loss_limit: false,
                loss_cooldown_until_sec: None,
            }),
    {
        RunState {
            pause_notice_sent: false,
            losses_since_resume: 0,
            paused_by_loss_limit: false,
            loss_cooldown_until_sec: None,
        }
    }
}

/// What a run of a single round does.
#[derive(Clone, Copy, Debug, PartialEq, Eq, Structural)]
pub struct SinglePlan {
    /// Whether a cycle is run.
    pub cycle: bool,
    /// Whether the pending claims are looked at once the cycle has come to its end.
    pub sweep: bool,
}

/// Plans a run of a single round: nothing while trading is paused, and otherwise one cycle, with a
/// look at the claims behind it where they are managed.
pub fn single_round(paused: bool, claims_enabled: bool) -> (r: SinglePlan)
    ensures
        r.cycle == !paused,
        r.sweep == (!paused && claims_enabled),
{
    SinglePlan { cycle: !paused, sweep: !paused && claims_enabled }
}

/// Begins a round.
pub fn run_orchestrator(state: &mut RunState, paused: bool, now_sec: u64) -> (r: RoundPlan)
    ensures
        *final(state) == round_state(*old(state), paused, now_sec),
        r.action == round_action(*old(state), paused, now_sec),
        text::texts(r.notices@) == round_notices(*old(state), paused, now_sec),
{
    let mut notices: Vec<String> = Vec::new();
    assert(text::texts(notices@) =~= Seq::<Seq<char>>::empty());
    if paused {
        state.pause_notice_sent = true;
        return RoundPlan { notices, action: RoundAction::Wait(PAUSE_POLL_MS) };
    }
    let ghost empty = Seq::<Seq<char>>::empty();
    let ghost mut said = empty;
    if state.pause_notice_sent {
        state.pause_notice_sent = false;
        if state.paused_by_loss_limit {
            state.paused_by_loss_limit = false;
            state.losses_since_resume = 0;
            notices.push(
                "[POLYMARKET BOT LOSS GUARD RESET]\nlosses   : 0\nstate    : RUNNING".to_owned(),
            );
            proof {
                said = seq!["[POLYMARKET BOT LOSS GUARD RESET]\nlosses   : 0\nstate    : RUNNING"@];
            }
        }
    }
    assert(text::texts(notices@) =~= said);
    match state.loss_cooldown_until_sec {
        Some(until) => {
            if now_sec < until {
                assert(said + empty =~= said);
                return RoundPlan { notices, action: RoundAction::Wait(PAUSE_POLL_MS) };
            }
            state.loss_cooldown_until_sec = None;
            notices.push("[POLYMARKET BOT LOSS COOLDOWN END]\nstate    : RUNNING".to_owned());
            proof {
                let last = seq!["[POLYMARKET BOT LOSS COOLDOWN END]\nstate    : RUNNING"@];
                assert(text::texts(notices@) =~= said + last);
            }
        },
        None => {
            assert(said + empty =~= said);
        },
    }
    RoundPlan { notices, action: RoundAction::RunCycle }
}

/// Nothing is traded while trading is paused or cools down, and everything else is traded.
pub proof fn trades_only_when_allowed(state: RunState, paused: bool, now_sec: u64)
    ensures
        round_action(state, paused, now_sec) == RoundAction::RunCycle <==> !paused && !(
        state.loss_cooldown_until_sec matches Some(until) && now_sec < until),
{
}

// ---------------------------------------------------------------------------
// Losses
// ---------------------------------------------------------------------------

/// One more loss, within the range of the type.
pub open spec fn one_more(losses: u64) -> u64 {
    if losses == u64::MAX {
        u64::MAX
    } else {
        (losses + 1) as u64
    }
}

/// Whether a loss is one too many. Trading that is paused already is left as it is.
pub open spec fn guard_triggers(config: Config, losses: u64, paused: bool) -> bool {
    config.total_loss_trades > 0 && losses >= config.total_loss_trades && !paused
}

/// When trading goes on after a loss.
pub open spec fn cooldown_end(config: Config, now_sec: u64) -> u64 {
    if now_sec + config.loss_cooldown_minutes * 60 > u64::MAX {
        u64::MAX
    } else {
        (now_sec + config.loss_cooldown_minutes * 60) as u64
    }
}

/// Losses out of those that are allowed.
pub open spec fn loss_count(config: Config, losses: u64) -> Seq<char> {
    text::decimal(losses as nat) + "/"@ + text::decimal(config.total_loss_trades as nat)
}

/// The state after a cycle.
pub open spec fn after_outcome(
    state: RunState,
    config: Config,
    paused: bool,
    outcome: CycleOutcome,
    now_sec: u64,
) -> RunState {
    if outcome == CycleOutcome::Loss {
        let losses = one_more(state.losses_since_resume);
        if guard_triggers(config, losses, paused) {
            RunState { losses_since_resume: losses, paused_by_loss_limit: true, ..state }
        } else if config.loss_cooldown_minutes > 0 {
            RunState {
                losses_since_resume: losses,
                loss_cooldown_until_sec: Some(cooldown_end(config, now_sec)),
                ..state
            }
        } else {
            RunState { losses_since_resume: losses, ..state }
        }
    } else {
        state
    }
}

/// What is said after a cycle.
pub open spec fn outcome_notices(
    state: RunState,
    config: Config,
    paused: bool,
    outcome: CycleOutcome,
) -> Seq<Seq<char>> {
    if outcome == CycleOutcome::Loss {
        let losses = one_more(state.losses_since_resume);
        if guard_triggers(config, losses, paused) {
            seq![
                telegram_notifier::pause_notice(
                    true,
                    Some("loss trades reached "@ + loss_count(config, losses)),
                ),
                "[POLYMARKET BOT LOSS GUARD]\nlosses   : "@ + loss_count(config, losses)
                    + "\nnext step: send /resume to continue"@,
            ]
        } else if config.loss_cooldown_minutes > 0 {
            seq![
                "[POLYMARKET BOT LOSS COOLDOWN]\nminutes  : "@ + text::decimal(
                    config.loss_cooldown_minutes as nat,
                ) + "\nnext step: waiting before next entry"@,
            ]
        } else {
            Seq::empty()
        }
    } else {
        Seq::empty()
    }
}

fn count_losses(config: &Config, losses: u64) -> (r: String)
    ensures
        r@ == loss_count(*config, losses),
{
    let mut out = text::decimal_u64(losses);
    out.append("/");
    out.append(text::decimal_u64(config.total_loss_trades).as_str());
    out
}

/// Takes in what a cycle came to: losses pause trading when there are too many, and else let it
/// cool down.
pub fn finish_cycle(
    state: &mut RunState,
    config: &Config,
    notifier: &mut TelegramNotifier,
    outcome: CycleOutcome,
    now_sec: u64,
) -> (r: Vec<String>)
    ensures
        *final(state) == after_outcome(*old(state), *config, old(notifier)@.paused, outcome, now_sec),
        text::texts(r@) == outcome_notices(*old(state), *config, old(notifier)@.paused, outcome),
        final(notifier)@ == telegram_notifier::with_pause(
            old(notifier)@,
            old(notifier)@.paused || outcome == CycleOutcome::Loss && guard_triggers(
                *config,
                one_more(old(state).losses_since_resume),
                old(notifier)@.paused,
            ),
        ),
{
    let mut notices: Vec<String> = Vec::new();
    assert(text::texts(notices@) =~= Seq::<Seq<char>>::empty());
    match outcome {
        CycleOutcome::Loss => {},
        _ => {
            return notices;
        },
    }
    let losses: u64 = state.losses_since_resume.saturating_add(1);
    state.losses_since_resume = losses;
    if config.total_loss_trades > 0 && losses >= config.total_loss_trades && !notifier.is_paused() {
        state.paused_by_loss_limit = true;
        let count = count_losses(config, losses);
        let mut reason = "loss trades reached ".to_owned();
        reason.append(count.as_str());
        match notifier.set_paused(true, Some(reason.as_str())) {
            Some(notice) => {
                notices.push(notice);
            },
            None => {},
        }
        let mut message = "[POLYMARKET BOT LOSS GUARD]\nlosses   : ".to_owned();
        message.append(count.as_str());
        message.append("\nnext step: send /resume to continue");
        notices.push(message);
        assert(text::texts(notices@) =~= outcome_notices(
            *old(state),
            *config,
            old(notifier)@.paused,
            outcome,
        ));
        return notices;
    }
    if config.loss_cooldown_minutes > 0 {
        let end: u128 = now_sec as u128 + config.loss_cooldown_minutes as u128 * 60;
        let until: u64 = if end > u64::MAX as u128 {
            u64::MAX
        } else {
            end as u64
        };
        state.loss_cooldown_until_sec = Some(until);
        let mut message = "[POLYMARKET BOT LOSS COOLDOWN]\nminutes  : ".to_owned();
        message.append(text::decimal_u64(config.loss_cooldown_minutes).as_str());
        message.append("\nnext step: waiting before next entry");
        notices.push(message);
        assert(text::texts(notices@) =~= outcome_notices(
            *old(state),
            *config,
            old(notifier)@.paused,
            outcome,
        ));
    }
    notices
}

/// Once there are as many losses as are allowed, nothing is traded until the pause is lifted, and
/// then the count begins anew.
pub proof fn loss_limit_holds_until_resume(
    state: RunState,
    config: Config,
    losing_sec: u64,
    paused_sec: u64,
    resumed_sec: u64,
)
    requires
        config.total_loss_trades > 0,
        one_more(state.losses_since_resume) >= config.total_loss_trades,
    ensures
        ({
            let lost = after_outcome(state, config, false, CycleOutcome::Loss, losing_sec);
            let waiting = round_state(lost, true, paused_sec);
            let resumed = round_state(waiting, false, resumed_sec);
            &&& round_action(lost, true, paused_sec) == RoundAction::Wait(PAUSE_POLL_MS)
            &&& resumed.losses_since_resume == 0
            &&& !resumed.paused_by_loss_limit
        }),
{
}

/// After a loss that does not pause trading, nothing is traded until the cooldown is over.
pub proof fn cooldown_holds(state: RunState, config: Config, paused: bool, lost_sec: u64, now_sec: u64)
    requires
        config.loss_cooldown_minutes > 0,
        !guard_triggers(config, one_more(state.losses_since_resume), paused),
        now_sec < cooldown_end(config, lost_sec),
    ensures
        round_action(
            after_outcome(state, config, paused, CycleOutcome::Loss, lost_sec),
            paused,
            now_sec,
        ) == RoundAction::Wait(PAUSE_POLL_MS),
{
}

/// A loss is counted, and nothing else is. Once there are as many losses as are allowed trading is
/// paused, unless it is paused already; a loss before that lets trading cool down for the set number
/// of minutes.
pub proof fn losses_are_counted_and_limited(
    state: RunState,
    config: Config,
    paused: bool,
    outcome: CycleOutcome,
    now_sec: u64,
)
    requires
        state.losses_since_resume < u64::MAX,
        now_sec + config.loss_cooldown_minutes * 60 <= u64::MAX,
    ensures
        ({
            let after = after_outcome(state, config, paused, outcome, now_sec);
            let lost = outcome == CycleOutcome::Loss;
            let limited = lost && !paused && config.total_loss_trades > 0
                && state.losses_since_resume + 1 >= config.total_loss_trades;
            &&& !lost ==> after == state
            &&& lost ==> after.losses_since_resume == state.losses_since_resume + 1
            &&& limited ==> after.paused_by_loss_limit && after.loss_cooldown_until_sec
                == state.loss_cooldown_until_sec
            &&& !limited ==> after.paused_by_loss_limit == state.paused_by_loss_limit
            &&& lost && !limited && config.loss_cooldown_minutes > 0
                ==> after.loss_cooldown_until_sec == Some(
                (now_sec + config.loss_cooldown_minutes * 60) as u64,
            )
            &&& lost && !limited && config.loss_cooldown_minutes == 0
                ==> after.loss_cooldown_until_sec == state.loss_cooldown_until_sec
            &&& after.pause_notice_sent == state.pause_notice_sent
            &&& outcome_notices(state, config, paused, outcome).len() == (if limited {
                2nat
            } else if lost && config.loss_cooldown_minutes > 0 {
                1nat
            } else {
                0nat
            })
        }),
{
}

/// A round trades exactly where trading is neither paused nor cooling down, and waits two seconds
/// otherwise. A cooldown that is over is forgotten; losses are forgotten exactly where a pause that
/// they had caused is lifted.
pub proof fn rounds_resume_where_the_pause_ends(state: RunState, paused: bool, now_sec: u64)
    ensures
        ({
            let after = round_state(state, paused, now_sec);
            let next = round_action(state, paused, now_sec);
            let cooling = state.loss_cooldown_until_sec matches Some(until) && now_sec < until;
            let resumed = !paused && state.pause_notice_sent;
            &&& !paused && !cooling <==> next == RoundAction::RunCycle
            &&& paused || cooling <==> next == RoundAction::Wait(2_000)
            &&& after.pause_notice_sent == paused
            &&& after.losses_since_resume == (if resumed && state.paused_by_loss_limit {
                0
            } else {
                state.losses_since_resume
            })
            &&& after.paused_by_loss_limit == (state.paused_by_loss_limit && !resumed)
            &&& after.loss_cooldown_until_sec == (if !paused && !cooling {
                None
            } else {
                state.loss_cooldown_until_sec
            })
        }),
{
}

/// The end of a pause by losses and the end of a cooldown are told, each where it comes about and
/// before the round goes on; nothing is told while trading is paused.
pub proof fn ends_of_pauses_are_told(state: RunState, paused: bool, now_sec: u64)
    ensures
        ({
            let told = round_notices(state, paused, now_sec);
            let reset = !paused && state.pause_notice_sent && state.paused_by_loss_limit;
            let cooled = !paused && state.loss_cooldown_until_sec is Some && now_sec
                >= state.loss_cooldown_until_sec->Some_0;
            let first = "[POLYMARKET BOT LOSS GUARD RESET]\nlosses   : 0\nstate    : RUNNING"@;
            let second = "[POLYMARKET BOT LOSS COOLDOWN END]\nstate    : RUNNING"@;
            &&& reset && cooled ==> told == seq![first, second]
            &&& reset && !cooled ==> told == seq![first]
            &&& !reset && cooled ==> told == seq![second]
            &&& !reset && !cooled ==> told.len() == 0
        }),
{
}

/// A loss that reaches the limit is told with the number of losses and how to go on, and the pause with
/// its reason; one that only lets trading cool down is told with the minutes.
pub proof fn losses_are_told(state: RunState, config: Config)
    requires
        state.losses_since_resume < u64::MAX,
    ensures
        ({
            let told = outcome_notices(state, config, false, CycleOutcome::Loss);
            let count = text::decimal((state.losses_since_resume + 1) as nat) + "/"@
                + text::decimal(config.total_loss_trades as nat);
            let limited = config.total_loss_trades > 0 && state.losses_since_resume + 1
                >= config.total_loss_trades;
            &&& limited ==> told.len() == 2 && told[0] == telegram_notifier::pause_notice(
                true,
                Some("loss trades reached "@ + count),
            ) && told[1] == "[POLYMARKET BOT LOSS GUARD]\nlosses   : "@ + count
                + "\nnext step: send /resume to continue"@
            &&& !limited && config.loss_cooldown_minutes > 0 ==> told
                == seq![
                "[POLYMARKET BOT LOSS COOLDOWN]\nminutes  : "@ + text::decimal(
                    config.loss_cooldown_minutes as nat,
                ) + "\nnext step: waiting before next entry"@,
            ]
            &&& outcome_notices(state, config, false, CycleOutcome::Win).len() == 0
            &&& outcome_notices(state, config, false, CycleOutcome::NoTrade).len() == 0
        }),
{
}

} // verus!
