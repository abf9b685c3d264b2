//! Five-minute windows and the clock.
use vstd::prelude::*;
use crate::text;
use crate::types::MarketWindow;

verus! {

/// How long a window lasts, in seconds.
pub const WINDOW_SEC: u64 = 300;

/// Calls `SystemTime::now` and `SystemTime::duration_since` for the seconds since the Unix epoch,
/// or zero where the clock stands before it. Nothing is claimed of what the clock says.
#[verifier::external_body]
pub fn now_sec() -> u64 {
    std::time::SystemTime::now().duration_since(std::time::UNIX_EPOCH).unwrap_or_default().as_secs()
}

/// The start of the window that a time lies in.
pub open spec fn window_start(at_sec: u64) -> u64 {
    ((at_sec / WINDOW_SEC) * WINDOW_SEC) as u64
}

/// The start of the window that a time lies in; that of the present where none is given.
pub fn get_current_window_start_sec(at_sec: Option<u64>) -> (r: u64)
    ensures
        at_sec matches Some(n) ==> r == window_start(n),
        exists|n: u64| r == window_start(n),
{
    let n: u64 = match at_sec {
        Some(n) => n,
        None => now_sec(),
    };
    assert((n / WINDOW_SEC) * WINDOW_SEC <= n) by (nonlinear_arith)
        requires
            WINDOW_SEC == 300,
    ;
    let r: u64 = (n / WINDOW_SEC) * WINDOW_SEC;
    assert(r == window_start(n));
    r
}

/// The name of a window's market.
pub open spec fn slug_of(window_start_sec: u64) -> Seq<char> {
    "btc-updown-5m-"@ + text::decimal(window_start_sec as nat)
}

pub fn get_market_slug(window_start_sec: u64) -> (r: String)
    ensures
        r@ == slug_of(window_start_sec),
{
    let mut out = "btc-updown-5m-".to_owned();
    out.append(text::decimal_u64(window_start_sec).as_str());
    out
}

/// A window by its start.
pub open spec fn is_window(window: MarketWindow, start: u64) -> bool {
    &&& window.window_start_sec == start
    &&& window.close_time_sec == (if start + WINDOW_SEC > u64::MAX {
        u64::MAX as int
    } else {
        start + WINDOW_SEC
    })
    &&& window.slug@ == slug_of(start)
}

/// The window that a time lies in; that of the present where none is given.
pub fn build_window(at_sec: Option<u64>) -> (r: MarketWindow)
    requires
        at_sec matches Some(n) ==> window_start(n) + WINDOW_SEC <= u64::MAX,
    ensures
        at_sec matches Some(n) ==> is_window(r, window_start(n)),
        exists|n: u64| is_window(r, window_start(n)),
{
    let window_start_sec: u64 = get_current_window_start_sec(at_sec);
    let window = MarketWindow {
        window_start_sec,
        close_time_sec: window_start_sec.saturating_add(WINDOW_SEC),
        slug: get_market_slug(window_start_sec),
    };
    proof {
        let n = choose|n: u64| window_start_sec == window_start(n);
        assert(is_window(window, window_start(n)));
    }
    window
}

/// A window starts at a multiple of its length, holds the time it was asked for, and is the
/// window of every time in it.
pub proof fn window_holds_its_time(at_sec: u64, other: u64)
    ensures
        window_start(at_sec) as int % WINDOW_SEC as int == 0,
        window_start(at_sec) <= at_sec < window_start(at_sec) + WINDOW_SEC,
        window_start(at_sec) <= other < window_start(at_sec) + WINDOW_SEC ==> window_start(other)
            == window_start(at_sec),
{
    assert(at_sec / WINDOW_SEC * WINDOW_SEC <= at_sec < at_sec / WINDOW_SEC * WINDOW_SEC
        + WINDOW_SEC) by (nonlinear_arith)
        requires
            WINDOW_SEC == 300,
    ;
    assert((at_sec / WINDOW_SEC * WINDOW_SEC) % WINDOW_SEC as int == 0) by (nonlinear_arith)
        requires
            WINDOW_SEC == 300,
    ;
}

/// Two windows have the same name only if they are the same.
pub proof fn slugs_are_unique(a: u64, b: u64)
    requires
        slug_of(a) == slug_of(b),
    ensures
        a == b,
{
    let prefix = "btc-updown-5m-"@;
    let x = text::decimal(a as nat);
    let y = text::decimal(b as nat);
    assert((prefix + x).skip(prefix.len() as int) =~= x);
    assert((prefix + y).skip(prefix.len() as int) =~= y);
    text::decimal_round_trip(a as nat);
    text::decimal_round_trip(b as nat);
}

/// How long to sleep before the clock is looked at again, while a time is still to come: what is
/// left, but no less than a twentieth of a second and no more than a second.
pub open spec fn slice_ms(now_sec: u64, target_sec: u64) -> Option<u64> {
    if now_sec >= target_sec {
        None
    } else {
        let left = (target_sec - now_sec) * 1000;
        Some(
            if left > 1000 {
                1000u64
            } else if left < 50 {
                50u64
            } else {
                left as u64
            },
        )
    }
}

pub fn sleep_slice_ms(now_sec: u64, target_sec: u64) -> (r: Option<u64>)
    ensures
        r == slice_ms(now_sec, target_sec),
{
    if now_sec >= target_sec {
        return None;
    }
    let left: u128 = (target_sec - now_sec) as u128 * 1000;
    if left > 1000 {
        Some(1000)
    } else if left < 50 {
        Some(50)
    } else {
        Some(left as u64)
    }
}

/// A window lasts three hundred seconds: it starts at a multiple of them and closes when they are
/// over, and every time lies in the window that it is given.
pub proof fn window_lasts_five_minutes(window: MarketWindow, at_sec: u64)
    requires
        is_window(window, window_start(at_sec)),
        at_sec + 300 <= u64::MAX,
    ensures
        window.window_start_sec as int % 300 == 0,
        window.window_start_sec <= at_sec < window.close_time_sec,
        window.close_time_sec == window.window_start_sec + 300,
        text::begins_with(window.slug@, "btc-updown-5m-"@),
        text::number_of(window.slug@.skip("btc-updown-5m-"@.len() as int))
            == window.window_start_sec,
{
    window_holds_its_time(at_sec, at_sec);
    let prefix = "btc-updown-5m-"@;
    let numeral = text::decimal(window.window_start_sec as nat);
    text::decimal_round_trip(window.window_start_sec as nat);
    assert((prefix + numeral).skip(prefix.len() as int) =~= numeral);
    assert((prefix + numeral).subrange(0, prefix.len() as int) =~= prefix);
}

/// While a time is still to come the clock is looked at every second, and no longer once it has
/// come.
pub proof fn clock_is_looked_at_every_second(now_sec: u64, target_sec: u64)
    ensures
        now_sec < target_sec ==> slice_ms(now_sec, target_sec) == Some(1000u64),
        now_sec >= target_sec ==> slice_ms(now_sec, target_sec) is None,
{
}

} // verus!
