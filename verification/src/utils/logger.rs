//! The lines of the log.
use vstd::prelude::*;

verus! {

/// How a time is written: the milliseconds since the epoch, in the zone that many seconds east,
/// after a pattern. Nothing where there is no such time or zone.
pub uninterp spec fn formatted_time(millis: int, offset_seconds: int, pattern: Seq<char>) -> Option<
    Seq<char>,
>;

/// Calls `FixedOffset::east_opt`, `DateTime::from_timestamp_millis`, `DateTime::with_timezone` and
/// `DateTime::format`. What is written is a function of the three arguments and is named
/// [`formatted_time`]. There is something where the zone is less than a day off and the time, not
/// before the epoch, lies before the year 262143.
#[verifier::external_body]
fn format_time(millis: i64, offset_seconds: i32, pattern: &str) -> (r: Option<String>)
    requires
        pattern@ == "%Y-%m-%d %H:%M:%S%.3f WIB"@,
    ensures
        match r {
            Some(s) => formatted_time(millis as int, offset_seconds as int, pattern@) == Some(s@),
            None => formatted_time(millis as int, offset_seconds as int, pattern@) is None,
        },
        -86_400 < offset_seconds < 86_400 && 0 <= millis ==> (r is Some <==> millis
            <= 8_210_266_876_799_999),
{
    let zone = chrono::FixedOffset::east_opt(offset_seconds)?;
    let time = chrono::DateTime::from_timestamp_millis(millis)?;
    Some(time.with_timezone(&zone).format(pattern).to_string())
}

/// The time in front of a line: that of Western Indonesia, seven hours ahead of UTC.
pub open spec fn time_tag(millis: int) -> Option<Seq<char>> {
    formatted_time(millis, 25_200, "%Y-%m-%d %H:%M:%S%.3f WIB"@)
}

pub fn now_tag(now_ms: i64) -> (r: Option<String>)
    ensures
        crate::json::text_view(r) == time_tag(now_ms as int),
        0 <= now_ms <= 8_210_266_876_799_999 ==> r is Some,
{
    format_time(now_ms, 25_200, "%Y-%m-%d %H:%M:%S%.3f WIB")
}

/// A line of the log: the time, the level, the part of the bot and what it has to say.
pub open spec fn line(tag: Seq<char>, level: Seq<char>, scope: Seq<char>, message: Seq<char>) -> Seq<
    char,
> {
    tag + " "@ + level + " "@ + scope + " "@ + message
}

fn log_line(tag: &str, level: &str, scope: &str, message: &str) -> (r: String)
    ensures
        r@ == line(tag@, level@, scope@, message@),
{
    let mut out = tag.to_owned();
    out.append(" ");
    out.append(level);
    out.append(" ");
    out.append(scope);
    out.append(" ");
    out.append(message);
    out
}

/// The line of a piece of information, with the time in front.
pub fn log_info(tag: &str, scope: &str, message: &str) -> (r: String)
    ensures
        r@ == line(tag@, "INFO"@, scope@, message@),
{
    log_line(tag, "INFO", scope, message)
}

/// The line of a warning, with the time in front.
pub fn log_warn(tag: &str, scope: &str, message: &str) -> (r: String)
    ensures
        r@ == line(tag@, "WARN"@, scope@, message@),
{
    log_line(tag, "WARN", scope, message)
}

/// The line of an error, with the time in front.
pub fn log_error(tag: &str, scope: &str, message: &str) -> (r: String)
    ensures
        r@ == line(tag@, "ERROR"@, scope@, message@),
{
    log_line(tag, "ERROR", scope, message)
}

/// A row of equals signs.
pub open spec fn divider() -> Seq<char> {
    Seq::new(72, |i: int| '=')
}

/// What sets one cycle off from the next.
pub fn log_cycle_separator(label: &str) -> (r: String)
    ensures
        r@ == "\n"@ + divider() + "\nCYCLE "@ + label@ + "\n"@ + divider(),
{
    let mut row = String::new();
    let mut i: usize = 0;
    while i < 72
        invariant
            i <= 72,
            row@ == Seq::new(i as nat, |k: int| '='),
        decreases 72 - i,
    {
        row.push('=');
        i = i + 1;
        assert(row@ =~= Seq::new(i as nat, |k: int| '='));
    }
    let mut out = "\n".to_owned();
    out.append(row.as_str());
    out.append("\nCYCLE ");
    out.append(label);
    out.append("\n");
    out.append(row.as_str());
    out
}

/// A line begins with the time and ends with the message; the level and the part of the bot stand
/// between them. The time is that of a zone seven hours east.
pub proof fn line_has_its_parts_in_order(
    millis: int,
    tag: Seq<char>,
    level: Seq<char>,
    scope: Seq<char>,
    message: Seq<char>,
)
    ensures
        time_tag(millis) == formatted_time(millis, 7 * 3600int, "%Y-%m-%d %H:%M:%S%.3f WIB"@),
        line(tag, level, scope, message).len() == tag.len() + level.len() + scope.len()
            + message.len() + 3,
        line(tag, level, scope, message).take(tag.len() as int) == tag,
        line(tag, level, scope, message).skip((tag.len() + level.len() + scope.len() + 3) as int)
            == message,
        line(tag, level, scope, message).subrange(
            (tag.len() + 1) as int,
            (tag.len() + 1 + level.len()) as int,
        ) == level,
{
    reveal_strlit(" ");
    let l = line(tag, level, scope, message);
    assert(l.take(tag.len() as int) =~= tag);
    assert(l.skip((tag.len() + level.len() + scope.len() + 3) as int) =~= message);
    assert(l.subrange((tag.len() + 1) as int, (tag.len() + 1 + level.len()) as int) =~= level);
}

} // verus!
