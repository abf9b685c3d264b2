//! The logs of results and trades: one record per line.
pub mod result_logger;
pub mod trade_logger;

use vstd::prelude::*;
use crate::text;

verus! {


/// The lines of a log that hold anything, without the white space around them.
pub open spec fn filled_lines(content: Seq<char>) -> Seq<Seq<char>> {
    text::trimmed_nonempty(text::pieces(content, '\n'))
}

pub fn record_lines(content: &str) -> (r: Vec<String>)
    ensures
        text::texts(r@) == filled_lines(content@),
{
    let lines = text::split(content, '\n');
    text::keep_trimmed(&lines)
}

/// The lines of a log are those that are not blank, in their order.
pub proof fn blank_lines_do_not_count(content: Seq<char>, i: int)
    requires
        0 <= i < filled_lines(content).len(),
    ensures
        filled_lines(content)[i].len() > 0,
        filled_lines(content).len() <= text::pieces(content, '\n').len(),
        filled_lines(content) == text::trimmed_nonempty(text::pieces(content, '\n')),
{
    text::blank_texts_are_dropped(text::pieces(content, '\n'), Seq::empty());
}

} // verus!
