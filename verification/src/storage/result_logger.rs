//! The log of results: one row per market.
use vstd::prelude::*;
use crate::text;
use crate::types::ResultRow;

verus! {

#[derive(Clone, Copy, Debug, PartialEq, Eq, Structural)]
pub enum LogStatus {
    Written,
    SkippedDuplicate,
}

/// Whether a log has a row for a market.
pub open spec fn has_row(rows: Seq<ResultRow>, market: Seq<char>) -> bool {
    exists|i: int| 0 <= i < rows.len() && (#[trigger] rows[i]).market@ == market
}

/// Whether no market has two rows in a log.
pub open spec fn one_row_per_market(rows: Seq<ResultRow>) -> bool {
    forall|i: int, j: int|
        0 <= i < j < rows.len() ==> (#[trigger] rows[i]).market@ != (#[trigger] rows[j]).market@
}

/// Decides on a row, given the rows that the log has: it is written unless there is one for its
/// market.
pub fn log_result_row(existing: &Vec<ResultRow>, row: &ResultRow) -> (r: LogStatus)
    ensures
        r == (if has_row(existing@, row.market@) {
            LogStatus::SkippedDuplicate
        } else {
            LogStatus::Written
        }),
{
    let mut i: usize = 0;
    while i < existing.len()
        invariant
            i <= existing.len(),
            forall|j: int| 0 <= j < i ==> (#[trigger] existing@[j]).market@ != row.market@,
        decreases existing.len() - i,
    {
        if text::text_eq(existing[i].market.as_str(), row.market.as_str()) {
            assert(existing@[i as int].market@ == row.market@);
            return LogStatus::SkippedDuplicate;
        }
        i = i + 1;
    }
    LogStatus::Written
}

/// A log with one row per market still has one per market after a row that was to be written.
pub proof fn log_keeps_one_row_per_market(existing: Seq<ResultRow>, row: ResultRow)
    requires
        one_row_per_market(existing),
        !has_row(existing, row.market@),
    ensures
        one_row_per_market(existing.push(row)),
        has_row(existing.push(row), row.market@),
{
    let after = existing.push(row);
    assert(after[existing.len() as int].market@ == row.market@);
    assert forall|i: int, j: int| 0 <= i < j < after.len() implies (#[trigger] after[i]).market@ != (
    #[trigger] after[j]).market@ by {
        assert(after[i] == existing[i]);
        if j < existing.len() {
            assert(after[j] == existing[j]);
        }
    }
}

} // verus!
