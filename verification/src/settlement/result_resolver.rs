//! How a window ended.
use vstd::prelude::*;
use crate::types::{Config, SettlementOutcome};

verus! {

/// There is no resolver yet: every window is refused.
pub fn resolve_window_outcome(_config: &Config, _window_start_sec: u64, _slug: &str) -> (r: Result<
    SettlementOutcome,
    String,
>)
    ensures
        r matches Err(message) && message@ == "window outcome resolver is not implemented yet"@,
{
    Err("window outcome resolver is not implemented yet".to_owned())
}

} // verus!
