//! The price of bitcoin at the start of a window, from the Chainlink feed.
use vstd::prelude::*;
use crate::double::Double;
use crate::types::Config;

verus! {

pub struct ChainlinkWindowPrice {
    pub price: Double,
    pub updated_at_sec: u64,
    pub round_id: String,
}

/// There is no reading of the feed yet: every window is refused.
pub fn resolve_window_open_price_from_chainlink(_config: &Config, _window_start_sec: u64) -> (r:
    Result<ChainlinkWindowPrice, String>)
    ensures
        r matches Err(message) && message@ == "chainlink anchor resolver is not implemented yet"@,
{
    Err("chainlink anchor resolver is not implemented yet".to_owned())
}

} // verus!
