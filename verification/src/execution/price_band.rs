//! The band of prices at which the bot buys.
use vstd::prelude::*;
use crate::double::{Double, CENT_BITS, NINETY_FIVE_CENT_BITS, NINETY_NINE_CENT_BITS};
use crate::json;
use crate::json::{Json, JsonTree};
use crate::types::{Config, ExecutionResult, ExecutionView};

verus! {

/// Why a price is outside the band, where the band is enforced.
pub open spec fn band_reject(price: Double, config: Config) -> Option<Seq<char>> {
    if !config.entry_price_gate_enabled {
        None
    } else if price.below(config.price_range_min) {
        Some("below_min"@)
    } else if config.price_range_max.below(price) {
        Some("above_max"@)
    } else {
        None
    }
}

pub fn buy_band_reject_reason(price: Double, config: &Config) -> (r: Option<&'static str>)
    ensures
        match r {
            Some(reason) => band_reject(price, *config) == Some(reason@),
            None => band_reject(price, *config) is None,
        },
{
    if !config.entry_price_gate_enabled {
        return None;
    }
    if price.lt(config.price_range_min) {
        return Some("below_min");
    }
    if config.price_range_max.lt(price) {
        return Some("above_max");
    }
    None
}

/// A price within the reach of the exchange: from one cent to ninety-nine.
pub open spec fn clamped(price: Double) -> Double {
    if !price.finite() {
        Double { bits: NINETY_NINE_CENT_BITS }
    } else {
        price.larger(Double { bits: CENT_BITS }).smaller(Double { bits: NINETY_NINE_CENT_BITS })
    }
}

pub fn clamp_price(price: Double) -> (r: Double)
    ensures
        r == clamped(price),
{
    if !price.is_finite() {
        return Double { bits: NINETY_NINE_CENT_BITS };
    }
    price.max(Double { bits: CENT_BITS }).min(Double { bits: NINETY_NINE_CENT_BITS })
}

/// The limit price of an order that waits for sellers: ninety-five cents, moved into the band
/// where the band is enforced.
pub open spec fn fallback_price(config: Config) -> Double {
    let preferred = Double { bits: NINETY_FIVE_CENT_BITS };
    if !config.entry_price_gate_enabled {
        preferred
    } else {
        clamped(preferred.larger(config.price_range_min).smaller(config.price_range_max))
    }
}

pub fn fallback_limit_price(config: &Config) -> (r: Double)
    ensures
        r == fallback_price(*config),
{
    let preferred = Double { bits: NINETY_FIVE_CENT_BITS };
    if !config.entry_price_gate_enabled {
        return preferred;
    }
    clamp_price(preferred.max(config.price_range_min).min(config.price_range_max))
}

/// A clamped price is a finite number from one cent to ninety-nine.
pub proof fn clamped_is_within_reach(price: Double)
    ensures
        clamped(price).finite(),
        (Double { bits: CENT_BITS }).at_most(clamped(price)),
        clamped(price).at_most(Double { bits: NINETY_NINE_CENT_BITS }),
        clamped(clamped(price)) == clamped(price),
{
}

/// Where the band lies within the reach of the exchange, the fallback price lies in the band.
pub proof fn fallback_price_is_in_band(config: Config)
    requires
        config.price_range_min.finite(),
        config.price_range_max.finite(),
        config.price_range_min.at_most(config.price_range_max),
        (Double { bits: CENT_BITS }).at_most(config.price_range_max),
        config.price_range_min.at_most(Double { bits: NINETY_NINE_CENT_BITS }),
    ensures
        band_reject(fallback_price(config), config) is None,
{
}

/// What is noted on an order that was filled outside the band.
pub open spec fn audited(result: ExecutionView, config: Config) -> ExecutionView {
    let observed = result.filled_price;
    if !config.entry_price_gate_enabled || !observed.finite() || observed.at_most(
        Double { bits: 0 },
    ) || result.filled_size.at_most(Double { bits: 0 }) {
        result
    } else {
        match band_reject(observed, config) {
            None => result,
            Some(violation) => {
                let raw = json::put(result.raw, "fillBandViolation"@, JsonTree::Bool(true));
                let raw = json::put(raw, "fillBandViolationReason"@, JsonTree::Text(violation));
                let raw = json::put(raw, "fillBandObservedPrice"@, json::amount_tree(observed));
                let raw = json::put(
                    raw,
                    "fillBandMin"@,
                    json::amount_tree(config.price_range_min),
                );
                let raw = json::put(
                    raw,
                    "fillBandMax"@,
                    json::amount_tree(config.price_range_max),
                );
                ExecutionView { raw, ..result }
            },
        }
    }
}

pub fn attach_fill_band_audit(result: ExecutionResult, config: &Config) -> (r: ExecutionResult)
    ensures
        r@ == audited(result@, *config),
{
    let observed = result.filled_price;
    if !config.entry_price_gate_enabled || !observed.is_finite() || observed.le(Double::zero())
        || result.filled_size.le(Double::zero()) {
        return result;
    }
    match buy_band_reject_reason(observed, config) {
        None => result,
        Some(violation) => {
            let mut out = result;
            json::set_member(&mut out.raw_response, "fillBandViolation", Json::Bool(true));
            json::set_member(
                &mut out.raw_response,
                "fillBandViolationReason",
                json::text_json(violation),
            );
            json::set_member(
                &mut out.raw_response,
                "fillBandObservedPrice",
                json::amount_json(observed),
            );
            json::set_member(
                &mut out.raw_response,
                "fillBandMin",
                json::amount_json(config.price_range_min),
            );
            json::set_member(
                &mut out.raw_response,
                "fillBandMax",
                json::amount_json(config.price_range_max),
            );
            out
        },
    }
}

/// A price is turned away exactly where the band is enforced and the price lies outside it, and
/// the reason names the side on which it lies.
pub proof fn band_turns_away_what_lies_outside(price: Double, config: Config)
    requires
        price.finite(),
        config.price_range_min.finite(),
        config.price_range_max.finite(),
        config.price_range_min.units() <= config.price_range_max.units(),
    ensures
        band_reject(price, config) is None <==> (config.entry_price_gate_enabled
            ==> config.price_range_min.units() <= price.units() <= config.price_range_max.units()),
        config.entry_price_gate_enabled && price.units() < config.price_range_min.units()
            ==> band_reject(price, config) == Some("below_min"@),
        config.entry_price_gate_enabled && price.units() > config.price_range_max.units()
            ==> band_reject(price, config) == Some("above_max"@),
{
    crate::double::order_is_numeric(price, config.price_range_min);
    crate::double::order_is_numeric(config.price_range_max, price);
}

/// A price that the exchange can take is left as it is; one below a cent becomes a cent, and one
/// above ninety-nine cents, or no number at all, becomes ninety-nine.
pub proof fn clamping_moves_only_what_is_out_of_reach(price: Double)
    ensures
        price.finite() && CENT_BITS <= price.key() <= NINETY_NINE_CENT_BITS ==> clamped(price)
            == price,
        price.finite() && price.key() < CENT_BITS ==> clamped(price).key() == CENT_BITS,
        price.finite() && price.key() > NINETY_NINE_CENT_BITS ==> clamped(price).key()
            == NINETY_NINE_CENT_BITS,
        !price.finite() ==> clamped(price).key() == NINETY_NINE_CENT_BITS,
{
}

/// The fallback price is ninety-five cents wherever the band allows that, and the border of the
/// band that is nearest to it otherwise.
pub proof fn fallback_price_is_nearest_to_its_aim(config: Config)
    requires
        config.price_range_min.finite(),
        config.price_range_max.finite(),
        CENT_BITS <= config.price_range_min.key(),
        config.price_range_min.key() <= config.price_range_max.key(),
        config.price_range_max.key() <= NINETY_NINE_CENT_BITS,
    ensures
        !config.entry_price_gate_enabled ==> fallback_price(config).bits == NINETY_FIVE_CENT_BITS,
        config.entry_price_gate_enabled ==> {
            let price = fallback_price(config);
            &&& config.price_range_min.key() <= NINETY_FIVE_CENT_BITS
                <= config.price_range_max.key() ==> price.bits == NINETY_FIVE_CENT_BITS
            &&& config.price_range_max.key() < NINETY_FIVE_CENT_BITS ==> price
                == config.price_range_max
            &&& NINETY_FIVE_CENT_BITS < config.price_range_min.key() ==> price
                == config.price_range_min
        },
{
}

/// The audit of a fill changes nothing of the order but its notes, and of those only the ones on
/// the band. It makes them exactly where a real fill lies outside a band that is enforced.
pub proof fn audit_notes_fills_outside_the_band(
    result: ExecutionView,
    config: Config,
    key: Seq<char>,
)
    ensures
        ({
            let after = audited(result, config);
            let bought = result.filled_price.finite() && result.filled_price.key() > 0
                && !result.filled_size.at_most(Double { bits: 0 });
            let outside = config.entry_price_gate_enabled && bought && (result.filled_price.below(
                config.price_range_min,
            ) || config.price_range_max.below(result.filled_price));
            &&& after == ExecutionView { raw: after.raw, ..result }
            &&& !outside ==> after.raw == result.raw
            &&& outside ==> json::lookup(after.raw, "fillBandViolation"@) == Some(
                JsonTree::Bool(true),
            )
            &&& outside ==> json::lookup(after.raw, "fillBandObservedPrice"@) == Some(
                JsonTree::Amount(result.filled_price),
            )
            &&& outside && result.filled_price.below(config.price_range_min) ==> json::lookup(
                after.raw,
                "fillBandViolationReason"@,
            ) == Some(JsonTree::Text("below_min"@))
            &&& outside && !result.filled_price.below(config.price_range_min) ==> json::lookup(
                after.raw,
                "fillBandViolationReason"@,
            ) == Some(JsonTree::Text("above_max"@))
            &&& key != "fillBandViolation"@ && key != "fillBandViolationReason"@ && key
                != "fillBandObservedPrice"@ && key != "fillBandMin"@ && key != "fillBandMax"@
                ==> json::lookup(after.raw, key) == json::lookup(result.raw, key)
        }),
{
    broadcast use json::lookup_after_put;

    reveal_strlit("fillBandViolation");
    reveal_strlit("fillBandViolationReason");
    reveal_strlit("fillBandObservedPrice");
    reveal_strlit("fillBandMin");
    reveal_strlit("fillBandMax");
    assert("fillBandViolation"@.len() == 17);
    assert("fillBandViolationReason"@.len() == 23);
    assert("fillBandObservedPrice"@.len() == 21);
    assert("fillBandMin"@.len() == 11);
    assert("fillBandMax"@.len() == 11);
    assert("fillBandMin"@[9] != "fillBandMax"@[9]);
}

} // verus!
