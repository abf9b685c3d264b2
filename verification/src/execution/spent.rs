//! What an order cost.
use vstd::prelude::*;
use crate::double::Double;
use crate::text;

verus! {

#[derive(Clone, Copy, Debug, PartialEq, Eq, Structural)]
pub enum SpentComputationMode {
    MarketBuyRequestedStake,
    FillSizeXPrice,
}

#[derive(Clone, Copy)]
pub struct SpentComputationContext {
    pub mode: SpentComputationMode,
    pub requested_stake_usd: Option<Double>,
}

/// On what terms an order is charged that was sent to be filled at once for a stake.
pub open spec fn fok_terms(stake_usd: Double) -> SpentComputationContext {
    SpentComputationContext {
        mode: SpentComputationMode::MarketBuyRequestedStake,
        requested_stake_usd: Some(stake_usd),
    }
}

pub fn fok_context(stake_usd: Double) -> (r: SpentComputationContext)
    ensures
        r == fok_terms(stake_usd),
{
    SpentComputationContext {
        mode: SpentComputationMode::MarketBuyRequestedStake,
        requested_stake_usd: Some(stake_usd),
    }
}

/// On what terms an order at the fallback price is charged.
pub open spec fn fallback_terms() -> SpentComputationContext {
    SpentComputationContext {
        mode: SpentComputationMode::FillSizeXPrice,
        requested_stake_usd: None,
    }
}

pub fn fallback_context() -> (r: SpentComputationContext)
    ensures
        r == fallback_terms(),
{
    SpentComputationContext {
        mode: SpentComputationMode::FillSizeXPrice,
        requested_stake_usd: None,
    }
}

#[derive(Clone, Copy)]
pub struct SpentComputationResult {
    pub spent_usd: Double,
    pub implied_spent_usd: Double,
    pub spent_source: &'static str,
    pub requested_stake_usd: Option<Double>,
}

pub struct SpentView {
    pub spent_usd: Double,
    pub implied_spent_usd: Double,
    pub spent_source: Seq<char>,
    pub requested_stake_usd: Option<Double>,
}

impl SpentComputationResult {
    pub open spec fn view(self) -> SpentView {
        SpentView {
            spent_usd: self.spent_usd,
            implied_spent_usd: self.implied_spent_usd,
            spent_source: self.spent_source@,
            requested_stake_usd: self.requested_stake_usd,
        }
    }
}

/// Whether a status in upper case says that the whole order was filled.
pub open spec fn is_filled(status: Seq<char>) -> bool {
    status == "MATCHED"@ || status == "FILLED"@
}

pub fn says_filled(status: &str) -> (r: bool)
    ensures
        r == is_filled(status@),
{
    text::text_eq(status, "MATCHED") || text::text_eq(status, "FILLED")
}

/// What the fill itself implies: its size times its price, where both are finite.
pub open spec fn implied(
    filled_size: Double,
    filled_price: Double,
    size_x_price: Double,
) -> Double {
    if filled_size.finite() && filled_price.finite() {
        size_x_price.or_zero()
    } else {
        Double { bits: 0 }
    }
}

/// The stake of a market order to buy, where it is an amount that can be spent.
pub open spec fn stake(context: SpentComputationContext) -> Option<Double> {
    match (context.mode, context.requested_stake_usd) {
        (SpentComputationMode::MarketBuyRequestedStake, Some(requested)) => if requested.finite()
            && requested.positive() {
            Some(requested)
        } else {
            None
        },
        _ => None,
    }
}

/// What was spent. A market order to buy that was filled costs its stake, whatever size and
/// price say; one that was filled in part costs what the fill implies, up to the stake.
pub open spec fn spent(
    context: SpentComputationContext,
    raw_status: Seq<char>,
    filled_size: Double,
    filled_price: Double,
    size_x_price: Double,
) -> SpentView {
    let implied_spent_usd = implied(filled_size, filled_price, size_x_price);
    match stake(context) {
        None => SpentView {
            spent_usd: implied_spent_usd,
            implied_spent_usd,
            spent_source: "filled_size_x_price"@,
            requested_stake_usd: None,
        },
        Some(requested) => if is_filled(raw_status) {
            SpentView {
                spent_usd: requested,
                implied_spent_usd,
                spent_source: "requested_stake_market_buy"@,
                requested_stake_usd: Some(requested),
            }
        } else if filled_size.at_most(Double { bits: 0 }) || filled_price.at_most(
            Double { bits: 0 },
        ) {
            SpentView {
                spent_usd: Double { bits: 0 },
                implied_spent_usd,
                spent_source: "requested_stake_market_buy_no_fill"@,
                requested_stake_usd: Some(requested),
            }
        } else {
            SpentView {
                spent_usd: requested.smaller(implied_spent_usd),
                implied_spent_usd,
                spent_source: "requested_stake_market_buy_capped_partial"@,
                requested_stake_usd: Some(requested),
            }
        },
    }
}

/// What was spent. `size_x_price` is the product of `filled_size` and `filled_price`.
pub fn compute_spent_usd(
    context: SpentComputationContext,
    raw_status: &str,
    filled_size: Double,
    filled_price: Double,
    size_x_price: Double,
) -> (r: SpentComputationResult)
    ensures
        r@ == spent(context, raw_status@, filled_size, filled_price, size_x_price),
{
    let implied_spent_usd = if filled_size.is_finite() && filled_price.is_finite() {
        size_x_price.at_least_zero()
    } else {
        Double::zero()
    };
    let by_fill = SpentComputationResult {
        spent_usd: implied_spent_usd,
        implied_spent_usd,
        spent_source: "filled_size_x_price",
        requested_stake_usd: None,
    };
    if context.mode != SpentComputationMode::MarketBuyRequestedStake {
        return by_fill;
    }
    let requested = match context.requested_stake_usd {
        Some(v) => v,
        None => {
            return by_fill;
        },
    };
    if !requested.is_finite() || !requested.is_positive() {
        return by_fill;
    }
    if says_filled(raw_status) {
        return SpentComputationResult {
            spent_usd: requested,
            implied_spent_usd,
            spent_source: "requested_stake_market_buy",
            requested_stake_usd: Some(requested),
        };
    }
    if filled_size.le(Double::zero()) || filled_price.le(Double::zero()) {
        return SpentComputationResult {
            spent_usd: Double::zero(),
            implied_spent_usd,
            spent_source: "requested_stake_market_buy_no_fill",
            requested_stake_usd: Some(requested),
        };
    }
    SpentComputationResult {
        spent_usd: requested.min(implied_spent_usd),
        implied_spent_usd,
        spent_source: "requested_stake_market_buy_capped_partial",
        requested_stake_usd: Some(requested),
    }
}

/// A filled market order to buy costs the requested stake, and never the product of filled size
/// and price.
pub proof fn filled_market_buy_costs_its_stake(
    requested: Double,
    raw_status: Seq<char>,
    filled_size: Double,
    filled_price: Double,
    size_x_price: Double,
)
    requires
        requested.finite(),
        requested.positive(),
        is_filled(raw_status),
    ensures
        ({
            let result = spent(
                fok_terms(requested),
                raw_status,
                filled_size,
                filled_price,
                size_x_price,
            );
            &&& result.spent_usd == requested
            &&& result.requested_stake_usd == Some(requested)
        }),
{
}

/// No market order to buy costs more than the requested stake, and none costs less than nothing.
pub proof fn market_buy_never_exceeds_its_stake(
    requested: Double,
    raw_status: Seq<char>,
    filled_size: Double,
    filled_price: Double,
    size_x_price: Double,
)
    requires
        requested.finite(),
        requested.positive(),
    ensures
        ({
            let result = spent(
                fok_terms(requested),
                raw_status,
                filled_size,
                filled_price,
                size_x_price,
            );
            &&& result.spent_usd.at_most(requested)
            &&& (Double { bits: 0 }).at_most(result.spent_usd)
        }),
{
}

/// An order at the fallback price costs its filled size times its price.
pub proof fn fallback_order_costs_its_fill(
    raw_status: Seq<char>,
    filled_size: Double,
    filled_price: Double,
    size_x_price: Double,
)
    ensures
        ({
            let result = spent(
                fallback_terms(),
                raw_status,
                filled_size,
                filled_price,
                size_x_price,
            );
            &&& result.spent_usd == implied(filled_size, filled_price, size_x_price)
            &&& result.requested_stake_usd is None
        }),
{
}

/// A market order to buy that the exchange reports as `MATCHED` or `FILLED` costs its stake,
/// however little or much the fill itself would come to.
pub proof fn matched_and_filled_orders_cost_the_stake(
    requested: Double,
    filled_size: Double,
    filled_price: Double,
    size_x_price: Double,
)
    requires
        requested.finite(),
        requested.positive(),
    ensures
        spent(fok_terms(requested), "MATCHED"@, filled_size, filled_price, size_x_price).spent_usd
            == requested,
        spent(fok_terms(requested), "FILLED"@, filled_size, filled_price, size_x_price).spent_usd
            == requested,
{
}

/// A market order to buy that was not filled whole costs nothing where nothing was bought, and
/// otherwise what the fill comes to or its stake, whichever is less.
pub proof fn partial_market_buy_costs_its_fill_up_to_its_stake(
    requested: Double,
    raw_status: Seq<char>,
    filled_size: Double,
    filled_price: Double,
    size_x_price: Double,
)
    requires
        requested.finite(),
        requested.positive(),
        raw_status != "MATCHED"@,
        raw_status != "FILLED"@,
        filled_size.finite(),
        filled_price.finite(),
        !size_x_price.nan(),
    ensures
        ({
            let cost = spent(
                fok_terms(requested),
                raw_status,
                filled_size,
                filled_price,
                size_x_price,
            ).spent_usd;
            &&& filled_size.key() <= 0 || filled_price.key() <= 0 ==> cost.key() == 0
            &&& filled_size.key() > 0 && filled_price.key() > 0 && 0 < size_x_price.key()
                <= requested.key() ==> cost == size_x_price || cost == requested && requested.key()
                == size_x_price.key()
            &&& filled_size.key() > 0 && filled_price.key() > 0 && size_x_price.key()
                > requested.key() ==> cost == requested
        }),
{
}

/// An order at the fallback price costs the product of its size and price, whatever its status,
/// and nothing where that is not above zero or one of the two is no finite number.
pub proof fn fallback_order_costs_size_times_price(
    raw_status: Seq<char>,
    filled_size: Double,
    filled_price: Double,
    size_x_price: Double,
)
    ensures
        ({
            let cost = spent(
                fallback_terms(),
                raw_status,
                filled_size,
                filled_price,
                size_x_price,
            ).spent_usd;
            &&& filled_size.finite() && filled_price.finite() && !size_x_price.nan()
                && size_x_price.key() > 0 ==> cost == size_x_price
            &&& !filled_size.finite() || !filled_price.finite() || size_x_price.nan()
                || size_x_price.key() <= 0 ==> cost.key() == 0
        }),
{
}

/// The fill that is recorded beside the cost is the product of size and price on any terms.
pub proof fn implied_cost_is_recorded_on_any_terms(
    context: SpentComputationContext,
    raw_status: Seq<char>,
    filled_size: Double,
    filled_price: Double,
    size_x_price: Double,
)
    requires
        filled_size.finite(),
        filled_price.finite(),
        size_x_price.positive(),
    ensures
        spent(context, raw_status, filled_size, filled_price, size_x_price).implied_spent_usd
            == size_x_price,
{
}

} // verus!
