//! What the bot says in the chat. Amounts come as they are to be written.
use vstd::prelude::*;
use crate::double::Double;
use crate::execution::order_executor;
use crate::json;
use crate::json::{Entry, Json, JsonTree, Reading, ReadingTree};
use crate::text;
use crate::types::{Config, ExecutionStatus, MarketSide};

verus! {

/// How much of an error message is told.
pub const MAX_ERROR_LENGTH: usize = 220;

pub fn trade_result_label(won: bool) -> (r: &'static str)
    ensures
        r@ == (if won {
            "WIN"@
        } else {
            "LOSS"@
        }),
{
    if won {
        "WIN"
    } else {
        "LOSS"
    }
}

pub fn startup_message(config: &Config, stake: &str) -> (r: String)
    ensures
        r@ == "[POLYMARKET BOT RUST START]\nmode      : "@ + config.mode_name() + "\nstake     : $"@
            + stake@ + "\ncommands  : /pause /resume /status"@,
{
    let mut out = "[POLYMARKET BOT RUST START]\nmode      : ".to_owned();
    out.append(config.mode());
    out.append("\nstake     : $");
    out.append(stake);
    out.append("\ncommands  : /pause /resume /status");
    out
}

/// The beginning of what is said of an entry.
pub open spec fn entry_heading(slug: Seq<char>, side: MarketSide, status: ExecutionStatus) -> Seq<
    char,
> {
    "[POLYMARKET BOT ENTRY]\nmarket: "@ + slug + "\nside  : "@ + side.name() + "\nstatus: "@
        + order_executor::status_name(status)
}

fn heading_of_entry(slug: &str, side: MarketSide, status: ExecutionStatus) -> (r: String)
    ensures
        r@ == entry_heading(slug@, side, status),
{
    let mut out = "[POLYMARKET BOT ENTRY]\nmarket: ".to_owned();
    out.append(slug);
    out.append("\nside  : ");
    out.append(side.label());
    out.append("\nstatus: ");
    out.append(order_executor::status_label(status));
    out
}

pub fn entry_message(
    slug: &str,
    side: MarketSide,
    status: ExecutionStatus,
    order_id: &str,
    spent: &str,
    filled: &str,
) -> (r: String)
    ensures
        r@ == entry_heading(slug@, side, status) + "\norder : "@ + order_id@ + "\nspent : $"@
            + spent@ + "\nfilled: "@ + filled@,
{
    let mut out = heading_of_entry(slug, side, status);
    out.append("\norder : ");
    out.append(order_id);
    out.append("\nspent : $");
    out.append(spent);
    out.append("\nfilled: ");
    out.append(filled);
    out
}

pub fn unfilled_entry_message(slug: &str, side: MarketSide, status: ExecutionStatus, reason: &str) -> (r:
    String)
    ensures
        r@ == (if reason@.len() == 0 {
            entry_heading(slug@, side, status)
        } else {
            entry_heading(slug@, side, status) + "\nreason: "@ + reason@
        }),
{
    let mut out = heading_of_entry(slug, side, status);
    if !reason.is_empty() {
        out.append("\nreason: ");
        out.append(reason);
    }
    out
}

/// The sign that is written in front of a profit.
pub open spec fn profit_sign(pnl_usd: Double) -> Seq<char> {
    if (Double { bits: 0 }).at_most(pnl_usd) {
        "+"@
    } else {
        Seq::empty()
    }
}

pub fn pnl_sign(pnl_usd: Double) -> (r: &'static str)
    ensures
        r@ == profit_sign(pnl_usd),
{
    if Double::zero().le(pnl_usd) {
        "+"
    } else {
        proof {
            reveal_strlit("");
            assert(""@ =~= Seq::<char>::empty());
        }
        ""
    }
}

pub fn trade_message(
    status: ExecutionStatus,
    slug: &str,
    side: MarketSide,
    spent: &str,
    pnl_usd: Double,
    pnl: &str,
) -> (r: String)
    ensures
        r@ == "[POLYMARKET BOT TRADE "@ + order_executor::status_name(status) + "]\nwindow  : "@
            + slug@ + "\nside    : "@ + side.name() + "\nspent   : $"@ + spent@ + "\npnl     : "@
            + profit_sign(pnl_usd) + "$"@ + pnl@,
{
    let mut out = "[POLYMARKET BOT TRADE ".to_owned();
    out.append(order_executor::status_label(status));
    out.append("]\nwindow  : ");
    out.append(slug);
    out.append("\nside    : ");
    out.append(side.label());
    out.append("\nspent   : $");
    out.append(spent);
    out.append("\npnl     : ");
    out.append(pnl_sign(pnl_usd));
    out.append("$");
    out.append(pnl);
    out
}

// ---------------------------------------------------------------------------
// The order that sells
// ---------------------------------------------------------------------------

/// What became of the order that sells what was bought.
pub struct PostFillSellLimitOutcome {
    pub attempted: bool,
    pub success: bool,
    pub order_type: String,
    pub size: Option<Reading>,
    pub final_price: Option<Reading>,
    pub status: Option<String>,
    pub order_id: Option<String>,
    pub retryable: Option<bool>,
    pub error_code: Option<String>,
    pub error_phase: Option<String>,
    pub error_msg: Option<String>,
}

#[verifier::ext_equal]
pub struct SellOutcomeView {
    pub attempted: bool,
    pub success: bool,
    pub order_type: Seq<char>,
    pub size: Option<ReadingTree>,
    pub final_price: Option<ReadingTree>,
    pub status: Option<Seq<char>>,
    pub order_id: Option<Seq<char>>,
    pub retryable: Option<bool>,
    pub error_code: Option<Seq<char>>,
    pub error_phase: Option<Seq<char>>,
    pub error_msg: Option<Seq<char>>,
}

impl PostFillSellLimitOutcome {
    pub open spec fn view(self) -> SellOutcomeView {
        SellOutcomeView {
            attempted: self.attempted,
            success: self.success,
            order_type: self.order_type@,
            size: json::reading_view(self.size),
            final_price: json::reading_view(self.final_price),
            status: json::text_view(self.status),
            order_id: json::text_view(self.order_id),
            retryable: self.retryable,
            error_code: json::text_view(self.error_code),
            error_phase: json::text_view(self.error_phase),
            error_msg: json::text_view(self.error_msg),
        }
    }
}

/// A member that is a text.
pub open spec fn text_member(m: Seq<(Seq<char>, JsonTree)>, key: Seq<char>) -> Option<Seq<char>> {
    match json::lookup(m, key) {
        Some(JsonTree::Text(s)) => Some(s),
        _ => None,
    }
}

/// A member that is true or false.
pub open spec fn flag_member(m: Seq<(Seq<char>, JsonTree)>, key: Seq<char>) -> Option<bool> {
    match json::lookup(m, key) {
        Some(JsonTree::Bool(b)) => Some(b),
        _ => None,
    }
}

/// What a response tells of the order that sells, where that is switched on.
pub open spec fn sell_outcome(raw: Seq<(Seq<char>, JsonTree)>) -> Option<SellOutcomeView> {
    match json::lookup(raw, "postFillSellLimit"@) {
        Some(JsonTree::Object(m)) => if flag_member(m, "enabled"@) == Some(true) {
            Some(
                SellOutcomeView {
                    attempted: flag_member(m, "attempted"@) == Some(true),
                    success: flag_member(m, "success"@) == Some(true),
                    order_type: match text_member(m, "orderType"@) {
                        Some(s) => s,
                        None => "GTC"@,
                    },
                    size: json::member_reading(m, "size"@),
                    final_price: json::member_reading(m, "finalPrice"@),
                    status: text_member(m, "status"@),
                    order_id: text_member(m, "orderId"@),
                    retryable: flag_member(m, "retryable"@),
                    error_code: text_member(m, "errorCode"@),
                    error_phase: text_member(m, "errorPhase"@),
                    error_msg: text_member(m, "errorMsg"@),
                },
            )
        } else {
            None
        },
        _ => None,
    }
}

fn read_text(m: &Vec<Entry>, key: &str) -> (r: Option<String>)
    ensures
        json::text_view(r) == text_member(json::record(m@), key@),
{
    match json::find_member(m, key) {
        Some(Json::Text(s)) => Some(s.clone()),
        _ => None,
    }
}

fn read_flag(m: &Vec<Entry>, key: &str) -> (r: Option<bool>)
    ensures
        r == flag_member(json::record(m@), key@),
{
    match json::find_member(m, key) {
        Some(Json::Bool(b)) => Some(*b),
        _ => None,
    }
}

fn is_true(flag: Option<bool>) -> (r: bool)
    ensures
        r == (flag == Some(true)),
{
    match flag {
        Some(b) => b,
        None => false,
    }
}

pub fn parse_post_fill_sell_limit_outcome(raw_response: &Vec<Entry>) -> (r: Option<
    PostFillSellLimitOutcome,
>)
    ensures
        match r {
            Some(outcome) => sell_outcome(json::record(raw_response@)) == Some(outcome@),
            None => sell_outcome(json::record(raw_response@)) is None,
        },
{
    let m = match json::find_member(raw_response, "postFillSellLimit") {
        Some(value) => match value.as_object() {
            Some(m) => m,
            None => {
                return None;
            },
        },
        None => {
            return None;
        },
    };
    if !is_true(read_flag(m, "enabled")) {
        return None;
    }
    let order_type = match read_text(m, "orderType") {
        Some(s) => s,
        None => "GTC".to_owned(),
    };
    Some(
        PostFillSellLimitOutcome {
            attempted: is_true(read_flag(m, "attempted")),
            success: is_true(read_flag(m, "success")),
            order_type,
            size: json::read_member(m, "size"),
            final_price: json::read_member(m, "finalPrice"),
            status: read_text(m, "status"),
            order_id: read_text(m, "orderId"),
            retryable: read_flag(m, "retryable"),
            error_code: read_text(m, "errorCode"),
            error_phase: read_text(m, "errorPhase"),
            error_msg: read_text(m, "errorMsg"),
        },
    )
}

/// A text, or another one in its place.
pub open spec fn or_else(s: Option<Seq<char>>, fallback: Seq<char>) -> Seq<char> {
    match s {
        Some(t) => t,
        None => fallback,
    }
}

fn text_or<'a>(s: &'a Option<String>, fallback: &'a str) -> (r: &'a str)
    ensures
        r@ == or_else(json::text_view(*s), fallback@),
{
    match s {
        Some(t) => t.as_str(),
        None => fallback,
    }
}

/// A yes or a no, where it is known.
pub open spec fn yes_or_no(b: Option<bool>) -> Seq<char> {
    match b {
        Some(true) => "yes"@,
        Some(false) => "no"@,
        None => "n/a"@,
    }
}

fn yes_no(b: Option<bool>) -> (r: &'static str)
    ensures
        r@ == yes_or_no(b),
{
    match b {
        Some(yes) => if yes {
            "yes"
        } else {
            "no"
        },
        None => "n/a",
    }
}

/// What is said of the order that sells. `quantity` is its size and `price` its price, as they
/// are to be written.
pub open spec fn exit_order_text(
    slug: Seq<char>,
    side: MarketSide,
    buy_order_id: Seq<char>,
    o: SellOutcomeView,
    quantity: Seq<char>,
    price: Option<Seq<char>>,
) -> Seq<char> {
    (if o.success {
        "[POLYMARKET BOT EXIT ORDER OK]"@
    } else {
        "[POLYMARKET BOT EXIT ORDER FAIL]"@
    }) + "\nwindow   : "@ + slug + "\nside     : "@ + side.name() + "\nbuyOrder : "@ + (
    if buy_order_id.len() == 0 {
        "n/a"@
    } else {
        buy_order_id
    }) + "\nsellType : "@ + o.order_type + "\nsellStat : "@ + or_else(o.status, "unknown"@)
        + "\nsellId   : "@ + or_else(o.order_id, "n/a"@) + "\nsellQty  : "@ + quantity
        + "\nsellPx   : "@ + or_else(price, "n/a"@) + "\nattempted: "@ + yes_or_no(
        Some(o.attempted),
    ) + "\nretryable: "@ + yes_or_no(o.retryable) + "\nerrCode  : "@ + or_else(o.error_code, "-"@)
        + "\nerrPhase : "@ + or_else(o.error_phase, "-"@) + "\nerrMsg   : "@ + text::cut(
        or_else(o.error_msg, "-"@),
        MAX_ERROR_LENGTH as int,
    )
}

pub fn exit_order_message(
    slug: &str,
    side: MarketSide,
    buy_order_id: &str,
    outcome: &PostFillSellLimitOutcome,
    quantity: &str,
    price: &Option<String>,
) -> (r: String)
    ensures
        r@ == exit_order_text(
            slug@,
            side,
            buy_order_id@,
            outcome@,
            quantity@,
            json::text_view(*price),
        ),
{
    let mut out = if outcome.success {
        "[POLYMARKET BOT EXIT ORDER OK]".to_owned()
    } else {
        "[POLYMARKET BOT EXIT ORDER FAIL]".to_owned()
    };
    out.append("\nwindow   : ");
    out.append(slug);
    out.append("\nside     : ");
    out.append(side.label());
    out.append("\nbuyOrder : ");
    out.append(
        if buy_order_id.is_empty() {
            "n/a"
        } else {
            buy_order_id
        },
    );
    out.append("\nsellType : ");
    out.append(outcome.order_type.as_str());
    out.append("\nsellStat : ");
    out.append(text_or(&outcome.status, "unknown"));
    out.append("\nsellId   : ");
    out.append(text_or(&outcome.order_id, "n/a"));
    out.append("\nsellQty  : ");
    out.append(quantity);
    out.append("\nsellPx   : ");
    out.append(text_or(price, "n/a"));
    out.append("\nattempted: ");
    out.append(yes_no(Some(outcome.attempted)));
    out.append("\nretryable: ");
    out.append(yes_no(outcome.retryable));
    out.append("\nerrCode  : ");
    out.append(text_or(&outcome.error_code, "-"));
    out.append("\nerrPhase : ");
    out.append(text_or(&outcome.error_phase, "-"));
    out.append("\nerrMsg   : ");
    let error = text::truncate_text(text_or(&outcome.error_msg, "-"), MAX_ERROR_LENGTH);
    out.append(error.as_str());
    out
}

/// A plus sign stands in front of a profit that is not below zero, and nothing in front of a loss.
pub proof fn profits_have_a_plus_sign(pnl_usd: Double)
    requires
        pnl_usd.finite(),
    ensures
        pnl_usd.units() >= 0 ==> profit_sign(pnl_usd) == "+"@,
        pnl_usd.units() < 0 ==> profit_sign(pnl_usd).len() == 0,
{
    assert((Double { bits: 0 }).units() == 0);
    crate::double::order_is_numeric(Double { bits: 0 }, pnl_usd);
}

/// What became of the order that sells is told exactly where that order was switched on; a flag
/// counts only where it is set, the type is GTC where none is named, and a text is taken only from
/// a text.
pub proof fn sale_is_told_where_it_was_switched_on(raw: Seq<(Seq<char>, JsonTree)>)
    ensures
        ({
            let m = json::lookup(raw, "postFillSellLimit"@)->Some_0->Object_0;
            &&& sell_outcome(raw) is Some <==> json::lookup(raw, "postFillSellLimit"@) is Some
                && json::lookup(raw, "postFillSellLimit"@)->Some_0 is Object && json::lookup(
                m,
                "enabled"@,
            ) == Some(JsonTree::Bool(true))
            &&& sell_outcome(raw) matches Some(o) ==> {
                &&& o.attempted <==> json::lookup(m, "attempted"@) == Some(JsonTree::Bool(true))
                &&& o.success <==> json::lookup(m, "success"@) == Some(JsonTree::Bool(true))
                &&& json::lookup(m, "orderType"@) matches Some(JsonTree::Text(s)) ==> o.order_type
                    == s
                &&& !(json::lookup(m, "orderType"@) matches Some(JsonTree::Text(s)))
                    ==> o.order_type == "GTC"@
                &&& o.retryable == Some(true) <==> json::lookup(m, "retryable"@) == Some(
                    JsonTree::Bool(true),
                )
                &&& o.retryable == Some(false) <==> json::lookup(m, "retryable"@) == Some(
                    JsonTree::Bool(false),
                )
                &&& o.status is Some <==> json::lookup(m, "status"@) is Some && json::lookup(m, "status"@)->Some_0 is Text
                &&& o.status matches Some(s) ==> json::lookup(m, "status"@) == Some(JsonTree::Text(s))
                &&& o.order_id is Some <==> json::lookup(m, "orderId"@) is Some && json::lookup(m, "orderId"@)->Some_0 is Text
                &&& o.order_id matches Some(s) ==> json::lookup(m, "orderId"@) == Some(JsonTree::Text(s))
                &&& o.error_code is Some <==> json::lookup(m, "errorCode"@) is Some && json::lookup(m, "errorCode"@)->Some_0 is Text
                &&& o.error_code matches Some(s) ==> json::lookup(m, "errorCode"@) == Some(JsonTree::Text(s))
                &&& o.error_phase is Some <==> json::lookup(m, "errorPhase"@) is Some && json::lookup(m, "errorPhase"@)->Some_0 is Text
                &&& o.error_phase matches Some(s) ==> json::lookup(m, "errorPhase"@) == Some(JsonTree::Text(s))
                &&& o.error_msg is Some <==> json::lookup(m, "errorMsg"@) is Some && json::lookup(m, "errorMsg"@)->Some_0 is Text
                &&& o.error_msg matches Some(s) ==> json::lookup(m, "errorMsg"@) == Some(JsonTree::Text(s))
                &&& o.size == json::member_reading(m, "size"@)
                &&& o.final_price == json::member_reading(m, "finalPrice"@)
            }
        }),
{
}

/// What is said of the order that sells begins with how it went, and names the side, the orders,
/// the size and the price; what is not known is marked as such.
pub proof fn sale_is_told_as_it_went(
    slug: Seq<char>,
    side: MarketSide,
    buy_order_id: Seq<char>,
    o: SellOutcomeView,
    quantity: Seq<char>,
    price: Option<Seq<char>>,
)
    ensures
        ({
            let told = exit_order_text(slug, side, buy_order_id, o, quantity, price);
            let side_name = if side == MarketSide::Up {
                "UP"@
            } else {
                "DOWN"@
            };
            &&& o.success ==> text::begins_with(
                told,
                "[POLYMARKET BOT EXIT ORDER OK]"@ + "\nwindow   : "@ + slug + "\nside     : "@
                    + side_name + "\nbuyOrder : "@ + (if buy_order_id.len() == 0 {
                    "n/a"@
                } else {
                    buy_order_id
                }),
            )
            &&& !o.success ==> text::begins_with(
                told,
                "[POLYMARKET BOT EXIT ORDER FAIL]"@ + "\nwindow   : "@ + slug + "\nside     : "@
                    + side_name + "\nbuyOrder : "@ + (if buy_order_id.len() == 0 {
                    "n/a"@
                } else {
                    buy_order_id
                }),
            )
            &&& yes_or_no(Some(true)) == "yes"@ && yes_or_no(Some(false)) == "no"@ && yes_or_no(
                None,
            ) == "n/a"@
            &&& forall|s: Seq<char>, f: Seq<char>| #[trigger] or_else(Some(s), f) == s
            &&& forall|f: Seq<char>| #[trigger] or_else(None, f) == f
        }),
{
    let told = exit_order_text(slug, side, buy_order_id, o, quantity, price);
    let start = (if o.success {
        "[POLYMARKET BOT EXIT ORDER OK]"@
    } else {
        "[POLYMARKET BOT EXIT ORDER FAIL]"@
    }) + "\nwindow   : "@ + slug + "\nside     : "@ + side.name() + "\nbuyOrder : "@ + (
    if buy_order_id.len() == 0 {
        "n/a"@
    } else {
        buy_order_id
    });
    assert(told.subrange(0, start.len() as int) =~= start);
}

/// What is said of an entry names its market, its side and its state.
pub proof fn entry_is_told_with_side_and_state(
    slug: Seq<char>,
    side: MarketSide,
    status: ExecutionStatus,
)
    ensures
        side == MarketSide::Up && status == ExecutionStatus::Filled ==> entry_heading(
            slug,
            side,
            status,
        ) == "[POLYMARKET BOT ENTRY]\nmarket: "@ + slug + "\nside  : "@ + "UP"@ + "\nstatus: "@
            + "FILLED"@,
        side == MarketSide::Down && status == ExecutionStatus::Partial ==> entry_heading(
            slug,
            side,
            status,
        ) == "[POLYMARKET BOT ENTRY]\nmarket: "@ + slug + "\nside  : "@ + "DOWN"@ + "\nstatus: "@
            + "PARTIAL"@,
        text::begins_with(
            entry_heading(slug, side, status),
            "[POLYMARKET BOT ENTRY]\nmarket: "@ + slug + "\nside  : "@ + side.name()
                + "\nstatus: "@,
        ),
{
    let start = "[POLYMARKET BOT ENTRY]\nmarket: "@ + slug + "\nside  : "@ + side.name()
        + "\nstatus: "@;
    assert(entry_heading(slug, side, status).subrange(0, start.len() as int) =~= start);
}

/// What is said of the order that sells tells what is known of it, line by line.
pub proof fn sale_is_told_line_by_line(
    slug: Seq<char>,
    side: MarketSide,
    buy_order_id: Seq<char>,
    o: SellOutcomeView,
    quantity: Seq<char>,
    price: Seq<char>,
)
    requires
        o.success,
        o.attempted,
        buy_order_id.len() > 0,
        o.status is Some,
        o.order_id is Some,
        o.retryable == Some(false),
        o.error_code is Some,
        o.error_phase is Some,
        o.error_msg is Some,
        o.error_msg->Some_0.len() <= 220,
    ensures
        exit_order_text(slug, side, buy_order_id, o, quantity, Some(price))
            == "[POLYMARKET BOT EXIT ORDER OK]"@ + "\nwindow   : "@ + slug + "\nside     : "@
            + side.name() + "\nbuyOrder : "@ + buy_order_id + "\nsellType : "@ + o.order_type
            + "\nsellStat : "@ + o.status->Some_0 + "\nsellId   : "@ + o.order_id->Some_0
            + "\nsellQty  : "@ + quantity + "\nsellPx   : "@ + price + "\nattempted: "@ + "yes"@
            + "\nretryable: "@ + "no"@ + "\nerrCode  : "@ + o.error_code->Some_0
            + "\nerrPhase : "@ + o.error_phase->Some_0 + "\nerrMsg   : "@ + o.error_msg->Some_0,
        text::cut(o.error_msg->Some_0, MAX_ERROR_LENGTH as int) == o.error_msg->Some_0,
{
}

/// What is not known of the order that sells is told as unknown.
pub proof fn unknown_sale_is_told_as_unknown(
    slug: Seq<char>,
    side: MarketSide,
    o: SellOutcomeView,
    quantity: Seq<char>,
)
    requires
        !o.success,
        !o.attempted,
        o.status is None,
        o.order_id is None,
        o.retryable is None,
        o.error_code is None,
        o.error_phase is None,
        o.error_msg is None,
    ensures
        exit_order_text(slug, side, Seq::empty(), o, quantity, None)
            == "[POLYMARKET BOT EXIT ORDER FAIL]"@ + "\nwindow   : "@ + slug + "\nside     : "@
            + side.name() + "\nbuyOrder : "@ + "n/a"@ + "\nsellType : "@ + o.order_type
            + "\nsellStat : "@ + "unknown"@ + "\nsellId   : "@ + "n/a"@ + "\nsellQty  : "@
            + quantity + "\nsellPx   : "@ + "n/a"@ + "\nattempted: "@ + "no"@ + "\nretryable: "@
            + "n/a"@ + "\nerrCode  : "@ + "-"@ + "\nerrPhase : "@ + "-"@ + "\nerrMsg   : "@ + "-"@,
{
    reveal_strlit("-");
}

} // verus!
