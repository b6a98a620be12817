//! Live order intents: the precision-aware order preview built from the
//! symbol rules, the account shadow, the latest closed signal and the
//! operator's settings, with its sizing and the reasons that block it.
//!
//! The settings and the symbol filters are floating-point figures; they
//! enter as the text their values print as, which `rust_decimal` then
//! reads.

use vstd::prelude::*;

use uuid::Uuid;

use crate::decimal::{
    checked_product, checked_quotient, decimal_ceil, decimal_eq, decimal_floor, decimal_greater, decimal_less, decimal_lt, decimal_max,
    decimal_max_parts, decimal_parse_error, decimal_parts_of_text, decimal_product, decimal_quotient,
    decimal_text, decimal_to_exchange_string, decimal_to_string, exchange_text, lemma_positive_iff_mantissa,
    parse_decimal, parse_decimal_or_zero, parts_or_zero, quantity_within, quantized_down, quantized_price, try_quantize_down,
    try_quantize_price, valid_parts,
};
use crate::live::{canonical_reasons, canonical_reasons_of, LiveAccountShadow, LiveBlockingReason, LiveEnvironment};
use crate::market::{SignalSide, Symbol};
use crate::order_flow::{empty_payload, intent_hash, intent_hash_text, payload_insert, text_map};
use crate::orders::{LiveOrderIntent, LiveOrderPreview, LiveOrderSide, LiveOrderSizingBreakdown, LiveOrderType};
use crate::text::{append_str, concat_str, str_eq};

verus! {

/// The latest closed signal as an intent reads it.
#[derive(Debug, Clone, PartialEq, Eq)]
pub struct LatestSignal {
    pub id: String,
    pub side: SignalSide,
    pub open_time: i64,
}

/// What a preview is built from. The settings' fixed notional and leverage
/// and the symbol filters enter as the text their values print as.
#[derive(Debug)]
pub struct LiveIntentInput {
    pub environment: LiveEnvironment,
    pub symbol: Symbol,
    pub fixed_notional_text: String,
    pub leverage_text: String,
    pub rules_status: String,
    pub tick_size_text: Option<String>,
    pub step_size_text: Option<String>,
    pub min_qty_text: Option<String>,
    pub min_notional_text: Option<String>,
    pub shadow: LiveAccountShadow,
    pub latest_signal: Option<LatestSignal>,
    pub order_type: LiveOrderType,
    pub reference_price: (i128, u32),
    pub limit_price: Option<(i128, u32)>,
    pub now_ms: i64,
}

/// Whether the decimals an input carries are valid `Decimal` parts.
pub open spec fn input_valid(input: LiveIntentInput) -> bool {
    &&& valid_parts(input.reference_price)
    &&& input.limit_price matches Some(l) ==> valid_parts(l)
}

/// An optional filter read as a decimal; text `rust_decimal` refuses gives
/// none.
pub open spec fn filter_value(text: Option<String>) -> Option<(i128, u32)> {
    match text {
        Some(t) => decimal_parts_of_text(t@),
        None => None,
    }
}

/// The error an optional filter adds when its text is refused:
/// `invalid <label>: <error>`.
pub open spec fn filter_errors(label: Seq<char>, text: Option<String>) -> Seq<Seq<char>> {
    match text {
        Some(t) => if decimal_parts_of_text(t@) is None {
            seq!["invalid "@ + label + ": "@ + decimal_parse_error(t@)]
        } else {
            Seq::empty()
        },
        None => Seq::empty(),
    }
}

/// Whether some shadow position is not on the `BOTH` side: the account is
/// in hedge mode.
pub open spec fn hedge_position(shadow: LiveAccountShadow) -> bool {
    exists|i: int| 0 <= i < shadow.positions@.len() && #[trigger] shadow.positions@[i].position_side@ != "BOTH"@
}

/// A one-element sequence when `c` holds, else the empty sequence.
pub open spec fn when_holds<T>(c: bool, x: T) -> Seq<T> {
    if c { seq![x] } else { Seq::empty() }
}

/// The reasons the symbol rules and the account shadow give.
pub open spec fn account_blocks(input: LiveIntentInput) -> Seq<LiveBlockingReason> {
    when_holds(input.rules_status@ != "TRADING"@, LiveBlockingReason::RulesMissing) + when_holds(
        input.shadow.ambiguous,
        LiveBlockingReason::ShadowStateAmbiguous,
    ) + when_holds(input.shadow.multi_assets_margin == Some(true), LiveBlockingReason::UnsupportedAccountMode)
        + when_holds(hedge_position(input.shadow), LiveBlockingReason::UnsupportedAccountMode)
}

/// The errors the symbol rules and the account shadow give.
pub open spec fn account_errors(input: LiveIntentInput) -> Seq<Seq<char>> {
    when_holds(input.rules_status@ != "TRADING"@, "symbol status is "@ + input.rules_status@) + when_holds(
        input.shadow.multi_assets_margin == Some(true),
        "multi-assets margin mode is unsupported for preflight"@,
    ) + when_holds(hedge_position(input.shadow), "hedge mode position side is unsupported for preflight"@)
}

/// The side of the intent: that of the latest closed signal, a buy without
/// one.
pub open spec fn intent_side(input: LiveIntentInput) -> LiveOrderSide {
    match input.latest_signal {
        Some(s) => if s.side == SignalSide::Sell {
            LiveOrderSide::Sell
        } else {
            LiveOrderSide::Buy
        },
        None => LiveOrderSide::Buy,
    }
}

/// The note for a preview without a signal.
pub open spec fn signal_notes(input: LiveIntentInput) -> Seq<Seq<char>> {
    when_holds(input.latest_signal is None, "no closed signal available; preview uses explicit operator BUY side"@)
}

/// The price of the intent: the reference price for a market order; for a
/// limit order, its limit price rounded to the tick size (down for a buy,
/// up for a sell) where the tick size reads as a decimal.
pub open spec fn intent_price(input: LiveIntentInput) -> (i128, u32) {
    match input.order_type {
        LiveOrderType::Market => input.reference_price,
        LiveOrderType::Limit => {
            let limit = input.limit_price->0;
            match filter_value(input.tick_size_text) {
                Some(tick) => quantized_price(limit, tick, intent_side(input) == LiveOrderSide::Buy)->0,
                None => limit,
            }
        },
    }
}

/// The errors and notes of the price: a refused tick size, and a limit
/// price moved by rounding.
pub open spec fn price_errors(input: LiveIntentInput) -> Seq<Seq<char>> {
    match input.order_type {
        LiveOrderType::Market => Seq::empty(),
        LiveOrderType::Limit => filter_errors("tick_size"@, input.tick_size_text),
    }
}

/// The note of a limit price moved by rounding to the tick size.
pub open spec fn price_notes(input: LiveIntentInput) -> Seq<Seq<char>> {
    match input.order_type {
        LiveOrderType::Market => Seq::empty(),
        LiveOrderType::Limit => {
            let limit = input.limit_price->0;
            let rounded = intent_price(input);
            when_holds(
                decimal_less(rounded, limit) || decimal_less(limit, rounded),
                "limit price rounded from "@ + decimal_text(limit) + " to "@ + decimal_text(rounded),
            )
        },
    }
}

/// The fixed notional, read as a decimal (zero where refused).
pub open spec fn fixed_notional(input: LiveIntentInput) -> (i128, u32) {
    parts_or_zero(input.fixed_notional_text@)
}

/// The leverage, read as a decimal (zero where refused), at least one.
pub open spec fn intent_leverage(input: LiveIntentInput) -> (i128, u32) {
    decimal_max_parts(parts_or_zero(input.leverage_text@), (1i128, 0u32))
}

/// The position of the first shadow balance of the asset named `quote`.
pub open spec fn first_balance_of(shadow: LiveAccountShadow, quote: Seq<char>, from: int) -> Option<int>
    decreases shadow.balances@.len() - from,
{
    if from < 0 || from >= shadow.balances@.len() {
        None
    } else if shadow.balances@[from].asset@ == quote {
        Some(from)
    } else {
        first_balance_of(shadow, quote, from + 1)
    }
}

/// The wallet balance of the symbol's quote asset: that of its first
/// shadow balance, read as a decimal; zero without one or where refused.
pub open spec fn available_balance(input: LiveIntentInput) -> (i128, u32) {
    match first_balance_of(input.shadow, input.symbol.quote().text(), 0) {
        Some(k) => parts_or_zero(input.shadow.balances@[k].wallet_balance@),
        None => (0i128, 0u32),
    }
}

/// The quantity before rounding: the fixed notional over the price, zero
/// for a price not above zero.
pub open spec fn raw_quantity(input: LiveIntentInput) -> (i128, u32) {
    let price = intent_price(input);
    if price.0 > 0 {
        decimal_quotient(fixed_notional(input), price)->0
    } else {
        (0i128, 0u32)
    }
}

/// The quantity rounded down to the step size where the step size reads as
/// a decimal.
pub open spec fn rounded_quantity(input: LiveIntentInput) -> (i128, u32) {
    match filter_value(input.step_size_text) {
        Some(step) => quantized_down(raw_quantity(input), step)->0,
        None => raw_quantity(input),
    }
}

/// The rounded quantity times the price.
pub open spec fn estimated_notional(input: LiveIntentInput) -> (i128, u32) {
    decimal_product(rounded_quantity(input), intent_price(input))->0
}

/// The estimated notional over the leverage.
pub open spec fn required_margin(input: LiveIntentInput) -> (i128, u32) {
    decimal_quotient(estimated_notional(input), intent_leverage(input))->0
}

/// Whether the sizing arithmetic stays within `Decimal`'s range, as far as
/// the preview gets: the arithmetic that would panic on overflow.
pub open spec fn preview_fits(input: LiveIntentInput) -> bool {
    input.order_type == LiveOrderType::Limit && input.limit_price is None || price_fits(input) && sizing_fits(input)
}

/// Whether rounding a limit price to the tick size stays within range.
pub open spec fn price_fits(input: LiveIntentInput) -> bool {
    input.order_type == LiveOrderType::Limit ==> match filter_value(input.tick_size_text) {
        Some(tick) => quantized_price(input.limit_price->0, tick, intent_side(input) == LiveOrderSide::Buy) is Some,
        None => true,
    }
}

/// Whether the quantity, the notional and the margin stay within range.
pub open spec fn sizing_fits(input: LiveIntentInput) -> bool {
    &&& (intent_price(input).0 > 0 ==> decimal_quotient(fixed_notional(input), intent_price(input)) is Some)
    &&& (match filter_value(input.step_size_text) {
        Some(step) => quantized_down(raw_quantity(input), step) is Some,
        None => true,
    })
    &&& decimal_product(rounded_quantity(input), intent_price(input)) is Some
    &&& decimal_quotient(estimated_notional(input), intent_leverage(input)) is Some
}

/// The reasons of the sizing: margin above the available balance, a
/// quantity not above zero, a quantity below the minimum quantity, a
/// notional below the minimum notional.
pub open spec fn sizing_blocks(input: LiveIntentInput) -> Seq<LiveBlockingReason> {
    check_blocks_for(
        available_balance(input),
        rounded_quantity(input),
        estimated_notional(input),
        required_margin(input),
        input.min_qty_text,
        input.min_notional_text,
    )
}

/// The reasons of the checks on a sized quantity.
pub open spec fn check_blocks_for(
    available: (i128, u32),
    rq: (i128, u32),
    est: (i128, u32),
    margin: (i128, u32),
    min_qty_text: Option<String>,
    min_notional_text: Option<String>,
) -> Seq<LiveBlockingReason> {
    when_holds(decimal_less(available, margin), LiveBlockingReason::IntentUnavailable) + when_holds(
        rq.0 <= 0,
        LiveBlockingReason::PrecisionInvalid,
    ) + (match filter_value(min_qty_text) {
        Some(m) => when_holds(decimal_less(rq, m), LiveBlockingReason::PrecisionInvalid),
        None => Seq::empty(),
    }) + (match filter_value(min_notional_text) {
        Some(m) => when_holds(decimal_less(est, m), LiveBlockingReason::MinNotional),
        None => Seq::empty(),
    })
}

/// The errors of the sizing, in the order the checks run: a refused step
/// size, then those of the checks on the sized quantity.
pub open spec fn sizing_errors(input: LiveIntentInput) -> Seq<Seq<char>> {
    filter_errors("step_size"@, input.step_size_text) + check_errors(input)
}

/// The errors of the checks on the sized quantity, in order.
pub open spec fn check_errors(input: LiveIntentInput) -> Seq<Seq<char>> {
    check_errors_for(
        available_balance(input),
        rounded_quantity(input),
        estimated_notional(input),
        required_margin(input),
        input.min_qty_text,
        input.min_notional_text,
    )
}

/// The errors of the checks on a sized quantity, in order.
pub open spec fn check_errors_for(
    available: (i128, u32),
    rq: (i128, u32),
    est: (i128, u32),
    margin: (i128, u32),
    min_qty_text: Option<String>,
    min_notional_text: Option<String>,
) -> Seq<Seq<char>> {
    when_holds(decimal_less(available, margin), "required margin exceeds available live shadow balance"@)
        + when_holds(rq.0 <= 0, "rounded quantity is zero"@) + filter_errors("min_qty"@, min_qty_text) + (match filter_value(
        min_qty_text,
    ) {
        Some(m) => when_holds(
            decimal_less(rq, m),
            "quantity "@ + decimal_text(rq) + " is below min qty "@ + decimal_text(m),
        ),
        None => Seq::empty(),
    }) + filter_errors("min_notional"@, min_notional_text) + (match filter_value(min_notional_text) {
        Some(m) => when_holds(
            decimal_less(est, m),
            "estimated notional "@ + decimal_text(est) + " is below min notional "@ + decimal_text(m),
        ),
        None => Seq::empty(),
    })
}

/// The note of a quantity moved by rounding to the step size.
pub open spec fn quantity_notes(input: LiveIntentInput) -> Seq<Seq<char>> {
    let raw = raw_quantity(input);
    let rq = rounded_quantity(input);
    when_holds(
        decimal_less(rq, raw) || decimal_less(raw, rq),
        "quantity rounded down from "@ + decimal_text(raw) + " to "@ + decimal_text(rq),
    )
}

/// The texts of a list of strings.
pub open spec fn texts(v: Seq<String>) -> Seq<Seq<char>> {
    v.map_values(|e: String| e@)
}

/// Whether `p` is a blocked preview: built at `now`, no intent, the
/// reasons listed once each in code order, the errors given, and the
/// blocked message.
pub open spec fn preview_blocked(
    p: LiveOrderPreview,
    now: i64,
    reasons: Seq<LiveBlockingReason>,
    errors: Seq<Seq<char>>,
) -> bool {
    &&& p.built_at == now
    &&& p.intent is None
    &&& canonical_reasons_of(p.blocking_reasons@, reasons)
    &&& texts(p.validation_errors@) == errors
    &&& p.reference_price is None
    &&& p.marketability_check is None
    &&& p.message@ == "PREFLIGHT BLOCKED. No exchange request was sent."@
}

/// The exchange payload of an intent, by text: symbol, side, type and
/// quantity, and for a limit order a good-till-cancel time in force and
/// the price.
pub open spec fn intent_payload(input: LiveIntentInput) -> Map<Seq<char>, Seq<char>> {
    let base = Map::<Seq<char>, Seq<char>>::empty().insert("symbol"@, input.symbol.text()).insert(
        "side"@,
        intent_side(input).text(),
    ).insert("type"@, input.order_type.text()).insert("quantity"@, exchange_text(rounded_quantity(input)));
    if input.order_type == LiveOrderType::Limit {
        base.insert("timeInForce"@, "GTC"@).insert("price"@, exchange_text(intent_price(input)))
    } else {
        base
    }
}

/// Whether `i` is the intent the input gives, with the identifier `id`.
pub open spec fn intent_matches(i: LiveOrderIntent, input: LiveIntentInput, id: Seq<char>) -> bool {
    let side = intent_side(input);
    let quantity = exchange_text(rounded_quantity(input));
    let price = if input.order_type == LiveOrderType::Limit {
        Some(exchange_text(intent_price(input)))
    } else {
        None
    };
    let signal_id = match input.latest_signal {
        Some(s) => Some(s.id@),
        None => None,
    };
    &&& i.id@ == id
    &&& i.intent_hash@ == intent_hash_text(
        input.environment,
        input.symbol,
        side,
        input.order_type,
        quantity,
        price,
        false,
        signal_id,
    )
    &&& i.environment == input.environment
    &&& i.symbol == input.symbol
    &&& i.side == side
    &&& i.order_type == input.order_type
    &&& i.quantity@ == quantity
    &&& (match i.price {
        Some(p) => price == Some(p@),
        None => price is None,
    })
    &&& !i.reduce_only
    &&& (match i.time_in_force {
        Some(t) => input.order_type == LiveOrderType::Limit && t@ == "GTC"@,
        None => input.order_type == LiveOrderType::Market,
    })
    &&& (match i.source_signal_id {
        Some(s) => signal_id == Some(s@),
        None => signal_id is None,
    })
    &&& i.source_open_time == match input.latest_signal {
        Some(s) => Some(s.open_time),
        None => None,
    }
    &&& i.reason@ == if input.latest_signal is Some { "latest_closed_signal"@ } else { "operator_preview"@ }
    &&& text_map(i.exchange_payload@) == intent_payload(input)
    &&& i.sizing.requested_notional@ == exchange_text(fixed_notional(input))
    &&& i.sizing.available_balance@ == exchange_text(available_balance(input))
    &&& i.sizing.leverage@ == exchange_text(intent_leverage(input))
    &&& i.sizing.required_margin@ == exchange_text(required_margin(input))
    &&& i.sizing.raw_quantity@ == exchange_text(raw_quantity(input))
    &&& i.sizing.rounded_quantity@ == exchange_text(rounded_quantity(input))
    &&& i.sizing.estimated_notional@ == exchange_text(estimated_notional(input))
    &&& texts(i.validation_notes@) == signal_notes(input) + price_notes(input) + quantity_notes(
        input,
    )
    &&& i.blocking_reasons@.len() == 0
    &&& i.can_preflight == (input.environment == LiveEnvironment::Testnet)
    &&& i.can_execute_now == (input.environment == LiveEnvironment::Testnet)
    &&& i.built_at == input.now_ms
}

/// Whether `p` is the preview the input gives, its intent (if any) with the
/// identifier `id`: blocked when the limit price of a limit order is
/// missing, or when the rules, the shadow or the sizing give a reason;
/// else an intent, with the mainnet preflight refused on mainnet.
pub open spec fn preview_matches(p: LiveOrderPreview, input: LiveIntentInput, id: Seq<char>) -> bool {
    if input.order_type == LiveOrderType::Limit && input.limit_price is None {
        preview_blocked(
            p,
            input.now_ms,
            account_blocks(input).push(LiveBlockingReason::IntentUnavailable),
            account_errors(input).push("limit order preview requires limit_price"@),
        )
    } else {
        let blocks = account_blocks(input) + sizing_blocks(input);
        let errors = account_errors(input) + price_errors(input) + sizing_errors(input);
        if blocks.len() > 0 {
            preview_blocked(p, input.now_ms, blocks, errors)
        } else {
            &&& p.built_at == input.now_ms
            &&& p.intent is Some && intent_matches(p.intent->0, input, id)
            &&& p.blocking_reasons@ == when_holds(
                input.environment != LiveEnvironment::Testnet,
                LiveBlockingReason::PreflightNotSupportedOnMainnet,
            )
            &&& texts(p.validation_errors@) == errors
            &&& p.reference_price is None
            &&& p.marketability_check is None
            &&& p.message@ == if input.environment == LiveEnvironment::Testnet {
                "TESTNET PREVIEW READY. Actual placement is testnet-only and gated."@
            } else {
                "Preflight is testnet-only in this batch."@
            }
        }
    }
}

fn push_text(v: &mut Vec<String>, s: String)
    ensures
        texts(final(v)@) == texts(old(v)@).push(s@),
{
    v.push(s);
    assert(texts(final(v)@) =~= texts(old(v)@).push(s@));
}

fn push_text_if(v: &mut Vec<String>, c: bool, s: String)
    ensures
        texts(final(v)@) == texts(old(v)@) + when_holds(c, s@),
{
    if c {
        push_text(v, s);
    }
    assert(texts(final(v)@) =~= texts(old(v)@) + when_holds(c, s@));
}

fn push_reason_if(v: &mut Vec<LiveBlockingReason>, c: bool, r: LiveBlockingReason)
    ensures
        final(v)@ == old(v)@ + when_holds(c, r),
{
    if c {
        v.push(r);
    }
    assert(final(v)@ =~= old(v)@ + when_holds(c, r));
}

/// Reads an optional filter as a decimal, adding the error of refused
/// text.
fn read_filter(text: &Option<String>, label: &str, errors: &mut Vec<String>) -> (r: Option<(i128, u32)>)
    ensures
        r == filter_value(*text),
        r matches Some(p) ==> valid_parts(p),
        texts(final(errors)@) == texts(old(errors)@) + filter_errors(label@, *text),
{
    match text {
        Some(t) => match parse_decimal(t.as_str()) {
            Ok(p) => {
                assert(texts(final(errors)@) =~= texts(old(errors)@) + filter_errors(label@, *text));
                Some(p)
            },
            Err(e) => {
                let mut m = concat_str("invalid ", label);
                append_str(&mut m, ": ");
                append_str(&mut m, e.as_str());
                push_text(errors, m);
                assert(texts(final(errors)@) =~= texts(old(errors)@) + filter_errors(label@, *text));
                None
            },
        },
        None => {
            assert(texts(final(errors)@) =~= texts(old(errors)@) + filter_errors(label@, *text));
            None
        },
    }
}

fn has_hedge_position(shadow: &LiveAccountShadow) -> (b: bool)
    ensures
        b == hedge_position(*shadow),
{
    let mut i: usize = 0;
    while i < shadow.positions.len()
        invariant
            i <= shadow.positions@.len(),
            forall|j: int| 0 <= j < i ==> #[trigger] shadow.positions@[j].position_side@ == "BOTH"@,
        decreases shadow.positions@.len() - i,
    {
        if !str_eq(shadow.positions[i].position_side.as_str(), "BOTH") {
            return true;
        }
        i = i + 1;
    }
    false
}

/// The reasons and errors the symbol rules and the account shadow give.
fn account_checks(input: &LiveIntentInput) -> (r: (Vec<LiveBlockingReason>, Vec<String>))
    ensures
        r.0@ == account_blocks(*input),
        texts(r.1@) == account_errors(*input),
{
    let mut blocking: Vec<LiveBlockingReason> = Vec::new();
    let mut errors: Vec<String> = Vec::new();
    let not_trading = !str_eq(input.rules_status.as_str(), "TRADING");
    push_reason_if(&mut blocking, not_trading, LiveBlockingReason::RulesMissing);
    push_text_if(&mut errors, not_trading, concat_str("symbol status is ", input.rules_status.as_str()));
    push_reason_if(&mut blocking, input.shadow.ambiguous, LiveBlockingReason::ShadowStateAmbiguous);
    let multi = match input.shadow.multi_assets_margin {
        Some(b) => b,
        None => false,
    };
    push_reason_if(&mut blocking, multi, LiveBlockingReason::UnsupportedAccountMode);
    push_text_if(&mut errors, multi, String::from_str("multi-assets margin mode is unsupported for preflight"));
    let hedge = has_hedge_position(&input.shadow);
    push_reason_if(&mut blocking, hedge, LiveBlockingReason::UnsupportedAccountMode);
    push_text_if(&mut errors, hedge, String::from_str("hedge mode position side is unsupported for preflight"));
    assert(blocking@ =~= account_blocks(*input));
    assert(texts(errors@) =~= account_errors(*input));
    (blocking, errors)
}

/// The blocked preview: the reasons listed once each in code order, the
/// errors, and the blocked message.
fn blocked_preview(built_at: i64, blocking: &Vec<LiveBlockingReason>, errors: Vec<String>) -> (p: LiveOrderPreview)
    ensures
        preview_blocked(p, built_at, blocking@, texts(errors@)),
{
    LiveOrderPreview {
        built_at,
        intent: None,
        blocking_reasons: canonical_reasons(blocking),
        validation_errors: errors,
        reference_price: None,
        marketability_check: None,
        message: String::from_str("PREFLIGHT BLOCKED. No exchange request was sent."),
    }
}

fn decimal_message(prefix: &str, a: (i128, u32), middle: &str, b: (i128, u32)) -> (s: String)
    requires
        valid_parts(a),
        valid_parts(b),
    ensures
        s@ == prefix@ + decimal_text(a) + middle@ + decimal_text(b),
{
    let mut s = String::from_str(prefix);
    let x = decimal_to_string(a);
    append_str(&mut s, x.as_str());
    append_str(&mut s, middle);
    let y = decimal_to_string(b);
    append_str(&mut s, y.as_str());
    s
}

/// The wallet balance of the symbol's quote asset in the shadow.
fn quote_available_balance(shadow: &LiveAccountShadow, symbol: Symbol) -> (b: (i128, u32))
    ensures
        b == match first_balance_of(*shadow, symbol.quote().text(), 0) {
            Some(k) => parts_or_zero(shadow.balances@[k].wallet_balance@),
            None => (0i128, 0u32),
        },
        valid_parts(b),
{
    let quote = symbol.quote_asset().as_str();
    let mut i: usize = 0;
    while i < shadow.balances.len()
        invariant
            i <= shadow.balances@.len(),
            quote@ == symbol.quote().text(),
            first_balance_of(*shadow, symbol.quote().text(), 0) == first_balance_of(
                *shadow,
                symbol.quote().text(),
                i as int,
            ),
        decreases shadow.balances@.len() - i,
    {
        if str_eq(shadow.balances[i].asset.as_str(), quote) {
            return parse_decimal_or_zero(shadow.balances[i].wallet_balance.as_str());
        }
        i = i + 1;
    }
    (0, 0)
}

/// The intent of a preview that nothing blocks.
fn assemble_intent(
    input: &LiveIntentInput,
    side: LiveOrderSide,
    price: (i128, u32),
    fixed: (i128, u32),
    leverage: (i128, u32),
    available: (i128, u32),
    raw: (i128, u32),
    rounded: (i128, u32),
    estimated: (i128, u32),
    margin: (i128, u32),
    notes: Vec<String>,
    intent_id: &str,
) -> (i: LiveOrderIntent)
    requires
        side == intent_side(*input),
        price == intent_price(*input),
        fixed == fixed_notional(*input),
        leverage == intent_leverage(*input),
        available == available_balance(*input),
        raw == raw_quantity(*input),
        rounded == rounded_quantity(*input),
        estimated == estimated_notional(*input),
        margin == required_margin(*input),
        valid_parts(price),
        valid_parts(fixed),
        valid_parts(leverage),
        valid_parts(available),
        valid_parts(raw),
        valid_parts(rounded),
        valid_parts(estimated),
        valid_parts(margin),
        texts(notes@) == signal_notes(*input) + price_notes(*input) + quantity_notes(*input),
    ensures
        intent_matches(i, *input, intent_id@),
{
    let is_limit = input.order_type == LiveOrderType::Limit;
    let quantity = decimal_to_exchange_string(rounded);
    let price_string = if is_limit {
        Some(decimal_to_exchange_string(price))
    } else {
        None
    };
    let mut payload = empty_payload();
    payload_insert(&mut payload, "symbol", String::from_str(input.symbol.as_str()));
    payload_insert(&mut payload, "side", String::from_str(side.as_binance()));
    payload_insert(&mut payload, "type", String::from_str(input.order_type.as_binance()));
    payload_insert(&mut payload, "quantity", quantity.clone());
    match &price_string {
        Some(p) => {
            payload_insert(&mut payload, "timeInForce", String::from_str("GTC"));
            payload_insert(&mut payload, "price", p.clone());
        },
        None => {},
    }
    let hash = intent_hash(
        input.environment,
        input.symbol,
        side,
        input.order_type,
        quantity.as_str(),
        match &price_string {
            Some(p) => Some(p.as_str()),
            None => None,
        },
        false,
        match &input.latest_signal {
            Some(s) => Some(s.id.as_str()),
            None => None,
        },
    );
    let testnet = input.environment == LiveEnvironment::Testnet;
    LiveOrderIntent {
        id: String::from_str(intent_id),
        intent_hash: hash,
        environment: input.environment,
        symbol: input.symbol,
        side,
        order_type: input.order_type,
        quantity,
        price: price_string,
        reduce_only: false,
        time_in_force: if is_limit {
            Some(String::from_str("GTC"))
        } else {
            None
        },
        source_signal_id: match &input.latest_signal {
            Some(s) => Some(s.id.clone()),
            None => None,
        },
        source_open_time: match &input.latest_signal {
            Some(s) => Some(s.open_time),
            None => None,
        },
        reason: if input.latest_signal.is_some() {
            String::from_str("latest_closed_signal")
        } else {
            String::from_str("operator_preview")
        },
        exchange_payload: payload,
        sizing: LiveOrderSizingBreakdown {
            requested_notional: decimal_to_exchange_string(fixed),
            available_balance: decimal_to_exchange_string(available),
            leverage: decimal_to_exchange_string(leverage),
            required_margin: decimal_to_exchange_string(margin),
            raw_quantity: decimal_to_exchange_string(raw),
            rounded_quantity: decimal_to_exchange_string(rounded),
            estimated_notional: decimal_to_exchange_string(estimated),
        },
        validation_notes: notes,
        blocking_reasons: Vec::new(),
        can_preflight: testnet,
        can_execute_now: testnet,
        built_at: input.now_ms,
    }
}

/// The price of the intent, with the tick-size error and the rounding
/// note; `None` where rounding the limit price overflows.
fn compute_price(input: &LiveIntentInput, errors: &mut Vec<String>, notes: &mut Vec<String>) -> (r: Option<(i128, u32)>)
    requires
        input_valid(*input),
        !(input.order_type == LiveOrderType::Limit && input.limit_price is None),
    ensures
        r is None <==> (input.order_type == LiveOrderType::Limit && (match filter_value(input.tick_size_text) {
            Some(tick) => quantized_price(input.limit_price->0, tick, intent_side(*input) == LiveOrderSide::Buy) is None,
            None => false,
        })),
        r matches Some(p) ==> {
            &&& p == intent_price(*input)
            &&& valid_parts(p)
            &&& texts(final(errors)@) == texts(old(errors)@) + price_errors(*input)
            &&& texts(final(notes)@) == texts(old(notes)@) + price_notes(*input)
        },
{
    match input.order_type {
        LiveOrderType::Market => {
            assert(texts(final(errors)@) =~= texts(old(errors)@) + price_errors(*input));
            assert(texts(final(notes)@) =~= texts(old(notes)@) + price_notes(*input));
            Some(input.reference_price)
        },
        LiveOrderType::Limit => {
            let limit = input.limit_price.unwrap();
            let side = match &input.latest_signal {
                Some(s) => if s.side == SignalSide::Sell {
                    LiveOrderSide::Sell
                } else {
                    LiveOrderSide::Buy
                },
                None => LiveOrderSide::Buy,
            };
            let tick = read_filter(&input.tick_size_text, "tick_size", errors);
            let rounded = match tick {
                Some(t) => match try_quantize_price_for(limit, t, side) {
                    Some(r) => r,
                    None => return None,
                },
                None => limit,
            };
            let moved = !decimal_eq(rounded, limit);
            if moved {
                push_text(notes, decimal_message("limit price rounded from ", limit, " to ", rounded));
            }
            assert(texts(final(notes)@) =~= texts(old(notes)@) + price_notes(*input));
            Some(rounded)
        },
    }
}

/// The quantity at the intent's price: the fixed notional, the leverage,
/// the available balance, the raw and the rounded quantity, with the
/// step-size error and the rounding note; `None` where the arithmetic
/// overflows.
fn size_quantity(
    input: &LiveIntentInput,
    price: (i128, u32),
    errors: &mut Vec<String>,
    notes: &mut Vec<String>,
) -> (r: Option<((i128, u32), (i128, u32), (i128, u32), (i128, u32), (i128, u32))>)
    requires
        price == intent_price(*input),
        valid_parts(price),
    ensures
        r is None <==> !((intent_price(*input).0 > 0 ==> decimal_quotient(fixed_notional(*input), intent_price(*input)) is Some)
            && (match filter_value(input.step_size_text) {
            Some(step) => quantized_down(raw_quantity(*input), step) is Some,
            None => true,
        })),
        r matches Some(z) ==> {
            &&& z.0 == fixed_notional(*input) && valid_parts(z.0)
            &&& z.1 == intent_leverage(*input) && valid_parts(z.1)
            &&& z.2 == available_balance(*input) && valid_parts(z.2)
            &&& z.3 == raw_quantity(*input) && valid_parts(z.3)
            &&& z.4 == rounded_quantity(*input) && valid_parts(z.4)
            &&& filter_value(input.step_size_text) matches Some(st) ==> quantity_within(z.4, z.3, st)
            &&& texts(final(errors)@) == texts(old(errors)@) + filter_errors("step_size"@, input.step_size_text)
            &&& texts(final(notes)@) == texts(old(notes)@) + quantity_notes(*input)
        },
{
    let fixed = parse_decimal_or_zero(input.fixed_notional_text.as_str());
    let leverage = decimal_max(parse_decimal_or_zero(input.leverage_text.as_str()), (1, 0));
    let available = quote_available_balance(&input.shadow, input.symbol);
    proof {
        lemma_positive_iff_mantissa(price);
    }
    let raw = if decimal_greater(price, (0, 0)) {
        match checked_quotient(fixed, price) {
            Some(q) => q,
            None => return None,
        }
    } else {
        (0, 0)
    };
    let step = read_filter(&input.step_size_text, "step_size", errors);
    let rounded = match step {
        Some(st) => match try_quantize_down(raw, st) {
            Some(q) => q,
            None => return None,
        },
        None => raw,
    };
    let moved = !decimal_eq(rounded, raw);
    if moved {
        push_text(notes, decimal_message("quantity rounded down from ", raw, " to ", rounded));
    }
    assert(texts(final(notes)@) =~= texts(old(notes)@) + quantity_notes(*input));
    Some((fixed, leverage, available, raw, rounded))
}

/// The checks on the sized quantity: margin against the available balance,
/// a quantity above zero, the minimum quantity and the minimum notional.
#[verifier::rlimit(40)]
fn sizing_checks(
    min_qty_text: &Option<String>,
    min_notional_text: &Option<String>,
    available: (i128, u32),
    rounded: (i128, u32),
    estimated: (i128, u32),
    margin: (i128, u32),
    blocking: &mut Vec<LiveBlockingReason>,
    errors: &mut Vec<String>,
)
    requires
        valid_parts(available),
        valid_parts(rounded),
        valid_parts(estimated),
        valid_parts(margin),
    ensures
        final(blocking)@ == old(blocking)@ + check_blocks_for(
            available,
            rounded,
            estimated,
            margin,
            *min_qty_text,
            *min_notional_text,
        ),
        texts(final(errors)@) == texts(old(errors)@) + check_errors_for(
            available,
            rounded,
            estimated,
            margin,
            *min_qty_text,
            *min_notional_text,
        ),
{
    let short = decimal_greater(margin, available);
    push_reason_if(blocking, short, LiveBlockingReason::IntentUnavailable);
    push_text_if(errors, short, String::from_str("required margin exceeds available live shadow balance"));
    proof {
        lemma_positive_iff_mantissa(rounded);
    }
    let zero = !decimal_greater(rounded, (0, 0));
    push_reason_if(blocking, zero, LiveBlockingReason::PrecisionInvalid);
    push_text_if(errors, zero, String::from_str("rounded quantity is zero"));
    let min_qty = read_filter(min_qty_text, "min_qty", errors);
    match min_qty {
        Some(m) => {
            let below = decimal_lt(rounded, m);
            push_reason_if(blocking, below, LiveBlockingReason::PrecisionInvalid);
            push_text_if(errors, below, decimal_message("quantity ", rounded, " is below min qty ", m));
        },
        None => {},
    }
    let min_notional = read_filter(min_notional_text, "min_notional", errors);
    match min_notional {
        Some(m) => {
            let below = decimal_lt(estimated, m);
            push_reason_if(blocking, below, LiveBlockingReason::MinNotional);
            push_text_if(errors, below, decimal_message("estimated notional ", estimated, " is below min notional ", m));
        },
        None => {},
    }
    assert(final(blocking)@ =~= old(blocking)@ + check_blocks_for(
        available,
        rounded,
        estimated,
        margin,
        *min_qty_text,
        *min_notional_text,
    ));
    assert(texts(final(errors)@) =~= texts(old(errors)@) + check_errors_for(
        available,
        rounded,
        estimated,
        margin,
        *min_qty_text,
        *min_notional_text,
    ));
}

/// The sizing figures of a preview.
struct Sizing {
    fixed: (i128, u32),
    leverage: (i128, u32),
    available: (i128, u32),
    raw: (i128, u32),
    rounded: (i128, u32),
    estimated: (i128, u32),
    margin: (i128, u32),
}

/// Sizes the intent at its price: the quantity and its rounding, the
/// notional, the margin, and the reasons, errors and note they give;
/// `None` where the arithmetic overflows.
fn compute_sizing(
    input: &LiveIntentInput,
    price: (i128, u32),
    blocking: &mut Vec<LiveBlockingReason>,
    errors: &mut Vec<String>,
    notes: &mut Vec<String>,
) -> (r: Option<Sizing>)
    requires
        input_valid(*input),
        price == intent_price(*input),
        valid_parts(price),
    ensures
        r is None <==> !sizing_fits(*input),
        r matches Some(z) ==> {
            &&& z.fixed == fixed_notional(*input) && valid_parts(z.fixed)
            &&& z.leverage == intent_leverage(*input) && valid_parts(z.leverage)
            &&& z.available == available_balance(*input) && valid_parts(z.available)
            &&& z.raw == raw_quantity(*input) && valid_parts(z.raw)
            &&& z.rounded == rounded_quantity(*input) && valid_parts(z.rounded)
            &&& rounded_within(*input)
            &&& z.estimated == estimated_notional(*input) && valid_parts(z.estimated)
            &&& z.margin == required_margin(*input) && valid_parts(z.margin)
            &&& final(blocking)@ == old(blocking)@ + sizing_blocks(*input)
            &&& texts(final(errors)@) == texts(old(errors)@) + sizing_errors(*input)
            &&& texts(final(notes)@) == texts(old(notes)@) + quantity_notes(*input)
        },
{
    let ghost errors0 = texts(errors@);
    let (fixed, leverage, available, raw, rounded) = match size_quantity(input, price, errors, notes) {
        Some(q) => q,
        None => return None,
    };
    let estimated = match checked_product(rounded, price) {
        Some(e) => e,
        None => return None,
    };
    let margin = match checked_quotient(estimated, leverage) {
        Some(m) => m,
        None => return None,
    };
    sizing_checks(&input.min_qty_text, &input.min_notional_text, available, rounded, estimated, margin, blocking, errors);
    assert(texts(final(errors)@) =~= errors0 + sizing_errors(*input));
    Some(Sizing { fixed, leverage, available, raw, rounded, estimated, margin })
}

/// What the preview's rounded quantity is known to be against the raw
/// one: with a step size, a whole number of steps and no more than the raw
/// quantity, as [`quantity_within`] says.
pub open spec fn rounded_within(input: LiveIntentInput) -> bool {
    filter_value(input.step_size_text) matches Some(st) ==> quantity_within(
        rounded_quantity(input),
        raw_quantity(input),
        st,
    )
}

/// Builds the preview with the intent identifier given, or `None` where
/// the sizing arithmetic overflows `Decimal`'s range.
pub fn build_preview_checked(input: &LiveIntentInput, intent_id: &str) -> (r: Option<LiveOrderPreview>)
    requires
        input_valid(*input),
    ensures
        match r {
            None => !preview_fits(*input),
            Some(p) => preview_fits(*input) && preview_matches(p, *input, intent_id@),
        },
        r matches Some(p) ==> (p.intent is Some ==> rounded_within(*input)),
{
    let (mut blocking, mut errors) = account_checks(input);
    let side = match &input.latest_signal {
        Some(s) => if s.side == SignalSide::Sell {
            LiveOrderSide::Sell
        } else {
            LiveOrderSide::Buy
        },
        None => LiveOrderSide::Buy,
    };
    let mut notes: Vec<String> = Vec::new();
    push_text_if(
        &mut notes,
        input.latest_signal.is_none(),
        String::from_str("no closed signal available; preview uses explicit operator BUY side"),
    );
    if input.order_type == LiveOrderType::Limit && input.limit_price.is_none() {
        blocking.push(LiveBlockingReason::IntentUnavailable);
        push_text(&mut errors, String::from_str("limit order preview requires limit_price"));
        return Some(blocked_preview(input.now_ms, &blocking, errors));
    }
    let price = match compute_price(input, &mut errors, &mut notes) {
        Some(p) => p,
        None => return None,
    };
    let z = match compute_sizing(input, price, &mut blocking, &mut errors, &mut notes) {
        Some(z) => z,
        None => return None,
    };
    if blocking.len() > 0 {
        return Some(blocked_preview(input.now_ms, &blocking, errors));
    }
    let intent = assemble_intent(
        input,
        side,
        price,
        z.fixed,
        z.leverage,
        z.available,
        z.raw,
        z.rounded,
        z.estimated,
        z.margin,
        notes,
        intent_id,
    );
    let testnet = input.environment == LiveEnvironment::Testnet;
    let mut preview_blocking: Vec<LiveBlockingReason> = Vec::new();
    push_reason_if(&mut preview_blocking, !testnet, LiveBlockingReason::PreflightNotSupportedOnMainnet);
    Some(
        LiveOrderPreview {
            built_at: input.now_ms,
            intent: Some(intent),
            blocking_reasons: preview_blocking,
            validation_errors: errors,
            reference_price: None,
            marketability_check: None,
            message: if testnet {
                String::from_str("TESTNET PREVIEW READY. Actual placement is testnet-only and gated.")
            } else {
                String::from_str("Preflight is testnet-only in this batch.")
            },
        },
    )
}

/// Rounds a limit price to a multiple of the tick size: down for a buy, up
/// for a sell (a tick not above zero leaves it as it is).
pub fn quantize_price(value: (i128, u32), tick: (i128, u32), side: LiveOrderSide) -> (r: (i128, u32))
    requires
        valid_parts(value),
        valid_parts(tick),
        quantized_price(value, tick, side == LiveOrderSide::Buy) is Some,
    ensures
        Some(r) == quantized_price(value, tick, side == LiveOrderSide::Buy),
        valid_parts(r),
{
    proof {
        lemma_positive_iff_mantissa(tick);
    }
    if !decimal_greater(tick, (0, 0)) {
        return value;
    }
    let q = checked_quotient(value, tick).unwrap();
    let units = match side {
        LiveOrderSide::Buy => decimal_floor(q),
        LiveOrderSide::Sell => decimal_ceil(q),
    };
    checked_product(units, tick).unwrap()
}

/// Rounds a limit price to the tick size for the side, or `None` where
/// the arithmetic overflows.
pub fn try_quantize_price_for(value: (i128, u32), tick: (i128, u32), side: LiveOrderSide) -> (r: Option<(i128, u32)>)
    requires
        valid_parts(value),
        valid_parts(tick),
    ensures
        r == quantized_price(value, tick, side == LiveOrderSide::Buy),
        r matches Some(p) ==> valid_parts(p),
{
    if try_quantize_price(value, tick, side == LiveOrderSide::Buy).is_some() {
        Some(quantize_price(value, tick, side))
    } else {
        None
    }
}

/// A fresh random UUID in its hyphenated form (`Uuid::new_v4()` written
/// with `to_string`): 36 characters. Which ones is chance.
#[verifier::external_body]
pub(crate) fn random_uuid_text() -> (s: String)
    ensures
        s@.len() == 36,
{
    Uuid::new_v4().to_string()
}

/// Builds the order preview, its intent (if any) under a fresh random
/// identifier.
pub fn build_live_order_preview(input: &LiveIntentInput) -> (p: LiveOrderPreview)
    requires
        input_valid(*input),
        preview_fits(*input),
    ensures
        exists|id: Seq<char>| id.len() == 36 && #[trigger] preview_matches(p, *input, id),
        p.intent is Some ==> rounded_within(*input),
{
    let id = random_uuid_text();
    let p = build_preview_checked(input, id.as_str()).unwrap();
    assert(preview_matches(p, *input, id@));
    p
}

/// Builds the order preview, or `None` where its sizing arithmetic would
/// overflow `Decimal`'s range.
pub fn try_build_live_order_preview(input: &LiveIntentInput) -> (r: Option<LiveOrderPreview>)
    requires
        input_valid(*input),
    ensures
        r is None <==> !preview_fits(*input),
        r matches Some(p) ==> exists|id: Seq<char>| id.len() == 36 && #[trigger] preview_matches(p, *input, id),
        r matches Some(p) ==> (p.intent is Some ==> rounded_within(*input)),
{
    match build_preview_checked(input, "") {
        Some(_) => Some(build_live_order_preview(input)),
        None => None,
    }
}


/// A preview sizes its margin against the wallet of the asset the symbol's
/// code names after `BTC`: the first shadow balance of that asset, read as
/// a decimal (zero without one or where refused).
pub proof fn lemma_available_balance_is_in_quote_asset(input: LiveIntentInput)
    ensures
        available_balance(input) == match first_balance_of(
            input.shadow,
            input.symbol.text().subrange(3, input.symbol.text().len() as int),
            0,
        ) {
            Some(k) => parts_or_zero(input.shadow.balances@[k].wallet_balance@),
            None => (0i128, 0u32),
        },
{
    crate::market::lemma_symbol_code_names_its_quote(input.symbol);
}

} // verus!
