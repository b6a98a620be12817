//! Live order bookkeeping: refusals of execution, cancel and flatten
//! requests, how exchange reports update a local order, the order status an
//! exchange status names, fills read from the user-data stream, intent
//! hashes and client order identifiers.

use std::collections::BTreeMap;

use vstd::prelude::*;

use uuid::Uuid;

use crate::decimal::{decimal_parts_of_text, parse_decimal};
use crate::execution::clone_opt_string;
use crate::live::{LiveBlockingReason, LiveEnvironment, LiveExecutionAvailability, LiveShadowOrder};
use crate::market::Symbol;
use crate::orders::{
    LiveCancelResult, LiveExecutionResult, LiveFillRecord, LiveFlattenResult, LiveOrderRecord, LiveOrderSide,
    LiveOrderStatus, LiveOrderType,
};
use crate::text::{append_str, chars_eq_str, chars_of, concat_str, i64_decimal, int_decimal, string_of_chars};

verus! {

/// A refused execution request: nothing accepted, no order, the reason and
/// message given.
pub fn blocked_execution_result(reason: LiveBlockingReason, message: &str, created_at: i64) -> (r:
    LiveExecutionResult)
    ensures
        !r.accepted,
        r.order is None,
        r.blocking_reason == Some(reason),
        r.message@ == message@,
        r.created_at == created_at,
{
    LiveExecutionResult {
        accepted: false,
        order: None,
        blocking_reason: Some(reason),
        message: String::from_str(message),
        created_at,
    }
}

/// A refused cancel request: nothing accepted, no order, the reason and
/// message given.
pub fn blocked_cancel_result(reason: LiveBlockingReason, message: &str, created_at: i64) -> (r: LiveCancelResult)
    ensures
        !r.accepted,
        r.order is None,
        r.blocking_reason == Some(reason),
        r.message@ == message@,
        r.created_at == created_at,
{
    LiveCancelResult {
        accepted: false,
        order: None,
        blocking_reason: Some(reason),
        message: String::from_str(message),
        created_at,
    }
}

/// A refused flatten request: nothing accepted, no order canceled or
/// placed, the reason and message given.
pub fn blocked_flatten_result(reason: LiveBlockingReason, message: &str, created_at: i64) -> (r: LiveFlattenResult)
    ensures
        !r.accepted,
        r.canceled_orders@.len() == 0,
        r.flatten_order is None,
        r.blocking_reason == Some(reason),
        r.message@ == message@,
        r.created_at == created_at,
{
    LiveFlattenResult {
        accepted: false,
        canceled_orders: Vec::new(),
        flatten_order: None,
        blocking_reason: Some(reason),
        message: String::from_str(message),
        created_at,
    }
}

/// The availability shown before any execution gate has run: blocked.
pub fn live_execution_unavailable() -> (a: LiveExecutionAvailability)
    ensures
        !a.can_execute_live,
        a.reason == LiveBlockingReason::MainnetExecutionBlocked,
        a.message@ == "MAINNET execution is blocked; TESTNET execution requires readiness gates."@,
{
    LiveExecutionAvailability {
        can_execute_live: false,
        reason: LiveBlockingReason::MainnetExecutionBlocked,
        message: String::from_str("MAINNET execution is blocked; TESTNET execution requires readiness gates."),
    }
}

/// The order status that an exchange status names; a status the exchange
/// should not report needs repair.
pub open spec fn status_of_exchange_text(status: Seq<char>) -> LiveOrderStatus {
    if status == "NEW"@ {
        LiveOrderStatus::Working
    } else if status == "PARTIALLY_FILLED"@ {
        LiveOrderStatus::PartiallyFilled
    } else if status == "FILLED"@ {
        LiveOrderStatus::Filled
    } else if status == "CANCELED"@ {
        LiveOrderStatus::Canceled
    } else if status == "REJECTED"@ {
        LiveOrderStatus::Rejected
    } else if status == "EXPIRED"@ {
        LiveOrderStatus::Expired
    } else if status == "EXPIRED_IN_MATCH"@ {
        LiveOrderStatus::ExpiredInMatch
    } else {
        LiveOrderStatus::UnknownNeedsRepair
    }
}

/// The order status that an exchange status names.
pub fn live_order_status_from_exchange_status(status: &str) -> (s: LiveOrderStatus)
    ensures
        s == status_of_exchange_text(status@),
{
    let v = chars_of(status);
    if chars_eq_str(&v, "NEW") {
        LiveOrderStatus::Working
    } else if chars_eq_str(&v, "PARTIALLY_FILLED") {
        LiveOrderStatus::PartiallyFilled
    } else if chars_eq_str(&v, "FILLED") {
        LiveOrderStatus::Filled
    } else if chars_eq_str(&v, "CANCELED") {
        LiveOrderStatus::Canceled
    } else if chars_eq_str(&v, "REJECTED") {
        LiveOrderStatus::Rejected
    } else if chars_eq_str(&v, "EXPIRED") {
        LiveOrderStatus::Expired
    } else if chars_eq_str(&v, "EXPIRED_IN_MATCH") {
        LiveOrderStatus::ExpiredInMatch
    } else {
        LiveOrderStatus::UnknownNeedsRepair
    }
}

/// The first of two optional values that is present.
pub open spec fn or_else<T>(first: Option<T>, second: Option<T>) -> Option<T> {
    match first {
        Some(x) => Some(x),
        None => second,
    }
}

fn or_else_string(first: Option<String>, second: Option<String>) -> (r: Option<String>)
    ensures
        r == or_else(first, second),
{
    match first {
        Some(x) => Some(x),
        None => second,
    }
}

/// The larger of two times.
pub open spec fn later(a: i64, b: i64) -> i64 {
    if a < b { b } else { a }
}

/// Whether `m` is the local order updated from the exchange's full report
/// of it at `now_ms`.
pub open spec fn merged_from(m: LiveOrderRecord, local: LiveOrderRecord, exchange: LiveOrderRecord, now_ms: i64) -> bool {
    m == (LiveOrderRecord {
        status: exchange.status,
        exchange_order_id: or_else(exchange.exchange_order_id, local.exchange_order_id),
        quantity: if exchange.quantity@ != "0"@ { exchange.quantity } else { local.quantity },
        price: or_else(exchange.price, local.price),
        executed_qty: exchange.executed_qty,
        avg_price: or_else(exchange.avg_price, local.avg_price),
        reduce_only: exchange.reduce_only || local.reduce_only,
        time_in_force: or_else(exchange.time_in_force, local.time_in_force),
        self_trade_prevention_mode: exchange.self_trade_prevention_mode,
        price_match: exchange.price_match,
        expire_reason: exchange.expire_reason,
        updated_at: later(exchange.updated_at, now_ms),
        last_error: None,
        ..local
    })
}

/// Whether `m` is the local order updated from the exchange's
/// acknowledgement at `now_ms`.
pub open spec fn acked_from(m: LiveOrderRecord, local: LiveOrderRecord, exchange: LiveOrderRecord, now_ms: i64) -> bool {
    &&& m.response_type is Some && m.response_type->0@ == "ACK"@
    &&& m == (LiveOrderRecord {
        status: LiveOrderStatus::Accepted,
        exchange_order_id: or_else(exchange.exchange_order_id, local.exchange_order_id),
        response_type: m.response_type,
        self_trade_prevention_mode: exchange.self_trade_prevention_mode,
        price_match: exchange.price_match,
        expire_reason: exchange.expire_reason,
        updated_at: later(exchange.updated_at, now_ms),
        last_error: None,
        ..local
    })
}

/// Updates a local order from the exchange's full report of it at `now_ms`:
/// the exchange's status, executed quantity and trade-protection fields;
/// its identifier, price, average price and time in force where it gives
/// them; its quantity unless it reports `0`; reduce-only if either says so;
/// updated at the later of the report and now; the last error cleared.
pub fn merge_exchange_order(local: LiveOrderRecord, exchange: LiveOrderRecord, now_ms: i64) -> (m: LiveOrderRecord)
    ensures
        merged_from(m, local, exchange, now_ms),
{
    let mut local = local;
    let keep_quantity = chars_eq_str(&chars_of(exchange.quantity.as_str()), "0");
    local.status = exchange.status;
    local.exchange_order_id = or_else_string(exchange.exchange_order_id, local.exchange_order_id);
    if !keep_quantity {
        local.quantity = exchange.quantity;
    }
    local.price = or_else_string(exchange.price, local.price);
    local.executed_qty = exchange.executed_qty;
    local.avg_price = or_else_string(exchange.avg_price, local.avg_price);
    local.reduce_only = exchange.reduce_only || local.reduce_only;
    local.time_in_force = or_else_string(exchange.time_in_force, local.time_in_force);
    local.self_trade_prevention_mode = exchange.self_trade_prevention_mode;
    local.price_match = exchange.price_match;
    local.expire_reason = exchange.expire_reason;
    local.updated_at = if exchange.updated_at < now_ms { now_ms } else { exchange.updated_at };
    local.last_error = None;
    local
}

/// Updates a local order from the exchange's acknowledgement at `now_ms`:
/// accepted, the exchange's identifier where it gives one, answered with
/// `ACK`, the exchange's trade-protection fields, updated at the later of
/// the acknowledgement and now, the last error cleared.
pub fn merge_exchange_ack(local: LiveOrderRecord, exchange: LiveOrderRecord, now_ms: i64) -> (m: LiveOrderRecord)
    ensures
        acked_from(m, local, exchange, now_ms),
{
    let mut local = local;
    local.status = LiveOrderStatus::Accepted;
    local.exchange_order_id = or_else_string(exchange.exchange_order_id, local.exchange_order_id);
    local.response_type = Some(String::from_str("ACK"));
    local.self_trade_prevention_mode = exchange.self_trade_prevention_mode;
    local.price_match = exchange.price_match;
    local.expire_reason = exchange.expire_reason;
    local.updated_at = if exchange.updated_at < now_ms { now_ms } else { exchange.updated_at };
    local.last_error = None;
    local
}

/// Appends `item` and keeps only the last `limit` items.
pub fn push_recent<T>(items: &mut Vec<T>, item: T, limit: usize)
    ensures
        ({
            let all = old(items)@.push(item);
            final(items)@ == if all.len() > limit {
                all.subrange(all.len() - limit, all.len() as int)
            } else {
                all
            }
        }),
{
    let ghost all = old(items)@.push(item);
    items.push(item);
    let ghost mut dropped: int = 0;
    while items.len() > limit
        invariant
            0 <= dropped,
            dropped <= all.len(),
            items@ == all.subrange(dropped, all.len() as int),
            items@.len() > limit ==> dropped < all.len() - limit,
            items@.len() <= limit ==> dropped == if all.len() > limit { all.len() - limit } else { 0 },
        decreases items@.len(),
    {
        items.remove(0);
        proof {
            dropped = dropped + 1;
        }
    }
}

/// The text of a flag as `Display` prints it.
pub open spec fn bool_text(b: bool) -> Seq<char> {
    if b { "true"@ } else { "false"@ }
}

/// The text of an optional value, `-` when it is absent.
pub open spec fn text_or_dash(s: Option<Seq<char>>) -> Seq<char> {
    match s {
        Some(t) => t,
        None => "-"@,
    }
}

/// The intent hash: environment, symbol, side, order type, quantity, price
/// (`-` without one), reduce-only flag and source signal (`-` without
/// one), joined by colons.
pub open spec fn intent_hash_text(
    environment: LiveEnvironment,
    symbol: Symbol,
    side: LiveOrderSide,
    order_type: LiveOrderType,
    quantity: Seq<char>,
    price: Option<Seq<char>>,
    reduce_only: bool,
    source_signal_id: Option<Seq<char>>,
) -> Seq<char> {
    environment.text() + ":"@ + symbol.text() + ":"@ + side.text() + ":"@ + order_type.text()
        + ":"@ + quantity + ":"@ + text_or_dash(price) + ":"@ + bool_text(reduce_only) + ":"@ + text_or_dash(
        source_signal_id,
    )
}

/// The view of an optional string.
pub open spec fn opt_view(s: Option<&str>) -> Option<Seq<char>> {
    match s {
        Some(t) => Some(t@),
        None => None,
    }
}

/// The hash that identifies an intent's content, so that a repeated intent
/// is recognised.
pub fn intent_hash(
    environment: LiveEnvironment,
    symbol: Symbol,
    side: LiveOrderSide,
    order_type: LiveOrderType,
    quantity: &str,
    price: Option<&str>,
    reduce_only: bool,
    source_signal_id: Option<&str>,
) -> (h: String)
    ensures
        h@ == intent_hash_text(
            environment,
            symbol,
            side,
            order_type,
            quantity@,
            opt_view(price),
            reduce_only,
            opt_view(source_signal_id),
        ),
{
    let mut h = String::from_str(environment.as_str());
    append_str(&mut h, ":");
    append_str(&mut h, symbol.as_str());
    append_str(&mut h, ":");
    append_str(&mut h, side.as_binance());
    append_str(&mut h, ":");
    append_str(&mut h, order_type.as_binance());
    append_str(&mut h, ":");
    append_str(&mut h, quantity);
    append_str(&mut h, ":");
    match price {
        Some(p) => append_str(&mut h, p),
        None => append_str(&mut h, "-"),
    }
    append_str(&mut h, ":");
    if reduce_only {
        append_str(&mut h, "true");
    } else {
        append_str(&mut h, "false");
    }
    append_str(&mut h, ":");
    match source_signal_id {
        Some(s) => append_str(&mut h, s),
        None => append_str(&mut h, "-"),
    }
    h
}

/// Whether `c` is a lowercase hexadecimal digit.
pub open spec fn is_lower_hex(c: char) -> bool {
    ('0' <= c && c <= '9') || ('a' <= c && c <= 'f')
}

/// A fresh random UUID in its simple form (`Uuid::new_v4().simple()`):
/// 32 lowercase hexadecimal digits. Which digits come out is chance.
#[verifier::external_body]
pub(crate) fn random_uuid_simple() -> (s: String)
    ensures
        s@.len() == 32,
        forall|i: int| 0 <= i < 32 ==> is_lower_hex(#[trigger] s@[i]),
{
    Uuid::new_v4().simple().to_string()
}

/// A fresh client order identifier: the prefix, an underscore and 24
/// random lowercase hexadecimal digits.
pub fn client_order_id(prefix: &str) -> (id: String)
    ensures
        id@.len() == prefix@.len() + 25,
        id@.subrange(0, prefix@.len() as int) == prefix@,
        id@[prefix@.len() as int] == '_',
        forall|i: int| prefix@.len() + 1 <= i < id@.len() ==> is_lower_hex(#[trigger] id@[i]),
{
    let raw = random_uuid_simple();
    let digits = chars_of(raw.as_str());
    let mut v = chars_of(prefix);
    v.push('_');
    let mut i: usize = 0;
    while i < 24
        invariant
            digits@ == raw@,
            raw@.len() == 32,
            forall|k: int| 0 <= k < 32 ==> is_lower_hex(#[trigger] raw@[k]),
            i <= 24,
            v@ == prefix@ + seq!['_'] + raw@.subrange(0, i as int),
        decreases 24 - i,
    {
        v.push(digits[i]);
        assert(v@ =~= prefix@ + seq!['_'] + raw@.subrange(0, i + 1));
        i = i + 1;
    }
    let id = string_of_chars(&v);
    assert(id@.subrange(0, prefix@.len() as int) =~= prefix@);
    assert forall|i: int| prefix@.len() + 1 <= i < id@.len() implies is_lower_hex(#[trigger] id@[i]) by {
        assert(id@[i] == raw@[i - prefix@.len() - 1]);
    }
    id
}

/// Whether a user-data order update carries a fill: a last filled
/// quantity that reads as a decimal above zero, and a last filled price.
pub open spec fn shadow_update_fills(order: LiveShadowOrder) -> bool {
    &&& order.last_filled_qty is Some
    &&& order.last_filled_price is Some
    &&& decimal_parts_of_text(order.last_filled_qty->0@) matches Some(q) && q.0 > 0
}

/// The identifier of the fill an order update carries: by trade where the
/// update names one, else by client order, update time and quantity.
pub open spec fn shadow_fill_id(record: LiveOrderRecord, order: LiveShadowOrder) -> Seq<char> {
    match order.trade_id {
        Some(t) => "trade_"@ + order.order_id@ + "_"@ + t@,
        None => "fill_"@ + record.client_order_id@ + "_"@ + int_decimal(order.last_update_time as int) + "_"@
            + order.last_filled_qty->0@,
    }
}

/// The fill that a user-data order update of the local order `record`
/// carries, recorded at `now_ms`, if it carries one.
pub fn fill_from_shadow_order(record: &LiveOrderRecord, order: &LiveShadowOrder, now_ms: i64) -> (f: Option<
    LiveFillRecord,
>)
    ensures
        shadow_update_fills(*order) <==> f is Some,
        f matches Some(fill) ==> {
            &&& fill.id@ == shadow_fill_id(*record, *order)
            &&& fill.order_id == Some(record.id)
            &&& fill.client_order_id == Some(record.client_order_id)
            &&& fill.exchange_order_id == Some(order.order_id)
            &&& fill.symbol == order.symbol
            &&& fill.side == order.side
            &&& fill.quantity == order.last_filled_qty->0
            &&& fill.price == order.last_filled_price->0
            &&& fill.commission == order.commission
            &&& fill.commission_asset == order.commission_asset
            &&& fill.realized_pnl is None
            &&& fill.trade_id == order.trade_id
            &&& fill.event_time == order.last_update_time
            &&& fill.created_at == now_ms
        },
{
    let quantity = match &order.last_filled_qty {
        Some(q) => q,
        None => return None,
    };
    let price = match &order.last_filled_price {
        Some(p) => p,
        None => return None,
    };
    let parsed = match parse_decimal(quantity.as_str()) {
        Ok(q) => q,
        Err(_) => return None,
    };
    if parsed.0 <= 0 {
        return None;
    }
    let id = match &order.trade_id {
        Some(t) => {
            let mut id = String::from_str("trade_");
            append_str(&mut id, order.order_id.as_str());
            append_str(&mut id, "_");
            append_str(&mut id, t.as_str());
            id
        },
        None => {
            let mut id = String::from_str("fill_");
            append_str(&mut id, record.client_order_id.as_str());
            append_str(&mut id, "_");
            let time = i64_decimal(order.last_update_time);
            append_str(&mut id, time.as_str());
            append_str(&mut id, "_");
            append_str(&mut id, quantity.as_str());
            id
        },
    };
    Some(
        LiveFillRecord {
            id,
            order_id: Some(record.id.clone()),
            client_order_id: Some(record.client_order_id.clone()),
            exchange_order_id: Some(order.order_id.clone()),
            symbol: order.symbol,
            side: order.side,
            quantity: quantity.clone(),
            price: price.clone(),
            commission: clone_opt_string(&order.commission),
            commission_asset: clone_opt_string(&order.commission_asset),
            realized_pnl: None,
            trade_id: clone_opt_string(&order.trade_id),
            event_time: order.last_update_time,
            created_at: now_ms,
        },
    )
}

/// The entries of an order payload by their texts.
pub open spec fn text_map(m: Map<String, String>) -> Map<Seq<char>, Seq<char>> {
    Map::new(
        |k: Seq<char>| exists|s: String| #[trigger] m.dom().contains(s) && s@ == k,
        |k: Seq<char>| m[choose|s: String| #[trigger] m.dom().contains(s) && s@ == k]@,
    )
}

/// Inserts an entry into an order payload (`BTreeMap::insert`): the key's
/// text then maps to the value's text, every other entry unchanged.
#[verifier::external_body]
pub(crate) fn payload_insert(payload: &mut BTreeMap<String, String>, key: &str, value: String)
    ensures
        text_map(final(payload)@) == text_map(old(payload)@).insert(key@, value@),
{
    payload.insert(key.to_string(), value);
}

/// A new, empty payload.
pub fn empty_payload() -> (p: BTreeMap<String, String>)
    ensures
        text_map(p@) == Map::<Seq<char>, Seq<char>>::empty(),
{
    let p = BTreeMap::new();
    assert(text_map(p@) =~= Map::<Seq<char>, Seq<char>>::empty());
    p
}

/// The identifier a stream-reported order falls back to:
/// `order_<exchange order id>`.
pub open spec fn fallback_order_id(order: LiveShadowOrder) -> Seq<char> {
    "order_"@ + order.order_id@
}

/// Whether `r` is the local order that a user-data order update gives at
/// `now_ms`, given the stored order it refers to (if any): the exchange's
/// view of status, quantities, prices and flags, the stored order's
/// identity, intent, reason, payload and submission time where there is
/// one, updated at the later of the update and now.
pub open spec fn record_from_update(
    r: LiveOrderRecord,
    existing: Option<LiveOrderRecord>,
    order: LiveShadowOrder,
    environment: LiveEnvironment,
    now_ms: i64,
) -> bool {
    &&& r.id@ == match existing {
        Some(e) => e.id@,
        None => match order.client_order_id {
            Some(c) => c@,
            None => fallback_order_id(order),
        },
    }
    &&& r.credential_id == match existing {
        Some(e) => e.credential_id,
        None => None,
    }
    &&& r.environment == environment
    &&& r.symbol == order.symbol
    &&& r.side == order.side
    &&& r.order_type == order.order_type
    &&& r.status == status_of_exchange_text(order.status@)
    &&& r.client_order_id@ == match order.client_order_id {
        Some(c) => c@,
        None => fallback_order_id(order),
    }
    &&& r.exchange_order_id == Some(order.order_id)
    &&& r.quantity == order.original_qty
    &&& r.price == order.price
    &&& r.executed_qty == order.executed_qty
    &&& r.avg_price == order.avg_price
    &&& r.reduce_only == order.reduce_only
    &&& r.time_in_force == order.time_in_force
    &&& r.intent_id == match existing {
        Some(e) => e.intent_id,
        None => None,
    }
    &&& r.intent_hash == match existing {
        Some(e) => e.intent_hash,
        None => None,
    }
    &&& r.source_signal_id == match existing {
        Some(e) => e.source_signal_id,
        None => None,
    }
    &&& r.source_open_time == match existing {
        Some(e) => e.source_open_time,
        None => None,
    }
    &&& r.reason@ == match existing {
        Some(e) => e.reason@,
        None => "user_data_stream"@,
    }
    &&& text_map(r.payload@) == match existing {
        Some(e) => text_map(e.payload@),
        None => Map::<Seq<char>, Seq<char>>::empty(),
    }
    &&& r.response_type == match existing {
        Some(e) => e.response_type,
        None => None,
    }
    &&& r.self_trade_prevention_mode == order.self_trade_prevention_mode
    &&& r.price_match == order.price_match
    &&& r.expire_reason == order.expire_reason
    &&& r.last_error is None
    &&& r.submitted_at == match existing {
        Some(e) => e.submitted_at,
        None => order.last_update_time,
    }
    &&& r.updated_at == later(order.last_update_time, now_ms)
}

/// The local order that a user-data order update gives, from the stored
/// order it refers to (if any).
pub fn record_from_order_update(
    existing: &Option<LiveOrderRecord>,
    order: &LiveShadowOrder,
    environment: LiveEnvironment,
    now_ms: i64,
) -> (r: LiveOrderRecord)
    ensures
        record_from_update(r, *existing, *order, environment, now_ms),
{
    let fallback = concat_str("order_", order.order_id.as_str());
    let client_order_id = match &order.client_order_id {
        Some(c) => c.clone(),
        None => fallback.clone(),
    };
    let (id, credential_id, intent_id, intent_hash, source_signal_id, source_open_time, reason, payload, response_type, submitted_at) =
        match existing {
        Some(e) => (
            e.id.clone(),
            crate::execution::clone_opt_credential_id(&e.credential_id),
            clone_opt_string(&e.intent_id),
            clone_opt_string(&e.intent_hash),
            clone_opt_string(&e.source_signal_id),
            e.source_open_time,
            e.reason.clone(),
            e.payload.clone(),
            clone_opt_string(&e.response_type),
            e.submitted_at,
        ),
        None => (
            client_order_id.clone(),
            None,
            None,
            None,
            None,
            None,
            String::from_str("user_data_stream"),
            empty_payload(),
            None,
            order.last_update_time,
        ),
    };
    LiveOrderRecord {
        id,
        credential_id,
        environment,
        symbol: order.symbol,
        side: order.side,
        order_type: order.order_type,
        status: live_order_status_from_exchange_status(order.status.as_str()),
        client_order_id,
        exchange_order_id: Some(order.order_id.clone()),
        quantity: order.original_qty.clone(),
        price: clone_opt_string(&order.price),
        executed_qty: order.executed_qty.clone(),
        avg_price: clone_opt_string(&order.avg_price),
        reduce_only: order.reduce_only,
        time_in_force: clone_opt_string(&order.time_in_force),
        intent_id,
        intent_hash,
        source_signal_id,
        source_open_time,
        reason,
        payload,
        response_type,
        self_trade_prevention_mode: clone_opt_string(&order.self_trade_prevention_mode),
        price_match: clone_opt_string(&order.price_match),
        expire_reason: clone_opt_string(&order.expire_reason),
        last_error: None,
        submitted_at,
        updated_at: if order.last_update_time < now_ms { now_ms } else { order.last_update_time },
    }
}

} // verus!
