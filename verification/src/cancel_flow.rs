//! Cancelling live orders: the confirmations a cancel needs, the local
//! state while the exchange works on it, and how its answer settles the
//! order; the same for cancelling every open order of the active symbol,
//! and the recent-window repair that follows ambiguous outcomes.

use vstd::prelude::*;

use crate::error::AppError;
use crate::execution::{clone_order, order_copy};
use crate::live::{LiveBlockingReason, LiveEnvironment};
use crate::market::Symbol;
use crate::order_flow::{blocked_cancel_result, merge_exchange_order, merged_from};
use crate::orders::{
    LiveCancelAllRequest, LiveCancelRequest, LiveCancelResult, LiveFillRecord, LiveOrderRecord, LiveOrderStatus,
};
use crate::text::{append_str, concat_str, str_eq};

verus! {

/// The phrase that confirms cancelling a mainnet order:
/// `CANCEL MAINNET <symbol> <client order id>`.
pub open spec fn cancel_phrase(symbol: Symbol, client_order_id: Seq<char>) -> Seq<char> {
    "CANCEL MAINNET "@ + symbol.text() + " "@ + client_order_id
}

/// The phrase that confirms cancelling a mainnet order.
pub fn cancel_confirmation_phrase(order: &LiveOrderRecord) -> (s: String)
    ensures
        s@ == cancel_phrase(order.symbol, order.client_order_id@),
{
    let mut s = concat_str("CANCEL MAINNET ", order.symbol.as_str());
    append_str(&mut s, " ");
    append_str(&mut s, order.client_order_id.as_str());
    s
}

/// Whether `r` refuses with the reason and message given, at `now`.
pub open spec fn cancel_refused(r: LiveCancelResult, reason: LiveBlockingReason, message: Seq<char>, now: i64) -> bool {
    &&& !r.accepted
    &&& r.order is None
    &&& r.blocking_reason == Some(reason)
    &&& r.message@ == message
    &&& r.created_at == now
}

/// Whether the confirmation text is exactly `phrase`, with the mainnet
/// confirmation given.
pub open spec fn confirmed(confirm: bool, text: Option<String>, phrase: Seq<char>) -> bool {
    confirm && text is Some && text->0@ == phrase
}

fn exact_confirmation(confirm: bool, text: &Option<String>, phrase: &str) -> (b: bool)
    ensures
        b == confirmed(confirm, *text, phrase@),
{
    confirm && match text {
        Some(t) => str_eq(t.as_str(), phrase),
        None => false,
    }
}

/// Refuses a testnet cancel without the testnet confirmation; the check
/// made before the order is looked up.
pub fn testnet_cancel_refusal(environment: LiveEnvironment, request: &LiveCancelRequest, now_ms: i64) -> (r: Option<
    LiveCancelResult,
>)
    ensures
        r is Some <==> (environment == LiveEnvironment::Testnet && !request.confirm_testnet),
        r matches Some(res) ==> cancel_refused(
            res,
            LiveBlockingReason::ExecutionStatusUnknown,
            "Cancel requires explicit TESTNET confirmation."@,
            now_ms,
        ),
{
    if environment == LiveEnvironment::Testnet && !request.confirm_testnet {
        Some(
            blocked_cancel_result(
                LiveBlockingReason::ExecutionStatusUnknown,
                "Cancel requires explicit TESTNET confirmation.",
                now_ms,
            ),
        )
    } else {
        None
    }
}

/// The order a cancel refers to, or `NotFound` with
/// `live order not found: <reference>`.
pub fn order_or_not_found(found: Option<LiveOrderRecord>, order_ref: &str) -> (r: Result<LiveOrderRecord, AppError>)
    ensures
        match found {
            Some(o) => r == Ok::<LiveOrderRecord, AppError>(o),
            None => r is Err && r->Err_0 is NotFound && r->Err_0->NotFound_0@ == "live order not found: "@
                + order_ref@,
        },
{
    match found {
        Some(o) => Ok(o),
        None => Err(AppError::NotFound(concat_str("live order not found: ", order_ref))),
    }
}

/// The refusal of a mainnet cancel, if any: the server's canary flag off;
/// a confirmation that is missing or not the exact phrase for the order.
pub open spec fn mainnet_cancel_refusal_spec(
    environment: LiveEnvironment,
    order: LiveOrderRecord,
    request: LiveCancelRequest,
    canary_enabled: bool,
) -> Option<(LiveBlockingReason, Seq<char>)> {
    let required = cancel_phrase(order.symbol, order.client_order_id@);
    if environment != LiveEnvironment::Mainnet {
        None
    } else if !canary_enabled {
        Some((LiveBlockingReason::MainnetCanaryDisabled, "MAINNET canary cancel is disabled by server policy."@))
    } else if !confirmed(request.confirm_mainnet_canary, request.confirmation_text, required) {
        Some(
            (
                LiveBlockingReason::MainnetConfirmationMissing,
                "MAINNET canary cancel requires exact confirmation: "@ + required,
            ),
        )
    } else {
        None
    }
}

/// Checks a mainnet cancel against the server's canary flag and the exact
/// confirmation phrase for the order.
pub fn mainnet_cancel_refusal(
    environment: LiveEnvironment,
    order: &LiveOrderRecord,
    request: &LiveCancelRequest,
    canary_enabled: bool,
    now_ms: i64,
) -> (r: Option<LiveCancelResult>)
    ensures
        match mainnet_cancel_refusal_spec(environment, *order, *request, canary_enabled) {
            None => r is None,
            Some((reason, message)) => r is Some && cancel_refused(r->0, reason, message, now_ms),
        },
{
    if environment != LiveEnvironment::Mainnet {
        return None;
    }
    let required = cancel_confirmation_phrase(order);
    if !canary_enabled {
        return Some(
            blocked_cancel_result(
                LiveBlockingReason::MainnetCanaryDisabled,
                "MAINNET canary cancel is disabled by server policy.",
                now_ms,
            ),
        );
    }
    if !exact_confirmation(request.confirm_mainnet_canary, &request.confirmation_text, required.as_str()) {
        let message = concat_str("MAINNET canary cancel requires exact confirmation: ", required.as_str());
        return Some(blocked_cancel_result(LiveBlockingReason::MainnetConfirmationMissing, message.as_str(), now_ms));
    }
    None
}

/// The order while the exchange works on its cancel: cancel pending,
/// updated now.
pub fn mark_cancel_pending(order: LiveOrderRecord, now_ms: i64) -> (o: LiveOrderRecord)
    ensures
        o == (LiveOrderRecord { status: LiveOrderStatus::CancelPending, updated_at: now_ms, ..order }),
{
    let mut o = order;
    o.status = LiveOrderStatus::CancelPending;
    o.updated_at = now_ms;
    o
}

/// Settles a cancel with the exchange's answer at `now_ms`: the order the
/// exchange returned merges into the local one and the cancel is accepted;
/// a failure leaves the order needing repair with the error, and the cancel
/// is refused as failed.
pub fn settle_cancel(
    order: LiveOrderRecord,
    outcome: Result<LiveOrderRecord, String>,
    environment: LiveEnvironment,
    now_ms: i64,
) -> (r: (LiveOrderRecord, LiveCancelResult))
    ensures
        match outcome {
            Ok(exchange) => {
                &&& merged_from(r.0, order, exchange, now_ms)
                &&& r.1.accepted
                &&& r.1.blocking_reason is None
                &&& r.1.message@ == if environment == LiveEnvironment::Mainnet {
                    "MAINNET canary cancel submitted; final state follows exchange reconciliation."@
                } else {
                    "TESTNET cancel submitted; final state follows exchange reconciliation."@
                }
            },
            Err(error) => {
                &&& r.0 == (LiveOrderRecord {
                    status: LiveOrderStatus::UnknownNeedsRepair,
                    last_error: Some(error),
                    updated_at: now_ms,
                    ..order
                })
                &&& !r.1.accepted
                &&& r.1.blocking_reason == Some(LiveBlockingReason::CancelFailed)
                &&& r.1.message@ == "TESTNET cancel failed: "@ + error@
            },
        },
        r.1.order is Some && order_copy(r.1.order->0, r.0),
        r.1.created_at == now_ms,
{
    match outcome {
        Ok(exchange) => {
            let merged = merge_exchange_order(order, exchange, now_ms);
            let message = if environment == LiveEnvironment::Mainnet {
                "MAINNET canary cancel submitted; final state follows exchange reconciliation."
            } else {
                "TESTNET cancel submitted; final state follows exchange reconciliation."
            };
            let copy = clone_order(&merged);
            let result = LiveCancelResult {
                accepted: true,
                order: Some(copy),
                blocking_reason: None,
                message: String::from_str(message),
                created_at: now_ms,
            };
            (merged, result)
        },
        Err(error) => {
            let message = concat_str("TESTNET cancel failed: ", error.as_str());
            let mut o = order;
            o.status = LiveOrderStatus::UnknownNeedsRepair;
            o.last_error = Some(error);
            o.updated_at = now_ms;
            let copy = clone_order(&o);
            let result = LiveCancelResult {
                accepted: false,
                order: Some(copy),
                blocking_reason: Some(LiveBlockingReason::CancelFailed),
                message,
                created_at: now_ms,
            };
            (o, result)
        },
    }
}

/// The phrase that confirms cancelling every mainnet order of a symbol:
/// `CANCEL ALL MAINNET <symbol>`.
pub open spec fn cancel_all_phrase(symbol: Symbol) -> Seq<char> {
    "CANCEL ALL MAINNET "@ + symbol.text()
}

/// The refusal of a cancel-all request, if any: testnet without the
/// testnet confirmation; mainnet with the server's canary flag off, or
/// without the exact phrase for the active symbol.
pub open spec fn cancel_all_refusal_spec(
    environment: LiveEnvironment,
    symbol: Symbol,
    request: LiveCancelAllRequest,
    canary_enabled: bool,
) -> Option<(LiveBlockingReason, Seq<char>)> {
    if environment == LiveEnvironment::Testnet {
        if !request.confirm_testnet {
            Some((LiveBlockingReason::ExecutionStatusUnknown, "TESTNET cancel-all requires explicit confirmation."@))
        } else {
            None
        }
    } else if !canary_enabled {
        Some((LiveBlockingReason::MainnetCanaryDisabled, "MAINNET canary cancel-all is disabled by server policy."@))
    } else if !confirmed(request.confirm_mainnet_canary, request.confirmation_text, cancel_all_phrase(symbol)) {
        Some(
            (
                LiveBlockingReason::MainnetConfirmationMissing,
                "MAINNET canary cancel-all requires exact confirmation: "@ + cancel_all_phrase(symbol),
            ),
        )
    } else {
        None
    }
}

/// Checks a request to cancel every open order of the active symbol.
pub fn cancel_all_refusal(
    environment: LiveEnvironment,
    symbol: Symbol,
    request: &LiveCancelAllRequest,
    canary_enabled: bool,
    now_ms: i64,
) -> (r: Option<LiveCancelResult>)
    ensures
        match cancel_all_refusal_spec(environment, symbol, *request, canary_enabled) {
            None => r is None,
            Some((reason, message)) => r is Some && cancel_refused(r->0, reason, message, now_ms),
        },
{
    if environment == LiveEnvironment::Testnet {
        if !request.confirm_testnet {
            return Some(
                blocked_cancel_result(
                    LiveBlockingReason::ExecutionStatusUnknown,
                    "TESTNET cancel-all requires explicit confirmation.",
                    now_ms,
                ),
            );
        }
        return None;
    }
    if !canary_enabled {
        return Some(
            blocked_cancel_result(
                LiveBlockingReason::MainnetCanaryDisabled,
                "MAINNET canary cancel-all is disabled by server policy.",
                now_ms,
            ),
        );
    }
    let required = concat_str("CANCEL ALL MAINNET ", symbol.as_str());
    if !exact_confirmation(request.confirm_mainnet_canary, &request.confirmation_text, required.as_str()) {
        let message = concat_str("MAINNET canary cancel-all requires exact confirmation: ", required.as_str());
        return Some(blocked_cancel_result(LiveBlockingReason::MainnetConfirmationMissing, message.as_str(), now_ms));
    }
    None
}

/// Whether `reqs` cancels, in order, each open order of `symbol` in
/// `orders`, carrying the request's confirmations and each order's own
/// cancel phrase.
pub open spec fn cancel_all_requests_hold(
    reqs: Seq<LiveCancelRequest>,
    orders: Seq<LiveOrderRecord>,
    symbol: Symbol,
    request: LiveCancelAllRequest,
) -> bool {
    let open = orders.filter(|o: LiveOrderRecord| o.symbol == symbol && o.status.open());
    &&& reqs.len() == open.len()
    &&& forall|k: int|
        0 <= k < reqs.len() ==> {
            &&& (#[trigger] reqs[k]).order_ref == open[k].id
            &&& reqs[k].confirm_testnet == request.confirm_testnet
            &&& reqs[k].confirm_mainnet_canary == request.confirm_mainnet_canary
            &&& reqs[k].confirmation_text is Some
            &&& reqs[k].confirmation_text->0@ == cancel_phrase(open[k].symbol, open[k].client_order_id@)
        }
}

/// The single cancels that a cancel-all request makes: one for each open
/// order of the active symbol.
pub fn cancel_all_requests(orders: &Vec<LiveOrderRecord>, symbol: Symbol, request: &LiveCancelAllRequest) -> (reqs: Vec<
    LiveCancelRequest,
>)
    ensures
        cancel_all_requests_hold(reqs@, orders@, symbol, *request),
{
    let ghost pick = |o: LiveOrderRecord| o.symbol == symbol && o.status.open();
    let mut reqs: Vec<LiveCancelRequest> = Vec::new();
    let mut i: usize = 0;
    while i < orders.len()
        invariant
            i <= orders@.len(),
            pick == (|o: LiveOrderRecord| o.symbol == symbol && o.status.open()),
            cancel_all_requests_hold(reqs@, orders@.subrange(0, i as int), symbol, *request),
        decreases orders@.len() - i,
    {
        proof {
            reveal(Seq::filter);
            assert(orders@.subrange(0, i + 1).drop_last() =~= orders@.subrange(0, i as int));
        }
        let o = &orders[i];
        if o.symbol == symbol && o.status.is_open() {
            let phrase = cancel_confirmation_phrase(o);
            reqs.push(
                LiveCancelRequest {
                    order_ref: o.id.clone(),
                    confirm_testnet: request.confirm_testnet,
                    confirm_mainnet_canary: request.confirm_mainnet_canary,
                    confirmation_text: Some(phrase),
                },
            );
        }
        proof {
            let before = orders@.subrange(0, i as int).filter(pick);
            let after = orders@.subrange(0, i + 1).filter(pick);
            if pick(orders@[i as int]) {
                assert(after =~= before.push(orders@[i as int]));
            } else {
                assert(after =~= before);
            }
        }
        i = i + 1;
    }
    assert(orders@.subrange(0, orders@.len() as int) =~= orders@);
    reqs
}

/// The positions of the orders a recent-window repair queries: the open
/// orders of `symbol`, in their order, at most `limit` of them.
pub open spec fn repair_positions(orders: Seq<LiveOrderRecord>, symbol: Symbol, limit: int) -> Seq<usize> {
    let all = Seq::new(orders.len(), |i: int| i as usize).filter(
        |i: usize| orders[i as int].symbol == symbol && orders[i as int].status.open(),
    );
    if all.len() > limit {
        all.take(limit)
    } else {
        all
    }
}

/// The orders a recent-window repair queries, as positions into `orders`.
pub fn repair_candidates(orders: &Vec<LiveOrderRecord>, symbol: Symbol, limit: usize) -> (p: Vec<usize>)
    ensures
        p@ == repair_positions(orders@, symbol, limit as int),
{
    let ghost pick = |i: usize| orders@[i as int].symbol == symbol && orders@[i as int].status.open();
    let ghost idx = Seq::new(orders@.len(), |i: int| i as usize);
    let mut all: Vec<usize> = Vec::new();
    let mut i: usize = 0;
    while i < orders.len()
        invariant
            i <= orders@.len(),
            idx == Seq::new(orders@.len(), |i: int| i as usize),
            pick == (|i: usize| orders@[i as int].symbol == symbol && orders@[i as int].status.open()),
            all@ == idx.subrange(0, i as int).filter(pick),
        decreases orders@.len() - i,
    {
        proof {
            reveal(Seq::filter);
            assert(idx.subrange(0, i + 1).drop_last() =~= idx.subrange(0, i as int));
        }
        if orders[i].symbol == symbol && orders[i].status.is_open() {
            all.push(i);
        }
        i = i + 1;
    }
    assert(idx.subrange(0, orders@.len() as int) =~= idx);
    if all.len() > limit {
        let mut out: Vec<usize> = Vec::new();
        let mut k: usize = 0;
        while k < limit
            invariant
                k <= limit < all@.len(),
                out@ == all@.take(k as int),
            decreases limit - k,
        {
            out.push(all[k]);
            assert(out@ =~= all@.take(k + 1));
            k = k + 1;
        }
        out
    } else {
        all
    }
}

/// Settles the repair query of an open order at `now_ms`: the order the
/// exchange returned merges into the local one; where the exchange knows
/// no such order, it needs repair.
pub fn settle_repair_query(order: LiveOrderRecord, found: Option<LiveOrderRecord>, now_ms: i64) -> (o: LiveOrderRecord)
    ensures
        match found {
            Some(exchange) => merged_from(o, order, exchange, now_ms),
            None => o.status == LiveOrderStatus::UnknownNeedsRepair && o.last_error is Some
                && o.last_error->0@ == "recent-window repair could not find order"@ && o == (LiveOrderRecord {
                status: LiveOrderStatus::UnknownNeedsRepair,
                last_error: o.last_error,
                updated_at: now_ms,
                ..order
            }),
        },
{
    match found {
        Some(exchange) => merge_exchange_order(order, exchange, now_ms),
        None => {
            let mut o = order;
            o.status = LiveOrderStatus::UnknownNeedsRepair;
            o.last_error = Some(String::from_str("recent-window repair could not find order"));
            o.updated_at = now_ms;
            o
        },
    }
}

/// Whether `order` is the local order of a fill: the same exchange order
/// identifier (both absent counts), or the fill's client order identifier.
pub open spec fn fill_matches_order(fill: LiveFillRecord, order: LiveOrderRecord) -> bool {
    opt_text(fill.exchange_order_id) == opt_text(order.exchange_order_id) || (fill.client_order_id is Some
        && fill.client_order_id->0@ == order.client_order_id@)
}

/// The first local order a fill matches, if any.
pub open spec fn first_matching_order(fill: LiveFillRecord, orders: Seq<LiveOrderRecord>) -> Option<int> {
    if exists|k: int| 0 <= k < orders.len() && fill_matches_order(fill, #[trigger] orders[k]) {
        Some(
            choose|k: int|
                0 <= k < orders.len() && fill_matches_order(fill, #[trigger] orders[k]) && forall|j: int|
                    0 <= j < k ==> !fill_matches_order(fill, #[trigger] orders[j]),
        )
    } else {
        None
    }
}

/// The text of an optional string.
pub open spec fn opt_text(s: Option<String>) -> Option<Seq<char>> {
    match s {
        Some(t) => Some(t@),
        None => None,
    }
}

fn opt_text_eq(a: &Option<String>, b: &Option<String>) -> (r: bool)
    ensures
        r == (opt_text(*a) == opt_text(*b)),
{
    match (a, b) {
        (Some(x), Some(y)) => str_eq(x.as_str(), y.as_str()),
        (None, None) => true,
        _ => false,
    }
}

/// A fill from the exchange's trade list, with the local order and client
/// order identifiers it lacks taken from the first local order it matches;
/// a fill that carries both, or matches none, stays as it is.
pub fn attribute_fill(fill: LiveFillRecord, orders: &Vec<LiveOrderRecord>) -> (f: LiveFillRecord)
    ensures
        (fill.order_id is Some && fill.client_order_id is Some) || first_matching_order(fill, orders@) is None
            ==> f == fill,
        !(fill.order_id is Some && fill.client_order_id is Some) ==> (first_matching_order(fill, orders@) matches Some(
            k,
        ) ==> f == (LiveFillRecord {
            order_id: if fill.order_id is Some { fill.order_id } else { Some(orders@[k].id) },
            client_order_id: if fill.client_order_id is Some {
                fill.client_order_id
            } else {
                Some(orders@[k].client_order_id)
            },
            ..fill
        })),
{
    if fill.order_id.is_some() && fill.client_order_id.is_some() {
        return fill;
    }
    let mut k: usize = 0;
    while k < orders.len()
        invariant
            k <= orders@.len(),
            forall|j: int| 0 <= j < k ==> !fill_matches_order(fill, #[trigger] orders@[j]),
        decreases orders@.len() - k,
    {
        let o = &orders[k];
        let by_client = match &fill.client_order_id {
            Some(c) => str_eq(c.as_str(), o.client_order_id.as_str()),
            None => false,
        };
        if opt_text_eq(&fill.exchange_order_id, &o.exchange_order_id) || by_client {
            assert(fill_matches_order(fill, orders@[k as int]));
            assert(first_matching_order(fill, orders@) == Some(k as int)) by {
                let c = choose|c: int|
                    0 <= c < orders@.len() && fill_matches_order(fill, #[trigger] orders@[c]) && forall|j: int|
                        0 <= j < c ==> !fill_matches_order(fill, #[trigger] orders@[j]);
                assert(fill_matches_order(fill, orders@[k as int]) && forall|j: int|
                    0 <= j < k ==> !fill_matches_order(fill, #[trigger] orders@[j]));
                if c < k {
                } else if c > k {
                    assert(!fill_matches_order(fill, orders@[k as int]));
                }
            }
            let mut f = fill;
            if f.order_id.is_none() {
                f.order_id = Some(o.id.clone());
            }
            if f.client_order_id.is_none() {
                f.client_order_id = Some(o.client_order_id.clone());
            }
            return f;
        }
        k = k + 1;
    }
    fill
}

} // verus!
