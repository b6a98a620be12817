//! The decisions of the operator's live actions: executing the current
//! preview and flattening the active symbol's position. Each action reads
//! state and calls the exchange; the decisions between those calls stand
//! here, and the caller performs what they decide.

use vstd::prelude::*;

use crate::canary::{confirmation_phrase, mainnet_confirmation_phrase};
use crate::decimal::{
    decimal_less, decimal_to_exchange_string, exchange_text,
    parse_decimal_or_zero, parts_or_zero, quantity_within, quantized_down, try_quantize_down, valid_parts,
    decimal_lt,
};
use crate::error::AppError;
use crate::execution::{clone_opt_string, clone_order, order_copy};
use crate::live::{LiveAccountShadow, LiveBlockingReason, LiveCredentialId, LiveEnvironment, LiveShadowPosition};
use crate::market::Symbol;
use crate::order_flow::{
    acked_from, blocked_execution_result, blocked_flatten_result, merge_exchange_ack, merge_exchange_order, merged_from,
    empty_payload, payload_insert, text_map,
};
use crate::orders::{
    LiveExecutionRequest, LiveExecutionResult, LiveExecutionSnapshot, LiveFlattenRequest, LiveFlattenResult,
    LiveOrderIntent, LiveOrderPreview, LiveOrderRecord, LiveOrderSide, LiveOrderStatus, LiveOrderType,
};
use crate::text::{append_str, concat_str, str_eq};

verus! {

/// The refusal of an execution request before the mainnet checks, if any:
/// no preview; a preview without an intent (with its first reason); a
/// request for another intent than the one shown; a testnet request
/// without testnet confirmation; on mainnet, the server's canary flag off,
/// then an intent that is not a limit order.
pub open spec fn execution_request_refusal_spec(
    environment: LiveEnvironment,
    preview: Option<LiveOrderPreview>,
    request: LiveExecutionRequest,
    canary_enabled: bool,
) -> Option<(LiveBlockingReason, Seq<char>)> {
    match preview {
        None => Some((LiveBlockingReason::IntentUnavailable, "No live intent preview exists."@)),
        Some(p) => match p.intent {
            None => Some(
                (
                    if p.blocking_reasons@.len() > 0 {
                        p.blocking_reasons@[0]
                    } else {
                        LiveBlockingReason::IntentUnavailable
                    },
                    "Live intent preview is blocked."@,
                ),
            ),
            Some(i) => if request.intent_id is Some && request.intent_id->0@ != i.id@ {
                Some(
                    (
                        LiveBlockingReason::PreviewMismatch,
                        "Displayed preview no longer matches the execution request."@,
                    ),
                )
            } else if environment == LiveEnvironment::Testnet && !request.confirm_testnet {
                Some(
                    (LiveBlockingReason::ExecutionStatusUnknown, "Execution requires explicit TESTNET confirmation."@),
                )
            } else if environment == LiveEnvironment::Mainnet && !canary_enabled {
                Some(
                    (
                        LiveBlockingReason::MainnetCanaryDisabled,
                        "MAINNET canary execution is disabled by server policy."@,
                    ),
                )
            } else if environment == LiveEnvironment::Mainnet && i.order_type != LiveOrderType::Limit {
                Some(
                    (
                        LiveBlockingReason::MainnetCanaryLimitRequired,
                        "MAINNET canary requires a non-marketable LIMIT order."@,
                    ),
                )
            } else {
                None
            },
        },
    }
}

/// Whether `r` refuses with the reason and message given, at `now`.
pub open spec fn execution_refused(r: LiveExecutionResult, refusal: (LiveBlockingReason, Seq<char>), now: i64) -> bool {
    &&& !r.accepted
    &&& r.order is None
    &&& r.blocking_reason == Some(refusal.0)
    &&& r.message@ == refusal.1
    &&& r.created_at == now
}

/// Checks an execution request against the preview shown: the refusal, if
/// any, before the mainnet checks.
pub fn execution_request_refusal(
    environment: LiveEnvironment,
    preview: &Option<LiveOrderPreview>,
    request: &LiveExecutionRequest,
    canary_enabled: bool,
    now_ms: i64,
) -> (r: Option<LiveExecutionResult>)
    ensures
        match execution_request_refusal_spec(environment, *preview, *request, canary_enabled) {
            None => r is None,
            Some(refusal) => r is Some && execution_refused(r->0, refusal, now_ms),
        },
{
    let p = match preview {
        None => return Some(blocked_execution_result(LiveBlockingReason::IntentUnavailable, "No live intent preview exists.", now_ms)),
        Some(p) => p,
    };
    let intent = match &p.intent {
        None => {
            let reason = if p.blocking_reasons.len() > 0 {
                p.blocking_reasons[0]
            } else {
                LiveBlockingReason::IntentUnavailable
            };
            return Some(blocked_execution_result(reason, "Live intent preview is blocked.", now_ms));
        },
        Some(i) => i,
    };
    match &request.intent_id {
        Some(id) => {
            if !str_eq(id.as_str(), intent.id.as_str()) {
                return Some(
                    blocked_execution_result(
                        LiveBlockingReason::PreviewMismatch,
                        "Displayed preview no longer matches the execution request.",
                        now_ms,
                    ),
                );
            }
        },
        None => {},
    }
    if environment == LiveEnvironment::Testnet && !request.confirm_testnet {
        return Some(
            blocked_execution_result(
                LiveBlockingReason::ExecutionStatusUnknown,
                "Execution requires explicit TESTNET confirmation.",
                now_ms,
            ),
        );
    }
    if environment == LiveEnvironment::Mainnet && !canary_enabled {
        return Some(
            blocked_execution_result(
                LiveBlockingReason::MainnetCanaryDisabled,
                "MAINNET canary execution is disabled by server policy.",
                now_ms,
            ),
        );
    }
    if environment == LiveEnvironment::Mainnet && intent.order_type != LiveOrderType::Limit {
        return Some(
            blocked_execution_result(
                LiveBlockingReason::MainnetCanaryLimitRequired,
                "MAINNET canary requires a non-marketable LIMIT order.",
                now_ms,
            ),
        );
    }
    None
}

/// The limit price of an intent as a decimal: its price text read by
/// `rust_decimal`, zero where it is absent or refused.
pub open spec fn intent_limit_price(intent: LiveOrderIntent) -> (i128, u32) {
    match intent.price {
        Some(p) => parts_or_zero(p@),
        None => (0i128, 0u32),
    }
}

/// Whether a limit price would trade at once against the reference price:
/// a buy at or above it, a sell at or below it.
pub open spec fn marketable(side: LiveOrderSide, limit: (i128, u32), reference: (i128, u32)) -> bool {
    match side {
        LiveOrderSide::Buy => !decimal_less(limit, reference),
        LiveOrderSide::Sell => !decimal_less(reference, limit),
    }
}

/// The refusal of a mainnet canary submission, if any: a reference price
/// that is not fresh; a limit price that is marketable against it; the
/// server's canary flag off; no configured risk profile; a confirmation
/// that is missing or not the exact phrase.
pub open spec fn mainnet_canary_refusal_spec(
    intent: LiveOrderIntent,
    request: LiveExecutionRequest,
    reference_blocking: Option<LiveBlockingReason>,
    reference_price: (i128, u32),
    canary_enabled: bool,
    risk_configured: bool,
) -> Option<(LiveBlockingReason, Seq<char>)> {
    let required = confirmation_phrase(intent);
    match reference_blocking {
        Some(reason) => Some((reason, "MAINNET canary requires a fresh reference price."@)),
        None => if marketable(intent.side, intent_limit_price(intent), reference_price) {
            Some(
                (
                    LiveBlockingReason::MainnetCanaryLimitMarketable,
                    "MAINNET canary LIMIT price is marketable after tick-size rounding."@,
                ),
            )
        } else if !canary_enabled {
            Some((LiveBlockingReason::MainnetCanaryDisabled, "MAINNET canary execution is disabled by server policy."@))
        } else if !risk_configured {
            Some(
                (
                    LiveBlockingReason::MainnetCanaryRiskProfileMissing,
                    "MAINNET canary requires an explicit operator-configured risk profile."@,
                ),
            )
        } else if !request.confirm_mainnet_canary || !(request.confirmation_text is Some
            && request.confirmation_text->0@ == required) {
            Some(
                (
                    LiveBlockingReason::MainnetConfirmationMissing,
                    "MAINNET canary requires exact confirmation: "@ + required,
                ),
            )
        } else {
            None
        },
    }
}

/// Checks a mainnet canary submission against the reference price, the
/// server's canary flag, the risk profile and the operator's confirmation.
pub fn mainnet_canary_refusal(
    intent: &LiveOrderIntent,
    request: &LiveExecutionRequest,
    reference_blocking: Option<LiveBlockingReason>,
    reference_price: (i128, u32),
    canary_enabled: bool,
    risk_configured: bool,
    now_ms: i64,
) -> (r: Option<LiveExecutionResult>)
    requires
        valid_parts(reference_price),
    ensures
        match mainnet_canary_refusal_spec(
            *intent,
            *request,
            reference_blocking,
            reference_price,
            canary_enabled,
            risk_configured,
        ) {
            None => r is None,
            Some(refusal) => r is Some && execution_refused(r->0, refusal, now_ms),
        },
{
    let required = mainnet_confirmation_phrase(intent);
    match reference_blocking {
        Some(reason) => {
            return Some(blocked_execution_result(reason, "MAINNET canary requires a fresh reference price.", now_ms));
        },
        None => {},
    }
    let limit_price = match &intent.price {
        Some(p) => parse_decimal_or_zero(p.as_str()),
        None => (0, 0),
    };
    let is_marketable = match intent.side {
        LiveOrderSide::Buy => !decimal_lt(limit_price, reference_price),
        LiveOrderSide::Sell => !decimal_lt(reference_price, limit_price),
    };
    if is_marketable {
        return Some(
            blocked_execution_result(
                LiveBlockingReason::MainnetCanaryLimitMarketable,
                "MAINNET canary LIMIT price is marketable after tick-size rounding.",
                now_ms,
            ),
        );
    }
    if !canary_enabled {
        return Some(
            blocked_execution_result(
                LiveBlockingReason::MainnetCanaryDisabled,
                "MAINNET canary execution is disabled by server policy.",
                now_ms,
            ),
        );
    }
    if !risk_configured {
        return Some(
            blocked_execution_result(
                LiveBlockingReason::MainnetCanaryRiskProfileMissing,
                "MAINNET canary requires an explicit operator-configured risk profile.",
                now_ms,
            ),
        );
    }
    let confirmed = match &request.confirmation_text {
        Some(t) => str_eq(t.as_str(), required.as_str()),
        None => false,
    };
    if !request.confirm_mainnet_canary || !confirmed {
        let message = concat_str("MAINNET canary requires exact confirmation: ", required.as_str());
        return Some(blocked_execution_result(LiveBlockingReason::MainnetConfirmationMissing, message.as_str(), now_ms));
    }
    None
}

/// The refusal when the execution gates do not allow submitting: their
/// first reason (or `ExecutionStatusUnknown`), with
/// `<environment> execution blocked: <reason>`.
pub open spec fn submission_refusal_spec(environment: LiveEnvironment, execution: LiveExecutionSnapshot) -> Option<
    (LiveBlockingReason, Seq<char>),
> {
    if execution.can_submit {
        None
    } else {
        let reason = if execution.blocking_reasons@.len() > 0 {
            execution.blocking_reasons@[0]
        } else {
            LiveBlockingReason::ExecutionStatusUnknown
        };
        Some((reason, environment.text() + " execution blocked: "@ + reason.text()))
    }
}

/// Checks that the execution gates allow submitting.
pub fn submission_refusal(environment: LiveEnvironment, execution: &LiveExecutionSnapshot, now_ms: i64) -> (r: Option<
    LiveExecutionResult,
>)
    ensures
        match submission_refusal_spec(environment, *execution) {
            None => r is None,
            Some(refusal) => r is Some && execution_refused(r->0, refusal, now_ms),
        },
{
    if execution.can_submit {
        return None;
    }
    let reason = if execution.blocking_reasons.len() > 0 {
        execution.blocking_reasons[0]
    } else {
        LiveBlockingReason::ExecutionStatusUnknown
    };
    let mut message = concat_str(environment.as_str(), " execution blocked: ");
    append_str(&mut message, reason.as_str());
    Some(blocked_execution_result(reason, message.as_str(), now_ms))
}

/// The payload submitted for an intent, by text: its exchange payload with
/// the client order identifier, an `ACK` response type, and the reduce-only
/// flag where the intent reduces only.
pub open spec fn submission_payload(intent: LiveOrderIntent, client_order_id: Seq<char>) -> Map<Seq<char>, Seq<char>> {
    let base = text_map(intent.exchange_payload@).insert("newClientOrderId"@, client_order_id).insert(
        "newOrderRespType"@,
        "ACK"@,
    );
    if intent.reduce_only {
        base.insert("reduceOnly"@, "true"@)
    } else {
        base
    }
}

/// The local order recorded before an intent is submitted: pending, with
/// the intent's symbol, side, type, quantity, price, flags and source, the
/// submission payload, an `ACK` response type, submitted and updated at
/// `now_ms`.
pub open spec fn pending_order_matches(
    o: LiveOrderRecord,
    credential_id: LiveCredentialId,
    environment: LiveEnvironment,
    intent: LiveOrderIntent,
    client_order_id: Seq<char>,
    now_ms: i64,
) -> bool {
    &&& o.id@ == client_order_id
    &&& o.credential_id == Some(credential_id)
    &&& o.environment == environment
    &&& o.symbol == intent.symbol
    &&& o.side == intent.side
    &&& o.order_type == intent.order_type
    &&& o.status == LiveOrderStatus::SubmitPending
    &&& o.client_order_id@ == client_order_id
    &&& o.exchange_order_id is None
    &&& o.quantity == intent.quantity
    &&& o.price == intent.price
    &&& o.executed_qty@ == "0"@
    &&& o.avg_price is None
    &&& o.reduce_only == intent.reduce_only
    &&& o.time_in_force == intent.time_in_force
    &&& o.intent_id == Some(intent.id)
    &&& o.intent_hash == Some(intent.intent_hash)
    &&& o.source_signal_id == intent.source_signal_id
    &&& o.source_open_time == intent.source_open_time
    &&& o.reason == intent.reason
    &&& text_map(o.payload@) == submission_payload(intent, client_order_id)
    &&& o.response_type is Some && o.response_type->0@ == "ACK"@
    &&& o.self_trade_prevention_mode is None
    &&& o.price_match is None
    &&& o.expire_reason is None
    &&& o.last_error is None
    &&& o.submitted_at == now_ms
    &&& o.updated_at == now_ms
}

/// The local order recorded, pending, before an intent is submitted.
pub fn submit_pending_order(
    credential_id: &LiveCredentialId,
    environment: LiveEnvironment,
    intent: &LiveOrderIntent,
    client_order_id: &str,
    now_ms: i64,
) -> (o: LiveOrderRecord)
    ensures
        pending_order_matches(o, *credential_id, environment, *intent, client_order_id@, now_ms),
{
    let mut payload = intent.exchange_payload.clone();
    payload_insert(&mut payload, "newClientOrderId", String::from_str(client_order_id));
    payload_insert(&mut payload, "newOrderRespType", String::from_str("ACK"));
    if intent.reduce_only {
        payload_insert(&mut payload, "reduceOnly", String::from_str("true"));
    }
    proof {
        reveal_strlit("newClientOrderId");
        reveal_strlit("newOrderRespType");
        reveal_strlit("reduceOnly");
    }
    LiveOrderRecord {
        id: String::from_str(client_order_id),
        credential_id: Some(LiveCredentialId(credential_id.0.clone())),
        environment,
        symbol: intent.symbol,
        side: intent.side,
        order_type: intent.order_type,
        status: LiveOrderStatus::SubmitPending,
        client_order_id: String::from_str(client_order_id),
        exchange_order_id: None,
        quantity: intent.quantity.clone(),
        price: clone_opt_string(&intent.price),
        executed_qty: String::from_str("0"),
        avg_price: None,
        reduce_only: intent.reduce_only,
        time_in_force: clone_opt_string(&intent.time_in_force),
        intent_id: Some(intent.id.clone()),
        intent_hash: Some(intent.intent_hash.clone()),
        source_signal_id: clone_opt_string(&intent.source_signal_id),
        source_open_time: intent.source_open_time,
        reason: intent.reason.clone(),
        payload,
        response_type: Some(String::from_str("ACK")),
        self_trade_prevention_mode: None,
        price_match: None,
        expire_reason: None,
        last_error: None,
        submitted_at: now_ms,
        updated_at: now_ms,
    }
}

/// What came of submitting an order: the exchange acknowledged it; or the
/// submission failed and a query then found the order; or neither, with
/// the submission's error.
pub enum SubmissionOutcome {
    Acknowledged(LiveOrderRecord),
    Repaired(LiveOrderRecord),
    Unresolved(String),
}

/// What a submission that failed with `error` settles as, after the order
/// was queried by its client order identifier: repaired from the order the
/// exchange reports, else unresolved with the submission's error (also
/// where the query itself failed).
pub fn outcome_after_failed_submission(error: String, query: Result<Option<LiveOrderRecord>, String>) -> (o:
    SubmissionOutcome)
    ensures
        match query {
            Ok(Some(found)) => o == SubmissionOutcome::Repaired(found),
            _ => o == SubmissionOutcome::Unresolved(error),
        },
{
    match query {
        Ok(Some(found)) => SubmissionOutcome::Repaired(found),
        _ => SubmissionOutcome::Unresolved(error),
    }
}

/// Settles a submitted order at `now_ms`: an acknowledgement or a repairing
/// query updates the local order and the request is accepted; otherwise
/// the order needs repair, carries the submission's error, and the request
/// is refused with an unknown execution status.
pub fn settle_submission(local: LiveOrderRecord, outcome: SubmissionOutcome, now_ms: i64) -> (r: (
    LiveOrderRecord,
    LiveExecutionResult,
))
    ensures
        match outcome {
            SubmissionOutcome::Acknowledged(exchange) => {
                &&& acked_from(r.0, local, exchange, now_ms)
                &&& r.1.accepted
                &&& r.1.blocking_reason is None
                &&& r.1.message@
                    == "Order submitted with ACK handling. Final lifecycle waits for authoritative exchange reconciliation."@
            },
            SubmissionOutcome::Repaired(exchange) => {
                &&& merged_from(r.0, local, exchange, now_ms)
                &&& r.1.accepted
                &&& r.1.blocking_reason is None
                &&& r.1.message@ == "TESTNET order state repaired from exchange query after ambiguous submission."@
            },
            SubmissionOutcome::Unresolved(error) => {
                &&& r.0 == (LiveOrderRecord {
                    status: LiveOrderStatus::UnknownNeedsRepair,
                    last_error: Some(error),
                    updated_at: now_ms,
                    ..local
                })
                &&& !r.1.accepted
                &&& r.1.blocking_reason == Some(LiveBlockingReason::ExecutionStatusUnknown)
                &&& r.1.message@ == "Execution status is unknown. New submissions are blocked until repair."@
            },
        },
        r.1.order is Some && order_copy(r.1.order->0, r.0),
        r.1.created_at == now_ms,
{
    let (order, accepted, reason, message) = match outcome {
        SubmissionOutcome::Acknowledged(exchange) => (
            merge_exchange_ack(local, exchange, now_ms),
            true,
            None,
            "Order submitted with ACK handling. Final lifecycle waits for authoritative exchange reconciliation.",
        ),
        SubmissionOutcome::Repaired(exchange) => (
            merge_exchange_order(local, exchange, now_ms),
            true,
            None,
            "TESTNET order state repaired from exchange query after ambiguous submission.",
        ),
        SubmissionOutcome::Unresolved(error) => {
            let mut order = local;
            order.status = LiveOrderStatus::UnknownNeedsRepair;
            order.last_error = Some(error);
            order.updated_at = now_ms;
            (
                order,
                false,
                Some(LiveBlockingReason::ExecutionStatusUnknown),
                "Execution status is unknown. New submissions are blocked until repair.",
            )
        },
    };
    let copy = clone_order(&order);
    let result = LiveExecutionResult {
        accepted,
        order: Some(copy),
        blocking_reason: reason,
        message: String::from_str(message),
        created_at: now_ms,
    };
    (order, result)
}

/// The phrase that confirms a mainnet flatten: `FLATTEN MAINNET <symbol>`.
pub open spec fn flatten_phrase(symbol: Symbol) -> Seq<char> {
    "FLATTEN MAINNET "@ + symbol.text()
}

/// The refusal of a flatten request, if any: a testnet request without
/// testnet confirmation; on mainnet, the server's canary flag off, or a
/// confirmation that is missing or not the exact phrase.
pub open spec fn flatten_request_refusal_spec(
    environment: LiveEnvironment,
    request: LiveFlattenRequest,
    active_symbol: Symbol,
    canary_enabled: bool,
) -> Option<(LiveBlockingReason, Seq<char>)> {
    if environment == LiveEnvironment::Testnet && !request.confirm_testnet {
        Some((LiveBlockingReason::ExecutionStatusUnknown, "Flatten requires explicit TESTNET confirmation."@))
    } else if environment == LiveEnvironment::Mainnet && !canary_enabled {
        Some((LiveBlockingReason::MainnetCanaryDisabled, "MAINNET canary flatten is disabled by server policy."@))
    } else if environment == LiveEnvironment::Mainnet && (!request.confirm_mainnet_canary || !(
    request.confirmation_text is Some && request.confirmation_text->0@ == flatten_phrase(active_symbol))) {
        Some(
            (
                LiveBlockingReason::MainnetConfirmationMissing,
                "MAINNET canary flatten requires exact confirmation: "@ + flatten_phrase(active_symbol),
            ),
        )
    } else {
        None
    }
}

/// Whether `r` refuses a flatten with the reason and message given, at
/// `now`.
pub open spec fn flatten_refused(r: LiveFlattenResult, refusal: (LiveBlockingReason, Seq<char>), now: i64) -> bool {
    &&& !r.accepted
    &&& r.canceled_orders@.len() == 0
    &&& r.flatten_order is None
    &&& r.blocking_reason == Some(refusal.0)
    &&& r.message@ == refusal.1
    &&& r.created_at == now
}

/// Checks a flatten request's confirmation and the server's canary flag.
pub fn flatten_request_refusal(
    environment: LiveEnvironment,
    request: &LiveFlattenRequest,
    active_symbol: Symbol,
    canary_enabled: bool,
    now_ms: i64,
) -> (r: Option<LiveFlattenResult>)
    ensures
        match flatten_request_refusal_spec(environment, *request, active_symbol, canary_enabled) {
            None => r is None,
            Some(refusal) => r is Some && flatten_refused(r->0, refusal, now_ms),
        },
{
    if environment == LiveEnvironment::Testnet && !request.confirm_testnet {
        return Some(
            blocked_flatten_result(
                LiveBlockingReason::ExecutionStatusUnknown,
                "Flatten requires explicit TESTNET confirmation.",
                now_ms,
            ),
        );
    }
    if environment == LiveEnvironment::Mainnet {
        let required = concat_str("FLATTEN MAINNET ", active_symbol.as_str());
        if !canary_enabled {
            return Some(
                blocked_flatten_result(
                    LiveBlockingReason::MainnetCanaryDisabled,
                    "MAINNET canary flatten is disabled by server policy.",
                    now_ms,
                ),
            );
        }
        let confirmed = match &request.confirmation_text {
            Some(t) => str_eq(t.as_str(), required.as_str()),
            None => false,
        };
        if !request.confirm_mainnet_canary || !confirmed {
            let message = concat_str("MAINNET canary flatten requires exact confirmation: ", required.as_str());
            return Some(
                blocked_flatten_result(LiveBlockingReason::MainnetConfirmationMissing, message.as_str(), now_ms),
            );
        }
    }
    None
}

/// Whether the execution gates report the shadow as unsafe to flatten
/// against: ambiguous, stale, or in an unsupported account mode.
pub open spec fn shadow_unsafe_for_flatten(blocks: Seq<LiveBlockingReason>) -> bool {
    exists|i: int|
        0 <= i < blocks.len() && (#[trigger] blocks[i] == LiveBlockingReason::ShadowStateAmbiguous || blocks[i]
            == LiveBlockingReason::StaleShadowState || blocks[i] == LiveBlockingReason::UnsupportedAccountMode)
}

/// The position of the first shadow position of `symbol`.
pub open spec fn first_position_of(positions: Seq<LiveShadowPosition>, symbol: Symbol) -> Option<int>
    decreases positions.len(),
{
    if positions.len() == 0 {
        None
    } else if positions[0].symbol == symbol {
        Some(0)
    } else {
        match first_position_of(positions.drop_first(), symbol) {
            Some(k) => Some(k + 1),
            None => None,
        }
    }
}

/// The magnitude of a decimal.
pub open spec fn abs_parts(a: (i128, u32)) -> (i128, u32) {
    if a.0 < 0 { ((-(a.0 as int)) as i128, a.1) } else { a }
}

/// The step size of the symbol rules as a decimal: its text read by
/// `rust_decimal`, zero where it is absent or refused.
pub open spec fn step_of(step_size_text: Option<String>) -> (i128, u32) {
    match step_size_text {
        Some(t) => parts_or_zero(t@),
        None => (0i128, 0u32),
    }
}

/// What a flatten request does next: finish with a result, or submit a
/// reduce-only market order of a side and quantity.
pub enum FlattenStep {
    Finished(LiveFlattenResult),
    Submit { side: LiveOrderSide, quantity: (i128, u32) },
}

/// Whether `r` is an accepted flatten that needed no order, with the
/// message given, at `now`.
pub open spec fn flatten_nothing(r: LiveFlattenResult, message: Seq<char>, now: i64) -> bool {
    &&& r.accepted
    &&& r.canceled_orders@.len() == 0
    &&& r.flatten_order is None
    &&& r.blocking_reason is None
    &&& r.message@ == message
    &&& r.created_at == now
}

fn flatten_nothing_result(message: &str, now_ms: i64) -> (r: LiveFlattenResult)
    ensures
        flatten_nothing(r, message@, now_ms),
{
    LiveFlattenResult {
        accepted: true,
        canceled_orders: Vec::new(),
        flatten_order: None,
        blocking_reason: None,
        message: String::from_str(message),
        created_at: now_ms,
    }
}

/// The position amount of the shadow position the flatten acts on, as a
/// decimal (zero where its text is refused).
pub open spec fn flatten_amount(shadow: LiveAccountShadow, k: int) -> (i128, u32) {
    parts_or_zero(shadow.positions@[k].position_amt@)
}

/// Whether the flatten's quantity can be computed without overflow, where
/// the flatten gets that far.
pub open spec fn flatten_fits(
    shadow: Option<LiveAccountShadow>,
    active_symbol: Symbol,
    step_size_text: Option<String>,
) -> bool {
    match shadow {
        Some(sh) => match first_position_of(sh.positions@, active_symbol) {
            Some(k) => quantized_down(abs_parts(flatten_amount(sh, k)), step_of(step_size_text)) is Some,
            None => true,
        },
        None => true,
    }
}

/// What the flatten quantity is known to be against the position: a whole
/// number of steps, and no more than the position's size, as
/// [`quantity_within`] says of rounding the size down to the step.
pub open spec fn flatten_quantity_within(
    quantity: (i128, u32),
    shadow: Option<LiveAccountShadow>,
    active_symbol: Symbol,
    step_size_text: Option<String>,
) -> bool {
    match shadow {
        Some(sh) => match first_position_of(sh.positions@, active_symbol) {
            Some(k) => quantity_within(quantity, abs_parts(flatten_amount(sh, k)), step_of(step_size_text)),
            None => true,
        },
        None => true,
    }
}

/// What a flatten plan is for its inputs: see [`plan_flatten`].
pub open spec fn flatten_plan_holds(
    r: Result<FlattenStep, AppError>,
    execution_blocking: Seq<LiveBlockingReason>,
    shadow: Option<LiveAccountShadow>,
    active_symbol: Symbol,
    rules_present: bool,
    step_size_text: Option<String>,
    now_ms: i64,
) -> bool {
    &&& r matches Ok(FlattenStep::Submit { quantity, .. }) ==> flatten_quantity_within(
            quantity,
            shadow,
            active_symbol,
            step_size_text,
        )
    &&& shadow_unsafe_for_flatten(execution_blocking) ==> (r matches Ok(FlattenStep::Finished(res)) && flatten_refused(
            res,
            (
                LiveBlockingReason::ShadowStateAmbiguous,
                "Flatten blocked because live shadow state is not safe enough."@,
            ),
            now_ms,
        ))
    &&& !shadow_unsafe_for_flatten(execution_blocking) ==> match shadow {
            None => r matches Ok(FlattenStep::Finished(res)) && flatten_refused(
                res,
                (
                    LiveBlockingReason::AccountSnapshotMissing,
                    "Flatten blocked because live shadow position is missing."@,
                ),
                now_ms,
            ),
            Some(sh) => match first_position_of(sh.positions@, active_symbol) {
                None => r matches Ok(FlattenStep::Finished(res)) && flatten_nothing(
                    res,
                    "No active-symbol shadow position to flatten."@,
                    now_ms,
                ),
                Some(k) => {
                    let amount = flatten_amount(sh, k);
                    let quantity = quantized_down(abs_parts(amount), step_of(step_size_text))->0;
                    if amount.0 == 0 {
                        r matches Ok(FlattenStep::Finished(res)) && flatten_nothing(
                            res,
                            "Active-symbol shadow position is already flat."@,
                            now_ms,
                        )
                    } else if !rules_present {
                        r matches Err(e) && e is Conflict && e->Conflict_0@ == "symbol rules are missing"@
                    } else if quantity.0 <= 0 {
                        r matches Ok(FlattenStep::Finished(res)) && flatten_refused(
                            res,
                            (LiveBlockingReason::PrecisionInvalid, "Flatten quantity rounded to zero."@),
                            now_ms,
                        )
                    } else {
                        r matches Ok(FlattenStep::Submit { side, quantity: q }) && q == quantity && side == if amount.0
                            > 0 {
                            LiveOrderSide::Sell
                        } else {
                            LiveOrderSide::Buy
                        }
                    }
                },
            },
        }
}

/// Decides what a confirmed flatten does: refuse when the shadow is unsafe
/// or missing; finish when the active symbol has no position or a flat
/// one; fail with a conflict when the symbol rules are missing; refuse when
/// the quantity rounds down to zero; else submit a reduce-only market order
/// against the position's direction for the position's size rounded down to
/// the step size.
pub fn plan_flatten(
    execution_blocking: &Vec<LiveBlockingReason>,
    shadow: &Option<LiveAccountShadow>,
    active_symbol: Symbol,
    rules_present: bool,
    step_size_text: &Option<String>,
    now_ms: i64,
) -> (r: Result<FlattenStep, AppError>)
    requires
        flatten_fits(*shadow, active_symbol, *step_size_text),
    ensures
        flatten_plan_holds(r, execution_blocking@, *shadow, active_symbol, rules_present, *step_size_text, now_ms),
{
    let mut i: usize = 0;
    while i < execution_blocking.len()
        invariant
            i <= execution_blocking@.len(),
            forall|j: int|
                0 <= j < i ==> !(#[trigger] execution_blocking@[j] == LiveBlockingReason::ShadowStateAmbiguous
                    || execution_blocking@[j] == LiveBlockingReason::StaleShadowState || execution_blocking@[j]
                    == LiveBlockingReason::UnsupportedAccountMode),
        decreases execution_blocking@.len() - i,
    {
        let b = execution_blocking[i];
        if b == LiveBlockingReason::ShadowStateAmbiguous || b == LiveBlockingReason::StaleShadowState || b
            == LiveBlockingReason::UnsupportedAccountMode {
            return Ok(
                FlattenStep::Finished(
                    blocked_flatten_result(
                        LiveBlockingReason::ShadowStateAmbiguous,
                        "Flatten blocked because live shadow state is not safe enough.",
                        now_ms,
                    ),
                ),
            );
        }
        i = i + 1;
    }
    let sh = match shadow {
        None => {
            return Ok(
                FlattenStep::Finished(
                    blocked_flatten_result(
                        LiveBlockingReason::AccountSnapshotMissing,
                        "Flatten blocked because live shadow position is missing.",
                        now_ms,
                    ),
                ),
            );
        },
        Some(sh) => sh,
    };
    let k = match find_position(&sh.positions, active_symbol) {
        None => {
            return Ok(FlattenStep::Finished(flatten_nothing_result("No active-symbol shadow position to flatten.", now_ms)));
        },
        Some(k) => k,
    };
    let amount = parse_decimal_or_zero(sh.positions[k].position_amt.as_str());
    if amount.0 == 0 {
        return Ok(FlattenStep::Finished(flatten_nothing_result("Active-symbol shadow position is already flat.", now_ms)));
    }
    if !rules_present {
        return Err(AppError::Conflict(String::from_str("symbol rules are missing")));
    }
    let step = match step_size_text {
        Some(t) => parse_decimal_or_zero(t.as_str()),
        None => (0, 0),
    };
    let magnitude = if amount.0 < 0 { (-amount.0, amount.1) } else { amount };
    let quantity = match try_quantize_down(magnitude, step) {
        Some(q) => q,
        None => {
            assert(false);
            return Err(AppError::Conflict(String::from_str("symbol rules are missing")));
        },
    };
    if quantity.0 <= 0 {
        return Ok(
            FlattenStep::Finished(
                blocked_flatten_result(LiveBlockingReason::PrecisionInvalid, "Flatten quantity rounded to zero.", now_ms),
            ),
        );
    }
    let side = if amount.0 > 0 { LiveOrderSide::Sell } else { LiveOrderSide::Buy };
    Ok(FlattenStep::Submit { side, quantity })
}

fn find_position(positions: &Vec<LiveShadowPosition>, symbol: Symbol) -> (k: Option<usize>)
    ensures
        match first_position_of(positions@, symbol) {
            Some(i) => k is Some && k->0 as int == i && 0 <= i < positions@.len(),
            None => k is None,
        },
{
    let mut i: usize = 0;
    assert(positions@.subrange(0, positions@.len() as int) =~= positions@);
    while i < positions.len()
        invariant
            i <= positions@.len(),
            first_position_of(positions@, symbol) == match first_position_of(positions@.subrange(i as int, positions@.len() as int), symbol) {
                Some(j) => Some(j + i),
                None => None::<int>,
            },
        decreases positions@.len() - i,
    {
        if positions[i].symbol == symbol {
            return Some(i);
        }
        assert(positions@.subrange(i as int, positions@.len() as int).drop_first() =~= positions@.subrange(
            i + 1,
            positions@.len() as int,
        ));
        i = i + 1;
    }
    None
}

/// Decides a flatten, or `None` where its quantity would overflow.
pub fn try_plan_flatten(
    execution_blocking: &Vec<LiveBlockingReason>,
    shadow: &Option<LiveAccountShadow>,
    active_symbol: Symbol,
    rules_present: bool,
    step_size_text: &Option<String>,
    now_ms: i64,
) -> (r: Option<Result<FlattenStep, AppError>>)
    ensures
        r is None <==> !flatten_fits(*shadow, active_symbol, *step_size_text),
{
    let fits = match shadow {
        Some(sh) => match find_position(&sh.positions, active_symbol) {
            Some(k) => {
                let amount = parse_decimal_or_zero(sh.positions[k].position_amt.as_str());
                let magnitude = if amount.0 < 0 { (-amount.0, amount.1) } else { amount };
                let step = match step_size_text {
                    Some(t) => parse_decimal_or_zero(t.as_str()),
                    None => (0, 0),
                };
                try_quantize_down(magnitude, step).is_some()
            },
            None => true,
        },
        None => true,
    };
    if fits {
        Some(plan_flatten(execution_blocking, shadow, active_symbol, rules_present, step_size_text, now_ms))
    } else {
        None
    }
}

/// The payload of a flatten order, by text: a reduce-only market order of
/// the symbol, side and quantity, with the client order identifier and an
/// `ACK` response type.
pub open spec fn flatten_payload(
    symbol: Symbol,
    side: LiveOrderSide,
    quantity: (i128, u32),
    client_order_id: Seq<char>,
) -> Map<Seq<char>, Seq<char>> {
    Map::<Seq<char>, Seq<char>>::empty().insert("symbol"@, symbol.text()).insert("side"@, side.text()).insert(
        "type"@,
        "MARKET"@,
    ).insert("quantity"@, exchange_text(quantity)).insert("reduceOnly"@, "true"@).insert(
        "newClientOrderId"@,
        client_order_id,
    ).insert("newOrderRespType"@, "ACK"@)
}

/// The local order recorded, pending, before a flatten order is
/// submitted: a reduce-only market order for the quantity's exchange text,
/// for the reason `manual_flatten`.
pub fn flatten_order(
    credential_id: &LiveCredentialId,
    environment: LiveEnvironment,
    symbol: Symbol,
    side: LiveOrderSide,
    quantity: (i128, u32),
    client_order_id: &str,
    now_ms: i64,
) -> (o: LiveOrderRecord)
    requires
        valid_parts(quantity),
    ensures
        o.id@ == client_order_id@,
        o.credential_id == Some(*credential_id),
        o.environment == environment,
        o.symbol == symbol,
        o.side == side,
        o.order_type == LiveOrderType::Market,
        o.status == LiveOrderStatus::SubmitPending,
        o.client_order_id@ == client_order_id@,
        o.exchange_order_id is None,
        o.quantity@ == exchange_text(quantity),
        o.price is None,
        o.executed_qty@ == "0"@,
        o.avg_price is None,
        o.reduce_only,
        o.time_in_force is None,
        o.intent_id is None,
        o.intent_hash is None,
        o.source_signal_id is None,
        o.source_open_time is None,
        o.reason@ == "manual_flatten"@,
        text_map(o.payload@) == flatten_payload(symbol, side, quantity, client_order_id@),
        o.response_type is Some && o.response_type->0@ == "ACK"@,
        o.self_trade_prevention_mode is None,
        o.price_match is None,
        o.expire_reason is None,
        o.last_error is None,
        o.submitted_at == now_ms,
        o.updated_at == now_ms,
{
    let quantity_text = decimal_to_exchange_string(quantity);
    let mut payload = empty_payload();
    payload_insert(&mut payload, "symbol", String::from_str(symbol.as_str()));
    payload_insert(&mut payload, "side", String::from_str(side.as_binance()));
    payload_insert(&mut payload, "type", String::from_str("MARKET"));
    payload_insert(&mut payload, "quantity", quantity_text.clone());
    payload_insert(&mut payload, "reduceOnly", String::from_str("true"));
    payload_insert(&mut payload, "newClientOrderId", String::from_str(client_order_id));
    payload_insert(&mut payload, "newOrderRespType", String::from_str("ACK"));
    LiveOrderRecord {
        id: String::from_str(client_order_id),
        credential_id: Some(LiveCredentialId(credential_id.0.clone())),
        environment,
        symbol,
        side,
        order_type: LiveOrderType::Market,
        status: LiveOrderStatus::SubmitPending,
        client_order_id: String::from_str(client_order_id),
        exchange_order_id: None,
        quantity: quantity_text,
        price: None,
        executed_qty: String::from_str("0"),
        avg_price: None,
        reduce_only: true,
        time_in_force: None,
        intent_id: None,
        intent_hash: None,
        source_signal_id: None,
        source_open_time: None,
        reason: String::from_str("manual_flatten"),
        payload,
        response_type: Some(String::from_str("ACK")),
        self_trade_prevention_mode: None,
        price_match: None,
        expire_reason: None,
        last_error: None,
        submitted_at: now_ms,
        updated_at: now_ms,
    }
}

/// Settles a submitted flatten order at `now_ms`, with the orders that the
/// cancel-all step canceled: an acknowledgement updates the order and the
/// flatten is accepted; a failed submission leaves the order needing repair
/// with the error, and the flatten fails.
pub fn settle_flatten(
    order: LiveOrderRecord,
    outcome: Result<LiveOrderRecord, String>,
    canceled_orders: Vec<LiveOrderRecord>,
    now_ms: i64,
) -> (r: (LiveOrderRecord, LiveFlattenResult))
    ensures
        match outcome {
            Ok(exchange) => {
                &&& acked_from(r.0, order, exchange, now_ms)
                &&& r.1.accepted
                &&& r.1.blocking_reason is None
                &&& r.1.message@ == "TESTNET flatten submitted; final state follows exchange reconciliation."@
            },
            Err(error) => {
                &&& r.0 == (LiveOrderRecord {
                    status: LiveOrderStatus::UnknownNeedsRepair,
                    last_error: Some(error),
                    updated_at: now_ms,
                    ..order
                })
                &&& !r.1.accepted
                &&& r.1.blocking_reason == Some(LiveBlockingReason::FlattenFailed)
                &&& r.1.message@ == "TESTNET flatten failed: "@ + error@
            },
        },
        r.1.canceled_orders == canceled_orders,
        r.1.flatten_order is Some && order_copy(r.1.flatten_order->0, r.0),
        r.1.created_at == now_ms,
{
    match outcome {
        Ok(exchange) => {
            let settled = merge_exchange_ack(order, exchange, now_ms);
            let copy = clone_order(&settled);
            let result = LiveFlattenResult {
                accepted: true,
                canceled_orders,
                flatten_order: Some(copy),
                blocking_reason: None,
                message: String::from_str("TESTNET flatten submitted; final state follows exchange reconciliation."),
                created_at: now_ms,
            };
            (settled, result)
        },
        Err(error) => {
            let message = concat_str("TESTNET flatten failed: ", error.as_str());
            let mut failed = order;
            failed.status = LiveOrderStatus::UnknownNeedsRepair;
            failed.last_error = Some(error);
            failed.updated_at = now_ms;
            let copy = clone_order(&failed);
            let result = LiveFlattenResult {
                accepted: false,
                canceled_orders,
                flatten_order: Some(copy),
                blocking_reason: Some(LiveBlockingReason::FlattenFailed),
                message,
                created_at: now_ms,
            };
            (failed, result)
        },
    }
}

} // verus!
