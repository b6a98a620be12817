//! Each live action's gates taken together, in the order the service checks
//! them: what an execution, a flatten and a cancel request meet before
//! anything is sent to the exchange. Reading the status, the reference
//! price and the stored order is left to the caller, who hands the results
//! in.

use vstd::prelude::*;

use crate::cancel_flow::{
    cancel_all_phrase, cancel_all_refusal, cancel_all_refusal_spec, cancel_all_requests, cancel_all_requests_hold,
    cancel_refused, mainnet_cancel_refusal, mainnet_cancel_refusal_spec, mark_cancel_pending, order_or_not_found,
    testnet_cancel_refusal,
};
use crate::canary::confirmation_phrase;
use crate::decimal::valid_parts;
use crate::error::AppError;
use crate::live::{LiveAccountShadow, LiveBlockingReason, LiveCredentialId, LiveEnvironment};
use crate::live_actions::{
    execution_refused, execution_request_refusal, execution_request_refusal_spec, flatten_fits, flatten_plan_holds,
    flatten_refused,
    flatten_request_refusal, flatten_request_refusal_spec, intent_limit_price, mainnet_canary_refusal,
    mainnet_canary_refusal_spec, marketable, pending_order_matches, plan_flatten, submission_refusal,
    submission_refusal_spec, submit_pending_order, FlattenStep,
};
use crate::market::Symbol;
use crate::order_flow::{client_order_id, is_lower_hex};
use crate::text::concat_str;
use crate::orders::{
    LiveCancelAllRequest, LiveCancelRequest, LiveCancelResult, LiveExecutionRequest, LiveExecutionResult,
    LiveExecutionSnapshot, LiveFlattenRequest, LiveFlattenResult, LiveOrderPreview, LiveOrderRecord, LiveOrderSide,
    LiveOrderStatus, LiveOrderType,
};

verus! {

/// The refusal an execution request meets, if any, gate by gate: the
/// request against the preview; on mainnet, the canary gates on the
/// reference price; then the execution gates of the status.
pub open spec fn execution_gates_spec(
    environment: LiveEnvironment,
    preview: Option<LiveOrderPreview>,
    request: LiveExecutionRequest,
    reference_blocking: Option<LiveBlockingReason>,
    reference_price: (i128, u32),
    canary_enabled: bool,
    risk_configured: bool,
    execution: LiveExecutionSnapshot,
) -> Option<(LiveBlockingReason, Seq<char>)> {
    match execution_request_refusal_spec(environment, preview, request, canary_enabled) {
        Some(refusal) => Some(refusal),
        None => {
            let canary = if environment == LiveEnvironment::Mainnet {
                mainnet_canary_refusal_spec(
                    preview->0.intent->0,
                    request,
                    reference_blocking,
                    reference_price,
                    canary_enabled,
                    risk_configured,
                )
            } else {
                None
            };
            match canary {
                Some(refusal) => Some(refusal),
                None => submission_refusal_spec(environment, execution),
            }
        },
    }
}

/// Whether `id` is a client order identifier of `prefix`: the prefix, an
/// underscore and 24 lowercase hexadecimal digits.
pub open spec fn client_id_of(id: Seq<char>, prefix: Seq<char>) -> bool {
    &&& id.len() == prefix.len() + 25
    &&& id.subrange(0, prefix.len() as int) == prefix
    &&& id[prefix.len() as int] == '_'
    &&& forall|i: int| prefix.len() + 1 <= i < id.len() ==> is_lower_hex(#[trigger] id[i])
}

/// What an execution request leads to: a refusal, or the pending order to
/// submit.
pub enum ExecutionStep {
    Refused(LiveExecutionResult),
    Submit(LiveOrderRecord),
}

/// Runs an execution request through every gate at `now_ms`: refused at
/// the first gate that fails, else the pending order of the previewed
/// intent under a fresh `rx_exec` client order identifier. The reference
/// price and its blocking reason are read on mainnet only.
pub fn plan_execution(
    credential_id: &LiveCredentialId,
    environment: LiveEnvironment,
    preview: &Option<LiveOrderPreview>,
    request: &LiveExecutionRequest,
    reference_blocking: Option<LiveBlockingReason>,
    reference_price: (i128, u32),
    canary_enabled: bool,
    risk_configured: bool,
    execution: &LiveExecutionSnapshot,
    now_ms: i64,
) -> (s: ExecutionStep)
    requires
        valid_parts(reference_price),
    ensures
        match execution_gates_spec(
            environment,
            *preview,
            *request,
            reference_blocking,
            reference_price,
            canary_enabled,
            risk_configured,
            *execution,
        ) {
            Some(refusal) => s matches ExecutionStep::Refused(r) && execution_refused(r, refusal, now_ms),
            None => s matches ExecutionStep::Submit(o) && exists|cid: Seq<char>|
                client_id_of(cid, "rx_exec"@) && #[trigger] pending_order_matches(
                    o,
                    *credential_id,
                    environment,
                    preview->0.intent->0,
                    cid,
                    now_ms,
                ),
        },
{
    match execution_request_refusal(environment, preview, request, canary_enabled, now_ms) {
        Some(r) => return ExecutionStep::Refused(r),
        None => {},
    }
    let intent = match preview {
        Some(p) => match &p.intent {
            Some(i) => i,
            None => {
                assert(false);
                return ExecutionStep::Refused(
                    crate::order_flow::blocked_execution_result(
                        LiveBlockingReason::IntentUnavailable,
                        "Live intent preview is blocked.",
                        now_ms,
                    ),
                );
            },
        },
        None => {
            assert(false);
            return ExecutionStep::Refused(
                crate::order_flow::blocked_execution_result(
                    LiveBlockingReason::IntentUnavailable,
                    "No live intent preview exists.",
                    now_ms,
                ),
            );
        },
    };
    if environment == LiveEnvironment::Mainnet {
        match mainnet_canary_refusal(
            intent,
            request,
            reference_blocking,
            reference_price,
            canary_enabled,
            risk_configured,
            now_ms,
        ) {
            Some(r) => return ExecutionStep::Refused(r),
            None => {},
        }
    }
    match submission_refusal(environment, execution, now_ms) {
        Some(r) => return ExecutionStep::Refused(r),
        None => {},
    }
    let cid = client_order_id("rx_exec");
    let o = submit_pending_order(credential_id, environment, intent, cid.as_str(), now_ms);
    assert(client_id_of(cid@, "rx_exec"@));
    ExecutionStep::Submit(o)
}

/// An execution request passes every gate only where the preview holds an
/// intent of the request, the execution gates allow a submission, a
/// testnet request was confirmed, and a mainnet one is a non-marketable
/// limit order on a fresh reference price, with the canary enabled by the
/// server, a configured risk profile and the exact confirmation phrase.
pub proof fn lemma_execution_needs_every_gate(
    environment: LiveEnvironment,
    preview: Option<LiveOrderPreview>,
    request: LiveExecutionRequest,
    reference_blocking: Option<LiveBlockingReason>,
    reference_price: (i128, u32),
    canary_enabled: bool,
    risk_configured: bool,
    execution: LiveExecutionSnapshot,
)
    requires
        execution_gates_spec(
            environment,
            preview,
            request,
            reference_blocking,
            reference_price,
            canary_enabled,
            risk_configured,
            execution,
        ) is None,
    ensures
        preview is Some && preview->0.intent is Some,
        request.intent_id matches Some(id) ==> id@ == preview->0.intent->0.id@,
        execution.can_submit,
        environment == LiveEnvironment::Testnet ==> request.confirm_testnet,
        environment == LiveEnvironment::Mainnet ==> {
            let i = preview->0.intent->0;
            &&& i.order_type == LiveOrderType::Limit
            &&& reference_blocking is None
            &&& !marketable(i.side, intent_limit_price(i), reference_price)
            &&& canary_enabled
            &&& risk_configured
            &&& request.confirm_mainnet_canary
            &&& request.confirmation_text is Some
            &&& request.confirmation_text->0@ == confirmation_phrase(i)
        },
{
}

/// The refusal a flatten request meets before its plan, if any.
pub open spec fn flatten_gate_refusal(
    environment: LiveEnvironment,
    request: LiveFlattenRequest,
    active_symbol: Symbol,
    canary_enabled: bool,
) -> Option<(LiveBlockingReason, Seq<char>)> {
    flatten_request_refusal_spec(environment, request, active_symbol, canary_enabled)
}

/// What a flatten request leads to: a result without any order, or first
/// cancelling every open order of the symbol and then submitting the
/// reduce-only market order of a side and quantity.
pub enum FlattenRequestStep {
    Finished(LiveFlattenResult),
    CancelAllThenSubmit { cancel_all: LiveCancelAllRequest, side: LiveOrderSide, quantity: (i128, u32) },
}

/// Whether `c` cancels every open order of `symbol` with the flatten's own
/// confirmations and the cancel-all phrase of the symbol.
pub open spec fn cancels_symbol_first(c: LiveCancelAllRequest, request: LiveFlattenRequest, symbol: Symbol) -> bool {
    &&& c.confirm_testnet == request.confirm_testnet
    &&& c.confirm_mainnet_canary == request.confirm_mainnet_canary
    &&& c.confirmation_text is Some
    &&& c.confirmation_text->0@ == cancel_all_phrase(symbol)
}

/// Whether the request step `r` follows the flatten plan `p`: a finished
/// plan or an error as it is; a planned order preceded by cancelling the
/// symbol's open orders.
pub open spec fn flatten_request_follows(
    r: Result<FlattenRequestStep, AppError>,
    p: Result<FlattenStep, AppError>,
    request: LiveFlattenRequest,
    symbol: Symbol,
) -> bool {
    match p {
        Ok(FlattenStep::Finished(res)) => r == Ok::<FlattenRequestStep, AppError>(FlattenRequestStep::Finished(res)),
        Ok(FlattenStep::Submit { side, quantity }) => match r {
            Ok(FlattenRequestStep::CancelAllThenSubmit { cancel_all, side: s, quantity: q }) => {
                &&& s == side
                &&& q == quantity
                &&& cancels_symbol_first(cancel_all, request, symbol)
            },
            _ => false,
        },
        Err(e) => r == Err::<FlattenRequestStep, AppError>(e),
    }
}

/// Runs a flatten request through its gates at `now_ms`: the request's
/// confirmation and the server's canary flag first; then, on the status
/// read after them, the plan of [`plan_flatten`]. A planned order is never
/// submitted alone: every open order of the symbol is cancelled first.
pub fn plan_flatten_request(
    environment: LiveEnvironment,
    request: &LiveFlattenRequest,
    active_symbol: Symbol,
    canary_enabled: bool,
    execution_blocking: &Vec<LiveBlockingReason>,
    shadow: &Option<LiveAccountShadow>,
    rules_present: bool,
    step_size_text: &Option<String>,
    now_ms: i64,
) -> (r: Result<FlattenRequestStep, AppError>)
    requires
        flatten_fits(*shadow, active_symbol, *step_size_text),
    ensures
        match flatten_gate_refusal(environment, *request, active_symbol, canary_enabled) {
            Some(refusal) => r matches Ok(FlattenRequestStep::Finished(res)) && flatten_refused(res, refusal, now_ms),
            None => exists|p: Result<FlattenStep, AppError>|
                flatten_plan_holds(p, execution_blocking@, *shadow, active_symbol, rules_present, *step_size_text, now_ms)
                    && #[trigger] flatten_request_follows(r, p, *request, active_symbol),
        },
        r matches Ok(FlattenRequestStep::CancelAllThenSubmit { cancel_all, .. }) ==> cancels_symbol_first(
            cancel_all,
            *request,
            active_symbol,
        ),
{
    match flatten_request_refusal(environment, request, active_symbol, canary_enabled, now_ms) {
        Some(res) => Ok(FlattenRequestStep::Finished(res)),
        None => {
            let p = plan_flatten(execution_blocking, shadow, active_symbol, rules_present, step_size_text, now_ms);
            let ghost gp = p;
            let r = match p {
                Ok(FlattenStep::Finished(res)) => Ok(FlattenRequestStep::Finished(res)),
                Ok(FlattenStep::Submit { side, quantity }) => {
                    let text = concat_str("CANCEL ALL MAINNET ", active_symbol.as_str());
                    Ok(
                        FlattenRequestStep::CancelAllThenSubmit {
                            cancel_all: LiveCancelAllRequest {
                                confirm_testnet: request.confirm_testnet,
                                confirm_mainnet_canary: request.confirm_mainnet_canary,
                                confirmation_text: Some(text),
                            },
                            side,
                            quantity,
                        },
                    )
                },
                Err(e) => Err(e),
            };
            assert(flatten_request_follows(r, gp, *request, active_symbol));
            r
        },
    }
}

/// What a cancel-all request leads to: a refusal, or one cancel for each
/// open order of the symbol.
pub enum CancelAllStep {
    Refused(LiveCancelResult),
    CancelEach(Vec<LiveCancelRequest>),
}

/// Runs a cancel-all request through its gates at `now_ms`: refused as
/// [`cancel_all_refusal`] says, else one cancel for each open order of the
/// symbol among the stored orders, in their order.
pub fn plan_cancel_all(
    environment: LiveEnvironment,
    symbol: Symbol,
    request: &LiveCancelAllRequest,
    orders: &Vec<LiveOrderRecord>,
    canary_enabled: bool,
    now_ms: i64,
) -> (r: CancelAllStep)
    ensures
        match cancel_all_refusal_spec(environment, symbol, *request, canary_enabled) {
            Some((reason, message)) => r matches CancelAllStep::Refused(res) && cancel_refused(res, reason, message, now_ms),
            None => r matches CancelAllStep::CancelEach(reqs) && cancel_all_requests_hold(reqs@, orders@, symbol, *request),
        },
{
    match cancel_all_refusal(environment, symbol, request, canary_enabled, now_ms) {
        Some(res) => CancelAllStep::Refused(res),
        None => CancelAllStep::CancelEach(cancel_all_requests(orders, symbol, request)),
    }
}

/// What a cancel request leads to: a refusal, or the order marked cancel
/// pending to send to the exchange.
pub enum CancelStep {
    Refused(LiveCancelResult),
    Send(LiveOrderRecord),
}

/// Runs a cancel request through its gates at `now_ms`: a testnet request
/// without confirmation is refused before the order is looked up; an order
/// that is not stored is not found; a mainnet cancel needs the server's
/// canary flag and the exact phrase for the order; else the order is marked
/// cancel pending.
pub fn plan_cancel(
    environment: LiveEnvironment,
    request: &LiveCancelRequest,
    found: Option<LiveOrderRecord>,
    canary_enabled: bool,
    now_ms: i64,
) -> (r: Result<CancelStep, AppError>)
    ensures
        environment == LiveEnvironment::Testnet && !request.confirm_testnet ==> (r matches Ok(
            CancelStep::Refused(res),
        ) && cancel_refused(
            res,
            LiveBlockingReason::ExecutionStatusUnknown,
            "Cancel requires explicit TESTNET confirmation."@,
            now_ms,
        )),
        !(environment == LiveEnvironment::Testnet && !request.confirm_testnet) ==> match found {
            None => r is Err && r->Err_0 is NotFound && r->Err_0->NotFound_0@ == "live order not found: "@
                + request.order_ref@,
            Some(o) => match mainnet_cancel_refusal_spec(environment, o, *request, canary_enabled) {
                Some((reason, message)) => r matches Ok(CancelStep::Refused(res)) && cancel_refused(
                    res,
                    reason,
                    message,
                    now_ms,
                ),
                None => r == Ok::<CancelStep, AppError>(
                    CancelStep::Send(
                        (LiveOrderRecord { status: LiveOrderStatus::CancelPending, updated_at: now_ms, ..o }),
                    ),
                ),
            },
        },
{
    match testnet_cancel_refusal(environment, request, now_ms) {
        Some(res) => return Ok(CancelStep::Refused(res)),
        None => {},
    }
    let order = match order_or_not_found(found, request.order_ref.as_str()) {
        Ok(o) => o,
        Err(e) => return Err(e),
    };
    match mainnet_cancel_refusal(environment, &order, request, canary_enabled, now_ms) {
        Some(res) => return Ok(CancelStep::Refused(res)),
        None => {},
    }
    Ok(CancelStep::Send(mark_cancel_pending(order, now_ms)))
}

} // verus!
