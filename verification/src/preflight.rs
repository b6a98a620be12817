//! The testnet `order/test` preflight: when it is refused locally, and the
//! result it records once the exchange has answered. A preflight never
//! places an order.

use vstd::prelude::*;

use crate::execution::clone_opt_string;
use crate::intent::random_uuid_text;
use crate::error::AppError;
use crate::live::{LiveBlockingReason, LiveCredentialId, LiveEnvironment, LiveRuntimeState};
use crate::market::Symbol;
use crate::order_flow::{empty_payload, text_map};
use crate::orders::{LiveOrderIntent, LiveOrderPreflightResult, LiveOrderPreview};

verus! {

/// The first reason of a list, if any.
pub open spec fn first_reason(reasons: Seq<LiveBlockingReason>) -> Option<LiveBlockingReason> {
    if reasons.len() > 0 {
        Some(reasons[0])
    } else {
        None
    }
}

/// Whether `r` records a preflight of `intent` under a fresh identifier,
/// for the credential and environment given, at `now`: the intent's
/// symbol, side, type, payload and signal.
pub open spec fn preflight_of_intent(
    r: LiveOrderPreflightResult,
    credential_id: LiveCredentialId,
    environment: LiveEnvironment,
    intent: LiveOrderIntent,
    now: i64,
) -> bool {
    &&& r.id@.len() == 36
    &&& r.credential_id == Some(credential_id)
    &&& r.environment == environment
    &&& r.symbol == intent.symbol
    &&& r.side == Some(intent.side)
    &&& r.order_type == Some(intent.order_type)
    &&& r.payload@ == intent.exchange_payload@
    &&& r.exchange_error_code is None
    &&& r.source_signal_id == intent.source_signal_id
    &&& r.created_at == now
}

/// The preflight that is refused without asking the exchange, if any: a
/// preview without an intent is blocked locally with the preview's first
/// reason and message; an intent outside testnet is refused as testnet-only.
/// `None` means the exchange must be asked.
pub fn preflight_without_exchange(
    credential_id: LiveCredentialId,
    environment: LiveEnvironment,
    active_symbol: Symbol,
    preview: &LiveOrderPreview,
    now_ms: i64,
) -> (r: Option<LiveOrderPreflightResult>)
    ensures
        r is None <==> (preview.intent is Some && environment == LiveEnvironment::Testnet),
        preview.intent is None ==> (r matches Some(res) && {
            &&& res.id@.len() == 36
            &&& res.credential_id == Some(credential_id)
            &&& res.environment == environment
            &&& res.symbol == active_symbol
            &&& res.side is None
            &&& res.order_type is None
            &&& text_map(res.payload@) == Map::<Seq<char>, Seq<char>>::empty()
            &&& !res.accepted
            &&& res.exchange_error_code is None
            &&& res.exchange_error_message == Some(preview.message)
            &&& res.local_blocking_reason == first_reason(preview.blocking_reasons@)
            &&& res.source_signal_id is None
            &&& res.message@ == "PREFLIGHT BLOCKED locally. No exchange request was sent."@
            &&& res.created_at == now_ms
        }),
        preview.intent is Some && environment != LiveEnvironment::Testnet ==> (r matches Some(res) && {
            &&& preflight_of_intent(res, credential_id, environment, preview.intent->0, now_ms)
            &&& !res.accepted
            &&& res.exchange_error_message is None
            &&& res.local_blocking_reason == Some(LiveBlockingReason::PreflightNotSupportedOnMainnet)
            &&& res.message@ == "PREFLIGHT BLOCKED: testnet-only in this batch."@
        }),
{
    match &preview.intent {
        None => {
            let first = if preview.blocking_reasons.len() > 0 {
                Some(preview.blocking_reasons[0])
            } else {
                None
            };
            Some(
                LiveOrderPreflightResult {
                    id: random_uuid_text(),
                    credential_id: Some(credential_id),
                    environment,
                    symbol: active_symbol,
                    side: None,
                    order_type: None,
                    payload: empty_payload(),
                    accepted: false,
                    exchange_error_code: None,
                    exchange_error_message: Some(preview.message.clone()),
                    local_blocking_reason: first,
                    source_signal_id: None,
                    message: String::from_str("PREFLIGHT BLOCKED locally. No exchange request was sent."),
                    created_at: now_ms,
                },
            )
        },
        Some(intent) => {
            if environment == LiveEnvironment::Testnet {
                return None;
            }
            Some(
                LiveOrderPreflightResult {
                    id: random_uuid_text(),
                    credential_id: Some(credential_id),
                    environment,
                    symbol: intent.symbol,
                    side: Some(intent.side),
                    order_type: Some(intent.order_type),
                    payload: intent.exchange_payload.clone(),
                    accepted: false,
                    exchange_error_code: None,
                    exchange_error_message: None,
                    local_blocking_reason: Some(LiveBlockingReason::PreflightNotSupportedOnMainnet),
                    source_signal_id: clone_opt_string(&intent.source_signal_id),
                    message: String::from_str("PREFLIGHT BLOCKED: testnet-only in this batch."),
                    created_at: now_ms,
                },
            )
        },
    }
}

/// The preflight of `intent` once the exchange answered its `order/test`:
/// passed where it accepted the payload, failed with its error otherwise;
/// no order is placed either way.
pub fn preflight_finished(
    credential_id: LiveCredentialId,
    environment: LiveEnvironment,
    intent: LiveOrderIntent,
    answer: Result<(), String>,
    now_ms: i64,
) -> (r: LiveOrderPreflightResult)
    ensures
        preflight_of_intent(r, credential_id, environment, intent, now_ms),
        r.accepted == answer is Ok,
        r.local_blocking_reason is None,
        r.exchange_error_message == match answer {
            Ok(_) => None,
            Err(e) => Some(e),
        },
        r.message@ == if answer is Ok {
            "PREFLIGHT PASSED. No order was placed."@
        } else {
            "PREFLIGHT FAILED. No order was placed."@
        },
{
    let (accepted, error_message) = match answer {
        Ok(()) => (true, None),
        Err(e) => (false, Some(e)),
    };
    LiveOrderPreflightResult {
        id: random_uuid_text(),
        credential_id: Some(credential_id),
        environment,
        symbol: intent.symbol,
        side: Some(intent.side),
        order_type: Some(intent.order_type),
        payload: intent.exchange_payload,
        accepted,
        exchange_error_code: None,
        exchange_error_message: error_message,
        local_blocking_reason: None,
        source_signal_id: intent.source_signal_id,
        message: if accepted {
            String::from_str("PREFLIGHT PASSED. No order was placed.")
        } else {
            String::from_str("PREFLIGHT FAILED. No order was placed.")
        },
        created_at: now_ms,
    }
}

/// The refusal to build a preview without its inputs: the symbol rules
/// are checked first, then the live shadow.
pub fn missing_preview_input(rules_present: bool, shadow_present: bool) -> (r: Option<AppError>)
    ensures
        !rules_present ==> r is Some && r->0 is Conflict && r->0->Conflict_0@ == "symbol rules are missing"@,
        rules_present && !shadow_present ==> r is Some && r->0 is Conflict && r->0->Conflict_0@
            == "live shadow state is missing"@,
        rules_present && shadow_present ==> r is None,
{
    if !rules_present {
        Some(AppError::Conflict(String::from_str("symbol rules are missing")))
    } else if !shadow_present {
        Some(AppError::Conflict(String::from_str("live shadow state is missing")))
    } else {
        None
    }
}

/// The live state a built preview leaves: ready for preflight where it
/// holds an intent and nothing blocks it, else blocked.
pub fn preview_runtime_state(preview: &LiveOrderPreview) -> (s: LiveRuntimeState)
    ensures
        s == (if preview.intent is Some && preview.blocking_reasons@.len() == 0 {
            LiveRuntimeState::PreflightReady
        } else {
            LiveRuntimeState::PreflightBlocked
        }),
{
    if preview.intent.is_some() && preview.blocking_reasons.len() == 0 {
        LiveRuntimeState::PreflightReady
    } else {
        LiveRuntimeState::PreflightBlocked
    }
}

} // verus!
