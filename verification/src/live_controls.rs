//! The operator's live controls: the kill switch, arming and disarming
//! live mode, the mode preference, credential selection and the risk
//! profile, each as the state it leaves behind.

use vstd::prelude::*;

use crate::error::AppError;
use crate::live::{LiveBlockingReason, LiveCredentialSource, LiveCredentialSummary, LiveEnvironment, LiveModePreference};
use crate::options::EnvCredentialConfig;
use crate::shadow_flow::{env_blockers, env_credential_blockers};
use crate::orders::{LiveKillSwitchState, LiveRiskProfile, LiveStateRecord};
use crate::text::append_str;

verus! {

/// The kill switch engaged at `now_ms`, with the operator's reason or
/// `operator_engaged`.
pub fn engaged_kill_switch(reason: Option<String>, now_ms: i64) -> (s: LiveKillSwitchState)
    ensures
        s.engaged,
        match reason {
            Some(r) => s.reason == Some(r),
            None => s.reason is Some && s.reason->0@ == "operator_engaged"@,
        },
        s.engaged_at == Some(now_ms),
        s.released_at is None,
        s.updated_at == now_ms,
{
    let reason = match reason {
        Some(r) => Some(r),
        None => Some(String::from_str("operator_engaged")),
    };
    LiveKillSwitchState { engaged: true, reason, engaged_at: Some(now_ms), released_at: None, updated_at: now_ms }
}

/// The kill switch released at `now_ms`, with the operator's reason or
/// `operator_released`.
pub fn released_kill_switch(reason: Option<String>, now_ms: i64) -> (s: LiveKillSwitchState)
    ensures
        !s.engaged,
        match reason {
            Some(r) => s.reason == Some(r),
            None => s.reason is Some && s.reason->0@ == "operator_released"@,
        },
        s.engaged_at is None,
        s.released_at == Some(now_ms),
        s.updated_at == now_ms,
{
    let reason = match reason {
        Some(r) => Some(r),
        None => Some(String::from_str("operator_released")),
    };
    LiveKillSwitchState { engaged: false, reason, engaged_at: None, released_at: Some(now_ms), updated_at: now_ms }
}

/// The name of a reason as a debug listing writes it.
pub open spec fn reason_name(r: LiveBlockingReason) -> Seq<char> {
    match r {
        LiveBlockingReason::NoActiveCredential => "NoActiveCredential"@,
        LiveBlockingReason::EnvCredentialsMissing => "EnvCredentialsMissing"@,
        LiveBlockingReason::EnvCredentialPartial => "EnvCredentialPartial"@,
        LiveBlockingReason::SecureStoreUnavailable => "SecureStoreUnavailable"@,
        LiveBlockingReason::ValidationFailed => "ValidationFailed"@,
        LiveBlockingReason::ValidationMissing => "ValidationMissing"@,
        LiveBlockingReason::ValidationStale => "ValidationStale"@,
        LiveBlockingReason::AccountSnapshotMissing => "AccountSnapshotMissing"@,
        LiveBlockingReason::SymbolRulesMissing => "SymbolRulesMissing"@,
        LiveBlockingReason::RulesMissing => "RulesMissing"@,
        LiveBlockingReason::UnsupportedSymbol => "UnsupportedSymbol"@,
        LiveBlockingReason::UnsupportedTimeframe => "UnsupportedTimeframe"@,
        LiveBlockingReason::UnsupportedAccountMode => "UnsupportedAccountMode"@,
        LiveBlockingReason::PaperPositionOpen => "PaperPositionOpen"@,
        LiveBlockingReason::RuntimeBusy => "RuntimeBusy"@,
        LiveBlockingReason::ShadowStreamDown => "ShadowStreamDown"@,
        LiveBlockingReason::ShadowStateAmbiguous => "ShadowStateAmbiguous"@,
        LiveBlockingReason::PreflightNotSupportedOnMainnet => "PreflightNotSupportedOnMainnet"@,
        LiveBlockingReason::IntentUnavailable => "IntentUnavailable"@,
        LiveBlockingReason::MinNotional => "MinNotional"@,
        LiveBlockingReason::PrecisionInvalid => "PrecisionInvalid"@,
        LiveBlockingReason::MainnetExecutionBlocked => "MainnetExecutionBlocked"@,
        LiveBlockingReason::MainnetCanaryDisabled => "MainnetCanaryDisabled"@,
        LiveBlockingReason::MainnetCanaryRiskProfileMissing => "MainnetCanaryRiskProfileMissing"@,
        LiveBlockingReason::MainnetCanaryLimitRequired => "MainnetCanaryLimitRequired"@,
        LiveBlockingReason::MainnetCanaryLimitMarketable => "MainnetCanaryLimitMarketable"@,
        LiveBlockingReason::MainnetConfirmationMissing => "MainnetConfirmationMissing"@,
        LiveBlockingReason::MainnetAutoBlocked => "MainnetAutoBlocked"@,
        LiveBlockingReason::ReferencePriceUnavailable => "ReferencePriceUnavailable"@,
        LiveBlockingReason::ReferencePriceStale => "ReferencePriceStale"@,
        LiveBlockingReason::ReferencePriceSourceFailed => "ReferencePriceSourceFailed"@,
        LiveBlockingReason::StaleShadowState => "StaleShadowState"@,
        LiveBlockingReason::PreviewMismatch => "PreviewMismatch"@,
        LiveBlockingReason::ExecutionStatusUnknown => "ExecutionStatusUnknown"@,
        LiveBlockingReason::DuplicateClientOrderId => "DuplicateClientOrderId"@,
        LiveBlockingReason::OrderRejected => "OrderRejected"@,
        LiveBlockingReason::OrderNotFound => "OrderNotFound"@,
        LiveBlockingReason::CancelFailed => "CancelFailed"@,
        LiveBlockingReason::FlattenFailed => "FlattenFailed"@,
        LiveBlockingReason::KillSwitchEngaged => "KillSwitchEngaged"@,
        LiveBlockingReason::RiskLimitExceeded => "RiskLimitExceeded"@,
        LiveBlockingReason::AutoExecutorStopped => "AutoExecutorStopped"@,
        LiveBlockingReason::DuplicateSignalSuppressed => "DuplicateSignalSuppressed"@,
        LiveBlockingReason::RecentWindowRepairOnly => "RecentWindowRepairOnly"@,
        LiveBlockingReason::ExecutionNotImplemented => "ExecutionNotImplemented"@,
    }
}

fn reason_name_of(r: LiveBlockingReason) -> (s: &'static str)
    ensures
        s@ == reason_name(r),
{
    match r {
        LiveBlockingReason::NoActiveCredential => "NoActiveCredential",
        LiveBlockingReason::EnvCredentialsMissing => "EnvCredentialsMissing",
        LiveBlockingReason::EnvCredentialPartial => "EnvCredentialPartial",
        LiveBlockingReason::SecureStoreUnavailable => "SecureStoreUnavailable",
        LiveBlockingReason::ValidationFailed => "ValidationFailed",
        LiveBlockingReason::ValidationMissing => "ValidationMissing",
        LiveBlockingReason::ValidationStale => "ValidationStale",
        LiveBlockingReason::AccountSnapshotMissing => "AccountSnapshotMissing",
        LiveBlockingReason::SymbolRulesMissing => "SymbolRulesMissing",
        LiveBlockingReason::RulesMissing => "RulesMissing",
        LiveBlockingReason::UnsupportedSymbol => "UnsupportedSymbol",
        LiveBlockingReason::UnsupportedTimeframe => "UnsupportedTimeframe",
        LiveBlockingReason::UnsupportedAccountMode => "UnsupportedAccountMode",
        LiveBlockingReason::PaperPositionOpen => "PaperPositionOpen",
        LiveBlockingReason::RuntimeBusy => "RuntimeBusy",
        LiveBlockingReason::ShadowStreamDown => "ShadowStreamDown",
        LiveBlockingReason::ShadowStateAmbiguous => "ShadowStateAmbiguous",
        LiveBlockingReason::PreflightNotSupportedOnMainnet => "PreflightNotSupportedOnMainnet",
        LiveBlockingReason::IntentUnavailable => "IntentUnavailable",
        LiveBlockingReason::MinNotional => "MinNotional",
        LiveBlockingReason::PrecisionInvalid => "PrecisionInvalid",
        LiveBlockingReason::MainnetExecutionBlocked => "MainnetExecutionBlocked",
        LiveBlockingReason::MainnetCanaryDisabled => "MainnetCanaryDisabled",
        LiveBlockingReason::MainnetCanaryRiskProfileMissing => "MainnetCanaryRiskProfileMissing",
        LiveBlockingReason::MainnetCanaryLimitRequired => "MainnetCanaryLimitRequired",
        LiveBlockingReason::MainnetCanaryLimitMarketable => "MainnetCanaryLimitMarketable",
        LiveBlockingReason::MainnetConfirmationMissing => "MainnetConfirmationMissing",
        LiveBlockingReason::MainnetAutoBlocked => "MainnetAutoBlocked",
        LiveBlockingReason::ReferencePriceUnavailable => "ReferencePriceUnavailable",
        LiveBlockingReason::ReferencePriceStale => "ReferencePriceStale",
        LiveBlockingReason::ReferencePriceSourceFailed => "ReferencePriceSourceFailed",
        LiveBlockingReason::StaleShadowState => "StaleShadowState",
        LiveBlockingReason::PreviewMismatch => "PreviewMismatch",
        LiveBlockingReason::ExecutionStatusUnknown => "ExecutionStatusUnknown",
        LiveBlockingReason::DuplicateClientOrderId => "DuplicateClientOrderId",
        LiveBlockingReason::OrderRejected => "OrderRejected",
        LiveBlockingReason::OrderNotFound => "OrderNotFound",
        LiveBlockingReason::CancelFailed => "CancelFailed",
        LiveBlockingReason::FlattenFailed => "FlattenFailed",
        LiveBlockingReason::KillSwitchEngaged => "KillSwitchEngaged",
        LiveBlockingReason::RiskLimitExceeded => "RiskLimitExceeded",
        LiveBlockingReason::AutoExecutorStopped => "AutoExecutorStopped",
        LiveBlockingReason::DuplicateSignalSuppressed => "DuplicateSignalSuppressed",
        LiveBlockingReason::RecentWindowRepairOnly => "RecentWindowRepairOnly",
        LiveBlockingReason::ExecutionNotImplemented => "ExecutionNotImplemented",
    }
}

/// The names of reasons joined by `, `.
pub open spec fn reason_names(rs: Seq<LiveBlockingReason>) -> Seq<char>
    decreases rs.len(),
{
    if rs.len() == 0 {
        Seq::empty()
    } else if rs.len() == 1 {
        reason_name(rs[0])
    } else {
        reason_names(rs.drop_last()) + ", "@ + reason_name(rs.last())
    }
}

/// The refusal to arm live mode, if readiness does not allow it:
/// `live mode cannot be armed: [<reasons>]`.
pub fn arm_refusal(can_arm: bool, blocking: &Vec<LiveBlockingReason>) -> (r: Option<AppError>)
    ensures
        r is Some <==> !can_arm,
        r matches Some(e) ==> e is Conflict && e->Conflict_0@ == "live mode cannot be armed: ["@ + reason_names(
            blocking@,
        ) + "]"@,
{
    if can_arm {
        return None;
    }
    let mut s = String::from_str("live mode cannot be armed: [");
    let ghost start = s@;
    let mut i: usize = 0;
    while i < blocking.len()
        invariant
            i <= blocking@.len(),
            start == "live mode cannot be armed: ["@,
            s@ == start + reason_names(blocking@.subrange(0, i as int)),
        decreases blocking@.len() - i,
    {
        let ghost next = blocking@.subrange(0, i + 1);
        assert(next.drop_last() =~= blocking@.subrange(0, i as int));
        if i > 0 {
            append_str(&mut s, ", ");
        }
        append_str(&mut s, reason_name_of(blocking[i]));
        proof {
            if i == 0 {
                assert(reason_names(blocking@.subrange(0, 0)) =~= Seq::<char>::empty());
            }
            assert(s@ =~= start + reason_names(next));
        }
        i = i + 1;
    }
    assert(blocking@.subrange(0, blocking@.len() as int) =~= blocking@);
    append_str(&mut s, "]");
    Some(AppError::Conflict(s))
}

/// Live mode armed, read-only, at `now_ms`.
pub fn armed_state(state: LiveStateRecord, now_ms: i64) -> (s: LiveStateRecord)
    ensures
        s == (LiveStateRecord {
            armed: true,
            mode_preference: LiveModePreference::LiveReadOnly,
            updated_at: now_ms,
            ..state
        }),
{
    LiveStateRecord { armed: true, mode_preference: LiveModePreference::LiveReadOnly, updated_at: now_ms, ..state }
}

/// Live mode disarmed, back to paper, at `now_ms`.
pub fn disarmed_state(state: LiveStateRecord, now_ms: i64) -> (s: LiveStateRecord)
    ensures
        s == (LiveStateRecord { armed: false, mode_preference: LiveModePreference::Paper, updated_at: now_ms, ..state }),
{
    LiveStateRecord { armed: false, mode_preference: LiveModePreference::Paper, updated_at: now_ms, ..state }
}

/// The mode preference set at `now_ms`; choosing paper also disarms.
pub fn with_mode_preference(state: LiveStateRecord, preference: LiveModePreference, now_ms: i64) -> (s: LiveStateRecord)
    ensures
        s == (LiveStateRecord {
            mode_preference: preference,
            armed: if preference == LiveModePreference::Paper { false } else { state.armed },
            updated_at: now_ms,
            ..state
        }),
{
    LiveStateRecord {
        mode_preference: preference,
        armed: if preference == LiveModePreference::Paper { false } else { state.armed },
        updated_at: now_ms,
        ..state
    }
}

/// The refusal to select a secure-store credential while credentials
/// loaded from the environment are authoritative.
pub fn selection_source_refusal(authoritative: bool, source: LiveCredentialSource) -> (r: Option<AppError>)
    ensures
        r is Some <==> (authoritative && source != LiveCredentialSource::Env),
        r matches Some(e) ==> e is Conflict && e->Conflict_0@
            == "RELXEN_CREDENTIAL_SOURCE=env is active; unset it to select secure-store credentials"@,
{
    if authoritative && source != LiveCredentialSource::Env {
        Some(
            AppError::Conflict(
                String::from_str("RELXEN_CREDENTIAL_SOURCE=env is active; unset it to select secure-store credentials"),
            ),
        )
    } else {
        None
    }
}

/// A risk profile the operator configured, at `now_ms`.
pub fn configured_risk_profile(profile: LiveRiskProfile, now_ms: i64) -> (p: LiveRiskProfile)
    ensures
        p == (LiveRiskProfile { configured: true, updated_at: now_ms, ..profile }),
{
    LiveRiskProfile { configured: true, updated_at: now_ms, ..profile }
}

/// The credential whose secret may be read for the active environment:
/// a conflict where none is selected, and where credentials loaded from
/// the environment are authoritative but the selected one is not one of
/// them.
pub fn readable_active_credential(credential: Option<LiveCredentialSummary>, authoritative: bool) -> (r: Result<
    LiveCredentialSummary,
    AppError,
>)
    ensures
        match credential {
            None => r is Err && r->Err_0 is Conflict && r->Err_0->Conflict_0@ == "no active live credential selected"@,
            Some(c) => if authoritative && c.source != LiveCredentialSource::Env {
                r is Err && r->Err_0 is Conflict && r->Err_0->Conflict_0@
                    == "RELXEN_CREDENTIAL_SOURCE=env is active; secure-store credential reads are disabled"@
            } else {
                r == Ok::<LiveCredentialSummary, AppError>(c)
            },
        },
{
    match credential {
        None => Err(AppError::Conflict(String::from_str("no active live credential selected"))),
        Some(c) => {
            if authoritative && c.source != LiveCredentialSource::Env {
                Err(
                    AppError::Conflict(
                        String::from_str(
                            "RELXEN_CREDENTIAL_SOURCE=env is active; secure-store credential reads are disabled",
                        ),
                    ),
                )
            } else {
                Ok(c)
            }
        },
    }
}

/// Whether the runtime may use a credential: any, unless credentials
/// loaded from the environment are authoritative, then only those.
pub open spec fn runtime_allows(authoritative: bool, source: LiveCredentialSource) -> bool {
    !authoritative || source == LiveCredentialSource::Env
}

/// The credential the live status is built with, and the extra reasons
/// that block readiness: the active credential where the runtime may use
/// it; without one, the reasons the environment's credentials give.
pub fn status_credential(
    active: Option<LiveCredentialSummary>,
    config: &EnvCredentialConfig,
    environment: LiveEnvironment,
) -> (r: (Option<LiveCredentialSummary>, Vec<LiveBlockingReason>))
    ensures
        r.0 == (match active {
            Some(c) => if runtime_allows(config.authoritative, c.source) { Some(c) } else { None },
            None => None,
        }),
        r.1@ == (if r.0 is None { env_blockers(*config, environment) } else { Seq::empty() }),
{
    let credential = match active {
        Some(c) => if !config.authoritative || c.source == LiveCredentialSource::Env { Some(c) } else { None },
        None => None,
    };
    let extra = if credential.is_none() { env_credential_blockers(config, environment) } else { Vec::new() };
    (credential, extra)
}

} // verus!
