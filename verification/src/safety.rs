//! Safety properties of the live readiness and execution decisions, stated
//! for every input.

use vstd::prelude::*;

use crate::execution::{
    execution_raw_blocks, execution_status_holds, last_open_index, only_if, preview_blocks,
    risk_exceeded, shadow_blocks, stream_blocks, sat_sub, stream_environment_mismatch, stream_event_stale, unsupported_account_mode,
};
use crate::live::{
    canonical_reasons_of, strictly_ranked, LiveBlockingReason, LiveCredentialSummary, LiveEnvironment,
    LiveExecutionAvailability, LiveReconciliationStatus, LiveRuntimeState, LiveShadowStreamState, LiveWarning,
};
use crate::options::ServiceOptions;
use crate::orders::{
    LiveAutoExecutorStatus, LiveExecutionSnapshot, LiveExecutionState, LiveKillSwitchState, LiveOrderPreview,
    LiveRiskProfile, LiveStateRecord,
};
use crate::canary::confirmation_phrase;
use crate::live_actions::{
    execution_request_refusal_spec, intent_limit_price, mainnet_canary_refusal_spec, marketable,
    submission_refusal_spec,
};
use crate::orders::{LiveExecutionRequest, LiveOrderIntent, LiveOrderType};
use crate::readiness::{
    live_status_holds, readiness_holds, readiness_raw_blocks, AccountSnapshotSummary, LiveReadinessCore,
    LiveStatusCore,
};

verus! {

/// A list that names exactly the reasons of an empty list is empty.
proof fn lemma_canonical_of_empty(out: Seq<LiveBlockingReason>, items: Seq<LiveBlockingReason>)
    requires
        canonical_reasons_of(out, items),
    ensures
        out.len() == 0 <==> items.len() == 0,
{
    if out.len() > 0 {
        assert(out.contains(out[0]));
    }
    if items.len() > 0 {
        assert(items.contains(items[0]));
    }
}

/// What an empty list of stream reasons shows of the stream.
proof fn lemma_no_stream_blocks(rec: LiveReconciliationStatus, env: LiveEnvironment, now: i64, stale_ms: i64)
    requires
        stream_blocks(rec, env, now, stale_ms).len() == 0,
    ensures
        rec.stream.state == LiveShadowStreamState::Running,
        !rec.stream.stale,
        !stream_event_stale(rec, now, stale_ms),
        !stream_environment_mismatch(rec, env),
{
}

/// What an empty list of shadow reasons shows of the account shadow.
proof fn lemma_no_shadow_blocks(rec: LiveReconciliationStatus, env: LiveEnvironment)
    requires
        shadow_blocks(rec, env).len() == 0,
    ensures
        rec.shadow is Some,
        !rec.shadow->0.ambiguous,
        rec.shadow->0.environment == env,
        !unsupported_account_mode(rec.shadow->0),
{
}

/// What an empty list of preview reasons shows of the preview.
proof fn lemma_no_preview_blocks(
    preview: Option<LiveOrderPreview>,
    env: LiveEnvironment,
    now: i64,
    ttl_ms: i64,
    risk: LiveRiskProfile,
)
    requires
        preview_blocks(preview, env, now, ttl_ms, risk).len() == 0,
    ensures
        preview is Some,
        preview->0.blocking_reasons@.len() == 0,
        preview->0.intent is Some,
        ({
            let i = preview->0.intent->0;
            &&& i.blocking_reasons@.len() == 0
            &&& i.environment == env
            &&& sat_sub(now, i.built_at) <= ttl_ms
            &&& !(risk.configured && risk_exceeded(i, risk))
            &&& (env == LiveEnvironment::Testnet ==> i.can_execute_now)
        }),
{
}

/// The blocking list is the readiness reasons followed by those of each
/// execution gate.
proof fn lemma_execution_blocks_parts(
    live_state: LiveStateRecord,
    readiness_blocking: Seq<LiveBlockingReason>,
    rec: LiveReconciliationStatus,
    preview: Option<LiveOrderPreview>,
    orders: Seq<crate::orders::LiveOrderRecord>,
    kill_switch: LiveKillSwitchState,
    risk: LiveRiskProfile,
    now: i64,
    options: ServiceOptions,
)
    requires
        execution_raw_blocks(live_state, readiness_blocking, rec, preview, orders, kill_switch, risk, now, options).len()
            == 0,
    ensures
        readiness_blocking.len() == 0,
        !kill_switch.engaged,
        live_state.armed,
        live_state.environment == LiveEnvironment::Mainnet ==> options.enable_mainnet_canary_execution
            && risk.configured,
        stream_blocks(rec, live_state.environment, now, options.live_shadow_stale_ms).len() == 0,
        shadow_blocks(rec, live_state.environment).len() == 0,
        last_open_index(orders) is None,
        preview_blocks(preview, live_state.environment, now, options.live_intent_ttl_ms, risk).len() == 0,
{
    let env = live_state.environment;
    let g1 = only_if(kill_switch.engaged, LiveBlockingReason::KillSwitchEngaged);
    let g2 = only_if(
        env == LiveEnvironment::Mainnet && !options.enable_mainnet_canary_execution,
        LiveBlockingReason::MainnetCanaryDisabled,
    );
    let g3 = only_if(env == LiveEnvironment::Mainnet && !risk.configured, LiveBlockingReason::MainnetCanaryRiskProfileMissing);
    let g4 = only_if(!live_state.armed, LiveBlockingReason::RuntimeBusy);
    let g5 = stream_blocks(rec, env, now, options.live_shadow_stale_ms);
    let g6 = shadow_blocks(rec, env);
    let g7 = only_if(last_open_index(orders) is Some, LiveBlockingReason::RuntimeBusy);
    let g8 = preview_blocks(preview, env, now, options.live_intent_ttl_ms, risk);
    let raw = execution_raw_blocks(live_state, readiness_blocking, rec, preview, orders, kill_switch, risk, now, options);
    assert(raw == readiness_blocking + g1 + g2 + g3 + g4 + g5 + g6 + g7 + g8);
    assert(raw.len() == readiness_blocking.len() + g1.len() + g2.len() + g3.len() + g4.len() + g5.len() + g6.len()
        + g7.len() + g8.len());
    lemma_only_if_empty(kill_switch.engaged, LiveBlockingReason::KillSwitchEngaged);
    lemma_only_if_empty(
        env == LiveEnvironment::Mainnet && !options.enable_mainnet_canary_execution,
        LiveBlockingReason::MainnetCanaryDisabled,
    );
    lemma_only_if_empty(env == LiveEnvironment::Mainnet && !risk.configured, LiveBlockingReason::MainnetCanaryRiskProfileMissing);
    lemma_only_if_empty(!live_state.armed, LiveBlockingReason::RuntimeBusy);
    lemma_only_if_empty(last_open_index(orders) is Some, LiveBlockingReason::RuntimeBusy);
}

/// A guarded one-element list is empty exactly when its guard fails.
proof fn lemma_only_if_empty<T>(c: bool, r: T)
    ensures
        only_if(c, r).len() == 0 <==> !c,
{
}

/// What an empty list of execution blocking reasons shows of each gate.
proof fn lemma_no_execution_blocks(
    live_state: LiveStateRecord,
    readiness_blocking: Seq<LiveBlockingReason>,
    rec: LiveReconciliationStatus,
    preview: Option<LiveOrderPreview>,
    orders: Seq<crate::orders::LiveOrderRecord>,
    kill_switch: LiveKillSwitchState,
    risk: LiveRiskProfile,
    now: i64,
    options: ServiceOptions,
)
    requires
        execution_raw_blocks(live_state, readiness_blocking, rec, preview, orders, kill_switch, risk, now, options).len()
            == 0,
    ensures
        readiness_blocking.len() == 0,
        !kill_switch.engaged,
        live_state.armed,
        live_state.environment == LiveEnvironment::Mainnet ==> options.enable_mainnet_canary_execution
            && risk.configured,
        rec.stream.state == LiveShadowStreamState::Running,
        !rec.stream.stale,
        !stream_event_stale(rec, now, options.live_shadow_stale_ms),
        !stream_environment_mismatch(rec, live_state.environment),
        rec.shadow is Some,
        !rec.shadow->0.ambiguous,
        rec.shadow->0.environment == live_state.environment,
        !unsupported_account_mode(rec.shadow->0),
        last_open_index(orders) is None,
        preview is Some,
        preview->0.blocking_reasons@.len() == 0,
        preview->0.intent is Some,
        ({
            let i = preview->0.intent->0;
            &&& i.blocking_reasons@.len() == 0
            &&& i.environment == live_state.environment
            &&& sat_sub(now, i.built_at) <= options.live_intent_ttl_ms
            &&& !(risk.configured && risk_exceeded(i, risk))
            &&& (live_state.environment == LiveEnvironment::Testnet ==> i.can_execute_now)
        }),
{
    lemma_execution_blocks_parts(live_state, readiness_blocking, rec, preview, orders, kill_switch, risk, now, options);
    lemma_no_stream_blocks(rec, live_state.environment, now, options.live_shadow_stale_ms);
    lemma_no_shadow_blocks(rec, live_state.environment);
    lemma_no_preview_blocks(preview, live_state.environment, now, options.live_intent_ttl_ms, risk);
}

/// An order may be submitted only when every gate passes: readiness holds
/// with no blocking reason, the kill switch is released, live mode is
/// armed, a mainnet submission has the server's canary flag and a
/// configured risk profile, the user-data stream is running, fresh and of
/// the selected environment, the account shadow is present, unambiguous,
/// of the selected environment and in a supported account mode, no order
/// is open, and the preview holds an intent of the selected environment
/// that is unblocked, within its time-to-live and within the risk limits.
/// The execution status then lists no blocking reason.
pub proof fn lemma_submission_requires_every_gate(
    res: (LiveExecutionSnapshot, LiveExecutionAvailability),
    live_state: LiveStateRecord,
    readiness_ready: bool,
    readiness_blocking: Seq<LiveBlockingReason>,
    readiness_warnings: Seq<LiveWarning>,
    rec: LiveReconciliationStatus,
    preview: Option<LiveOrderPreview>,
    execution: LiveExecutionSnapshot,
    kill_switch: LiveKillSwitchState,
    risk: LiveRiskProfile,
    auto_executor: LiveAutoExecutorStatus,
    now: i64,
    options: ServiceOptions,
)
    requires
        execution_status_holds(
            res,
            live_state,
            readiness_ready,
            readiness_blocking,
            readiness_warnings,
            rec,
            preview,
            execution,
            kill_switch,
            risk,
            auto_executor,
            now,
            options,
        ),
        res.0.can_submit,
    ensures
        readiness_ready,
        readiness_blocking.len() == 0,
        res.0.blocking_reasons@.len() == 0,
        res.1.can_execute_live,
        !kill_switch.engaged,
        live_state.armed,
        live_state.environment == LiveEnvironment::Mainnet ==> options.enable_mainnet_canary_execution
            && risk.configured,
        rec.stream.state == LiveShadowStreamState::Running,
        !rec.stream.stale,
        !stream_event_stale(rec, now, options.live_shadow_stale_ms),
        !stream_environment_mismatch(rec, live_state.environment),
        rec.shadow is Some,
        !rec.shadow->0.ambiguous,
        rec.shadow->0.environment == live_state.environment,
        !unsupported_account_mode(rec.shadow->0),
        last_open_index(execution.recent_orders@) is None,
        preview is Some,
        preview->0.blocking_reasons@.len() == 0,
        preview->0.intent is Some,
        ({
            let i = preview->0.intent->0;
            &&& i.blocking_reasons@.len() == 0
            &&& i.environment == live_state.environment
            &&& sat_sub(now, i.built_at) <= options.live_intent_ttl_ms
            &&& !(risk.configured && risk_exceeded(i, risk))
            &&& (live_state.environment == LiveEnvironment::Testnet ==> i.can_execute_now)
        }),
{
    let raw = execution_raw_blocks(
        live_state,
        readiness_blocking,
        rec,
        preview,
        execution.recent_orders@,
        kill_switch,
        risk,
        now,
        options,
    );
    assert(raw.len() == 0);
    lemma_canonical_of_empty(res.0.blocking_reasons@, raw);
    lemma_no_execution_blocks(
        live_state,
        readiness_blocking,
        rec,
        preview,
        execution.recent_orders@,
        kill_switch,
        risk,
        now,
        options,
    );
}

/// An engaged kill switch blocks every new submission at once: the
/// execution status cannot submit, lists the kill switch among its
/// reasons, and, on testnet with no open order, shows the kill-switch
/// state.
pub proof fn lemma_kill_switch_blocks_submission(
    res: (LiveExecutionSnapshot, LiveExecutionAvailability),
    live_state: LiveStateRecord,
    readiness_ready: bool,
    readiness_blocking: Seq<LiveBlockingReason>,
    readiness_warnings: Seq<LiveWarning>,
    rec: LiveReconciliationStatus,
    preview: Option<LiveOrderPreview>,
    execution: LiveExecutionSnapshot,
    kill_switch: LiveKillSwitchState,
    risk: LiveRiskProfile,
    auto_executor: LiveAutoExecutorStatus,
    now: i64,
    options: ServiceOptions,
)
    requires
        execution_status_holds(
            res,
            live_state,
            readiness_ready,
            readiness_blocking,
            readiness_warnings,
            rec,
            preview,
            execution,
            kill_switch,
            risk,
            auto_executor,
            now,
            options,
        ),
        kill_switch.engaged,
    ensures
        !res.0.can_submit,
        !res.1.can_execute_live,
        res.0.blocking_reasons@.contains(LiveBlockingReason::KillSwitchEngaged),
        live_state.environment == LiveEnvironment::Testnet && last_open_index(execution.recent_orders@) is None
            ==> res.0.state == LiveExecutionState::KillSwitchEngaged,
{
    let raw = execution_raw_blocks(
        live_state,
        readiness_blocking,
        rec,
        preview,
        execution.recent_orders@,
        kill_switch,
        risk,
        now,
        options,
    );
    let k = readiness_blocking.len();
    assert(raw[k as int] == LiveBlockingReason::KillSwitchEngaged);
    assert(raw.contains(LiveBlockingReason::KillSwitchEngaged));
}

/// Live mode may be armed exactly when readiness lists no blocking reason;
/// the reasons are listed in code order, each once. An engaged kill switch
/// or an open paper position always blocks arming, and when the secure
/// store is unavailable to a selected credential, readiness fails closed
/// with the secure-store state.
#[verifier::rlimit(50)]
pub proof fn lemma_readiness_fails_closed(
    r: LiveReadinessCore,
    live_state: LiveStateRecord,
    active_credential: Option<LiveCredentialSummary>,
    rules_fetched_at: Option<i64>,
    account: Option<AccountSnapshotSummary>,
    rec: LiveReconciliationStatus,
    preview: Option<LiveOrderPreview>,
    paper_position_open: bool,
    extra_blocking: Seq<LiveBlockingReason>,
    kill_switch: LiveKillSwitchState,
    now: i64,
    options: ServiceOptions,
)
    requires
        readiness_holds(
            r,
            live_state,
            active_credential,
            rules_fetched_at,
            account,
            rec,
            preview,
            paper_position_open,
            extra_blocking,
            kill_switch,
            now,
            options,
        ),
    ensures
        r.can_arm <==> r.blocking_reasons@.len() == 0,
        strictly_ranked(r.blocking_reasons@),
        kill_switch.engaged ==> !r.can_arm && r.blocking_reasons@.contains(LiveBlockingReason::KillSwitchEngaged),
        paper_position_open ==> !r.can_arm && r.blocking_reasons@.contains(LiveBlockingReason::PaperPositionOpen),
        active_credential is None ==> !r.can_arm && r.state == LiveRuntimeState::CredentialsMissing,
        active_credential is Some && extra_blocking.contains(LiveBlockingReason::SecureStoreUnavailable) ==> !r.can_arm
            && r.state == LiveRuntimeState::SecureStoreUnavailable,
{
    let raw = readiness_raw_blocks(
        live_state,
        active_credential,
        rules_fetched_at,
        account,
        rec,
        paper_position_open,
        extra_blocking,
        kill_switch,
        options,
        now,
    );
    lemma_canonical_of_empty(r.blocking_reasons@, raw);
    if kill_switch.engaged {
        assert(raw[raw.len() - 1] == LiveBlockingReason::KillSwitchEngaged);
        assert(raw.contains(LiveBlockingReason::KillSwitchEngaged));
    }
    if paper_position_open {
        let pre = crate::readiness::credential_blocks(active_credential, rules_fetched_at, account, options, now)
            + crate::readiness::shadow_gate_blocks(live_state.environment, rec, options, now)
            + rec.blocking_reasons@;
        assert(raw[pre.len() as int] == LiveBlockingReason::PaperPositionOpen);
        assert(raw.contains(LiveBlockingReason::PaperPositionOpen));
    }
    if active_credential is None {
        assert(raw[0] == LiveBlockingReason::NoActiveCredential);
    }
    if extra_blocking.contains(LiveBlockingReason::SecureStoreUnavailable) {
        let j = choose|j: int| 0 <= j < extra_blocking.len() && extra_blocking[j] == LiveBlockingReason::SecureStoreUnavailable;
        let pre = crate::readiness::credential_blocks(active_credential, rules_fetched_at, account, options, now)
            + crate::readiness::shadow_gate_blocks(live_state.environment, rec, options, now)
            + rec.blocking_reasons@ + only_if(paper_position_open, LiveBlockingReason::PaperPositionOpen);
        assert(raw[pre.len() + j] == LiveBlockingReason::SecureStoreUnavailable);
        assert(raw.contains(LiveBlockingReason::SecureStoreUnavailable));
    }
}

/// In the live status, an order may be submitted only when live mode may
/// be armed; the status shows live mode armed only when readiness allows
/// it; and the manual mainnet canary is ready only on mainnet, with the
/// server's canary flag, a configured risk profile and execution gates that
/// allow submitting.
pub proof fn lemma_live_status_is_consistent(
    s: LiveStatusCore,
    live_state: LiveStateRecord,
    active_credential: Option<LiveCredentialSummary>,
    rules_fetched_at: Option<i64>,
    account: Option<AccountSnapshotSummary>,
    rec: LiveReconciliationStatus,
    preview: Option<LiveOrderPreview>,
    execution: LiveExecutionSnapshot,
    kill_switch: LiveKillSwitchState,
    risk: LiveRiskProfile,
    auto_executor: LiveAutoExecutorStatus,
    paper_position_open: bool,
    extra_blocking: Seq<LiveBlockingReason>,
    now: i64,
    options: ServiceOptions,
)
    requires
        live_status_holds(
            s,
            live_state,
            active_credential,
            rules_fetched_at,
            account,
            rec,
            preview,
            execution,
            kill_switch,
            risk,
            auto_executor,
            paper_position_open,
            extra_blocking,
            now,
            options,
        ),
    ensures
        s.execution.can_submit ==> s.readiness.can_arm && s.readiness.blocking_reasons@.len() == 0,
        s.armed ==> s.readiness.can_arm && live_state.armed,
        s.execution.can_submit ==> s.armed,
        s.mainnet_canary.canary_ready ==> live_state.environment == LiveEnvironment::Mainnet
            && options.enable_mainnet_canary_execution && risk.configured && s.execution.can_submit,
        kill_switch.engaged ==> !s.execution.can_submit && !s.armed && !s.mainnet_canary.canary_ready,
{
    lemma_readiness_fails_closed(
        s.readiness,
        live_state,
        active_credential,
        rules_fetched_at,
        account,
        rec,
        preview,
        paper_position_open,
        extra_blocking,
        kill_switch,
        now,
        options,
    );
    if s.execution.can_submit {
        lemma_submission_requires_every_gate(
            (s.execution, s.execution_availability),
            live_state,
            s.readiness.can_arm,
            s.readiness.blocking_reasons@,
            s.readiness.warnings@,
            s.readiness.reconciliation,
            preview,
            execution,
            kill_switch,
            risk,
            auto_executor,
            now,
            options,
        );
    }
}

/// A mainnet order passes every check of a manual submission only as a
/// non-marketable limit order against a fresh reference price, with the
/// server's canary flag on, a configured risk profile, the exact
/// confirmation phrase, and execution gates that allow submitting; a
/// testnet order only with the testnet confirmation.
pub proof fn lemma_submission_checks_hold(
    environment: LiveEnvironment,
    preview: LiveOrderPreview,
    intent: LiveOrderIntent,
    request: LiveExecutionRequest,
    reference_blocking: Option<LiveBlockingReason>,
    reference_price: (i128, u32),
    canary_enabled: bool,
    risk_configured: bool,
    execution: LiveExecutionSnapshot,
)
    requires
        preview.intent == Some(intent),
        execution_request_refusal_spec(environment, Some(preview), request, canary_enabled) is None,
        environment == LiveEnvironment::Mainnet ==> mainnet_canary_refusal_spec(
            intent,
            request,
            reference_blocking,
            reference_price,
            canary_enabled,
            risk_configured,
        ) is None,
        submission_refusal_spec(environment, execution) is None,
    ensures
        execution.can_submit,
        request.intent_id is Some ==> request.intent_id->0@ == intent.id@,
        environment == LiveEnvironment::Testnet ==> request.confirm_testnet,
        environment == LiveEnvironment::Mainnet ==> {
            &&& intent.order_type == LiveOrderType::Limit
            &&& reference_blocking is None
            &&& !marketable(intent.side, intent_limit_price(intent), reference_price)
            &&& canary_enabled
            &&& risk_configured
            &&& request.confirm_mainnet_canary
            &&& request.confirmation_text is Some
            &&& request.confirmation_text->0@ == confirmation_phrase(intent)
        },
{
}

} // verus!
