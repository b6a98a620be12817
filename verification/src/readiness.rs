//! Live readiness: the checks, blocking reasons and warnings that decide
//! whether live mode may be armed, and the live status that rests on them.
//!
//! Of the exchange account snapshot and the symbol rules, readiness reads
//! only when they were fetched and whether the account holds an open
//! position.

use vstd::prelude::*;

use crate::auto_session::MainnetAutoSession;
use crate::canary::{build_mainnet_canary_status, canary_blocks, required_confirmation_for};
use crate::execution::{build_execution_status, clone_opt_string, execution_status_holds, is_stream_event_stale, sat_sub, saturating_sub_i64, stream_environment_mismatch, stream_event_stale, only_if};
use crate::live::{
    canonical_reasons, canonical_reasons_of, contains_reason, dedup_adjacent, dedup_warnings,
    LiveBlockingReason, LiveCredentialId, LiveCredentialSummary, LiveCredentialValidationStatus, LiveEnvironment,
    LiveExecutionAvailability, LiveGateCheck, LiveModePreference, LiveReconciliationStatus, LiveRuntimeState,
    LiveShadowStreamState, LiveWarning,
};
use crate::options::ServiceOptions;
use crate::orders::{
    LiveAutoExecutorStatus, LiveExecutionSnapshot, LiveExecutionState, LiveKillSwitchState,
    LiveMainnetCanaryStatus, LiveOrderPreflightResult, LiveOrderPreview, LiveRiskProfile, LiveStateRecord,
};

verus! {

/// Whether a credential's last validation is missing or older than the
/// time-to-live.
pub open spec fn validation_stale(credential: LiveCredentialSummary, ttl_ms: i64, now_ms: i64) -> bool {
    match credential.last_validated_at {
        Some(t) => sat_sub(now_ms, t) > ttl_ms,
        None => true,
    }
}

/// Whether a credential's last validation is missing or older than the
/// time-to-live.
pub fn validation_is_stale(credential: &LiveCredentialSummary, validation_ttl_ms: i64, now_ms: i64) -> (b: bool)
    ensures
        b == validation_stale(*credential, validation_ttl_ms, now_ms),
{
    match credential.last_validated_at {
        Some(t) => saturating_sub_i64(now_ms, t) > validation_ttl_ms,
        None => true,
    }
}

/// Whether a check holds the given code, outcome and message.
pub open spec fn check_is(c: LiveGateCheck, code: Seq<char>, passed: bool, message: Seq<char>) -> bool {
    c.code@ == code && c.passed == passed && c.message@ == message
}

/// Records one readiness gate: appends the check with the message for its
/// outcome, and the blocking reason when it failed.
pub fn push_check(
    checks: &mut Vec<LiveGateCheck>,
    blocking_reasons: &mut Vec<LiveBlockingReason>,
    code: &str,
    passed: bool,
    blocking_reason: LiveBlockingReason,
    passed_message: &str,
    failed_message: &str,
)
    ensures
        final(checks)@.len() == old(checks)@.len() + 1,
        final(checks)@.subrange(0, old(checks)@.len() as int) == old(checks)@,
        check_is(
            final(checks)@.last(),
            code@,
            passed,
            if passed {
                passed_message@
            } else {
                failed_message@
            },
        ),
        final(blocking_reasons)@ == old(blocking_reasons)@ + only_if(!passed, blocking_reason),
{
    let message = if passed {
        String::from_str(passed_message)
    } else {
        String::from_str(failed_message)
    };
    checks.push(LiveGateCheck { code: String::from_str(code), passed, message });
    assert(final(checks)@.subrange(0, old(checks)@.len() as int) =~= old(checks)@);
    if !passed {
        blocking_reasons.push(blocking_reason);
    }
    assert(final(blocking_reasons)@ =~= old(blocking_reasons)@ + only_if(!passed, blocking_reason));
}

/// When the exchange account snapshot was fetched and whether it shows an
/// open position (a position amount away from zero).
#[derive(Debug, Clone, Copy, PartialEq, Eq, Structural)]
pub struct AccountSnapshotSummary {
    pub fetched_at: i64,
    pub has_open_position: bool,
}

/// The readiness gates and what they decided.
#[derive(Debug, Clone)]
pub struct LiveReadinessCore {
    pub state: LiveRuntimeState,
    pub checks: Vec<LiveGateCheck>,
    pub blocking_reasons: Vec<LiveBlockingReason>,
    pub warnings: Vec<LiveWarning>,
    pub can_arm: bool,
    /// The reconciliation, its stream marked stale where readiness found
    /// it so.
    pub reconciliation: LiveReconciliationStatus,
}

/// Whether the credential's validation is valid and current.
pub open spec fn validation_current(c: LiveCredentialSummary, options: ServiceOptions, now: i64) -> bool {
    c.validation_status == LiveCredentialValidationStatus::Valid
        && !validation_stale(c, options.live_validation_ttl_ms, now)
}

/// Whether the stream is running but its last event is stale.
pub open spec fn running_stream_stale(rec: LiveReconciliationStatus, now: i64, options: ServiceOptions) -> bool {
    rec.stream.state == LiveShadowStreamState::Running
        && stream_event_stale(rec, now, options.live_shadow_stale_ms)
}

/// The credential, rules and account gates in order: `(code, passed,
/// message)`.
pub open spec fn credential_checks(
    active: Option<LiveCredentialSummary>,
    rules_fetched_at: Option<i64>,
    account: Option<AccountSnapshotSummary>,
    options: ServiceOptions,
    now: i64,
) -> Seq<(Seq<char>, bool, Seq<char>)> {
    seq![(
        "active_credential"@,
        active is Some,
        if active is Some { "Active live credential selected."@ } else { "No active live credential is selected."@ },
    )] + (match active {
        Some(c) => seq![(
            "credential_validation"@,
            validation_current(c, options, now),
            if validation_current(c, options, now) {
                "Credential validation is current."@
            } else {
                "Credential validation is missing, stale, or failed."@
            },
        )],
        None => Seq::empty(),
    }) + seq![
        (
            "symbol_rules"@,
            rules_fetched_at is Some,
            if rules_fetched_at is Some {
                "Active symbol rules are available."@
            } else {
                "Active symbol rules are not available."@
            },
        ),
        (
            "account_snapshot"@,
            account is Some,
            if account is Some { "Account snapshot is available."@ } else { "Account snapshot is not available."@ },
        ),
    ]
}

/// The readiness gates in order: `(code, passed, message)`.
pub open spec fn readiness_checks(
    active: Option<LiveCredentialSummary>,
    rules_fetched_at: Option<i64>,
    account: Option<AccountSnapshotSummary>,
    paper_position_open: bool,
    options: ServiceOptions,
    now: i64,
) -> Seq<(Seq<char>, bool, Seq<char>)> {
    credential_checks(active, rules_fetched_at, account, options, now).push(
        (
            "paper_position_flat"@,
            !paper_position_open,
            if !paper_position_open {
                "No open paper position conflicts with live arming."@
            } else {
                "An open paper position blocks live arming."@
            },
        ),
    )
}

/// The reasons that the credential, rules and account gates block on.
pub open spec fn credential_blocks(
    active: Option<LiveCredentialSummary>,
    rules_fetched_at: Option<i64>,
    account: Option<AccountSnapshotSummary>,
    options: ServiceOptions,
    now: i64,
) -> Seq<LiveBlockingReason> {
    only_if(active is None, LiveBlockingReason::NoActiveCredential)
        + (match active {
            Some(c) => only_if(
                !validation_current(c, options, now),
                if c.validation_status == LiveCredentialValidationStatus::Unknown {
                    LiveBlockingReason::ValidationMissing
                } else {
                    LiveBlockingReason::ValidationFailed
                },
            ),
            None => Seq::empty(),
        })
        + only_if(rules_fetched_at is None, LiveBlockingReason::SymbolRulesMissing)
        + only_if(account is None, LiveBlockingReason::AccountSnapshotMissing)
}

/// The reasons that the shadow stream blocks readiness on.
pub open spec fn shadow_gate_blocks(
    env: LiveEnvironment,
    rec: LiveReconciliationStatus,
    options: ServiceOptions,
    now: i64,
) -> Seq<LiveBlockingReason> {
    only_if(rec.stream.state == LiveShadowStreamState::Degraded, LiveBlockingReason::ShadowStateAmbiguous)
        + only_if(stream_environment_mismatch(rec, env), LiveBlockingReason::ShadowStateAmbiguous)
        + only_if(rec.shadow is Some && rec.shadow->0.environment != env, LiveBlockingReason::ShadowStateAmbiguous)
        + only_if(running_stream_stale(rec, now, options), LiveBlockingReason::ShadowStreamDown)
}

/// Every reason that blocks readiness, with repeats, before sorting.
pub open spec fn readiness_raw_blocks(
    live_state: LiveStateRecord,
    active: Option<LiveCredentialSummary>,
    rules_fetched_at: Option<i64>,
    account: Option<AccountSnapshotSummary>,
    rec: LiveReconciliationStatus,
    paper_position_open: bool,
    extra: Seq<LiveBlockingReason>,
    kill_switch: LiveKillSwitchState,
    options: ServiceOptions,
    now: i64,
) -> Seq<LiveBlockingReason> {
    credential_blocks(active, rules_fetched_at, account, options, now)
        + shadow_gate_blocks(live_state.environment, rec, options, now)
        + rec.blocking_reasons@
        + only_if(paper_position_open, LiveBlockingReason::PaperPositionOpen)
        + extra
        + only_if(kill_switch.engaged, LiveBlockingReason::KillSwitchEngaged)
}

/// Every readiness warning in order, before adjacent repeats are dropped.
pub open spec fn readiness_raw_warnings(
    live_state: LiveStateRecord,
    active: Option<LiveCredentialSummary>,
    rules_fetched_at: Option<i64>,
    account: Option<AccountSnapshotSummary>,
    rec: LiveReconciliationStatus,
    options: ServiceOptions,
    now: i64,
) -> Seq<LiveWarning> {
    only_if(live_state.environment == LiveEnvironment::Testnet, LiveWarning::TestnetEnvironment)
        + (match active {
            Some(c) => only_if(
                c.validation_status == LiveCredentialValidationStatus::Valid && !validation_current(c, options, now),
                LiveWarning::ValidationStale,
            ),
            None => Seq::empty(),
        })
        + only_if(
            rules_fetched_at is Some && sat_sub(now, rules_fetched_at->0) > options.live_snapshot_stale_ms,
            LiveWarning::RulesSnapshotStale,
        )
        + only_if(
            account is Some && sat_sub(now, account->0.fetched_at) > options.live_snapshot_stale_ms,
            LiveWarning::AccountSnapshotStale,
        )
        + only_if(account is Some && account->0.has_open_position, LiveWarning::OpenExchangePositionDetected)
        + only_if(stream_environment_mismatch(rec, live_state.environment), LiveWarning::ShadowStreamStale)
        + only_if(running_stream_stale(rec, now, options), LiveWarning::ShadowStreamStale)
}

/// The readiness state before the execution gates: the first failing
/// precondition, else armed or ready (refined by the shadow's state), else
/// not ready; a preview then moves a ready state to preflight-ready or
/// preflight-blocked.
pub open spec fn readiness_state(
    live_state: LiveStateRecord,
    has_credential: bool,
    blocks: Seq<LiveBlockingReason>,
    rec_state: LiveRuntimeState,
    preview: Option<LiveOrderPreview>,
) -> LiveRuntimeState {
    let ready = blocks.len() == 0;
    let base = if !has_credential {
        LiveRuntimeState::CredentialsMissing
    } else if blocks.contains(LiveBlockingReason::SecureStoreUnavailable) {
        LiveRuntimeState::SecureStoreUnavailable
    } else if blocks.contains(LiveBlockingReason::ValidationFailed) || blocks.contains(
        LiveBlockingReason::ValidationMissing,
    ) {
        LiveRuntimeState::ValidationFailed
    } else if blocks.contains(LiveBlockingReason::SymbolRulesMissing) {
        LiveRuntimeState::RulesUnavailable
    } else if blocks.contains(LiveBlockingReason::AccountSnapshotMissing) {
        LiveRuntimeState::AccountSnapshotUnavailable
    } else if ready && live_state.armed {
        LiveRuntimeState::ArmedReadOnly
    } else if ready {
        LiveRuntimeState::ReadyReadOnly
    } else {
        LiveRuntimeState::NotReady
    };
    let refined = if (base == LiveRuntimeState::ReadyReadOnly || base == LiveRuntimeState::ArmedReadOnly) && (
    rec_state == LiveRuntimeState::ShadowRunning || rec_state == LiveRuntimeState::PreflightReady || rec_state
        == LiveRuntimeState::ShadowDegraded || rec_state == LiveRuntimeState::PreflightBlocked) {
        rec_state
    } else {
        base
    };
    match preview {
        Some(p) => {
            let blocked = p.intent is None || p.blocking_reasons@.len() > 0;
            if blocked && (refined == LiveRuntimeState::ReadyReadOnly || refined == LiveRuntimeState::ArmedReadOnly
                || refined == LiveRuntimeState::ShadowRunning || refined == LiveRuntimeState::PreflightReady) {
                LiveRuntimeState::PreflightBlocked
            } else if !blocked && (refined == LiveRuntimeState::ReadyReadOnly || refined
                == LiveRuntimeState::ArmedReadOnly || refined == LiveRuntimeState::ShadowRunning) {
                LiveRuntimeState::PreflightReady
            } else {
                refined
            }
        },
        None => refined,
    }
}

fn append_blocks(v: &mut Vec<LiveBlockingReason>, extra: &Vec<LiveBlockingReason>)
    ensures
        final(v)@ == old(v)@ + extra@,
{
    let mut i: usize = 0;
    while i < extra.len()
        invariant
            i <= extra.len(),
            v@ == old(v)@ + extra@.subrange(0, i as int),
        decreases extra.len() - i,
    {
        v.push(extra[i]);
        assert(v@ =~= old(v)@ + extra@.subrange(0, i + 1));
        i = i + 1;
    }
    assert(extra@.subrange(0, extra@.len() as int) =~= extra@);
}

fn push_warn(v: &mut Vec<LiveWarning>, c: bool, w: LiveWarning)
    ensures
        final(v)@ == old(v)@ + only_if(c, w),
{
    if c {
        v.push(w);
    }
    assert(final(v)@ =~= old(v)@ + only_if(c, w));
}

fn push_block(v: &mut Vec<LiveBlockingReason>, c: bool, r: LiveBlockingReason)
    ensures
        final(v)@ == old(v)@ + only_if(c, r),
{
    if c {
        v.push(r);
    }
    assert(final(v)@ =~= old(v)@ + only_if(c, r));
}

fn readiness_state_of(
    live_state: &LiveStateRecord,
    has_credential: bool,
    blocks: &Vec<LiveBlockingReason>,
    rec_state: LiveRuntimeState,
    preview: &Option<LiveOrderPreview>,
    Ghost(raw): Ghost<Seq<LiveBlockingReason>>,
) -> (s: LiveRuntimeState)
    requires
        canonical_reasons_of(blocks@, raw),
    ensures
        s == readiness_state(*live_state, has_credential, raw, rec_state, *preview),
{
    let ready = blocks.len() == 0;
    proof {
        if raw.len() > 0 {
            assert(raw.contains(raw[0]));
            assert(blocks@.contains(raw[0]));
        }
        if blocks@.len() > 0 {
            assert(blocks@.contains(blocks@[0]));
        }
    }
    let base = if !has_credential {
        LiveRuntimeState::CredentialsMissing
    } else if contains_reason(blocks, LiveBlockingReason::SecureStoreUnavailable) {
        LiveRuntimeState::SecureStoreUnavailable
    } else if contains_reason(blocks, LiveBlockingReason::ValidationFailed) || contains_reason(
        blocks,
        LiveBlockingReason::ValidationMissing,
    ) {
        LiveRuntimeState::ValidationFailed
    } else if contains_reason(blocks, LiveBlockingReason::SymbolRulesMissing) {
        LiveRuntimeState::RulesUnavailable
    } else if contains_reason(blocks, LiveBlockingReason::AccountSnapshotMissing) {
        LiveRuntimeState::AccountSnapshotUnavailable
    } else if ready && live_state.armed {
        LiveRuntimeState::ArmedReadOnly
    } else if ready {
        LiveRuntimeState::ReadyReadOnly
    } else {
        LiveRuntimeState::NotReady
    };
    let refined = if (base == LiveRuntimeState::ReadyReadOnly || base == LiveRuntimeState::ArmedReadOnly) && (
    rec_state == LiveRuntimeState::ShadowRunning || rec_state == LiveRuntimeState::PreflightReady || rec_state
        == LiveRuntimeState::ShadowDegraded || rec_state == LiveRuntimeState::PreflightBlocked) {
        rec_state
    } else {
        base
    };
    match preview {
        Some(p) => {
            let blocked = p.intent.is_none() || p.blocking_reasons.len() > 0;
            if blocked && (refined == LiveRuntimeState::ReadyReadOnly || refined == LiveRuntimeState::ArmedReadOnly
                || refined == LiveRuntimeState::ShadowRunning || refined == LiveRuntimeState::PreflightReady) {
                LiveRuntimeState::PreflightBlocked
            } else if !blocked && (refined == LiveRuntimeState::ReadyReadOnly || refined
                == LiveRuntimeState::ArmedReadOnly || refined == LiveRuntimeState::ShadowRunning) {
                LiveRuntimeState::PreflightReady
            } else {
                refined
            }
        },
        None => refined,
    }
}

/// Whether every check holds the code, outcome and message of its gate.
pub open spec fn checks_match(checks: Seq<LiveGateCheck>, spec: Seq<(Seq<char>, bool, Seq<char>)>) -> bool {
    &&& checks.len() == spec.len()
    &&& forall|i: int| 0 <= i < spec.len() ==> check_is(#[trigger] checks[i], spec[i].0, spec[i].1, spec[i].2)
}

/// Runs the credential, rules and account gates: their checks, and the
/// reasons they block on.
fn credential_gates(
    active_credential: &Option<LiveCredentialSummary>,
    rules_fetched_at: Option<i64>,
    account: Option<AccountSnapshotSummary>,
    now_ms: i64,
    options: &ServiceOptions,
) -> (r: (Vec<LiveGateCheck>, Vec<LiveBlockingReason>))
    ensures
        checks_match(r.0@, credential_checks(*active_credential, rules_fetched_at, account, *options, now_ms)),
        r.1@ == credential_blocks(*active_credential, rules_fetched_at, account, *options, now_ms),
{
    let mut checks: Vec<LiveGateCheck> = Vec::new();
    let mut raw: Vec<LiveBlockingReason> = Vec::new();
    let ghost spec_checks = credential_checks(*active_credential, rules_fetched_at, account, *options, now_ms);
    push_check(
        &mut checks,
        &mut raw,
        "active_credential",
        active_credential.is_some(),
        LiveBlockingReason::NoActiveCredential,
        "Active live credential selected.",
        "No active live credential is selected.",
    );
    let ghost c1 = checks@;
    match active_credential {
        Some(credential) => {
            let is_valid = credential.validation_status.is_valid();
            let stale = validation_is_stale(credential, options.live_validation_ttl_ms, now_ms);
            push_check(
                &mut checks,
                &mut raw,
                "credential_validation",
                is_valid && !stale,
                if credential.validation_status == LiveCredentialValidationStatus::Unknown {
                    LiveBlockingReason::ValidationMissing
                } else {
                    LiveBlockingReason::ValidationFailed
                },
                "Credential validation is current.",
                "Credential validation is missing, stale, or failed.",
            );
        },
        None => {},
    }
    let ghost c2 = checks@;
    push_check(
        &mut checks,
        &mut raw,
        "symbol_rules",
        rules_fetched_at.is_some(),
        LiveBlockingReason::SymbolRulesMissing,
        "Active symbol rules are available.",
        "Active symbol rules are not available.",
    );
    let ghost c3 = checks@;
    push_check(
        &mut checks,
        &mut raw,
        "account_snapshot",
        account.is_some(),
        LiveBlockingReason::AccountSnapshotMissing,
        "Account snapshot is available.",
        "Account snapshot is not available.",
    );
    let ghost c4 = checks@;
    assert(raw@ =~= credential_blocks(*active_credential, rules_fetched_at, account, *options, now_ms));
    proof {
        assert forall|i: int| 0 <= i < spec_checks.len() implies check_is(
            #[trigger] checks@[i],
            spec_checks[i].0,
            spec_checks[i].1,
            spec_checks[i].2,
        ) by {
            if active_credential is Some {
                if i == 0 {
                    assert(checks@[0] == c1[0]);
                } else if i == 1 {
                    assert(checks@[1] == c2[1]);
                } else if i == 2 {
                    assert(checks@[2] == c3[2]);
                }
            } else {
                if i == 0 {
                    assert(checks@[0] == c1[0]);
                } else if i == 1 {
                    assert(checks@[1] == c3[1]);
                }
            }
        }
    }
    (checks, raw)
}

/// Whether the stream reports for another environment than the live one.
fn stream_env_mismatch(rec: &LiveReconciliationStatus, env: LiveEnvironment) -> (b: bool)
    ensures
        b == stream_environment_mismatch(*rec, env),
{
    (rec.shadow.is_some() || rec.stream.state != LiveShadowStreamState::Stopped) && rec.stream.environment != env
}

/// Whether the stream is running but its last event is stale.
fn running_stream_is_stale(rec: &LiveReconciliationStatus, now_ms: i64, options: &ServiceOptions) -> (b: bool)
    ensures
        b == running_stream_stale(*rec, now_ms, *options),
{
    rec.stream.state == LiveShadowStreamState::Running && is_stream_event_stale(
        rec,
        now_ms,
        options.live_shadow_stale_ms,
    )
}

/// Appends the reasons the shadow stream blocks readiness on.
fn push_shadow_gate_blocks(
    raw: &mut Vec<LiveBlockingReason>,
    env: LiveEnvironment,
    rec: &LiveReconciliationStatus,
    now_ms: i64,
    options: &ServiceOptions,
)
    ensures
        final(raw)@ == old(raw)@ + shadow_gate_blocks(env, *rec, *options, now_ms),
{
    push_block(raw, rec.stream.state == LiveShadowStreamState::Degraded, LiveBlockingReason::ShadowStateAmbiguous);
    push_block(raw, stream_env_mismatch(rec, env), LiveBlockingReason::ShadowStateAmbiguous);
    let shadow_env_mismatch = match &rec.shadow {
        Some(shadow) => shadow.environment != env,
        None => false,
    };
    push_block(raw, shadow_env_mismatch, LiveBlockingReason::ShadowStateAmbiguous);
    push_block(raw, running_stream_is_stale(rec, now_ms, options), LiveBlockingReason::ShadowStreamDown);
    assert(final(raw)@ =~= old(raw)@ + shadow_gate_blocks(env, *rec, *options, now_ms));
}

/// The readiness warnings in order, before adjacent repeats are dropped.
fn readiness_warning_list(
    live_state: &LiveStateRecord,
    active_credential: &Option<LiveCredentialSummary>,
    rules_fetched_at: Option<i64>,
    account: Option<AccountSnapshotSummary>,
    rec: &LiveReconciliationStatus,
    now_ms: i64,
    options: &ServiceOptions,
) -> (w: Vec<LiveWarning>)
    ensures
        w@ == readiness_raw_warnings(*live_state, *active_credential, rules_fetched_at, account, *rec, *options, now_ms),
{
    let mut warnings: Vec<LiveWarning> = Vec::new();
    push_warn(&mut warnings, live_state.environment == LiveEnvironment::Testnet, LiveWarning::TestnetEnvironment);
    match active_credential {
        Some(credential) => {
            let is_valid = credential.validation_status.is_valid();
            let stale = validation_is_stale(credential, options.live_validation_ttl_ms, now_ms);
            push_warn(&mut warnings, is_valid && stale, LiveWarning::ValidationStale);
        },
        None => {},
    }
    let rules_stale = match rules_fetched_at {
        Some(t) => saturating_sub_i64(now_ms, t) > options.live_snapshot_stale_ms,
        None => false,
    };
    push_warn(&mut warnings, rules_stale, LiveWarning::RulesSnapshotStale);
    let (account_stale, open_position) = match account {
        Some(a) => (saturating_sub_i64(now_ms, a.fetched_at) > options.live_snapshot_stale_ms, a.has_open_position),
        None => (false, false),
    };
    push_warn(&mut warnings, account_stale, LiveWarning::AccountSnapshotStale);
    push_warn(&mut warnings, open_position, LiveWarning::OpenExchangePositionDetected);
    push_warn(&mut warnings, stream_env_mismatch(rec, live_state.environment), LiveWarning::ShadowStreamStale);
    push_warn(&mut warnings, running_stream_is_stale(rec, now_ms, options), LiveWarning::ShadowStreamStale);
    assert(warnings@ =~= readiness_raw_warnings(
        *live_state,
        *active_credential,
        rules_fetched_at,
        account,
        *rec,
        *options,
        now_ms,
    ));
    warnings
}

/// What the readiness evaluation holds: every gate's check, the sorted,
/// unique reasons of the failed ones, whether live mode may be armed, the
/// warnings with adjacent repeats dropped, the readiness state, and the
/// reconciliation with its stream marked stale where readiness found it so.
pub open spec fn readiness_holds(
    r: LiveReadinessCore,
    live_state: LiveStateRecord,
    active_credential: Option<LiveCredentialSummary>,
    rules_fetched_at: Option<i64>,
    account: Option<AccountSnapshotSummary>,
    reconciliation: LiveReconciliationStatus,
    intent_preview: Option<LiveOrderPreview>,
    paper_position_open: bool,
    extra_blocking: Seq<LiveBlockingReason>,
    kill_switch: LiveKillSwitchState,
    now_ms: i64,
    options: ServiceOptions,
) -> bool {
    let raw = readiness_raw_blocks(
        live_state,
        active_credential,
        rules_fetched_at,
        account,
        reconciliation,
        paper_position_open,
        extra_blocking,
        kill_switch,
        options,
        now_ms,
    );
    let checks = readiness_checks(active_credential, rules_fetched_at, account, paper_position_open, options, now_ms);
    &&& canonical_reasons_of(r.blocking_reasons@, raw)
    &&& r.can_arm == (raw.len() == 0)
    &&& r.warnings@ == dedup_adjacent(
        readiness_raw_warnings(live_state, active_credential, rules_fetched_at, account, reconciliation, options, now_ms),
    )
    &&& checks_match(r.checks@, checks)
    &&& r.state == readiness_state(live_state, active_credential is Some, raw, reconciliation.state, intent_preview)
    &&& r.reconciliation == (LiveReconciliationStatus {
        stream: crate::live::LiveShadowStreamStatus {
            stale: reconciliation.stream.stale
                || stream_environment_mismatch(reconciliation, live_state.environment)
                || running_stream_stale(reconciliation, now_ms, options),
            ..reconciliation.stream
        },
        ..reconciliation
    })
}

/// Evaluates the readiness gates.
pub fn evaluate_live_readiness(
    live_state: &LiveStateRecord,
    active_credential: &Option<LiveCredentialSummary>,
    rules_fetched_at: Option<i64>,
    account: Option<AccountSnapshotSummary>,
    reconciliation: LiveReconciliationStatus,
    intent_preview: &Option<LiveOrderPreview>,
    paper_position_open: bool,
    extra_blocking: &Vec<LiveBlockingReason>,
    kill_switch: &LiveKillSwitchState,
    now_ms: i64,
    options: &ServiceOptions,
) -> (r: LiveReadinessCore)
    ensures
        readiness_holds(
            r,
            *live_state,
            *active_credential,
            rules_fetched_at,
            account,
            reconciliation,
            *intent_preview,
            paper_position_open,
            extra_blocking@,
            *kill_switch,
            now_ms,
            *options,
        ),
{
    let env = live_state.environment;
    let (mut checks, mut raw) = credential_gates(active_credential, rules_fetched_at, account, now_ms, options);
    let ghost c0 = checks@;
    push_shadow_gate_blocks(&mut raw, env, &reconciliation, now_ms, options);
    append_blocks(&mut raw, &reconciliation.blocking_reasons);
    push_check(
        &mut checks,
        &mut raw,
        "paper_position_flat",
        !paper_position_open,
        LiveBlockingReason::PaperPositionOpen,
        "No open paper position conflicts with live arming.",
        "An open paper position blocks live arming.",
    );
    append_blocks(&mut raw, extra_blocking);
    push_block(&mut raw, kill_switch.engaged, LiveBlockingReason::KillSwitchEngaged);
    let warnings = readiness_warning_list(
        live_state,
        active_credential,
        rules_fetched_at,
        account,
        &reconciliation,
        now_ms,
        options,
    );
    let mismatch = stream_env_mismatch(&reconciliation, env);
    let running_stale = running_stream_is_stale(&reconciliation, now_ms, options);
    let ghost spec_checks = readiness_checks(*active_credential, rules_fetched_at, account, paper_position_open, *options, now_ms);
    assert(raw@ =~= readiness_raw_blocks(
        *live_state,
        *active_credential,
        rules_fetched_at,
        account,
        reconciliation,
        paper_position_open,
        extra_blocking@,
        *kill_switch,
        *options,
        now_ms,
    ));
    proof {
        assert forall|i: int| 0 <= i < spec_checks.len() implies check_is(
            #[trigger] checks@[i],
            spec_checks[i].0,
            spec_checks[i].1,
            spec_checks[i].2,
        ) by {
            if i < c0.len() {
                assert(checks@[i] == checks@.subrange(0, c0.len() as int)[i]);
            }
        }
    }

    let blocking = canonical_reasons(&raw);
    let warnings = dedup_warnings(&warnings);
    let ready = blocking.len() == 0;
    proof {
        if raw@.len() > 0 {
            assert(raw@.contains(raw@[0]));
            assert(blocking@.contains(raw@[0]));
        }
        if blocking@.len() > 0 {
            assert(blocking@.contains(blocking@[0]));
        }
    }
    let state = readiness_state_of(
        live_state,
        active_credential.is_some(),
        &blocking,
        reconciliation.state,
        intent_preview,
        Ghost(raw@),
    );
    let mut reconciliation = reconciliation;
    if mismatch || running_stale {
        reconciliation.stream.stale = true;
    }
    LiveReadinessCore { state, checks, blocking_reasons: blocking, warnings, can_arm: ready, reconciliation }
}

/// The runtime state once the execution gates have spoken: an execution
/// state that names a runtime state of its own replaces the readiness
/// state.
pub open spec fn runtime_state_after_execution(state: LiveRuntimeState, exec: LiveExecutionState) -> LiveRuntimeState {
    match exec {
        LiveExecutionState::TestnetExecutionReady => LiveRuntimeState::TestnetExecutionReady,
        LiveExecutionState::MainnetExecutionBlocked => LiveRuntimeState::MainnetExecutionBlocked,
        LiveExecutionState::MainnetCanaryReady => LiveRuntimeState::MainnetCanaryReady,
        LiveExecutionState::MainnetManualExecutionEnabled => LiveRuntimeState::MainnetManualExecutionEnabled,
        LiveExecutionState::TestnetAutoRunning => LiveRuntimeState::TestnetAutoRunning,
        LiveExecutionState::KillSwitchEngaged => LiveRuntimeState::KillSwitchEngaged,
        LiveExecutionState::ExecutionDegraded => LiveRuntimeState::ExecutionDegraded,
        _ => state,
    }
}

fn runtime_state_after(state: LiveRuntimeState, exec: LiveExecutionState) -> (s: LiveRuntimeState)
    ensures
        s == runtime_state_after_execution(state, exec),
{
    match exec {
        LiveExecutionState::TestnetExecutionReady => LiveRuntimeState::TestnetExecutionReady,
        LiveExecutionState::MainnetExecutionBlocked => LiveRuntimeState::MainnetExecutionBlocked,
        LiveExecutionState::MainnetCanaryReady => LiveRuntimeState::MainnetCanaryReady,
        LiveExecutionState::MainnetManualExecutionEnabled => LiveRuntimeState::MainnetManualExecutionEnabled,
        LiveExecutionState::TestnetAutoRunning => LiveRuntimeState::TestnetAutoRunning,
        LiveExecutionState::KillSwitchEngaged => LiveRuntimeState::KillSwitchEngaged,
        LiveExecutionState::ExecutionDegraded => LiveRuntimeState::ExecutionDegraded,
        _ => state,
    }
}

/// The decisions of the live status: the runtime state, whether live mode
/// is armed, the readiness gates, the execution gates and the mainnet
/// canary.
#[derive(Debug, Clone)]
pub struct LiveStatusCore {
    pub state: LiveRuntimeState,
    pub armed: bool,
    pub readiness: LiveReadinessCore,
    pub execution: LiveExecutionSnapshot,
    pub execution_availability: LiveExecutionAvailability,
    pub mainnet_canary: LiveMainnetCanaryStatus,
}

/// What the live status holds: the readiness of the inputs, the execution
/// gates on what readiness decided, the runtime state they give, the armed
/// flag, and the mainnet canary.
pub open spec fn live_status_holds(
    s: LiveStatusCore,
    live_state: LiveStateRecord,
    active_credential: Option<LiveCredentialSummary>,
    rules_fetched_at: Option<i64>,
    account: Option<AccountSnapshotSummary>,
    reconciliation: LiveReconciliationStatus,
    intent_preview: Option<LiveOrderPreview>,
    execution: LiveExecutionSnapshot,
    kill_switch: LiveKillSwitchState,
    risk_profile: LiveRiskProfile,
    auto_executor: LiveAutoExecutorStatus,
    paper_position_open: bool,
    extra_blocking: Seq<LiveBlockingReason>,
    now_ms: i64,
    options: ServiceOptions,
) -> bool {
    &&& readiness_holds(
        s.readiness,
        live_state,
        active_credential,
        rules_fetched_at,
        account,
        reconciliation,
        intent_preview,
        paper_position_open,
        extra_blocking,
        kill_switch,
        now_ms,
        options
    )
    &&& execution_status_holds(
        (s.execution, s.execution_availability),
        live_state,
        s.readiness.can_arm,
        s.readiness.blocking_reasons@,
        s.readiness.warnings@,
        s.readiness.reconciliation,
        intent_preview,
        execution,
        kill_switch,
        risk_profile,
        auto_executor,
        now_ms,
        options
    )
    &&& s.state == runtime_state_after_execution(s.readiness.state, s.execution.state)
    &&& s.armed == (live_state.armed && s.readiness.can_arm)
    &&& s.mainnet_canary.enabled_by_server == options.enable_mainnet_canary_execution
    &&& s.mainnet_canary.risk_profile_configured == risk_profile.configured
    &&& s.mainnet_canary.canary_ready == (live_state.environment == LiveEnvironment::Mainnet
        && options.enable_mainnet_canary_execution && risk_profile.configured && s.execution.can_submit
        && required_confirmation_for(intent_preview) is Some)
    &&& s.mainnet_canary.manual_execution_enabled == s.mainnet_canary.canary_ready
    &&& match required_confirmation_for(intent_preview) {
        Some(t) => s.mainnet_canary.required_confirmation is Some && s.mainnet_canary.required_confirmation->0@ == t,
        None => s.mainnet_canary.required_confirmation is None
    }
    &&& s.mainnet_canary.blocking_reasons@ == canary_blocks(
        live_state.environment,
        options.enable_mainnet_canary_execution,
        risk_profile.configured,
        s.execution.blocking_reasons@
    )
    &&& s.mainnet_canary.updated_at == now_ms
}

/// Builds the live status: the readiness gates, then the execution gates on
/// what readiness decided and on the reconciliation it marked, then the
/// runtime state, the armed flag and the mainnet canary.
pub fn build_live_status_core(
    live_state: &LiveStateRecord,
    active_credential: &Option<LiveCredentialSummary>,
    rules_fetched_at: Option<i64>,
    account: Option<AccountSnapshotSummary>,
    reconciliation: LiveReconciliationStatus,
    intent_preview: &Option<LiveOrderPreview>,
    execution: LiveExecutionSnapshot,
    kill_switch: &LiveKillSwitchState,
    risk_profile: &LiveRiskProfile,
    auto_executor: &LiveAutoExecutorStatus,
    paper_position_open: bool,
    extra_blocking: &Vec<LiveBlockingReason>,
    now_ms: i64,
    options: &ServiceOptions,
) -> (s: LiveStatusCore)
    ensures
        live_status_holds(
            s,
            *live_state,
            *active_credential,
            rules_fetched_at,
            account,
            reconciliation,
            *intent_preview,
            execution,
            *kill_switch,
            *risk_profile,
            *auto_executor,
            paper_position_open,
            extra_blocking@,
            now_ms,
            *options,
        ),
{
    let readiness = evaluate_live_readiness(
        live_state,
        active_credential,
        rules_fetched_at,
        account,
        reconciliation,
        intent_preview,
        paper_position_open,
        extra_blocking,
        kill_switch,
        now_ms,
        options,
    );
    let (execution, execution_availability) = build_execution_status(
        live_state,
        readiness.can_arm,
        &readiness.blocking_reasons,
        &readiness.warnings,
        &readiness.reconciliation,
        intent_preview,
        execution,
        kill_switch,
        risk_profile,
        auto_executor,
        now_ms,
        options,
    );
    let state = runtime_state_after(readiness.state, execution.state);
    let mainnet_canary = build_mainnet_canary_status(
        live_state.environment,
        options.enable_mainnet_canary_execution,
        risk_profile,
        &execution,
        intent_preview,
        now_ms,
    );
    let armed = live_state.armed && readiness.can_arm;
    LiveStatusCore { state, armed, readiness, execution, execution_availability, mainnet_canary }
}

/// The readiness as the live status shows it: the gates readiness
/// decided, for the environment and credential it judged. Live execution
/// is never reported possible from readiness alone.
#[derive(Debug, Clone, PartialEq, Eq)]
pub struct LiveReadinessSnapshot {
    pub state: LiveRuntimeState,
    pub environment: LiveEnvironment,
    pub active_credential: Option<LiveCredentialSummary>,
    pub checks: Vec<LiveGateCheck>,
    pub blocking_reasons: Vec<LiveBlockingReason>,
    pub warnings: Vec<LiveWarning>,
    pub can_arm: bool,
    pub can_execute_live: bool,
    pub refreshed_at: i64,
}

/// The live status shown to the operator. The exchange's account snapshot
/// and symbol rules, which hold floating-point figures, are kept beside it
/// by the caller.
#[derive(Debug, Clone, PartialEq, Eq)]
pub struct LiveStatusSnapshot {
    pub feature_visible: bool,
    pub mode_preference: LiveModePreference,
    pub environment: LiveEnvironment,
    pub state: LiveRuntimeState,
    pub armed: bool,
    pub active_credential: Option<LiveCredentialSummary>,
    pub readiness: LiveReadinessSnapshot,
    pub reconciliation: LiveReconciliationStatus,
    pub intent_preview: Option<LiveOrderPreview>,
    pub recent_preflights: Vec<LiveOrderPreflightResult>,
    pub execution: LiveExecutionSnapshot,
    pub execution_availability: LiveExecutionAvailability,
    pub kill_switch: LiveKillSwitchState,
    pub risk_profile: LiveRiskProfile,
    pub auto_executor: LiveAutoExecutorStatus,
    pub mainnet_canary: LiveMainnetCanaryStatus,
    pub mainnet_auto: MainnetAutoSession,
    pub updated_at: i64,
}

/// The gates of a full status, as the status core holds them.
pub open spec fn status_core_of(s: LiveStatusSnapshot) -> LiveStatusCore {
    LiveStatusCore {
        state: s.state,
        armed: s.armed,
        readiness: LiveReadinessCore {
            state: s.readiness.state,
            checks: s.readiness.checks,
            blocking_reasons: s.readiness.blocking_reasons,
            warnings: s.readiness.warnings,
            can_arm: s.readiness.can_arm,
            reconciliation: s.reconciliation,
        },
        execution: s.execution,
        execution_availability: s.execution_availability,
        mainnet_canary: s.mainnet_canary,
    }
}

/// A copy of a credential summary.
fn clone_credential_summary(c: &LiveCredentialSummary) -> (r: LiveCredentialSummary)
    ensures
        r == *c,
{
    LiveCredentialSummary {
        id: LiveCredentialId(c.id.0.clone()),
        alias: c.alias.clone(),
        environment: c.environment,
        source: c.source,
        api_key_hint: c.api_key_hint.clone(),
        validation_status: c.validation_status,
        last_validated_at: c.last_validated_at,
        last_validation_error: clone_opt_string(&c.last_validation_error),
        is_active: c.is_active,
        created_at: c.created_at,
        updated_at: c.updated_at,
    }
}

/// Builds the full live status at `now_ms`: the gates of
/// [`build_live_status_core`], for the environment and mode of the stored
/// state, with the credential, reconciliation, preview, preflights, kill
/// switch, risk profile, executor and mainnet-auto session shown as given
/// or as readiness marked them. Readiness never reports live execution
/// possible, and both the status and its readiness are stamped `now_ms`.
pub fn build_live_status(
    live_state: &LiveStateRecord,
    active_credential: Option<LiveCredentialSummary>,
    rules_fetched_at: Option<i64>,
    account: Option<AccountSnapshotSummary>,
    reconciliation: LiveReconciliationStatus,
    intent_preview: Option<LiveOrderPreview>,
    recent_preflights: Vec<LiveOrderPreflightResult>,
    execution: LiveExecutionSnapshot,
    kill_switch: LiveKillSwitchState,
    risk_profile: LiveRiskProfile,
    auto_executor: LiveAutoExecutorStatus,
    mainnet_auto: MainnetAutoSession,
    paper_position_open: bool,
    extra_blocking: &Vec<LiveBlockingReason>,
    now_ms: i64,
    options: &ServiceOptions,
) -> (s: LiveStatusSnapshot)
    ensures
        live_status_holds(
            status_core_of(s),
            *live_state,
            active_credential,
            rules_fetched_at,
            account,
            reconciliation,
            intent_preview,
            execution,
            kill_switch,
            risk_profile,
            auto_executor,
            paper_position_open,
            extra_blocking@,
            now_ms,
            *options,
        ),
        s.readiness.can_arm == (s.readiness.blocking_reasons@.len() == 0),
        s.armed == (live_state.armed && s.readiness.can_arm),
        s.execution_availability.can_execute_live == s.execution.can_submit,
        s.execution.can_submit ==> s.readiness.can_arm,
        s.feature_visible,
        s.mode_preference == live_state.mode_preference,
        s.environment == live_state.environment,
        s.readiness.environment == live_state.environment,
        s.active_credential == active_credential,
        s.readiness.active_credential == active_credential,
        !s.readiness.can_execute_live,
        s.readiness.refreshed_at == now_ms,
        s.intent_preview == intent_preview,
        s.recent_preflights == recent_preflights,
        s.kill_switch == kill_switch,
        s.risk_profile == risk_profile,
        s.auto_executor == auto_executor,
        s.mainnet_auto == mainnet_auto,
        s.updated_at == now_ms,
{
    let ghost rec0 = reconciliation;
    let core = build_live_status_core(
        live_state,
        &active_credential,
        rules_fetched_at,
        account,
        reconciliation,
        &intent_preview,
        execution,
        &kill_switch,
        &risk_profile,
        &auto_executor,
        paper_position_open,
        extra_blocking,
        now_ms,
        options,
    );
    proof {
        let raw = readiness_raw_blocks(
            *live_state,
            active_credential,
            rules_fetched_at,
            account,
            rec0,
            paper_position_open,
            extra_blocking@,
            kill_switch,
            *options,
            now_ms,
        );
        let out = core.readiness.blocking_reasons@;
        if out.len() > 0 {
            assert(out.contains(out[0]));
        }
        if raw.len() > 0 {
            assert(raw.contains(raw[0]));
        }
    }
    let readiness_credential = match &active_credential {
        Some(c) => Some(clone_credential_summary(c)),
        None => None,
    };
    let LiveStatusCore { state, armed, readiness, execution, execution_availability, mainnet_canary } = core;
    let LiveReadinessCore { state: readiness_state, checks, blocking_reasons, warnings, can_arm, reconciliation } =
        readiness;
    LiveStatusSnapshot {
        feature_visible: true,
        mode_preference: live_state.mode_preference,
        environment: live_state.environment,
        state,
        armed,
        active_credential,
        readiness: LiveReadinessSnapshot {
            state: readiness_state,
            environment: live_state.environment,
            active_credential: readiness_credential,
            checks,
            blocking_reasons,
            warnings,
            can_arm,
            can_execute_live: false,
            refreshed_at: now_ms,
        },
        reconciliation,
        intent_preview,
        recent_preflights,
        execution,
        execution_availability,
        kill_switch,
        risk_profile,
        auto_executor,
        mainnet_canary,
        mainnet_auto,
        updated_at: now_ms,
    }
}

} // verus!
