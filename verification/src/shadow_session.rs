//! The live shadow session: when it may start, and the reconciliation
//! state it shows as it starts, runs, degrades, is repaired from REST and
//! stops.

use vstd::prelude::*;

use crate::credentials::{listen_key_cuts_fit, mask_listen_key};
use crate::error::AppError;
use crate::live::{
    contains_reason, LiveAccountShadow, LiveBlockingReason, LiveCredentialValidationStatus, LiveEnvironment,
    LiveReconciliationStatus, LiveRuntimeState, LiveShadowStreamState, LiveShadowStreamStatus,
};

verus! {

/// Whether a running shadow session is kept: its stream is of the
/// selected environment.
pub fn keep_running_shadow(running: bool, stream_environment: LiveEnvironment, live_environment: LiveEnvironment) -> (b:
    bool)
    ensures
        b == (running && stream_environment == live_environment),
{
    running && stream_environment == live_environment
}

/// The refusal to start shadow sync without a validated credential.
pub fn shadow_start_refusal(status: LiveCredentialValidationStatus) -> (r: Option<AppError>)
    ensures
        r is Some <==> status != LiveCredentialValidationStatus::Valid,
        r matches Some(e) ==> e is Conflict && e->Conflict_0@ == "live shadow sync requires a validated active credential"@,
{
    if status.is_valid() {
        None
    } else {
        Some(AppError::Conflict(String::from_str("live shadow sync requires a validated active credential")))
    }
}

/// A shadow freshly read over REST at `now_ms`: synced and updated now,
/// not ambiguous, with no divergence.
pub fn fresh_rest_shadow(shadow: LiveAccountShadow, now_ms: i64) -> (s: LiveAccountShadow)
    ensures
        s.divergence_reasons@.len() == 0,
        s == (LiveAccountShadow {
            last_rest_sync_at: Some(now_ms),
            updated_at: now_ms,
            ambiguous: false,
            divergence_reasons: s.divergence_reasons,
            ..shadow
        }),
{
    let mut s = shadow;
    s.last_rest_sync_at = Some(now_ms);
    s.updated_at = now_ms;
    s.ambiguous = false;
    s.divergence_reasons = Vec::new();
    s
}

/// The reconciliation while the user-data stream of `environment` starts
/// at `now_ms`, with the freshly read shadow.
pub fn starting_reconciliation(shadow: LiveAccountShadow, environment: LiveEnvironment, now_ms: i64) -> (r:
    LiveReconciliationStatus)
    ensures
        r.state == LiveRuntimeState::ShadowStarting,
        r.stream == (LiveShadowStreamStatus {
            state: LiveShadowStreamState::Starting,
            environment,
            status_since: now_ms,
            started_at: Some(now_ms),
            last_rest_sync_at: Some(now_ms),
            detail: r.stream.detail,
            ..LiveShadowStreamStatus::initial()
        }),
        r.stream.detail is Some && r.stream.detail->0@ == "starting user-data stream"@,
        r.shadow == Some(shadow),
        r.blocking_reasons@.len() == 0,
        r.warnings@.len() == 0,
        r.updated_at == now_ms,
{
    let mut stream = LiveShadowStreamStatus::default();
    stream.state = LiveShadowStreamState::Starting;
    stream.environment = environment;
    stream.status_since = now_ms;
    stream.started_at = Some(now_ms);
    stream.last_rest_sync_at = Some(now_ms);
    stream.detail = Some(String::from_str("starting user-data stream"));
    LiveReconciliationStatus {
        state: LiveRuntimeState::ShadowStarting,
        stream,
        shadow: Some(shadow),
        blocking_reasons: Vec::new(),
        warnings: Vec::new(),
        updated_at: now_ms,
    }
}

/// The reconciliation once the user-data stream of `environment` runs at
/// `now_ms`, showing the masked listen key.
pub fn running_reconciliation(
    rec: LiveReconciliationStatus,
    environment: LiveEnvironment,
    listen_key: &str,
    now_ms: i64,
) -> (r: LiveReconciliationStatus)
    requires
        listen_key_cuts_fit(listen_key),
    ensures
        r.stream.listen_key_hint is Some,
        r.stream.detail is Some && r.stream.detail->0@ == "user-data stream running"@,
        r == (LiveReconciliationStatus {
            state: LiveRuntimeState::ShadowRunning,
            stream: LiveShadowStreamStatus {
                state: LiveShadowStreamState::Running,
                environment,
                listen_key_hint: r.stream.listen_key_hint,
                status_since: now_ms,
                detail: r.stream.detail,
                ..rec.stream
            },
            updated_at: now_ms,
            ..rec
        }),
{
    let hint = mask_listen_key(listen_key);
    let mut r = rec;
    r.state = LiveRuntimeState::ShadowRunning;
    r.stream.state = LiveShadowStreamState::Running;
    r.stream.environment = environment;
    r.stream.listen_key_hint = Some(hint);
    r.stream.status_since = now_ms;
    r.stream.detail = Some(String::from_str("user-data stream running"));
    r.updated_at = now_ms;
    r
}

/// The reconciliation after the operator stopped shadow sync at `now_ms`.
pub fn stopped_reconciliation(rec: LiveReconciliationStatus, now_ms: i64) -> (r: LiveReconciliationStatus)
    ensures
        r.stream.detail is Some && r.stream.detail->0@ == "stopped by operator"@,
        r == (LiveReconciliationStatus {
            state: LiveRuntimeState::ArmedReadOnly,
            stream: LiveShadowStreamStatus {
                state: LiveShadowStreamState::Stopped,
                status_since: now_ms,
                detail: r.stream.detail,
                ..rec.stream
            },
            updated_at: now_ms,
            ..rec
        }),
{
    let mut r = rec;
    r.state = LiveRuntimeState::ArmedReadOnly;
    r.stream.state = LiveShadowStreamState::Stopped;
    r.stream.status_since = now_ms;
    r.stream.detail = Some(String::from_str("stopped by operator"));
    r.updated_at = now_ms;
    r
}

/// The reconciliation after the stream degraded at `now_ms`: stale, with
/// the detail, and the shadow marked ambiguous among its reasons.
pub fn degraded_reconciliation(rec: LiveReconciliationStatus, detail: String, now_ms: i64) -> (r:
    LiveReconciliationStatus)
    ensures
        r.blocking_reasons@ == if rec.blocking_reasons@.contains(LiveBlockingReason::ShadowStateAmbiguous) {
            rec.blocking_reasons@
        } else {
            rec.blocking_reasons@.push(LiveBlockingReason::ShadowStateAmbiguous)
        },
        r == (LiveReconciliationStatus {
            state: LiveRuntimeState::ShadowDegraded,
            stream: LiveShadowStreamStatus {
                state: LiveShadowStreamState::Degraded,
                status_since: now_ms,
                detail: Some(detail),
                stale: true,
                ..rec.stream
            },
            blocking_reasons: r.blocking_reasons,
            updated_at: now_ms,
            ..rec
        }),
{
    let mut r = rec;
    r.state = LiveRuntimeState::ShadowDegraded;
    r.stream.state = LiveShadowStreamState::Degraded;
    r.stream.status_since = now_ms;
    r.stream.detail = Some(detail);
    r.stream.stale = true;
    if !contains_reason(&r.blocking_reasons, LiveBlockingReason::ShadowStateAmbiguous) {
        r.blocking_reasons.push(LiveBlockingReason::ShadowStateAmbiguous);
    }
    r.updated_at = now_ms;
    r
}

/// The reconciliation after the shadow of `environment` was repaired from
/// REST at `now_ms`: running, fresh, with nothing blocking.
pub fn repaired_reconciliation(
    rec: LiveReconciliationStatus,
    shadow: LiveAccountShadow,
    environment: LiveEnvironment,
    now_ms: i64,
) -> (r: LiveReconciliationStatus)
    ensures
        r.blocking_reasons@.len() == 0,
        r == (LiveReconciliationStatus {
            state: LiveRuntimeState::ShadowRunning,
            shadow: Some(shadow),
            stream: LiveShadowStreamStatus {
                state: LiveShadowStreamState::Running,
                environment,
                last_rest_sync_at: Some(now_ms),
                stale: false,
                ..rec.stream
            },
            blocking_reasons: r.blocking_reasons,
            updated_at: now_ms,
            ..rec
        }),
{
    let mut r = rec;
    r.state = LiveRuntimeState::ShadowRunning;
    r.shadow = Some(shadow);
    r.stream.state = LiveShadowStreamState::Running;
    r.stream.environment = environment;
    r.stream.last_rest_sync_at = Some(now_ms);
    r.stream.stale = false;
    r.blocking_reasons = Vec::new();
    r.updated_at = now_ms;
    r
}


/// The reconciliation after the periodic forced reconnect of the stream of
/// `environment` completed at `now_ms` with a new listen key: running, one
/// more reconnect counted (saturating), the masked new key shown.
pub fn reconnected_reconciliation(
    rec: LiveReconciliationStatus,
    environment: LiveEnvironment,
    listen_key: &str,
    now_ms: i64,
) -> (r: LiveReconciliationStatus)
    requires
        listen_key_cuts_fit(listen_key),
    ensures
        r.stream.listen_key_hint is Some,
        r.stream.detail is Some && r.stream.detail->0@ == "forced 24h user-data reconnect completed"@,
        r == (LiveReconciliationStatus {
            stream: LiveShadowStreamStatus {
                state: LiveShadowStreamState::Running,
                environment,
                listen_key_hint: r.stream.listen_key_hint,
                status_since: now_ms,
                reconnect_attempts: if rec.stream.reconnect_attempts == u64::MAX {
                    u64::MAX
                } else {
                    (rec.stream.reconnect_attempts + 1) as u64
                },
                detail: r.stream.detail,
                ..rec.stream
            },
            updated_at: now_ms,
            ..rec
        }),
{
    let hint = mask_listen_key(listen_key);
    let mut r = rec;
    r.stream.listen_key_hint = Some(hint);
    r.stream.state = LiveShadowStreamState::Running;
    r.stream.environment = environment;
    r.stream.status_since = now_ms;
    r.stream.reconnect_attempts = r.stream.reconnect_attempts.saturating_add(1);
    r.stream.detail = Some(String::from_str("forced 24h user-data reconnect completed"));
    r.updated_at = now_ms;
    r
}
} // verus!
