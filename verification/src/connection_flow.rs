//! The market-data connection as the operator sees it: how its status
//! changes on stream messages, interruptions and failed recoveries, and
//! how starting and stopping the runtime reset it.

use vstd::prelude::*;

use crate::market::{ConnectionState, ConnectionStatus, RuntimeActivity, RuntimeStatus};
use crate::text::concat_str;

verus! {

/// The connection with a new status at `now_ms`: the time it entered the
/// status is reset where the status changed or was never set; the
/// reconnect count, resync flag and detail are replaced.
pub fn connection_updated(
    c: ConnectionState,
    status: ConnectionStatus,
    reconnect_attempts: u64,
    resync_required: bool,
    detail: String,
    now_ms: i64,
) -> (r: ConnectionState)
    ensures
        r == (ConnectionState {
            status,
            status_since: if c.status != status || c.status_since is None { Some(now_ms) } else { c.status_since },
            reconnect_attempts,
            resync_required,
            detail: Some(detail),
            ..c
        }),
{
    let since = if c.status != status || c.status_since.is_none() { Some(now_ms) } else { c.status_since };
    ConnectionState { status, status_since: since, reconnect_attempts, resync_required, detail: Some(detail), ..c }
}

/// The detail shown while a stream reconnects after an interruption.
pub fn disconnect_detail(message: &str) -> (s: String)
    ensures
        s@ == "stream interrupted: "@ + message@,
{
    concat_str("stream interrupted: ", message)
}

/// The connection after a recovery failed at `now_ms`: stale since now,
/// with a resync required and the reason as detail.
pub fn connection_resync_required(c: ConnectionState, reconnect_attempts: u64, reason: String, now_ms: i64) -> (r:
    ConnectionState)
    ensures
        r == (ConnectionState {
            status: ConnectionStatus::Stale,
            status_since: Some(now_ms),
            reconnect_attempts,
            resync_required: true,
            detail: Some(reason),
            ..c
        }),
{
    ConnectionState {
        status: ConnectionStatus::Stale,
        status_since: Some(now_ms),
        reconnect_attempts,
        resync_required: true,
        detail: Some(reason),
        ..c
    }
}

/// Whether `r` and `remaining` follow a market event at `now`: a live
/// event counts down the events shown as resynced, then marks the stream
/// healthy; any other status becomes connected (since now where it
/// changes). Every event records the message time and clears the resync
/// flag.
pub open spec fn after_market_event(
    r: ConnectionState,
    remaining: u64,
    c: ConnectionState,
    live: bool,
    resynced_remaining: u64,
    now: i64,
) -> bool {
    &&& r.last_message_time == Some(now)
    &&& !r.resync_required
    &&& r.reconnect_attempts == c.reconnect_attempts
    &&& if !live {
        &&& r.status == c.status
        &&& r.status_since == c.status_since
        &&& r.detail == c.detail
        &&& remaining == resynced_remaining
    } else if c.status == ConnectionStatus::Resynced && resynced_remaining > 0 {
        &&& r.status == c.status
        &&& r.status_since == c.status_since
        &&& r.detail == c.detail
        &&& remaining == resynced_remaining - 1
    } else if c.status == ConnectionStatus::Resynced {
        &&& r.status == ConnectionStatus::Connected
        &&& r.status_since == Some(now)
        &&& r.detail is Some && r.detail->0@ == "stream healthy"@
        &&& remaining == 0
    } else {
        &&& r.status == ConnectionStatus::Connected
        &&& r.status_since == if c.status != ConnectionStatus::Connected { Some(now) } else { c.status_since }
        &&& r.detail == c.detail
        &&& remaining == resynced_remaining
    }
}

/// The connection after a market event at `now_ms`, and how many live
/// events are still to be shown as resynced.
pub fn connection_on_market_event(c: ConnectionState, live: bool, resynced_remaining: u64, now_ms: i64) -> (r: (
    ConnectionState,
    u64,
))
    ensures
        after_market_event(r.0, r.1, c, live, resynced_remaining, now_ms),
{
    let mut c = c;
    let mut remaining = resynced_remaining;
    if live {
        if c.status == ConnectionStatus::Resynced {
            if remaining > 0 {
                remaining = remaining - 1;
            } else {
                c.status = ConnectionStatus::Connected;
                c.status_since = Some(now_ms);
                c.detail = Some(String::from_str("stream healthy"));
            }
        } else {
            if c.status != ConnectionStatus::Connected {
                c.status_since = Some(now_ms);
            }
            c.status = ConnectionStatus::Connected;
        }
    }
    c.last_message_time = Some(now_ms);
    c.resync_required = false;
    (c, remaining)
}

/// The runtime status once the runtime started at `now_ms`: running, idle,
/// with no error.
pub fn runtime_started(status: RuntimeStatus, now_ms: i64) -> (r: RuntimeStatus)
    ensures
        r == (RuntimeStatus { running: true, activity: None, started_at: Some(now_ms), last_error: None, ..status }),
{
    RuntimeStatus { running: true, activity: None, started_at: Some(now_ms), last_error: None, ..status }
}

/// The runtime status once the operator stopped it: not running, idle.
pub fn runtime_stopped(status: RuntimeStatus) -> (r: RuntimeStatus)
    ensures
        r == (RuntimeStatus { running: false, activity: None, ..status }),
{
    RuntimeStatus { running: false, activity: None, ..status }
}

/// The connection once the operator stopped the runtime at `now_ms`:
/// disconnected since now, with no reconnects or resync pending, and the
/// detail `stopped by user`.
pub fn connection_stopped(c: ConnectionState, now_ms: i64) -> (r: ConnectionState)
    ensures
        r.status == ConnectionStatus::Disconnected,
        r.status_since == Some(now_ms),
        r.reconnect_attempts == 0,
        !r.resync_required,
        r.detail is Some && r.detail->0@ == "stopped by user"@,
        r.last_message_time == c.last_message_time,
{
    ConnectionState {
        status: ConnectionStatus::Disconnected,
        status_since: Some(now_ms),
        reconnect_attempts: 0,
        resync_required: false,
        detail: Some(String::from_str("stopped by user")),
        ..c
    }
}

/// The runtime status with a new background activity; `None` where the
/// activity is already the one shown, so that nothing is published.
pub fn runtime_activity_changed(status: RuntimeStatus, activity: Option<RuntimeActivity>) -> (r: Option<RuntimeStatus>)
    ensures
        status.activity == activity ==> r is None,
        status.activity != activity ==> r == Some((RuntimeStatus { activity, ..status })),
{
    let same = match (status.activity, activity) {
        (None, None) => true,
        (Some(a), Some(b)) => a == b,
        _ => false,
    };
    if same {
        None
    } else {
        Some(RuntimeStatus { activity, ..status })
    }
}

} // verus!
