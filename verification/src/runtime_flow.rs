//! The market-data runtime loop as decisions: for each thing that happens
//! to the kline stream, how the reconnect count changes and what the loop
//! does next. The loop itself, which opens streams and waits, runs outside
//! this library.

use vstd::prelude::*;

use crate::market::ConnectionStatus;
use crate::text::{append_str, concat_str, nat_decimal, u64_decimal};

verus! {

/// What happened to the kline stream.
#[derive(Debug, Clone, PartialEq, Eq)]
pub enum StreamEvent {
    /// A new attempt to open the stream begins.
    Opening,
    SubscribeFailed(String),
    OpenFailed(String),
    EndedBeforeFirstEvent,
    RecoveryNotNeeded,
    /// The gap was refetched; the count of closed candles recovered.
    Recovered(usize),
    RecoveryHardResync(String),
    RecoveryFailed(String),
    FirstEventFailed(String),
    EventFailed(String),
    StreamFailed(String),
    StreamEnded,
}

/// What the runtime loop does next.
#[derive(Debug, Clone, PartialEq, Eq)]
pub enum RuntimeAction {
    /// Go on as before.
    Continue,
    /// Show the connection status with the detail.
    ShowConnection { status: ConnectionStatus, detail: String },
    /// Record the interruption, pause, and reopen the stream.
    Disconnect { detail: String, pause_secs: u64 },
    /// Require a hard resync, pause, and reopen the stream.
    HardResync { reason: String, pause_secs: u64 },
}

/// Whether `r` is the loop's next step after `event` with `attempts`
/// reconnects so far: the new count and the action.
pub open spec fn runtime_step_holds(r: (u64, RuntimeAction), attempts: u64, event: StreamEvent) -> bool {
    let next = (attempts + 1) as u64;
    match event {
        StreamEvent::Opening => {
            &&& r.0 == attempts
            &&& r.1 matches RuntimeAction::ShowConnection { status, detail }
            &&& status == ConnectionStatus::Reconnecting
            &&& detail@ == if attempts == 0 {
                "opening Binance kline stream"@
            } else {
                "reconnecting Binance kline stream (attempt "@ + nat_decimal(attempts as nat) + ")"@
            }
        },
        StreamEvent::SubscribeFailed(e) => {
            &&& r.0 == next
            &&& r.1 matches RuntimeAction::Disconnect { detail, pause_secs }
            &&& detail@ == "subscribe failed: "@ + e@
            &&& pause_secs == 2
        },
        StreamEvent::OpenFailed(e) => {
            &&& r.0 == next
            &&& r.1 matches RuntimeAction::Disconnect { detail, pause_secs }
            &&& detail@ == "stream open failed: "@ + e@
            &&& pause_secs == 1
        },
        StreamEvent::EndedBeforeFirstEvent => {
            &&& r.0 == next
            &&& r.1 matches RuntimeAction::Disconnect { detail, pause_secs }
            &&& detail@ == "stream ended before first event"@
            &&& pause_secs == 1
        },
        StreamEvent::RecoveryNotNeeded => {
            &&& r.0 == attempts
            &&& attempts == 0 ==> r.1 == RuntimeAction::Continue
            &&& attempts > 0 ==> (r.1 matches RuntimeAction::ShowConnection { status, detail } && status
                == ConnectionStatus::Connected && detail@ == "reconnected without candle gap"@)
        },
        StreamEvent::Recovered(n) => {
            &&& r.0 == attempts
            &&& r.1 matches RuntimeAction::ShowConnection { status, detail }
            &&& status == ConnectionStatus::Resynced
            &&& detail@ == "reconciled "@ + nat_decimal(n as nat) + " closed candle(s)"@
        },
        StreamEvent::RecoveryHardResync(given) => {
            &&& r.0 == next
            &&& r.1 matches RuntimeAction::HardResync { reason, pause_secs }
            &&& reason == given
            &&& pause_secs == 1
        },
        StreamEvent::RecoveryFailed(e) => {
            &&& r.0 == next
            &&& r.1 matches RuntimeAction::HardResync { reason, pause_secs }
            &&& reason@ == "recovery execution failed: "@ + e@
            &&& pause_secs == 1
        },
        StreamEvent::FirstEventFailed(e) => {
            &&& r.0 == next
            &&& r.1 matches RuntimeAction::HardResync { reason, pause_secs }
            &&& reason@ == "failed to process live market event: "@ + e@
            &&& pause_secs == 1
        },
        StreamEvent::EventFailed(e) => {
            &&& r.0 == next
            &&& r.1 matches RuntimeAction::HardResync { reason, pause_secs }
            &&& reason@ == "failed to process live market event: "@ + e@
            &&& pause_secs == 0
        },
        StreamEvent::StreamFailed(e) => {
            &&& r.0 == next
            &&& r.1 matches RuntimeAction::Disconnect { detail, pause_secs }
            &&& detail == e
            &&& pause_secs == 0
        },
        StreamEvent::StreamEnded => {
            &&& r.0 == next
            &&& r.1 matches RuntimeAction::Disconnect { detail, pause_secs }
            &&& detail@ == "market stream ended"@
            &&& pause_secs == 0
        },
    }
}

/// The runtime loop's next step after `event`, with `attempts` reconnects
/// so far.
pub fn runtime_step(attempts: u64, event: StreamEvent) -> (r: (u64, RuntimeAction))
    requires
        attempts < u64::MAX,
    ensures
        runtime_step_holds(r, attempts, event),
{
    let next = attempts + 1;
    match event {
        StreamEvent::Opening => {
            let detail = if attempts == 0 {
                String::from_str("opening Binance kline stream")
            } else {
                let mut d = String::from_str("reconnecting Binance kline stream (attempt ");
                let n = u64_decimal(attempts);
                append_str(&mut d, n.as_str());
                append_str(&mut d, ")");
                d
            };
            (attempts, RuntimeAction::ShowConnection { status: ConnectionStatus::Reconnecting, detail })
        },
        StreamEvent::SubscribeFailed(e) => (
            next,
            RuntimeAction::Disconnect { detail: concat_str("subscribe failed: ", e.as_str()), pause_secs: 2 },
        ),
        StreamEvent::OpenFailed(e) => (
            next,
            RuntimeAction::Disconnect { detail: concat_str("stream open failed: ", e.as_str()), pause_secs: 1 },
        ),
        StreamEvent::EndedBeforeFirstEvent => (
            next,
            RuntimeAction::Disconnect { detail: String::from_str("stream ended before first event"), pause_secs: 1 },
        ),
        StreamEvent::RecoveryNotNeeded => {
            if attempts > 0 {
                (
                    attempts,
                    RuntimeAction::ShowConnection {
                        status: ConnectionStatus::Connected,
                        detail: String::from_str("reconnected without candle gap"),
                    },
                )
            } else {
                (attempts, RuntimeAction::Continue)
            }
        },
        StreamEvent::Recovered(n) => {
            let mut d = String::from_str("reconciled ");
            let count = u64_decimal(n as u64);
            append_str(&mut d, count.as_str());
            append_str(&mut d, " closed candle(s)");
            (attempts, RuntimeAction::ShowConnection { status: ConnectionStatus::Resynced, detail: d })
        },
        StreamEvent::RecoveryHardResync(reason) => (next, RuntimeAction::HardResync { reason, pause_secs: 1 }),
        StreamEvent::RecoveryFailed(e) => (
            next,
            RuntimeAction::HardResync { reason: concat_str("recovery execution failed: ", e.as_str()), pause_secs: 1 },
        ),
        StreamEvent::FirstEventFailed(e) => (
            next,
            RuntimeAction::HardResync {
                reason: concat_str("failed to process live market event: ", e.as_str()),
                pause_secs: 1,
            },
        ),
        StreamEvent::EventFailed(e) => (
            next,
            RuntimeAction::HardResync {
                reason: concat_str("failed to process live market event: ", e.as_str()),
                pause_secs: 0,
            },
        ),
        StreamEvent::StreamFailed(e) => (next, RuntimeAction::Disconnect { detail: e, pause_secs: 0 }),
        StreamEvent::StreamEnded => (
            next,
            RuntimeAction::Disconnect { detail: String::from_str("market stream ended"), pause_secs: 0 },
        ),
    }
}

} // verus!
