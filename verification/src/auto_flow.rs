//! The testnet closed-candle auto executor: starting and stopping it, the
//! lock that keeps one signal from being executed twice, and what each step
//! of an automatic execution records.

use vstd::prelude::*;

use crate::error::AppError;
use crate::live::{LiveBlockingReason, LiveEnvironment};
use crate::market::{SignalSide, Symbol, Timeframe};
use crate::orders::{
    LiveAutoExecutorStateKind, LiveAutoExecutorStatus, LiveExecutionResult, LiveExecutionSnapshot, LiveIntentLock,
    LiveIntentLockStatus, LiveOrderType,
};
use crate::text::{append_str, i64_decimal, int_decimal};

verus! {

/// Whether `r` is `auto` with the state, reasons and message given, updated
/// at `now`.
pub open spec fn auto_set(
    r: LiveAutoExecutorStatus,
    auto: LiveAutoExecutorStatus,
    state: LiveAutoExecutorStateKind,
    reasons: Seq<LiveBlockingReason>,
    message: Seq<char>,
    now: i64,
) -> bool {
    &&& r == (LiveAutoExecutorStatus {
        state,
        blocking_reasons: r.blocking_reasons,
        last_message: r.last_message,
        updated_at: now,
        ..auto
    })
    &&& r.blocking_reasons@ == reasons
    &&& r.last_message is Some
    &&& r.last_message->0@ == message
}

/// The executor blocked because it runs on testnet only.
pub fn auto_testnet_only(auto: LiveAutoExecutorStatus, now_ms: i64) -> (r: LiveAutoExecutorStatus)
    ensures
        auto_set(
            r,
            auto,
            LiveAutoExecutorStateKind::Blocked,
            seq![LiveBlockingReason::MainnetAutoBlocked],
            "Auto execution is TESTNET-only."@,
            now_ms,
        ),
{
    let mut a = auto;
    a.state = LiveAutoExecutorStateKind::Blocked;
    a.blocking_reasons = vec![LiveBlockingReason::MainnetAutoBlocked];
    assert(a.blocking_reasons@ =~= seq![LiveBlockingReason::MainnetAutoBlocked]);
    a.last_message = Some(String::from_str("Auto execution is TESTNET-only."));
    a.updated_at = now_ms;
    a
}

/// Whether the execution gates keep the executor from starting: they
/// refuse submission for a reason other than a missing intent alone.
pub open spec fn auto_gates_blocked(execution: LiveExecutionSnapshot) -> bool {
    let reasons = execution.blocking_reasons@;
    !execution.can_submit && !(reasons.len() == 0 || reasons == seq![LiveBlockingReason::IntentUnavailable])
}

/// The executor after a start request at `now_ms`: blocked on mainnet;
/// blocked without the testnet confirmation; blocked with the gates'
/// reasons where they refuse for more than a missing intent; else running
/// testnet market orders, started now.
pub fn start_auto_executor(
    auto: LiveAutoExecutorStatus,
    environment: LiveEnvironment,
    confirm_testnet_auto: bool,
    execution: &LiveExecutionSnapshot,
    now_ms: i64,
) -> (r: LiveAutoExecutorStatus)
    ensures
        if environment != LiveEnvironment::Testnet {
            auto_set(
                r,
                auto,
                LiveAutoExecutorStateKind::Blocked,
                seq![LiveBlockingReason::MainnetAutoBlocked],
                "Auto execution is TESTNET-only."@,
                now_ms,
            )
        } else if !confirm_testnet_auto {
            auto_set(
                r,
                auto,
                LiveAutoExecutorStateKind::Blocked,
                seq![LiveBlockingReason::AutoExecutorStopped],
                "TESTNET auto start requires explicit confirmation."@,
                now_ms,
            )
        } else if auto_gates_blocked(*execution) {
            auto_set(
                r,
                auto,
                LiveAutoExecutorStateKind::Blocked,
                execution.blocking_reasons@,
                "Auto execution gates are blocked."@,
                now_ms,
            )
        } else {
            &&& auto_set(
                r,
                LiveAutoExecutorStatus {
                    environment: LiveEnvironment::Testnet,
                    order_type: LiveOrderType::Market,
                    started_at: Some(now_ms),
                    stopped_at: None,
                    ..auto
                },
                LiveAutoExecutorStateKind::Running,
                Seq::empty(),
                "TESTNET auto executor running."@,
                now_ms,
            )
        },
{
    if environment != LiveEnvironment::Testnet {
        return auto_testnet_only(auto, now_ms);
    }
    let mut a = auto;
    if !confirm_testnet_auto {
        a.state = LiveAutoExecutorStateKind::Blocked;
        a.blocking_reasons = vec![LiveBlockingReason::AutoExecutorStopped];
        assert(a.blocking_reasons@ =~= seq![LiveBlockingReason::AutoExecutorStopped]);
        a.last_message = Some(String::from_str("TESTNET auto start requires explicit confirmation."));
        a.updated_at = now_ms;
        return a;
    }
    let n = execution.blocking_reasons.len();
    let only_missing_intent = n == 0 || (n == 1 && execution.blocking_reasons[0]
        == LiveBlockingReason::IntentUnavailable);
    proof {
        if n == 1 && execution.blocking_reasons@[0] == LiveBlockingReason::IntentUnavailable {
            assert(execution.blocking_reasons@ =~= seq![LiveBlockingReason::IntentUnavailable]);
        }
    }
    if !execution.can_submit && !only_missing_intent {
        a.state = LiveAutoExecutorStateKind::Blocked;
        a.blocking_reasons = execution.blocking_reasons.clone();
        a.last_message = Some(String::from_str("Auto execution gates are blocked."));
    } else {
        a.state = LiveAutoExecutorStateKind::Running;
        a.environment = LiveEnvironment::Testnet;
        a.order_type = LiveOrderType::Market;
        a.started_at = Some(now_ms);
        a.stopped_at = None;
        a.blocking_reasons = Vec::new();
        a.last_message = Some(String::from_str("TESTNET auto executor running."));
    }
    a.updated_at = now_ms;
    a
}

/// The executor after a stop request at `now_ms`.
pub fn stop_auto_executor(auto: LiveAutoExecutorStatus, now_ms: i64) -> (r: LiveAutoExecutorStatus)
    ensures
        auto_set(
            r,
            LiveAutoExecutorStatus { stopped_at: Some(now_ms), ..auto },
            LiveAutoExecutorStateKind::Stopped,
            seq![LiveBlockingReason::AutoExecutorStopped],
            "TESTNET auto executor stopped."@,
            now_ms,
        ),
{
    let mut a = auto;
    a.state = LiveAutoExecutorStateKind::Stopped;
    a.stopped_at = Some(now_ms);
    a.blocking_reasons = vec![LiveBlockingReason::AutoExecutorStopped];
    assert(a.blocking_reasons@ =~= seq![LiveBlockingReason::AutoExecutorStopped]);
    a.last_message = Some(String::from_str("TESTNET auto executor stopped."));
    a.updated_at = now_ms;
    a
}

/// The name of a signal side as the lock key writes it.
pub open spec fn side_name(side: SignalSide) -> Seq<char> {
    match side {
        SignalSide::Buy => "Buy"@,
        SignalSide::Sell => "Sell"@,
    }
}

/// The key of the lock for one signal:
/// `<environment>:<symbol>:<timeframe>:<open time>:<side>`.
pub open spec fn lock_key_text(
    environment: LiveEnvironment,
    symbol: Symbol,
    timeframe: Timeframe,
    open_time: i64,
    side: SignalSide,
) -> Seq<char> {
    environment.text() + ":"@ + symbol.text() + ":"@ + timeframe.text() + ":"@ + int_decimal(open_time as int) + ":"@
        + side_name(side)
}

/// The key of the lock that keeps a signal from being executed twice.
pub fn intent_lock_key(
    environment: LiveEnvironment,
    symbol: Symbol,
    timeframe: Timeframe,
    open_time: i64,
    side: SignalSide,
) -> (k: String)
    ensures
        k@ == lock_key_text(environment, symbol, timeframe, open_time, side),
{
    let mut k = String::from_str(environment.as_str());
    append_str(&mut k, ":");
    append_str(&mut k, symbol.as_str());
    append_str(&mut k, ":");
    append_str(&mut k, timeframe.as_str());
    append_str(&mut k, ":");
    let t = i64_decimal(open_time);
    append_str(&mut k, t.as_str());
    append_str(&mut k, ":");
    match side {
        SignalSide::Buy => append_str(&mut k, "Buy"),
        SignalSide::Sell => append_str(&mut k, "Sell"),
    }
    k
}

/// The executor after a signal whose lock already exists: the signal is
/// recorded as seen and suppressed as a duplicate.
pub fn auto_duplicate_suppressed(auto: LiveAutoExecutorStatus, signal_id: &str, open_time: i64, now_ms: i64) -> (r:
    LiveAutoExecutorStatus)
    ensures
        r.last_signal_id is Some && r.last_signal_id->0@ == signal_id@,
        auto_set(
            r,
            LiveAutoExecutorStatus {
                last_signal_id: r.last_signal_id,
                last_signal_open_time: Some(open_time),
                ..auto
            },
            auto.state,
            seq![LiveBlockingReason::DuplicateSignalSuppressed],
            "Duplicate closed-candle signal suppressed."@,
            now_ms,
        ),
{
    let mut a = auto;
    a.last_signal_id = Some(String::from_str(signal_id));
    a.last_signal_open_time = Some(open_time);
    a.last_message = Some(String::from_str("Duplicate closed-candle signal suppressed."));
    a.blocking_reasons = vec![LiveBlockingReason::DuplicateSignalSuppressed];
    assert(a.blocking_reasons@ =~= seq![LiveBlockingReason::DuplicateSignalSuppressed]);
    a.updated_at = now_ms;
    a
}

/// A new lock for a signal, created at `now_ms`.
pub fn new_intent_lock(
    key: String,
    environment: LiveEnvironment,
    symbol: Symbol,
    timeframe: Timeframe,
    signal_id: String,
    open_time: i64,
    side: SignalSide,
    now_ms: i64,
) -> (l: LiveIntentLock)
    ensures
        l == (LiveIntentLock {
            key,
            environment,
            symbol,
            timeframe,
            signal_id,
            signal_open_time: open_time,
            signal_side: side,
            intent_hash: None,
            order_id: None,
            status: LiveIntentLockStatus::Created,
            block_reason: None,
            created_at: now_ms,
            updated_at: now_ms,
        }),
{
    LiveIntentLock {
        key,
        environment,
        symbol,
        timeframe,
        signal_id,
        signal_open_time: open_time,
        signal_side: side,
        intent_hash: None,
        order_id: None,
        status: LiveIntentLockStatus::Created,
        block_reason: None,
        created_at: now_ms,
        updated_at: now_ms,
    }
}

/// A lock blocked for `reason` at `now_ms`.
pub fn block_intent_lock(lock: LiveIntentLock, reason: Option<LiveBlockingReason>, now_ms: i64) -> (l: LiveIntentLock)
    ensures
        l == (LiveIntentLock {
            status: LiveIntentLockStatus::Blocked,
            block_reason: reason,
            updated_at: now_ms,
            ..lock
        }),
{
    let mut l = lock;
    l.status = LiveIntentLockStatus::Blocked;
    l.block_reason = reason;
    l.updated_at = now_ms;
    l
}

/// The executor after the intent for a signal could not be built: the
/// preview's reasons.
pub fn auto_intent_blocked(auto: LiveAutoExecutorStatus, reasons: &Vec<LiveBlockingReason>, now_ms: i64) -> (r:
    LiveAutoExecutorStatus)
    ensures
        auto_set(r, auto, auto.state, reasons@, "Auto signal blocked during intent build."@, now_ms),
{
    let mut a = auto;
    a.last_message = Some(String::from_str("Auto signal blocked during intent build."));
    a.blocking_reasons = reasons.clone();
    a.updated_at = now_ms;
    a
}

/// Records the outcome of an automatic execution at `now_ms`: the lock
/// takes the intent hash and the order, and is submitted when the
/// execution was accepted, else blocked with its reason; the executor
/// records the signal, the intent, the order, the result's message and
/// its reason.
pub fn record_auto_execution(
    lock: LiveIntentLock,
    auto: LiveAutoExecutorStatus,
    signal_id: &str,
    open_time: i64,
    intent_hash: &str,
    result: &LiveExecutionResult,
    now_ms: i64,
) -> (r: (LiveIntentLock, LiveAutoExecutorStatus))
    ensures
        r.0.intent_hash is Some && r.0.intent_hash->0@ == intent_hash@,
        (match result.order {
            Some(o) => r.0.order_id == Some(o.id),
            None => r.0.order_id == lock.order_id,
        }),
        r.0 == (LiveIntentLock {
            intent_hash: r.0.intent_hash,
            order_id: r.0.order_id,
            status: if result.accepted { LiveIntentLockStatus::Submitted } else { LiveIntentLockStatus::Blocked },
            block_reason: result.blocking_reason,
            updated_at: now_ms,
            ..lock
        }),
        r.1.last_signal_id is Some && r.1.last_signal_id->0@ == signal_id@,
        r.1.last_intent_hash is Some && r.1.last_intent_hash->0@ == intent_hash@,
        r.1.last_order_id == match result.order {
            Some(o) => Some(o.id),
            None => None,
        },
        auto_set(
            r.1,
            LiveAutoExecutorStatus {
                last_signal_id: r.1.last_signal_id,
                last_signal_open_time: Some(open_time),
                last_intent_hash: r.1.last_intent_hash,
                last_order_id: r.1.last_order_id,
                ..auto
            },
            auto.state,
            match result.blocking_reason {
                Some(b) => seq![b],
                None => Seq::empty(),
            },
            result.message@,
            now_ms,
        ),
{
    let mut l = lock;
    l.intent_hash = Some(String::from_str(intent_hash));
    match &result.order {
        Some(o) => {
            l.order_id = Some(o.id.clone());
        },
        None => {},
    }
    l.status = if result.accepted { LiveIntentLockStatus::Submitted } else { LiveIntentLockStatus::Blocked };
    l.block_reason = result.blocking_reason;
    l.updated_at = now_ms;
    let mut a = auto;
    a.last_signal_id = Some(String::from_str(signal_id));
    a.last_signal_open_time = Some(open_time);
    a.last_intent_hash = Some(String::from_str(intent_hash));
    a.last_order_id = match &result.order {
        Some(o) => Some(o.id.clone()),
        None => None,
    };
    a.last_message = Some(result.message.clone());
    let mut reasons: Vec<LiveBlockingReason> = Vec::new();
    match result.blocking_reason {
        Some(b) => reasons.push(b),
        None => {},
    }
    proof {
        assert(reasons@ =~= match result.blocking_reason {
            Some(b) => seq![b],
            None => Seq::<LiveBlockingReason>::empty(),
        });
    }
    a.blocking_reasons = reasons;
    a.updated_at = now_ms;
    (l, a)
}

/// The refusal of the testnet auto drill, if any: drill helpers disabled by
/// the server; another environment than testnet; the executor not running.
pub fn auto_drill_refusal(helpers_enabled: bool, environment: LiveEnvironment, state: LiveAutoExecutorStateKind) -> (r:
    Option<AppError>)
    ensures
        !helpers_enabled ==> r is Some && r->0 is Live && r->0->Live_0@
            == "testnet drill helpers are disabled by server policy"@,
        helpers_enabled && environment != LiveEnvironment::Testnet ==> r is Some && r->0 is Conflict
            && r->0->Conflict_0@ == "testnet auto drill is only available on TESTNET"@,
        helpers_enabled && environment == LiveEnvironment::Testnet && state != LiveAutoExecutorStateKind::Running
            ==> r is Some && r->0 is Conflict && r->0->Conflict_0@
            == "start TESTNET auto executor before running the auto drill helper"@,
        helpers_enabled && environment == LiveEnvironment::Testnet && state == LiveAutoExecutorStateKind::Running
            ==> r is None,
{
    if !helpers_enabled {
        return Some(AppError::Live(String::from_str("testnet drill helpers are disabled by server policy")));
    }
    if environment != LiveEnvironment::Testnet {
        return Some(AppError::Conflict(String::from_str("testnet auto drill is only available on TESTNET")));
    }
    if state != LiveAutoExecutorStateKind::Running {
        return Some(
            AppError::Conflict(String::from_str("start TESTNET auto executor before running the auto drill helper")),
        );
    }
    None
}

/// Whether position `k` holds the latest closed-candle signal: a closed
/// one with the greatest open time, the last of those that share it.
pub open spec fn latest_closed_at(signals: Seq<(bool, i64)>, k: int) -> bool {
    &&& 0 <= k < signals.len()
    &&& signals[k].0
    &&& forall|j: int| 0 <= j < signals.len() && signals[j].0 ==> signals[j].1 <= signals[k].1
    &&& forall|j: int| k < j < signals.len() && signals[j].0 ==> signals[j].1 < signals[k].1
}

/// The position of the latest closed-candle signal among signals given by
/// whether they are closed-only and their open time, if any is closed.
pub fn latest_closed_signal(signals: &Vec<(bool, i64)>) -> (r: Option<usize>)
    ensures
        r is None <==> forall|j: int| 0 <= j < signals@.len() ==> !(#[trigger] signals@[j]).0,
        r matches Some(k) ==> latest_closed_at(signals@, k as int),
{
    let mut best: Option<usize> = None;
    let mut i: usize = 0;
    while i < signals.len()
        invariant
            i <= signals@.len(),
            best is None <==> forall|j: int| 0 <= j < i ==> !(#[trigger] signals@[j]).0,
            best matches Some(k) ==> {
                &&& k < i
                &&& signals@[k as int].0
                &&& forall|j: int| 0 <= j < i && signals@[j].0 ==> signals@[j].1 <= signals@[k as int].1
                &&& forall|j: int| k < j < i && signals@[j].0 ==> signals@[j].1 < signals@[k as int].1
            },
        decreases signals@.len() - i,
    {
        let (closed, t) = signals[i];
        if closed {
            match best {
                Some(k) => {
                    if signals[k].1 <= t {
                        best = Some(i);
                    }
                },
                None => {
                    best = Some(i);
                },
            }
        }
        i = i + 1;
    }
    best
}

} // verus!
