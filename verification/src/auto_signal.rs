//! What the testnet auto executor does with one closed-candle signal before
//! it builds an intent: nothing while stopped, block on mainnet, suppress a
//! signal whose lock is already stored, or take the lock. Reading the
//! stored lock keys and storing the new lock are left to the caller.

use vstd::prelude::*;

use crate::auto_flow::{auto_duplicate_suppressed, auto_set, auto_testnet_only, intent_lock_key, lock_key_text, new_intent_lock};
use crate::live::{LiveBlockingReason, LiveEnvironment};
use crate::market::{SignalSide, Symbol, Timeframe};
use crate::orders::{LiveAutoExecutorStateKind, LiveAutoExecutorStatus, LiveIntentLock, LiveIntentLockStatus};
use crate::text::{str_eq, texts_of};

verus! {

/// One closed-candle signal as the executor reads it.
#[derive(Debug, Clone, PartialEq, Eq)]
pub struct AutoSignal {
    pub id: String,
    pub symbol: Symbol,
    pub timeframe: Timeframe,
    pub open_time: i64,
    pub side: SignalSide,
}

/// What the executor does with a signal.
pub enum AutoSignalStep {
    /// The executor is not running: nothing happens.
    Ignored,
    /// The executor, blocked because it runs on testnet only.
    Blocked(LiveAutoExecutorStatus),
    /// The executor, with the signal suppressed as a duplicate.
    Suppressed(LiveAutoExecutorStatus),
    /// The new lock to store before the signal's intent is built.
    Locked(LiveIntentLock),
}

/// The key of the lock a signal takes in an environment.
pub open spec fn signal_key(environment: LiveEnvironment, signal: AutoSignal) -> Seq<char> {
    lock_key_text(environment, signal.symbol, signal.timeframe, signal.open_time, signal.side)
}

/// Whether the executor takes the lock for a signal and goes on to build
/// its intent: only while running, on testnet, and where no stored lock has
/// the signal's key.
pub open spec fn takes_lock(
    state: LiveAutoExecutorStateKind,
    environment: LiveEnvironment,
    held: Seq<Seq<char>>,
    key: Seq<char>,
) -> bool {
    state == LiveAutoExecutorStateKind::Running && environment == LiveEnvironment::Testnet && !held.contains(key)
}

/// Whether `held` holds the text `key`.
fn holds_key(held: &Vec<String>, key: &str) -> (b: bool)
    ensures
        b == texts_of(held@).contains(key@),
{
    let mut i: usize = 0;
    while i < held.len()
        invariant
            i <= held@.len(),
            forall|j: int| 0 <= j < i ==> held@[j]@ != key@,
        decreases held@.len() - i,
    {
        if str_eq(held[i].as_str(), key) {
            assert(texts_of(held@)[i as int] == key@);
            return true;
        }
        i = i + 1;
    }
    proof {
        if texts_of(held@).contains(key@) {
            let j = choose|j: int| 0 <= j < texts_of(held@).len() && texts_of(held@)[j] == key@;
            assert(held@[j]@ == key@);
        }
    }
    false
}

/// Decides what the executor does with a signal at `now_ms`, given the keys
/// of the locks already stored: nothing while it is not running; blocked
/// on mainnet; the signal suppressed where its key is held; else a new
/// lock under the signal's key.
pub fn decide_auto_signal(
    auto: LiveAutoExecutorStatus,
    environment: LiveEnvironment,
    held: &Vec<String>,
    signal: &AutoSignal,
    now_ms: i64,
) -> (s: AutoSignalStep)
    ensures
        s is Locked <==> takes_lock(auto.state, environment, texts_of(held@), signal_key(environment, *signal)),
        auto.state != LiveAutoExecutorStateKind::Running ==> s is Ignored,
        auto.state == LiveAutoExecutorStateKind::Running && environment != LiveEnvironment::Testnet ==> (
        s matches AutoSignalStep::Blocked(a) && auto_set(
            a,
            auto,
            LiveAutoExecutorStateKind::Blocked,
            seq![LiveBlockingReason::MainnetAutoBlocked],
            "Auto execution is TESTNET-only."@,
            now_ms,
        )),
        auto.state == LiveAutoExecutorStateKind::Running && environment == LiveEnvironment::Testnet && texts_of(
            held@,
        ).contains(signal_key(environment, *signal)) ==> (s matches AutoSignalStep::Suppressed(a) && {
            &&& a.last_signal_id is Some && a.last_signal_id->0@ == signal.id@
            &&& auto_set(
                a,
                LiveAutoExecutorStatus {
                    last_signal_id: a.last_signal_id,
                    last_signal_open_time: Some(signal.open_time),
                    ..auto
                },
                auto.state,
                seq![LiveBlockingReason::DuplicateSignalSuppressed],
                "Duplicate closed-candle signal suppressed."@,
                now_ms,
            )
        }),
        s matches AutoSignalStep::Locked(l) ==> {
            &&& l.key@ == signal_key(environment, *signal)
            &&& l.environment == environment
            &&& l.symbol == signal.symbol
            &&& l.timeframe == signal.timeframe
            &&& l.signal_id == signal.id
            &&& l.signal_open_time == signal.open_time
            &&& l.signal_side == signal.side
            &&& l.intent_hash is None
            &&& l.order_id is None
            &&& l.status == LiveIntentLockStatus::Created
            &&& l.block_reason is None
            &&& l.created_at == now_ms
            &&& l.updated_at == now_ms
        },
{
    if auto.state != LiveAutoExecutorStateKind::Running {
        return AutoSignalStep::Ignored;
    }
    if environment != LiveEnvironment::Testnet {
        return AutoSignalStep::Blocked(auto_testnet_only(auto, now_ms));
    }
    let key = intent_lock_key(environment, signal.symbol, signal.timeframe, signal.open_time, signal.side);
    if holds_key(held, key.as_str()) {
        return AutoSignalStep::Suppressed(
            auto_duplicate_suppressed(auto, signal.id.as_str(), signal.open_time, now_ms),
        );
    }
    AutoSignalStep::Locked(
        new_intent_lock(
            key,
            environment,
            signal.symbol,
            signal.timeframe,
            signal.id.clone(),
            signal.open_time,
            signal.side,
            now_ms,
        ),
    )
}

/// One closed-candle signal is taken at most once: a signal whose lock key
/// is among the stored keys is never locked again, so its intent is never
/// built or submitted a second time; and once the lock it took is stored,
/// every later replay of the signal, in whatever executor state and
/// environment, is refused a lock.
pub proof fn lemma_signal_taken_at_most_once(
    state: LiveAutoExecutorStateKind,
    later_state: LiveAutoExecutorStateKind,
    environment: LiveEnvironment,
    later_environment: LiveEnvironment,
    held: Seq<Seq<char>>,
    key: Seq<char>,
)
    ensures
        held.contains(key) ==> !takes_lock(state, environment, held, key),
        takes_lock(state, environment, held, key) ==> !takes_lock(later_state, later_environment, held.push(key), key),
{
    assert(held.push(key)[held.len() as int] == key);
}

} // verus!
