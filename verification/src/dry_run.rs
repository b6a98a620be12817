//! The mainnet-auto dry run: for the latest closed-candle signal, which
//! blockers would stop a live submission, the outcome they give, and what
//! the recorded decision says. No order is ever sent.

use vstd::prelude::*;

use crate::live::{LiveBlockingReason, LiveEnvironment};
use crate::mainnet_auto::MainnetAutoDecisionOutcome;
use crate::market::{SignalSide, Symbol, Timeframe};
use crate::orders::LiveOrderRecord;
use crate::text::{
    append_str, concat_str, i64_decimal, int_decimal, occurs_in, sorted_unique, sorted_unique_of, str_contains,
    str_eq, texts_of,
};

verus! {

/// The strategy whose decisions the dry run records.
pub open spec fn strategy_text() -> Seq<char> {
    "aso_closed_candle_v1"@
}

/// The latest closed signal of the active symbol, as the dry run reads it.
#[derive(Debug, Clone, PartialEq, Eq)]
pub struct DryRunSignal {
    pub id: String,
    pub side: SignalSide,
    pub open_time: i64,
}

/// What a dry-run decision reads of the live status, the risk budget, the
/// reference price and the latest signal.
#[derive(Debug, Clone, PartialEq, Eq)]
pub struct DryRunInputs {
    pub kill_switch_engaged: bool,
    /// The environment of the active credential, `None` without one.
    pub credential_environment: Option<LiveEnvironment>,
    pub live_environment: LiveEnvironment,
    pub risk_budget_configured: bool,
    /// Why the reference price cannot be used, if it cannot.
    pub reference_blocking: Option<LiveBlockingReason>,
    pub open_mainnet_order: bool,
    pub open_mainnet_position: bool,
    pub signal: Option<DryRunSignal>,
    /// Whether a decision for the same signal was already recorded.
    pub duplicate_seen: bool,
}

/// What the dry run decided.
#[derive(Debug, Clone, PartialEq, Eq)]
pub struct DryRunDecision {
    pub outcome: MainnetAutoDecisionOutcome,
    pub would_submit: bool,
    pub blocking_reasons: Vec<String>,
    pub intent_hash: Option<String>,
    pub message: String,
}

/// A one-element sequence when `c` holds, else the empty sequence.
pub open spec fn if_then<T>(c: bool, x: T) -> Seq<T> {
    if c { seq![x] } else { Seq::empty() }
}

/// The blockers of a dry run, with repeats, in the order they are found.
pub open spec fn dry_run_raw_blockers(inputs: DryRunInputs) -> Seq<Seq<char>> {
    if_then(inputs.kill_switch_engaged, "kill_switch_engaged"@) + if_then(
        inputs.credential_environment is None,
        "credentials_missing"@,
    ) + if_then(inputs.live_environment != LiveEnvironment::Mainnet, "mainnet_environment_not_selected"@)
        + if_then(
        inputs.credential_environment matches Some(e) && e != LiveEnvironment::Mainnet,
        "mainnet_credential_not_selected"@,
    ) + if_then(!inputs.risk_budget_configured, "risk_profile_missing"@) + (match inputs.reference_blocking {
        Some(r) => seq![r.text()],
        None => Seq::empty(),
    }) + if_then(inputs.open_mainnet_order, "open_order"@) + if_then(inputs.open_mainnet_position, "open_position"@)
        + if_then(inputs.signal is None, "no_closed_candle_signal"@) + if_then(
        inputs.signal is Some && inputs.duplicate_seen,
        "duplicate_signal_detected"@,
    )
}

/// The outcome the sorted blockers give: would submit without any; else
/// the first that applies of a duplicate signal, a reference-price problem,
/// an open order, an open position, the kill switch; else blocked by
/// configuration.
pub open spec fn dry_run_outcome(blockers: Seq<Seq<char>>) -> MainnetAutoDecisionOutcome {
    if blockers.len() == 0 {
        MainnetAutoDecisionOutcome::DryRunWouldSubmit
    } else if blockers.contains("duplicate_signal_detected"@) {
        MainnetAutoDecisionOutcome::SkippedDuplicate
    } else if exists|i: int| 0 <= i < blockers.len() && occurs_in("reference_price"@, #[trigger] blockers[i]) {
        MainnetAutoDecisionOutcome::SkippedStaleReferencePrice
    } else if blockers.contains("open_order"@) {
        MainnetAutoDecisionOutcome::SkippedOpenOrder
    } else if blockers.contains("open_position"@) {
        MainnetAutoDecisionOutcome::SkippedOpenPosition
    } else if blockers.contains("kill_switch_engaged"@) {
        MainnetAutoDecisionOutcome::SkippedKillSwitch
    } else {
        MainnetAutoDecisionOutcome::SkippedConfigBlocked
    }
}

/// The texts joined by `, `.
pub open spec fn joined(v: Seq<Seq<char>>) -> Seq<char>
    decreases v.len(),
{
    if v.len() == 0 {
        Seq::empty()
    } else if v.len() == 1 {
        v[0]
    } else {
        joined(v.drop_last()) + ", "@ + v.last()
    }
}

/// Whether `d` is the dry-run decision for the inputs, the active symbol
/// and timeframe, at `now_ms`: the blockers once each in the order of
/// `str`, their outcome, a dry-run intent hash when it would submit, and
/// the message.
pub open spec fn dry_run_matches(
    d: DryRunDecision,
    inputs: DryRunInputs,
    symbol: Symbol,
    timeframe: Timeframe,
    now_ms: i64,
) -> bool {
    let blockers = texts_of(d.blocking_reasons@);
    &&& sorted_unique_of(blockers, dry_run_raw_blockers(inputs))
    &&& d.would_submit == (blockers.len() == 0)
    &&& d.outcome == dry_run_outcome(blockers)
    &&& (match d.intent_hash {
        Some(h) => d.would_submit && h@ == "dry-run:"@ + symbol.text() + ":"@ + timeframe.text() + ":"@
            + int_decimal(
            match inputs.signal {
                Some(s) => s.open_time as int,
                None => now_ms as int,
            },
        ),
        None => !d.would_submit,
    })
    &&& d.message@ == if d.would_submit {
        "Dry-run would submit if live auto were separately enabled; no order was sent."@
    } else {
        "Dry-run blocked before submit: "@ + joined(blockers)
    }
}

fn push_blocker(v: &mut Vec<String>, c: bool, text: &str)
    ensures
        texts_of(final(v)@) == texts_of(old(v)@) + if_then(c, text@),
{
    if c {
        v.push(String::from_str(text));
    }
    assert(texts_of(final(v)@) =~= texts_of(old(v)@) + if_then(c, text@));
}

fn raw_blockers(inputs: &DryRunInputs) -> (v: Vec<String>)
    ensures
        texts_of(v@) == dry_run_raw_blockers(*inputs),
{
    let mut v: Vec<String> = Vec::new();
    push_blocker(&mut v, inputs.kill_switch_engaged, "kill_switch_engaged");
    push_blocker(&mut v, inputs.credential_environment.is_none(), "credentials_missing");
    push_blocker(&mut v, inputs.live_environment != LiveEnvironment::Mainnet, "mainnet_environment_not_selected");
    let other_credential = match inputs.credential_environment {
        Some(e) => e != LiveEnvironment::Mainnet,
        None => false,
    };
    push_blocker(&mut v, other_credential, "mainnet_credential_not_selected");
    push_blocker(&mut v, !inputs.risk_budget_configured, "risk_profile_missing");
    match inputs.reference_blocking {
        Some(r) => push_blocker(&mut v, true, r.as_str()),
        None => push_blocker(&mut v, false, ""),
    }
    push_blocker(&mut v, inputs.open_mainnet_order, "open_order");
    push_blocker(&mut v, inputs.open_mainnet_position, "open_position");
    push_blocker(&mut v, inputs.signal.is_none(), "no_closed_candle_signal");
    push_blocker(&mut v, inputs.signal.is_some() && inputs.duplicate_seen, "duplicate_signal_detected");
    assert(texts_of(v@) =~= dry_run_raw_blockers(*inputs));
    v
}

fn holds_text(v: &Vec<String>, t: &str) -> (b: bool)
    ensures
        b == texts_of(v@).contains(t@),
{
    let mut i: usize = 0;
    while i < v.len()
        invariant
            i <= v@.len(),
            forall|j: int| 0 <= j < i ==> v@[j]@ != t@,
        decreases v@.len() - i,
    {
        if str_eq(v[i].as_str(), t) {
            assert(texts_of(v@)[i as int] == t@);
            return true;
        }
        i = i + 1;
    }
    assert forall|j: int| 0 <= j < texts_of(v@).len() implies texts_of(v@)[j] != t@ by {
        assert(texts_of(v@)[j] == v@[j]@);
    }
    false
}

fn mentions_reference_price(v: &Vec<String>) -> (b: bool)
    ensures
        b == exists|i: int| 0 <= i < texts_of(v@).len() && occurs_in("reference_price"@, #[trigger] texts_of(v@)[i]),
{
    let mut i: usize = 0;
    while i < v.len()
        invariant
            i <= v@.len(),
            forall|j: int| 0 <= j < i ==> !occurs_in("reference_price"@, #[trigger] texts_of(v@)[j]),
        decreases v@.len() - i,
    {
        if str_contains(v[i].as_str(), "reference_price") {
            assert(occurs_in("reference_price"@, texts_of(v@)[i as int]));
            return true;
        }
        i = i + 1;
    }
    false
}

fn join_texts(v: &Vec<String>) -> (s: String)
    ensures
        s@ == joined(texts_of(v@)),
{
    let mut s = String::new();
    let mut i: usize = 0;
    while i < v.len()
        invariant
            i <= v@.len(),
            s@ == joined(texts_of(v@).subrange(0, i as int)),
        decreases v@.len() - i,
    {
        let ghost prev = texts_of(v@).subrange(0, i as int);
        let ghost next = texts_of(v@).subrange(0, i + 1);
        assert(next.drop_last() =~= prev);
        if i > 0 {
            append_str(&mut s, ", ");
        } else {
            assert(s@ =~= Seq::<char>::empty());
        }
        append_str(&mut s, v[i].as_str());
        proof {
            if i == 0 {
                assert(s@ =~= next[0]);
            }
        }
        i = i + 1;
    }
    assert(texts_of(v@).subrange(0, v@.len() as int) =~= texts_of(v@));
    s
}

/// Decides a dry run for the active symbol and timeframe at `now_ms`: the
/// blockers, once each and sorted, the outcome they give, and the message;
/// with no blocker it would submit.
pub fn decide_dry_run(inputs: &DryRunInputs, symbol: Symbol, timeframe: Timeframe, now_ms: i64) -> (d: DryRunDecision)
    ensures
        dry_run_matches(d, *inputs, symbol, timeframe, now_ms),
{
    let raw = raw_blockers(inputs);
    let blockers = sorted_unique(&raw);
    let would_submit = blockers.len() == 0;
    let outcome = if would_submit {
        MainnetAutoDecisionOutcome::DryRunWouldSubmit
    } else if holds_text(&blockers, "duplicate_signal_detected") {
        MainnetAutoDecisionOutcome::SkippedDuplicate
    } else if mentions_reference_price(&blockers) {
        MainnetAutoDecisionOutcome::SkippedStaleReferencePrice
    } else if holds_text(&blockers, "open_order") {
        MainnetAutoDecisionOutcome::SkippedOpenOrder
    } else if holds_text(&blockers, "open_position") {
        MainnetAutoDecisionOutcome::SkippedOpenPosition
    } else if holds_text(&blockers, "kill_switch_engaged") {
        MainnetAutoDecisionOutcome::SkippedKillSwitch
    } else {
        MainnetAutoDecisionOutcome::SkippedConfigBlocked
    };
    let intent_hash = if would_submit {
        let mut h = concat_str("dry-run:", symbol.as_str());
        append_str(&mut h, ":");
        append_str(&mut h, timeframe.as_str());
        append_str(&mut h, ":");
        let t = match &inputs.signal {
            Some(s) => s.open_time,
            None => now_ms,
        };
        let digits = i64_decimal(t);
        append_str(&mut h, digits.as_str());
        Some(h)
    } else {
        None
    };
    let message = if would_submit {
        String::from_str("Dry-run would submit if live auto were separately enabled; no order was sent.")
    } else {
        let list = join_texts(&blockers);
        concat_str("Dry-run blocked before submit: ", list.as_str())
    };
    DryRunDecision { outcome, would_submit, blocking_reasons: blockers, intent_hash, message }
}

/// Whether any recent order is a mainnet order that is still open.
pub fn has_open_mainnet_order(orders: &Vec<LiveOrderRecord>) -> (b: bool)
    ensures
        b == exists|i: int|
            0 <= i < orders@.len() && (#[trigger] orders@[i]).environment == LiveEnvironment::Mainnet
                && orders@[i].status.open(),
{
    let mut i: usize = 0;
    while i < orders.len()
        invariant
            i <= orders@.len(),
            forall|j: int|
                0 <= j < i ==> !((#[trigger] orders@[j]).environment == LiveEnvironment::Mainnet
                    && orders@[j].status.open()),
        decreases orders@.len() - i,
    {
        if orders[i].environment == LiveEnvironment::Mainnet && orders[i].status.is_open() {
            return true;
        }
        i = i + 1;
    }
    false
}

/// What identifies a recorded decision's signal.
#[derive(Debug, Clone, PartialEq, Eq)]
pub struct DecisionKey {
    pub environment: LiveEnvironment,
    pub symbol: Symbol,
    pub timeframe: Timeframe,
    pub closed_candle_open_time: Option<i64>,
    pub signal_side: Option<SignalSide>,
    pub strategy_id: String,
}

/// Whether a recorded decision is for the same mainnet signal of the
/// strategy on the active symbol and timeframe.
pub open spec fn same_signal_decision(k: DecisionKey, symbol: Symbol, timeframe: Timeframe, signal: DryRunSignal) -> bool {
    &&& k.environment == LiveEnvironment::Mainnet
    &&& k.symbol == symbol
    &&& k.timeframe == timeframe
    &&& k.closed_candle_open_time == Some(signal.open_time)
    &&& k.signal_side == Some(signal.side)
    &&& k.strategy_id@ == strategy_text()
}

/// Whether a decision for the same signal was already recorded.
pub fn duplicate_signal_seen(
    recorded: &Vec<DecisionKey>,
    symbol: Symbol,
    timeframe: Timeframe,
    signal: &DryRunSignal,
) -> (b: bool)
    ensures
        b == exists|i: int| 0 <= i < recorded@.len() && same_signal_decision(#[trigger] recorded@[i], symbol, timeframe, *signal),
{
    let mut i: usize = 0;
    while i < recorded.len()
        invariant
            i <= recorded@.len(),
            forall|j: int| 0 <= j < i ==> !same_signal_decision(#[trigger] recorded@[j], symbol, timeframe, *signal),
        decreases recorded@.len() - i,
    {
        let k = &recorded[i];
        if k.environment == LiveEnvironment::Mainnet && k.symbol == symbol && k.timeframe == timeframe
            && k.closed_candle_open_time == Some(signal.open_time) && k.signal_side == Some(signal.side) && str_eq(
            k.strategy_id.as_str(),
            "aso_closed_candle_v1",
        ) {
            return true;
        }
        i = i + 1;
    }
    false
}

/// A dry run would submit only when every gate is clear: no kill switch, a
/// mainnet credential in the mainnet environment, a configured risk budget,
/// a fresh reference price, no open mainnet order or position, and a new
/// closed-candle signal.
pub proof fn lemma_dry_run_submits_only_when_clear(
    d: DryRunDecision,
    inputs: DryRunInputs,
    symbol: Symbol,
    timeframe: Timeframe,
    now_ms: i64,
)
    requires
        dry_run_matches(d, inputs, symbol, timeframe, now_ms),
        d.would_submit,
    ensures
        !inputs.kill_switch_engaged,
        inputs.credential_environment == Some(LiveEnvironment::Mainnet),
        inputs.live_environment == LiveEnvironment::Mainnet,
        inputs.risk_budget_configured,
        inputs.reference_blocking is None,
        !inputs.open_mainnet_order,
        !inputs.open_mainnet_position,
        inputs.signal is Some,
        !inputs.duplicate_seen,
        d.outcome == MainnetAutoDecisionOutcome::DryRunWouldSubmit,
{
    let raw = dry_run_raw_blockers(inputs);
    assert(raw.len() == 0) by {
        let blockers = texts_of(d.blocking_reasons@);
        assert(sorted_unique_of(blockers, raw) && blockers.len() == 0);
        if raw.len() > 0 {
            assert(raw.contains(raw[0]));
            assert(blockers.contains(raw[0]));
        }
    }
    lemma_no_raw_blockers(inputs);
}

/// Without raw blockers every gate of the dry run is clear.
#[verifier::rlimit(50)]
#[verifier::spinoff_prover]
proof fn lemma_no_raw_blockers(inputs: DryRunInputs)
    requires
        dry_run_raw_blockers(inputs).len() == 0,
    ensures
        !inputs.kill_switch_engaged,
        inputs.credential_environment == Some(LiveEnvironment::Mainnet),
        inputs.live_environment == LiveEnvironment::Mainnet,
        inputs.risk_budget_configured,
        inputs.reference_blocking is None,
        !inputs.open_mainnet_order,
        !inputs.open_mainnet_position,
        inputs.signal is Some,
        !inputs.duplicate_seen,
{
    let p1 = if_then(inputs.kill_switch_engaged, "kill_switch_engaged"@);
    let p2 = if_then(inputs.credential_environment is None, "credentials_missing"@);
    let p3 = if_then(inputs.live_environment != LiveEnvironment::Mainnet, "mainnet_environment_not_selected"@);
    let p4 = if_then(
        inputs.credential_environment matches Some(e) && e != LiveEnvironment::Mainnet,
        "mainnet_credential_not_selected"@,
    );
    let p5 = if_then(!inputs.risk_budget_configured, "risk_profile_missing"@);
    let p6 = match inputs.reference_blocking {
        Some(r) => seq![r.text()],
        None => Seq::<Seq<char>>::empty(),
    };
    let p7 = if_then(inputs.open_mainnet_order, "open_order"@);
    let p8 = if_then(inputs.open_mainnet_position, "open_position"@);
    let p9 = if_then(inputs.signal is None, "no_closed_candle_signal"@);
    let p10 = if_then(inputs.signal is Some && inputs.duplicate_seen, "duplicate_signal_detected"@);
    assert(dry_run_raw_blockers(inputs) === p1 + p2 + p3 + p4 + p5 + p6 + p7 + p8 + p9 + p10);
    assert(p1.len() + p2.len() + p3.len() + p4.len() + p5.len() + p6.len() + p7.len() + p8.len() + p9.len()
        + p10.len() == 0);
    assert(p1.len() == 0 && p2.len() == 0 && p3.len() == 0 && p4.len() == 0 && p5.len() == 0);
    assert(p6.len() == 0 && p7.len() == 0 && p8.len() == 0 && p9.len() == 0 && p10.len() == 0);
}

/// A signal that was already decided is never submitted again: the dry run
/// skips it as a duplicate.
pub proof fn lemma_duplicate_signal_is_skipped(
    d: DryRunDecision,
    inputs: DryRunInputs,
    symbol: Symbol,
    timeframe: Timeframe,
    now_ms: i64,
)
    requires
        dry_run_matches(d, inputs, symbol, timeframe, now_ms),
        inputs.signal is Some,
        inputs.duplicate_seen,
    ensures
        !d.would_submit,
        d.outcome == MainnetAutoDecisionOutcome::SkippedDuplicate,
{
    let raw = dry_run_raw_blockers(inputs);
    let blockers = texts_of(d.blocking_reasons@);
    assert(raw[raw.len() - 1] == "duplicate_signal_detected"@);
    assert(raw.contains("duplicate_signal_detected"@));
    assert(blockers.contains("duplicate_signal_detected"@));
}

} // verus!
