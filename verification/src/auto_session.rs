//! The lifecycle of a mainnet-auto session: the status read against the
//! configuration, a dry run started and its decision recorded, a live
//! start refused, and a session stopped; and the stamps of the risk budget.

use vstd::prelude::*;

use crate::evidence::{prefixed_hex, prefixed_uuid};
use crate::mainnet_auto::{
    MainnetAutoConfig, MainnetAutoDecisionOutcome, MainnetAutoRiskBudget, MainnetAutoRunMode, MainnetAutoState,
    MainnetAutoStopReason, MainnetAutoWatchdogEvent,
};
use crate::shadow_flow::{live_start_raw_blockers, mainnet_auto_live_start_blockers};
use crate::text::{concat_str, sorted_unique_of, texts_of};

verus! {

/// The part of the mainnet-auto status that a session's lifecycle changes.
#[derive(Debug, Clone, PartialEq, Eq)]
pub struct MainnetAutoSession {
    pub state: MainnetAutoState,
    pub mode: MainnetAutoRunMode,
    pub session_id: Option<String>,
    pub started_at: Option<i64>,
    pub stopped_at: Option<i64>,
    pub last_decision_id: Option<String>,
    pub last_decision_outcome: Option<MainnetAutoDecisionOutcome>,
    pub last_watchdog_stop_reason: Option<MainnetAutoStopReason>,
    pub blocking_reasons: Vec<String>,
    pub current_blockers: Vec<String>,
    pub live_orders_submitted: u64,
    pub dry_run_orders_submitted: u64,
    pub updated_at: i64,
}

/// The blocker of a disabled configuration.
pub open spec fn config_disabled_text() -> Seq<char> {
    "mainnet_auto_config_disabled"@
}

/// A list holding the one blocker of a disabled configuration.
fn config_disabled_blockers() -> (v: Vec<String>)
    ensures
        texts_of(v@) == seq![config_disabled_text()],
{
    let mut v: Vec<String> = Vec::new();
    v.push(String::from_str("mainnet_auto_config_disabled"));
    assert(texts_of(v@) =~= seq![config_disabled_text()]);
    v
}

/// A copy of a list of texts.
fn copy_texts(v: &Vec<String>) -> (c: Vec<String>)
    ensures
        texts_of(c@) == texts_of(v@),
{
    let mut c: Vec<String> = Vec::new();
    let mut i: usize = 0;
    while i < v.len()
        invariant
            i <= v.len(),
            texts_of(c@) == texts_of(v@).subrange(0, i as int),
        decreases v.len() - i,
    {
        let ghost prev = c@;
        let item = v[i].clone();
        c.push(item);
        assert(texts_of(c@) =~= texts_of(prev).push(v@[i as int]@));
        assert(texts_of(v@).subrange(0, i + 1) =~= texts_of(v@).subrange(0, i as int).push(v@[i as int]@));
        i = i + 1;
    }
    assert(texts_of(v@).subrange(0, v.len() as int) =~= texts_of(v@));
    c
}

impl Default for MainnetAutoSession {
    /// A disabled dry-run status with no session, blocked by the disabled
    /// configuration.
    fn default() -> (s: MainnetAutoSession)
        ensures
            s.state == MainnetAutoState::Disabled,
            s.mode == MainnetAutoRunMode::DryRun,
            s.session_id is None,
            s.started_at is None,
            s.stopped_at is None,
            s.last_decision_id is None,
            s.last_decision_outcome is None,
            s.last_watchdog_stop_reason is None,
            texts_of(s.blocking_reasons@) == seq![config_disabled_text()],
            texts_of(s.current_blockers@) == seq![config_disabled_text()],
            s.live_orders_submitted == 0,
            s.dry_run_orders_submitted == 0,
            s.updated_at == 0,
    {
        MainnetAutoSession {
            state: MainnetAutoState::Disabled,
            mode: MainnetAutoRunMode::DryRun,
            session_id: None,
            started_at: None,
            stopped_at: None,
            last_decision_id: None,
            last_decision_outcome: None,
            last_watchdog_stop_reason: None,
            blocking_reasons: config_disabled_blockers(),
            current_blockers: config_disabled_blockers(),
            live_orders_submitted: 0,
            dry_run_orders_submitted: 0,
            updated_at: 0,
        }
    }
}

/// Whether `s` is `session` read against `config`: the mode is the
/// configuration's; with live execution off, a status that is not a running
/// dry run is disabled, blocked by the disabled configuration alone; all
/// else stays.
pub open spec fn with_config_holds(s: MainnetAutoSession, session: MainnetAutoSession, config: MainnetAutoConfig) -> bool {
    let disable = !config.enable_live_execution && session.state != MainnetAutoState::DryRunRunning;
    &&& s.mode == config.mode
    &&& s.state == (if disable { MainnetAutoState::Disabled } else { session.state })
    &&& texts_of(s.blocking_reasons@) == (if disable {
        seq![config_disabled_text()]
    } else {
        texts_of(session.blocking_reasons@)
    })
    &&& texts_of(s.current_blockers@) == (if disable {
        seq![config_disabled_text()]
    } else {
        texts_of(session.current_blockers@)
    })
    &&& s.session_id == session.session_id
    &&& s.started_at == session.started_at
    &&& s.stopped_at == session.stopped_at
    &&& s.last_decision_id == session.last_decision_id
    &&& s.last_decision_outcome == session.last_decision_outcome
    &&& s.last_watchdog_stop_reason == session.last_watchdog_stop_reason
    &&& s.live_orders_submitted == session.live_orders_submitted
    &&& s.dry_run_orders_submitted == session.dry_run_orders_submitted
    &&& s.updated_at == session.updated_at
}

/// The stored status read against the configuration in force.
pub fn session_with_config(session: MainnetAutoSession, config: &MainnetAutoConfig) -> (s: MainnetAutoSession)
    ensures
        with_config_holds(s, session, *config),
{
    let mut s = session;
    s.mode = config.mode;
    if !config.enable_live_execution && s.state != MainnetAutoState::DryRunRunning {
        s.state = MainnetAutoState::Disabled;
        s.blocking_reasons = config_disabled_blockers();
        s.current_blockers = config_disabled_blockers();
    }
    s
}

/// A fresh dry-run session identifier: `mnauto_dry_` and 32 hexadecimal
/// digits.
pub fn dry_run_session_id() -> (s: String)
    ensures
        prefixed_hex(s@, "mnauto_dry_"@),
{
    prefixed_uuid("mnauto_dry_")
}

/// A dry run started at `now` under `session_id`: running in dry-run mode,
/// with no stop, no orders counted and no blockers; the last decision and
/// stop reason stay.
pub fn start_dry_run(session: MainnetAutoSession, session_id: String, now: i64) -> (s: MainnetAutoSession)
    ensures
        s.state == MainnetAutoState::DryRunRunning,
        s.mode == MainnetAutoRunMode::DryRun,
        s.session_id == Some(session_id),
        s.started_at == Some(now),
        s.stopped_at is None,
        s.live_orders_submitted == 0,
        s.dry_run_orders_submitted == 0,
        s.blocking_reasons@.len() == 0,
        s.current_blockers@.len() == 0,
        s.updated_at == now,
        s.last_decision_id == session.last_decision_id,
        s.last_decision_outcome == session.last_decision_outcome,
        s.last_watchdog_stop_reason == session.last_watchdog_stop_reason,
{
    let mut s = session;
    s.state = MainnetAutoState::DryRunRunning;
    s.mode = MainnetAutoRunMode::DryRun;
    s.session_id = Some(session_id);
    s.started_at = Some(now);
    s.stopped_at = None;
    s.live_orders_submitted = 0;
    s.dry_run_orders_submitted = 0;
    s.blocking_reasons = Vec::new();
    s.current_blockers = Vec::new();
    s.updated_at = now;
    s
}

/// The session after its dry-run decision was recorded at `now`: the
/// decision and its outcome are the last, and its blockers are the
/// session's; all else stays.
pub fn record_dry_run_decision(
    session: MainnetAutoSession,
    decision_id: String,
    outcome: MainnetAutoDecisionOutcome,
    blockers: &Vec<String>,
    now: i64,
) -> (s: MainnetAutoSession)
    ensures
        s.last_decision_id == Some(decision_id),
        s.last_decision_outcome == Some(outcome),
        texts_of(s.current_blockers@) == texts_of(blockers@),
        texts_of(s.blocking_reasons@) == texts_of(blockers@),
        s.updated_at == now,
        s.state == session.state,
        s.mode == session.mode,
        s.session_id == session.session_id,
        s.started_at == session.started_at,
        s.stopped_at == session.stopped_at,
        s.last_watchdog_stop_reason == session.last_watchdog_stop_reason,
        s.live_orders_submitted == session.live_orders_submitted,
        s.dry_run_orders_submitted == session.dry_run_orders_submitted,
{
    let mut s = session;
    s.last_decision_id = Some(decision_id);
    s.last_decision_outcome = Some(outcome);
    s.current_blockers = copy_texts(blockers);
    s.blocking_reasons = copy_texts(blockers);
    s.updated_at = now;
    s
}

/// A request to start a live session, refused at `now`: the live start
/// never runs here. The session is blocked by its configuration, in the
/// configuration's mode, with the live-start blockers, each once and in
/// the order of `str`, and a blocked submission as its last outcome.
pub fn refuse_live_start(session: MainnetAutoSession, config: &MainnetAutoConfig, now: i64) -> (s: MainnetAutoSession)
    ensures
        s.state == MainnetAutoState::ConfigBlocked,
        s.mode == config.mode,
        sorted_unique_of(texts_of(s.blocking_reasons@), live_start_raw_blockers(*config)),
        texts_of(s.current_blockers@) == texts_of(s.blocking_reasons@),
        s.last_decision_outcome == Some(MainnetAutoDecisionOutcome::LiveSubmitBlocked),
        s.updated_at == now,
        s.session_id == session.session_id,
        s.started_at == session.started_at,
        s.stopped_at == session.stopped_at,
        s.last_decision_id == session.last_decision_id,
        s.last_watchdog_stop_reason == session.last_watchdog_stop_reason,
        s.live_orders_submitted == session.live_orders_submitted,
        s.dry_run_orders_submitted == session.dry_run_orders_submitted,
{
    let blockers = mainnet_auto_live_start_blockers(config);
    let mut s = session;
    s.state = MainnetAutoState::ConfigBlocked;
    s.mode = config.mode;
    s.current_blockers = copy_texts(&blockers);
    s.blocking_reasons = blockers;
    s.last_decision_outcome = Some(MainnetAutoDecisionOutcome::LiveSubmitBlocked);
    s.updated_at = now;
    s
}

/// The state a stop leaves: stopped by the operator, else by the watchdog.
pub open spec fn stopped_state(reason: MainnetAutoStopReason) -> MainnetAutoState {
    if reason == MainnetAutoStopReason::OperatorStop {
        MainnetAutoState::Stopped
    } else {
        MainnetAutoState::WatchdogStopped
    }
}

/// The message of a stop: `Mainnet auto stopped: <reason>`.
pub open spec fn stop_message(reason: MainnetAutoStopReason) -> Seq<char> {
    "Mainnet auto stopped: "@ + reason.text()
}

/// A session stopped at `now` for `reason`, and the watchdog event that
/// records it. The state says who stopped it, the reason is its only
/// blocker; the event belongs to the session, or to a fresh
/// `mnauto_stop_` identifier where there is none, and carries a fresh
/// `mnauto_watchdog_` identifier. The session identifier itself stays.
pub fn stop_session(session: MainnetAutoSession, reason: MainnetAutoStopReason, now: i64) -> (r: (
    MainnetAutoSession,
    MainnetAutoWatchdogEvent,
))
    ensures
        r.0.state == stopped_state(reason),
        r.0.stopped_at == Some(now),
        r.0.last_watchdog_stop_reason == Some(reason),
        texts_of(r.0.current_blockers@) == seq![reason.text()],
        texts_of(r.0.blocking_reasons@) == seq![reason.text()],
        r.0.updated_at == now,
        r.0.mode == session.mode,
        r.0.session_id == session.session_id,
        r.0.started_at == session.started_at,
        r.0.last_decision_id == session.last_decision_id,
        r.0.last_decision_outcome == session.last_decision_outcome,
        r.0.live_orders_submitted == session.live_orders_submitted,
        r.0.dry_run_orders_submitted == session.dry_run_orders_submitted,
        prefixed_hex(r.1.id@, "mnauto_watchdog_"@),
        match session.session_id {
            Some(id) => r.1.session_id == id,
            None => prefixed_hex(r.1.session_id@, "mnauto_stop_"@),
        },
        r.1.reason == reason,
        r.1.message@ == stop_message(reason),
        r.1.created_at == now,
{
    let event_session = match &session.session_id {
        Some(id) => id.clone(),
        None => prefixed_uuid("mnauto_stop_"),
    };
    let mut s = session;
    s.state = if reason == MainnetAutoStopReason::OperatorStop {
        MainnetAutoState::Stopped
    } else {
        MainnetAutoState::WatchdogStopped
    };
    s.stopped_at = Some(now);
    s.last_watchdog_stop_reason = Some(reason);
    let mut blockers: Vec<String> = Vec::new();
    blockers.push(String::from_str(reason.as_str()));
    assert(texts_of(blockers@) =~= seq![reason.text()]);
    s.current_blockers = copy_texts(&blockers);
    s.blocking_reasons = blockers;
    s.updated_at = now;
    let event = MainnetAutoWatchdogEvent {
        id: prefixed_uuid("mnauto_watchdog_"),
        session_id: event_session,
        reason,
        message: concat_str("Mainnet auto stopped: ", reason.as_str()),
        created_at: now,
    };
    (s, event)
}

/// The stored risk budget as read at `now`: one never stamped gets `now`.
pub fn stamped_risk_budget(budget: MainnetAutoRiskBudget, now: i64) -> (b: MainnetAutoRiskBudget)
    ensures
        b == (MainnetAutoRiskBudget { updated_at: if budget.updated_at == 0 { now } else { budget.updated_at }, ..budget }),
{
    let mut b = budget;
    if b.updated_at == 0 {
        b.updated_at = now;
    }
    b
}

/// A risk budget the operator configured at `now`: marked configured and
/// stamped.
pub fn configured_risk_budget(budget: MainnetAutoRiskBudget, now: i64) -> (b: MainnetAutoRiskBudget)
    ensures
        b == (MainnetAutoRiskBudget { configured: true, updated_at: now, ..budget }),
{
    let mut b = budget;
    b.configured = true;
    b.updated_at = now;
    b
}

} // verus!
