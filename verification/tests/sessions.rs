use relxen::connection_flow::{connection_stopped, runtime_activity_changed, runtime_started, runtime_stopped};
use relxen::error::AppError;
use relxen::live::{
    LiveCredentialId, LiveCredentialSource, LiveCredentialSummary, LiveCredentialValidationStatus, LiveEnvironment,
};
use relxen::live::LiveBlockingReason;
use relxen::live_controls::{readable_active_credential, status_credential};
use relxen::options::{EnvCredentialConfig, EnvCredentialPair};
use relxen::market::{ConnectionState, ConnectionStatus, ExecutionMode, RuntimeActivity, RuntimeStatus, Symbol, Timeframe};
use relxen::auto_session::{
    configured_risk_budget, dry_run_session_id, record_dry_run_decision, refuse_live_start, session_with_config,
    stamped_risk_budget, start_dry_run, stop_session, MainnetAutoSession,
};
use relxen::mainnet_auto::{
    MainnetAutoConfig, MainnetAutoDecisionOutcome, MainnetAutoRiskBudget, MainnetAutoRunMode, MainnetAutoState,
    MainnetAutoStopReason,
};

fn is_hex_tail(s: &str, prefix: &str) -> bool {
    s.len() == prefix.len() + 32
        && s.starts_with(prefix)
        && s[prefix.len()..].chars().all(|c| c.is_ascii_digit() || ('a'..='f').contains(&c))
}

#[test]
fn default_session_is_disabled_by_config() {
    let s = MainnetAutoSession::default();
    assert_eq!(s.state, MainnetAutoState::Disabled);
    assert_eq!(s.mode, MainnetAutoRunMode::DryRun);
    assert_eq!(s.blocking_reasons, vec!["mainnet_auto_config_disabled".to_string()]);
    assert_eq!(s.current_blockers, s.blocking_reasons);
    assert_eq!(s.updated_at, 0);
}

#[test]
fn disabled_config_disables_idle_status_but_keeps_running_dry_run() {
    let config = MainnetAutoConfig::default();
    let mut stopped = MainnetAutoSession::default();
    stopped.state = MainnetAutoState::Stopped;
    stopped.blocking_reasons = vec!["operator_stop".to_string()];
    stopped.current_blockers = vec!["operator_stop".to_string()];
    let read = session_with_config(stopped, &config);
    assert_eq!(read.state, MainnetAutoState::Disabled);
    assert_eq!(read.blocking_reasons, vec!["mainnet_auto_config_disabled".to_string()]);

    let running = start_dry_run(MainnetAutoSession::default(), "mnauto_dry_x".to_string(), 10);
    let read = session_with_config(running.clone(), &config);
    assert_eq!(read, running);

    let live_config = MainnetAutoConfig { enable_live_execution: true, mode: MainnetAutoRunMode::Live, ..config };
    let mut idle = MainnetAutoSession::default();
    idle.state = MainnetAutoState::Stopped;
    let read = session_with_config(idle.clone(), &live_config);
    assert_eq!(read.state, MainnetAutoState::Stopped);
    assert_eq!(read.mode, MainnetAutoRunMode::Live);
    assert_eq!(read.blocking_reasons, idle.blocking_reasons);
}

#[test]
fn dry_run_start_and_decision_are_recorded() {
    let id = dry_run_session_id();
    assert!(is_hex_tail(&id, "mnauto_dry_"));
    let mut before = MainnetAutoSession::default();
    before.live_orders_submitted = 3;
    before.stopped_at = Some(5);
    let started = start_dry_run(before, id.clone(), 1_000);
    assert_eq!(started.state, MainnetAutoState::DryRunRunning);
    assert_eq!(started.session_id, Some(id.clone()));
    assert_eq!(started.started_at, Some(1_000));
    assert_eq!(started.stopped_at, None);
    assert_eq!(started.live_orders_submitted, 0);
    assert!(started.blocking_reasons.is_empty());
    assert!(started.current_blockers.is_empty());

    let blockers = vec!["kill_switch_engaged".to_string(), "no_closed_signal".to_string()];
    let recorded = record_dry_run_decision(
        started,
        "mnauto_decision_1".to_string(),
        MainnetAutoDecisionOutcome::SkippedKillSwitch,
        &blockers,
        1_500,
    );
    assert_eq!(recorded.last_decision_id, Some("mnauto_decision_1".to_string()));
    assert_eq!(recorded.last_decision_outcome, Some(MainnetAutoDecisionOutcome::SkippedKillSwitch));
    assert_eq!(recorded.current_blockers, blockers);
    assert_eq!(recorded.blocking_reasons, blockers);
    assert_eq!(recorded.updated_at, 1_500);
    assert_eq!(recorded.state, MainnetAutoState::DryRunRunning);
}

#[test]
fn live_start_is_always_refused_with_sorted_blockers() {
    let refused = refuse_live_start(MainnetAutoSession::default(), &MainnetAutoConfig::default(), 42);
    assert_eq!(refused.state, MainnetAutoState::ConfigBlocked);
    assert_eq!(refused.mode, MainnetAutoRunMode::DryRun);
    assert_eq!(
        refused.blocking_reasons,
        vec![
            "evidence_logging_required".to_string(),
            "lesson_report_required".to_string(),
            "mainnet_auto_config_disabled".to_string(),
            "mainnet_auto_mode_dry_run".to_string(),
            "mainnet_auto_mode_not_live".to_string(),
            "manual_canary_evidence_required".to_string(),
        ]
    );
    assert_eq!(refused.current_blockers, refused.blocking_reasons);
    assert_eq!(refused.last_decision_outcome, Some(MainnetAutoDecisionOutcome::LiveSubmitBlocked));
    assert_eq!(refused.updated_at, 42);

    let open = MainnetAutoConfig {
        enable_live_execution: true,
        mode: MainnetAutoRunMode::Live,
        require_manual_canary_evidence: false,
        evidence_required: false,
        lesson_report_required: false,
        ..MainnetAutoConfig::default()
    };
    let refused = refuse_live_start(MainnetAutoSession::default(), &open, 43);
    assert_eq!(refused.state, MainnetAutoState::ConfigBlocked);
    assert!(refused.blocking_reasons.is_empty());
}

#[test]
fn operator_stop_and_watchdog_stop_differ_in_state() {
    let (stopped, event) = stop_session(MainnetAutoSession::default(), MainnetAutoStopReason::OperatorStop, 7);
    assert_eq!(stopped.state, MainnetAutoState::Stopped);
    assert_eq!(stopped.stopped_at, Some(7));
    assert_eq!(stopped.last_watchdog_stop_reason, Some(MainnetAutoStopReason::OperatorStop));
    assert_eq!(stopped.blocking_reasons, vec!["operator_stop".to_string()]);
    assert_eq!(stopped.current_blockers, vec!["operator_stop".to_string()]);
    assert_eq!(stopped.session_id, None);
    assert!(is_hex_tail(&event.session_id, "mnauto_stop_"));
    assert!(is_hex_tail(&event.id, "mnauto_watchdog_"));
    assert_eq!(event.message, "Mainnet auto stopped: operator_stop");
    assert_eq!(event.created_at, 7);

    let running = start_dry_run(MainnetAutoSession::default(), "mnauto_dry_abc".to_string(), 1);
    let (stopped, event) = stop_session(running, MainnetAutoStopReason::MaxRuntimeReached, 9);
    assert_eq!(stopped.state, MainnetAutoState::WatchdogStopped);
    assert_eq!(stopped.session_id, Some("mnauto_dry_abc".to_string()));
    assert_eq!(event.session_id, "mnauto_dry_abc");
    assert_eq!(event.reason, MainnetAutoStopReason::MaxRuntimeReached);
    assert_eq!(event.message, "Mainnet auto stopped: max_runtime_reached");
}

#[test]
fn risk_budget_is_stamped_once_and_configured_on_request() {
    let fresh = MainnetAutoRiskBudget::default();
    let stamped = stamped_risk_budget(fresh.clone(), 100);
    assert_eq!(stamped.updated_at, 100);
    assert_eq!(stamped.budget_id, fresh.budget_id);
    let again = stamped_risk_budget(stamped.clone(), 200);
    assert_eq!(again, stamped);

    let unconfigured = MainnetAutoRiskBudget { configured: false, ..fresh };
    let configured = configured_risk_budget(unconfigured, 300);
    assert!(configured.configured);
    assert_eq!(configured.updated_at, 300);
    assert_eq!(configured.max_orders_per_session, 1);
}

fn runtime_status() -> RuntimeStatus {
    RuntimeStatus {
        running: false,
        execution_mode: ExecutionMode::Paper,
        active_symbol: Symbol::BtcUsdt,
        timeframe: Timeframe::M1,
        activity: Some(RuntimeActivity::Rebuilding),
        last_error: Some("boom".to_string()),
        started_at: None,
    }
}

#[test]
fn runtime_start_and_stop_reset_the_status() {
    let started = runtime_started(runtime_status(), 1_000);
    assert!(started.running);
    assert_eq!(started.activity, None);
    assert_eq!(started.last_error, None);
    assert_eq!(started.started_at, Some(1_000));
    assert_eq!(started.active_symbol, Symbol::BtcUsdt);

    let stopped = runtime_stopped(RuntimeStatus { activity: Some(RuntimeActivity::HistorySync), ..started });
    assert!(!stopped.running);
    assert_eq!(stopped.activity, None);
    assert_eq!(stopped.started_at, Some(1_000));

    let connection = ConnectionState {
        status: ConnectionStatus::Reconnecting,
        status_since: Some(10),
        last_message_time: Some(9),
        reconnect_attempts: 4,
        resync_required: true,
        detail: Some("stream interrupted: eof".to_string()),
    };
    let down = connection_stopped(connection, 2_000);
    assert_eq!(down.status, ConnectionStatus::Disconnected);
    assert_eq!(down.status_since, Some(2_000));
    assert_eq!(down.reconnect_attempts, 0);
    assert!(!down.resync_required);
    assert_eq!(down.detail, Some("stopped by user".to_string()));
    assert_eq!(down.last_message_time, Some(9));
}

#[test]
fn unchanged_activity_publishes_nothing() {
    assert_eq!(runtime_activity_changed(runtime_status(), Some(RuntimeActivity::Rebuilding)), None);
    let changed = runtime_activity_changed(runtime_status(), None).unwrap();
    assert_eq!(changed.activity, None);
    assert_eq!(changed.last_error, Some("boom".to_string()));
    let changed = runtime_activity_changed(runtime_status(), Some(RuntimeActivity::HistorySync)).unwrap();
    assert_eq!(changed.activity, Some(RuntimeActivity::HistorySync));
}

fn summary(source: LiveCredentialSource) -> LiveCredentialSummary {
    LiveCredentialSummary {
        id: LiveCredentialId::new("c1"),
        alias: "main".to_string(),
        environment: LiveEnvironment::Testnet,
        source,
        api_key_hint: "abcd…wxyz".to_string(),
        validation_status: LiveCredentialValidationStatus::Valid,
        last_validated_at: None,
        last_validation_error: None,
        is_active: true,
        created_at: 0,
        updated_at: 0,
    }
}

#[test]
fn secret_reads_follow_the_credential_source() {
    assert_eq!(
        readable_active_credential(None, false),
        Err(AppError::Conflict("no active live credential selected".to_string()))
    );
    assert_eq!(
        readable_active_credential(Some(summary(LiveCredentialSource::SecureStore)), true),
        Err(AppError::Conflict(
            "RELXEN_CREDENTIAL_SOURCE=env is active; secure-store credential reads are disabled".to_string()
        ))
    );
    assert_eq!(
        readable_active_credential(Some(summary(LiveCredentialSource::Env)), true),
        Ok(summary(LiveCredentialSource::Env))
    );
    assert_eq!(
        readable_active_credential(Some(summary(LiveCredentialSource::SecureStore)), false),
        Ok(summary(LiveCredentialSource::SecureStore))
    );
}

#[test]
fn status_uses_only_credentials_the_runtime_may_read() {
    let plain = EnvCredentialConfig::default();
    let (credential, extra) =
        status_credential(Some(summary(LiveCredentialSource::SecureStore)), &plain, LiveEnvironment::Testnet);
    assert_eq!(credential, Some(summary(LiveCredentialSource::SecureStore)));
    assert!(extra.is_empty());

    let env = EnvCredentialConfig {
        enabled: true,
        authoritative: true,
        testnet: EnvCredentialPair { api_key: Some("key".to_string()), api_secret: None },
        mainnet: EnvCredentialPair::default(),
    };
    let (credential, extra) =
        status_credential(Some(summary(LiveCredentialSource::SecureStore)), &env, LiveEnvironment::Testnet);
    assert_eq!(credential, None);
    assert_eq!(extra, vec![LiveBlockingReason::EnvCredentialPartial]);

    let (credential, extra) = status_credential(None, &env, LiveEnvironment::Mainnet);
    assert_eq!(credential, None);
    assert_eq!(extra, vec![LiveBlockingReason::EnvCredentialsMissing]);

    let (credential, extra) =
        status_credential(Some(summary(LiveCredentialSource::Env)), &env, LiveEnvironment::Testnet);
    assert_eq!(credential, Some(summary(LiveCredentialSource::Env)));
    assert!(extra.is_empty());
}
