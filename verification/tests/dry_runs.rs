use relxen::dry_run::{decide_dry_run, duplicate_signal_seen, DecisionKey, DryRunInputs, DryRunSignal};
use relxen::live::{LiveBlockingReason, LiveEnvironment};
use relxen::mainnet_auto::{MainnetAutoConfig, MainnetAutoDecisionOutcome, MainnetAutoRunMode};
use relxen::market::{SignalSide, Symbol, Timeframe};
use relxen::options::{EnvCredentialConfig, EnvCredentialPair};
use relxen::shadow_flow::{env_credential_blockers, mainnet_auto_config_blockers, start_check_blocking};

fn ready_inputs() -> DryRunInputs {
    DryRunInputs {
        kill_switch_engaged: false,
        credential_environment: Some(LiveEnvironment::Mainnet),
        live_environment: LiveEnvironment::Mainnet,
        risk_budget_configured: true,
        reference_blocking: None,
        open_mainnet_order: false,
        open_mainnet_position: false,
        signal: Some(DryRunSignal { id: "s1".to_string(), side: SignalSide::Buy, open_time: 1_700_000_000_000 }),
        duplicate_seen: false,
    }
}

#[test]
fn clean_dry_run_would_submit() {
    let d = decide_dry_run(&ready_inputs(), Symbol::BtcUsdt, Timeframe::M5, 42);
    assert!(d.would_submit);
    assert_eq!(d.outcome, MainnetAutoDecisionOutcome::DryRunWouldSubmit);
    assert!(d.blocking_reasons.is_empty());
    assert_eq!(d.intent_hash.as_deref(), Some("dry-run:BTCUSDT:5m:1700000000000"));
    assert_eq!(d.message, "Dry-run would submit if live auto were separately enabled; no order was sent.");
}

#[test]
fn dry_run_blockers_are_sorted_and_named() {
    let mut inputs = ready_inputs();
    inputs.kill_switch_engaged = true;
    inputs.open_mainnet_position = true;
    inputs.risk_budget_configured = false;
    let d = decide_dry_run(&inputs, Symbol::BtcUsdt, Timeframe::M1, 42);
    assert!(!d.would_submit);
    assert_eq!(d.blocking_reasons, vec!["kill_switch_engaged", "open_position", "risk_profile_missing"]);
    assert_eq!(d.outcome, MainnetAutoDecisionOutcome::SkippedOpenPosition);
    assert_eq!(d.intent_hash, None);
    assert_eq!(
        d.message,
        "Dry-run blocked before submit: kill_switch_engaged, open_position, risk_profile_missing"
    );
}

#[test]
fn dry_run_outcome_prefers_duplicates_then_reference_price() {
    let mut inputs = ready_inputs();
    inputs.duplicate_seen = true;
    inputs.reference_blocking = Some(LiveBlockingReason::ReferencePriceStale);
    inputs.open_mainnet_order = true;
    let d = decide_dry_run(&inputs, Symbol::BtcUsdt, Timeframe::M1, 42);
    assert_eq!(d.outcome, MainnetAutoDecisionOutcome::SkippedDuplicate);

    inputs.duplicate_seen = false;
    let d = decide_dry_run(&inputs, Symbol::BtcUsdt, Timeframe::M1, 42);
    assert_eq!(d.blocking_reasons, vec!["open_order", "reference_price_stale"]);
    assert_eq!(d.outcome, MainnetAutoDecisionOutcome::SkippedStaleReferencePrice);

    let mut inputs = ready_inputs();
    inputs.signal = None;
    inputs.live_environment = LiveEnvironment::Testnet;
    inputs.credential_environment = Some(LiveEnvironment::Testnet);
    let d = decide_dry_run(&inputs, Symbol::BtcUsdt, Timeframe::M1, 42);
    assert_eq!(
        d.blocking_reasons,
        vec!["mainnet_credential_not_selected", "mainnet_environment_not_selected", "no_closed_candle_signal"]
    );
    assert_eq!(d.outcome, MainnetAutoDecisionOutcome::SkippedConfigBlocked);
}

#[test]
fn recorded_decisions_detect_repeated_signals() {
    let signal = DryRunSignal { id: "s1".to_string(), side: SignalSide::Sell, open_time: 600 };
    let key = DecisionKey {
        environment: LiveEnvironment::Mainnet,
        symbol: Symbol::BtcUsdt,
        timeframe: Timeframe::M1,
        closed_candle_open_time: Some(600),
        signal_side: Some(SignalSide::Sell),
        strategy_id: "aso_closed_candle_v1".to_string(),
    };
    assert!(duplicate_signal_seen(&vec![key.clone()], Symbol::BtcUsdt, Timeframe::M1, &signal));
    let mut other = key.clone();
    other.signal_side = Some(SignalSide::Buy);
    assert!(!duplicate_signal_seen(&vec![other], Symbol::BtcUsdt, Timeframe::M1, &signal));
    assert!(!duplicate_signal_seen(&vec![key], Symbol::BtcUsdt, Timeframe::M5, &signal));
}

#[test]
fn default_mainnet_auto_config_is_blocked_for_live_use() {
    let blockers = mainnet_auto_config_blockers(&MainnetAutoConfig::default());
    assert!(blockers.contains(&"mainnet_auto_config_disabled".to_string()));
    assert!(blockers.contains(&"mainnet_auto_mode_dry_run".to_string()));
    let mut sorted = blockers.clone();
    sorted.sort();
    sorted.dedup();
    assert_eq!(blockers, sorted);

    let mut config = MainnetAutoConfig::default();
    config.enable_live_execution = true;
    config.mode = MainnetAutoRunMode::Live;
    config.require_manual_canary_evidence = false;
    config.evidence_required = false;
    config.lesson_report_required = false;
    assert!(mainnet_auto_config_blockers(&config).is_empty());
}

#[test]
fn environment_credentials_block_when_incomplete() {
    let mut config = EnvCredentialConfig::default();
    assert!(env_credential_blockers(&config, LiveEnvironment::Testnet).is_empty());
    config.enabled = true;
    assert_eq!(
        env_credential_blockers(&config, LiveEnvironment::Testnet),
        vec![LiveBlockingReason::EnvCredentialsMissing]
    );
    config.testnet = EnvCredentialPair { api_key: Some("k".to_string()), api_secret: None };
    assert_eq!(
        env_credential_blockers(&config, LiveEnvironment::Testnet),
        vec![LiveBlockingReason::EnvCredentialPartial]
    );
    config.testnet.api_secret = Some("s".to_string());
    assert!(env_credential_blockers(&config, LiveEnvironment::Testnet).is_empty());
    assert_eq!(
        env_credential_blockers(&config, LiveEnvironment::Mainnet),
        vec![LiveBlockingReason::EnvCredentialsMissing]
    );
}

#[test]
fn autonomous_start_always_reports_execution_not_implemented() {
    assert_eq!(start_check_blocking(&vec![]), vec![LiveBlockingReason::ExecutionNotImplemented]);
    let already = vec![LiveBlockingReason::ExecutionNotImplemented, LiveBlockingReason::KillSwitchEngaged];
    assert_eq!(start_check_blocking(&already), already);
}
