use relxen::credential_flow::{
    apply_credential_update, check_new_credential, choose_env_testnet, credential_or_not_found,
    credential_with_new_secret, delete_refusal, env_credential_metadata, fresh_credential_id, new_credential_metadata,
    record_validation, validation_source_refusal, validation_store_unavailable,
};
use relxen::credentials::{CreateLiveCredentialRequest, UpdateLiveCredentialRequest};
use relxen::error::AppError;
use relxen::history::{assemble_history, build_history_load_plan, CandleKey};
use relxen::intent::{build_preview_checked, LatestSignal, LiveIntentInput};
use relxen::lessons::{build_lesson_report, DecisionSummary};
use relxen::live::{
    LiveAccountShadow, LiveBlockingReason, LiveCredentialId, LiveCredentialSecret, LiveCredentialSource,
    LiveCredentialSummary, LiveCredentialValidationResult, LiveCredentialValidationStatus, LiveEnvironment,
    LiveReconciliationStatus, LiveRuntimeState, LiveShadowBalance, LiveShadowStreamState,
};
use relxen::mainnet_auto::{MainnetAutoConfig, MainnetAutoDecisionOutcome, MainnetAutoRunMode};
use relxen::market::{AsoMode, SignalSide, Symbol, Timeframe};
use relxen::orders::{LiveOrderPreview, LiveOrderType, LiveReferencePriceSnapshot};
use relxen::preflight::{missing_preview_input, preflight_finished, preflight_without_exchange, preview_runtime_state};
use relxen::reference::{
    internal_reference_snapshot, reference_fetch_failed, resolution_is_fresh, reuse_internal_reference,
    settle_fetched_reference, ReferencePriceResolution,
};
use relxen::settings::{plan_settings_change, restart_after_rebuild, SeriesSettings};
use relxen::shadow_flow::mainnet_auto_live_start_blockers;
use relxen::shadow_session::{
    degraded_reconciliation, fresh_rest_shadow, keep_running_shadow, reconnected_reconciliation,
    repaired_reconciliation, running_reconciliation, shadow_start_refusal, starting_reconciliation,
    stopped_reconciliation,
};

const MIN: i64 = 60_000;

#[test]
fn internal_reference_price_is_fresh_only_while_recent() {
    // Stream message 1 s ago, within a 5 s time-to-live.
    let s = internal_reference_snapshot(LiveEnvironment::Mainnet, Symbol::BtcUsdt, "50000.50", 0, Some(99_000), Timeframe::M1, 5_000, 100_000);
    assert!(!s.stale);
    assert_eq!(s.price.as_deref(), Some("50000.5"));
    assert_eq!(s.source.as_deref(), Some("internal_market_candle"));
    assert_eq!(s.age_ms, Some(1_000));
    assert_eq!(s.observed_at, Some(99_000));
    assert_eq!(s.blocking_reason, None);
    // No stream message; the candle closed long ago.
    let s = internal_reference_snapshot(LiveEnvironment::Mainnet, Symbol::BtcUsdt, "50000", 10_000, None, Timeframe::M1, 5_000, 500_000);
    assert!(s.stale);
    assert_eq!(s.failure_reason.as_deref(), Some("reference_price_stale"));
    assert_eq!(s.blocking_reason, Some(LiveBlockingReason::ReferencePriceStale));
    // No stream message, but the candle closed within two durations.
    let s = internal_reference_snapshot(LiveEnvironment::Mainnet, Symbol::BtcUsdt, "50000", 10_000, None, Timeframe::M1, 5_000, 100_000);
    assert!(!s.stale);
    // A zero price is never fresh.
    let s = internal_reference_snapshot(LiveEnvironment::Mainnet, Symbol::BtcUsdt, "0", 0, Some(99_000), Timeframe::M1, 5_000, 100_000);
    assert!(s.stale);
    assert_eq!(s.price, None);

    let fresh = internal_reference_snapshot(LiveEnvironment::Mainnet, Symbol::BtcUsdt, "50000.50", 0, Some(99_000), Timeframe::M1, 5_000, 100_000);
    let reused = reuse_internal_reference(&Some(fresh.clone()), false).unwrap();
    assert_eq!(reused.price, (500005, 1));
    assert_eq!(reused.blocking_reason, None);
    assert!(reuse_internal_reference(&Some(fresh), true).is_none());
}

fn fetched(price: Option<&str>, observed_at: Option<i64>) -> LiveReferencePriceSnapshot {
    LiveReferencePriceSnapshot {
        environment: LiveEnvironment::Testnet,
        symbol: Symbol::BtcUsdc,
        price: price.map(|p| p.to_string()),
        source: Some("rest_mark_price".to_string()),
        observed_at,
        fetched_at: None,
        age_ms: None,
        stale: false,
        failure_reason: None,
        blocking_reason: None,
    }
}

#[test]
fn fetched_reference_price_is_settled_or_failed() {
    let r = settle_fetched_reference(fetched(Some("50000.1"), Some(9_000)), LiveEnvironment::Mainnet, Symbol::BtcUsdt, 5_000, 10_000);
    assert_eq!(r.price, (500001, 1));
    assert_eq!(r.blocking_reason, None);
    let s = r.snapshot.unwrap();
    assert_eq!(s.environment, LiveEnvironment::Mainnet);
    assert_eq!(s.symbol, Symbol::BtcUsdt);
    assert_eq!(s.fetched_at, Some(10_000));
    assert_eq!(s.age_ms, Some(1_000));
    assert!(!s.stale);

    let r = settle_fetched_reference(fetched(Some("50000.1"), Some(1_000)), LiveEnvironment::Mainnet, Symbol::BtcUsdt, 5_000, 10_000);
    assert_eq!(r.blocking_reason, Some(LiveBlockingReason::ReferencePriceStale));

    let r = reference_fetch_failed(None, LiveEnvironment::Mainnet, Symbol::BtcUsdt, "timeout", 10_000);
    assert_eq!(r.blocking_reason, Some(LiveBlockingReason::ReferencePriceUnavailable));
    let s = r.snapshot.unwrap();
    assert!(s.stale);
    assert_eq!(s.failure_reason.as_deref(), Some("reference_price_source_failed: timeout"));
    assert_eq!(s.source.as_deref(), Some("rest_mark_price"));
    assert_eq!(r.price, (0, 0));

    let internal = internal_reference_snapshot(LiveEnvironment::Mainnet, Symbol::BtcUsdt, "50000", 10_000, None, Timeframe::M1, 5_000, 500_000);
    let r = reference_fetch_failed(Some(internal), LiveEnvironment::Mainnet, Symbol::BtcUsdt, "timeout", 500_000);
    assert_eq!(r.blocking_reason, Some(LiveBlockingReason::ReferencePriceSourceFailed));
    assert_eq!(r.price, (50000, 0));
}

fn intent_input(environment: LiveEnvironment) -> LiveIntentInput {
    let mut shadow = LiveAccountShadow::default();
    shadow.environment = environment;
    shadow.ambiguous = false;
    shadow.multi_assets_margin = Some(false);
    shadow.divergence_reasons = Vec::new();
    shadow.balances = vec![LiveShadowBalance {
        asset: "USDT".to_string(),
        wallet_balance: "1000".to_string(),
        cross_wallet_balance: None,
        balance_change: None,
        updated_at: 1,
    }];
    LiveIntentInput {
        environment,
        symbol: Symbol::BtcUsdt,
        fixed_notional_text: "100".to_string(),
        leverage_text: "5".to_string(),
        rules_status: "TRADING".to_string(),
        tick_size_text: Some("0.1".to_string()),
        step_size_text: Some("0.001".to_string()),
        min_qty_text: Some("0.001".to_string()),
        min_notional_text: Some("5".to_string()),
        shadow,
        latest_signal: Some(LatestSignal { id: "sig-1".to_string(), side: SignalSide::Buy, open_time: 60_000 }),
        order_type: LiveOrderType::Market,
        reference_price: (50000, 0),
        limit_price: None,
        now_ms: 10,
    }
}

#[test]
fn preflights_are_refused_locally_or_recorded() {
    let id = LiveCredentialId::new("c1");
    let blocked = LiveOrderPreview {
        built_at: 1,
        intent: None,
        blocking_reasons: vec![LiveBlockingReason::SymbolRulesMissing],
        validation_errors: vec![],
        reference_price: None,
        marketability_check: None,
        message: "rules missing".to_string(),
    };
    let r = preflight_without_exchange(id.clone(), LiveEnvironment::Testnet, Symbol::BtcUsdt, &blocked, 5).unwrap();
    assert!(!r.accepted);
    assert_eq!(r.id.len(), 36);
    assert_eq!(r.local_blocking_reason, Some(LiveBlockingReason::SymbolRulesMissing));
    assert_eq!(r.exchange_error_message.as_deref(), Some("rules missing"));
    assert_eq!(r.message, "PREFLIGHT BLOCKED locally. No exchange request was sent.");

    let testnet = build_preview_checked(&intent_input(LiveEnvironment::Testnet), "i1").unwrap();
    assert!(preflight_without_exchange(id.clone(), LiveEnvironment::Testnet, Symbol::BtcUsdt, &testnet, 5).is_none());
    let mainnet = build_preview_checked(&intent_input(LiveEnvironment::Mainnet), "i2").unwrap();
    let r = preflight_without_exchange(id.clone(), LiveEnvironment::Mainnet, Symbol::BtcUsdt, &mainnet, 5).unwrap();
    assert_eq!(r.local_blocking_reason, Some(LiveBlockingReason::PreflightNotSupportedOnMainnet));
    assert_eq!(r.message, "PREFLIGHT BLOCKED: testnet-only in this batch.");

    let intent = testnet.intent.unwrap();
    let passed = preflight_finished(id.clone(), LiveEnvironment::Testnet, intent.clone(), Ok(()), 6);
    assert!(passed.accepted);
    assert_eq!(passed.message, "PREFLIGHT PASSED. No order was placed.");
    let failed = preflight_finished(id, LiveEnvironment::Testnet, intent, Err("-2019 margin".to_string()), 6);
    assert!(!failed.accepted);
    assert_eq!(failed.exchange_error_message.as_deref(), Some("-2019 margin"));
    assert_eq!(failed.message, "PREFLIGHT FAILED. No order was placed.");
}

fn decision(session: &str, signal: bool, would: bool, blockers: &[&str], outcome: MainnetAutoDecisionOutcome, age: Option<i64>) -> DecisionSummary {
    DecisionSummary {
        session_id: session.to_string(),
        has_signal: signal,
        would_submit: would,
        blocking_reasons: blockers.iter().map(|b| b.to_string()).collect(),
        outcome,
        reference_price_age_ms: age,
    }
}

#[test]
fn lesson_report_summarises_the_session() {
    let decisions = vec![
        decision("s1", true, false, &["risk_profile_missing", "reference_price_stale"], MainnetAutoDecisionOutcome::SkippedStaleReferencePrice, Some(800)),
        decision("other", true, true, &[], MainnetAutoDecisionOutcome::DryRunWouldSubmit, Some(5)),
        decision("s1", true, false, &["duplicate_signal_detected", "risk_profile_missing"], MainnetAutoDecisionOutcome::SkippedDuplicate, Some(1200)),
        decision("s1", false, false, &[], MainnetAutoDecisionOutcome::SkippedConfigBlocked, None),
    ];
    let r = build_lesson_report(&decisions, "s1", 77);
    assert!(r.id.starts_with("mnauto_lesson_"));
    assert_eq!(r.id.len(), 46);
    assert_eq!(r.signals_observed, 2);
    assert_eq!(r.would_submit_decisions, 0);
    assert_eq!(r.decisions_blocked, 2);
    assert_eq!(r.duplicate_suppression_count, 1);
    assert_eq!(r.top_blockers, vec!["duplicate_signal_detected", "reference_price_stale", "risk_profile_missing"]);
    assert_eq!(r.recommendation, "needs_fix_before_live");
    assert_eq!(r.reference_price_freshness_summary, "no reference price used");
    assert_eq!(r.aso_signal_summary, "2 closed-candle signal(s) observed");
    assert_eq!(r.stale_or_degraded_state, vec!["reference_price_stale"]);
    assert_eq!(r.next_checks.len(), 3);
    assert_eq!(r.risk_budget_utilization.get("orders_used").map(|s| s.as_str()), Some("0"));
    assert!(!r.live_order_submitted);
    assert_eq!(
        r.explanation,
        "# Mainnet Auto Lessons\n\nMode: dry_run\n\nLive orders submitted: no\n\nSignals observed: 2\n\nBlocked decisions: 2\n\nWould-submit decisions: 0\n\nRecommendation: needs_fix_before_live\n\nThis report is analysis only. It did not change strategy, risk settings, or live enablement.\n"
    );
    let r = build_lesson_report(&decisions, "other", 77);
    assert_eq!(r.recommendation, "ready_for_explicit_live_trial");
    assert_eq!(r.reference_price_freshness_summary, "latest reference age 5 ms");
    let r = build_lesson_report(&decisions, "none", 77);
    assert_eq!(r.recommendation, "safe_to_repeat_dry_run");
}

fn summary(source: LiveCredentialSource) -> LiveCredentialSummary {
    LiveCredentialSummary {
        id: LiveCredentialId::new("c1"),
        alias: "main".to_string(),
        environment: LiveEnvironment::Testnet,
        source,
        api_key_hint: "abcd…5678".to_string(),
        validation_status: LiveCredentialValidationStatus::Valid,
        last_validated_at: Some(100),
        last_validation_error: None,
        is_active: true,
        created_at: 1,
        updated_at: 1,
    }
}

#[test]
fn credential_lifecycle_checks_and_records() {
    let request = CreateLiveCredentialRequest {
        alias: "  main ".to_string(),
        environment: LiveEnvironment::Testnet,
        api_key: "abcd1234efgh5678".to_string(),
        api_secret: "s".to_string(),
    };
    assert_eq!(check_new_credential(&request), Ok("main".to_string()));
    let mut blank = request.clone();
    blank.alias = " ".to_string();
    assert_eq!(
        check_new_credential(&blank),
        Err(AppError::Validation("credential alias cannot be empty".to_string()))
    );
    let id = fresh_credential_id();
    assert_eq!(id.0.len(), 36);
    let meta = new_credential_metadata(id, "main".to_string(), LiveEnvironment::Testnet, "abcd1234efgh5678", false, 9);
    assert_eq!(meta.api_key_hint, "abcd…5678");
    assert!(meta.is_active);
    assert_eq!(meta.source, LiveCredentialSource::SecureStore);

    let update = UpdateLiveCredentialRequest {
        alias: Some(" new ".to_string()),
        environment: Some(LiveEnvironment::Mainnet),
        api_key: Some("k".to_string()),
        api_secret: None,
    };
    assert_eq!(
        apply_credential_update(summary(LiveCredentialSource::SecureStore), update.clone()),
        Err(AppError::Validation("api_key and api_secret must be provided together".to_string()))
    );
    assert_eq!(
        apply_credential_update(summary(LiveCredentialSource::Env), update.clone()),
        Err(AppError::Conflict(
            "env-backed credentials are read-only; update the local .env file and restart".to_string()
        ))
    );
    let mut both = update;
    both.api_secret = Some("s".to_string());
    let (c, secret) = apply_credential_update(summary(LiveCredentialSource::SecureStore), both).unwrap();
    assert_eq!(c.alias, "new");
    assert_eq!(c.environment, LiveEnvironment::Mainnet);
    assert_eq!(secret, Some(LiveCredentialSecret { api_key: "k".to_string(), api_secret: "s".to_string() }));
    let c = credential_with_new_secret(c, "zzzz1234yyyy9999", 20);
    assert_eq!(c.api_key_hint, "zzzz…9999");
    assert_eq!(c.validation_status, LiveCredentialValidationStatus::Unknown);

    assert!(delete_refusal(&Some(summary(LiveCredentialSource::Env))).is_some());
    assert!(delete_refusal(&None).is_none());
    assert!(validation_source_refusal(true, LiveCredentialSource::SecureStore).is_some());
    assert!(validation_source_refusal(true, LiveCredentialSource::Env).is_none());
    assert_eq!(
        credential_or_not_found(None, &LiveCredentialId::new("c9")),
        Err(AppError::NotFound("live credential not found: c9".to_string()))
    );

    let error = AppError::SecureStoreUnavailable("keyring locked".to_string());
    let (c, result) = validation_store_unavailable(summary(LiveCredentialSource::SecureStore), &error, 30);
    assert_eq!(c.validation_status, LiveCredentialValidationStatus::SecureStoreUnavailable);
    assert_eq!(c.last_validation_error.as_deref(), Some("secure store unavailable: keyring locked"));
    assert_eq!(result.message.as_deref(), Some("secure store unavailable: keyring locked"));

    let validated = LiveCredentialValidationResult {
        credential_id: LiveCredentialId::new("c1"),
        environment: LiveEnvironment::Testnet,
        status: LiveCredentialValidationStatus::InvalidSignature,
        validated_at: 40,
        message: Some("bad sig".to_string()),
    };
    let c = record_validation(summary(LiveCredentialSource::SecureStore), &validated, 41);
    assert_eq!(c.validation_status, LiveCredentialValidationStatus::InvalidSignature);
    assert_eq!(c.last_validated_at, Some(40));
    assert_eq!(c.updated_at, 41);
}

#[test]
fn environment_credentials_are_synced_and_chosen() {
    let secret = LiveCredentialSecret { api_key: "abcd1234efgh5678".to_string(), api_secret: "s".to_string() };
    let mut stored = summary(LiveCredentialSource::Env);
    let c = env_credential_metadata(LiveEnvironment::Testnet, &secret, &Some(stored.clone()), 50);
    assert_eq!(c.id, LiveCredentialId::new("env-testnet"));
    assert_eq!(c.alias, "env-testnet");
    assert_eq!(c.validation_status, LiveCredentialValidationStatus::Valid);
    assert_eq!(c.created_at, 1);
    stored.api_key_hint = "wxyz…0000".to_string();
    let c = env_credential_metadata(LiveEnvironment::Testnet, &secret, &Some(stored), 50);
    assert_eq!(c.validation_status, LiveCredentialValidationStatus::Unknown);
    let c = env_credential_metadata(LiveEnvironment::Mainnet, &secret, &None, 50);
    assert!(!c.is_active);
    assert_eq!(c.created_at, 50);

    let valid = Some(summary(LiveCredentialSource::SecureStore));
    assert_eq!(choose_env_testnet(false, true, &valid, 1_000, LiveEnvironment::Mainnet, 200), (false, false));
    assert_eq!(choose_env_testnet(true, true, &valid, 1_000, LiveEnvironment::Mainnet, 200), (true, true));
    assert_eq!(choose_env_testnet(false, true, &None, 1_000, LiveEnvironment::Mainnet, 200), (true, true));
    assert_eq!(choose_env_testnet(false, true, &valid, 10, LiveEnvironment::Mainnet, 200), (true, false));
    assert_eq!(choose_env_testnet(true, false, &None, 1_000, LiveEnvironment::Testnet, 200), (false, false));
}

#[test]
fn shadow_session_states() {
    assert!(keep_running_shadow(true, LiveEnvironment::Testnet, LiveEnvironment::Testnet));
    assert!(!keep_running_shadow(true, LiveEnvironment::Mainnet, LiveEnvironment::Testnet));
    assert_eq!(
        shadow_start_refusal(LiveCredentialValidationStatus::Unknown),
        Some(AppError::Conflict("live shadow sync requires a validated active credential".to_string()))
    );
    assert_eq!(shadow_start_refusal(LiveCredentialValidationStatus::Valid), None);

    let mut shadow = LiveAccountShadow::default();
    shadow.divergence_reasons = vec![LiveBlockingReason::ShadowStateAmbiguous];
    let shadow = fresh_rest_shadow(shadow, 5);
    assert!(!shadow.ambiguous);
    assert!(shadow.divergence_reasons.is_empty());
    assert_eq!(shadow.last_rest_sync_at, Some(5));

    let rec = starting_reconciliation(shadow.clone(), LiveEnvironment::Testnet, 5);
    assert_eq!(rec.state, LiveRuntimeState::ShadowStarting);
    assert_eq!(rec.stream.state, LiveShadowStreamState::Starting);
    assert_eq!(rec.stream.detail.as_deref(), Some("starting user-data stream"));
    let rec = running_reconciliation(rec, LiveEnvironment::Testnet, "abcdefghijklmnop", 6);
    assert_eq!(rec.stream.state, LiveShadowStreamState::Running);
    assert_eq!(rec.stream.listen_key_hint.as_deref(), Some("abcd…mnop"));
    let rec = reconnected_reconciliation(rec, LiveEnvironment::Testnet, "qrstuvwxyz0123", 7);
    assert_eq!(rec.stream.reconnect_attempts, 1);
    assert_eq!(rec.stream.detail.as_deref(), Some("forced 24h user-data reconnect completed"));
    let rec = degraded_reconciliation(rec, "stream ended".to_string(), 8);
    assert!(rec.stream.stale);
    assert_eq!(rec.blocking_reasons, vec![LiveBlockingReason::ShadowStateAmbiguous]);
    let rec = degraded_reconciliation(rec, "again".to_string(), 9);
    assert_eq!(rec.blocking_reasons, vec![LiveBlockingReason::ShadowStateAmbiguous]);
    let rec = repaired_reconciliation(rec, shadow, LiveEnvironment::Testnet, 10);
    assert!(!rec.stream.stale);
    assert!(rec.blocking_reasons.is_empty());
    let rec = stopped_reconciliation(rec, 11);
    assert_eq!(rec.state, LiveRuntimeState::ArmedReadOnly);
    assert_eq!(rec.stream.detail.as_deref(), Some("stopped by operator"));
    let _ = LiveReconciliationStatus::default();
}

#[test]
fn settings_changes_are_planned() {
    let a = SeriesSettings { active_symbol: Symbol::BtcUsdt, timeframe: Timeframe::M1, aso_length: 10, aso_mode: AsoMode::Both };
    let mut b = a;
    b.active_symbol = Symbol::BtcUsdc;
    assert_eq!(
        plan_settings_change(true, true, &a, &b),
        Err(AppError::Conflict("cannot change active symbol while a position is open".to_string()))
    );
    assert_eq!(plan_settings_change(false, true, &a, &b), Ok(true));
    assert_eq!(plan_settings_change(false, false, &a, &b), Ok(false));
    assert_eq!(plan_settings_change(true, true, &a, &a), Ok(false));
    assert!(restart_after_rebuild(true, false, false));
    assert!(restart_after_rebuild(true, true, true));
    assert!(!restart_after_rebuild(true, true, false));
    assert!(!restart_after_rebuild(false, false, true));
}

fn key(open_time: i64, closed: bool) -> CandleKey {
    CandleKey { symbol: Symbol::BtcUsdt, timeframe: Timeframe::M1, open_time, closed }
}

#[test]
fn rebuild_history_merges_and_checks_the_window() {
    let now = 10 * MIN + 5;
    let local = vec![key(8 * MIN, true), key(9 * MIN, true)];
    let plan = build_history_load_plan(Symbol::BtcUsdt, Timeframe::M1, 2, AsoMode::Group, 2, now, &local);
    assert!(plan.remote_backfill_required);
    // Without the backfill the stored candles do not cover the window.
    assert_eq!(
        assemble_history(&local, &vec![], false, &plan),
        Err(AppError::History("expected 3 closed candles but found 2".to_string()))
    );
    let fetched = vec![key(7 * MIN, true), key(8 * MIN, true), key(9 * MIN, true)];
    // Positions 2.. are the fetched candles, which replace stored ones with the same open time.
    assert_eq!(assemble_history(&local, &fetched, true, &plan), Ok(vec![2, 3, 4]));
    let gap = vec![key(7 * MIN, true)];
    assert_eq!(
        assemble_history(&vec![key(9 * MIN, true)], &gap, true, &plan),
        Err(AppError::History("expected 3 closed candles but found 2".to_string()))
    );
}

#[test]
fn live_auto_start_lists_every_blocker() {
    let blockers = mainnet_auto_live_start_blockers(&MainnetAutoConfig::default());
    assert_eq!(
        blockers,
        vec![
            "evidence_logging_required",
            "lesson_report_required",
            "mainnet_auto_config_disabled",
            "mainnet_auto_mode_dry_run",
            "mainnet_auto_mode_not_live",
            "manual_canary_evidence_required",
        ]
    );
    let mut config = MainnetAutoConfig::default();
    config.enable_live_execution = true;
    config.mode = MainnetAutoRunMode::Live;
    config.require_manual_canary_evidence = false;
    config.evidence_required = false;
    config.lesson_report_required = false;
    assert!(mainnet_auto_live_start_blockers(&config).is_empty());
}

#[test]
fn preview_inputs_and_state_follow_the_preview() {
    assert_eq!(missing_preview_input(false, false), Some(AppError::Conflict("symbol rules are missing".to_string())));
    assert_eq!(missing_preview_input(true, false), Some(AppError::Conflict("live shadow state is missing".to_string())));
    assert_eq!(missing_preview_input(true, true), None);

    let ready = build_preview_checked(&intent_input(LiveEnvironment::Testnet), "intent-1").unwrap();
    assert!(ready.intent.is_some());
    assert!(ready.blocking_reasons.is_empty());
    assert_eq!(preview_runtime_state(&ready), LiveRuntimeState::PreflightReady);

    let mut blocked_input = intent_input(LiveEnvironment::Testnet);
    blocked_input.rules_status = "BREAK".to_string();
    let blocked = build_preview_checked(&blocked_input, "intent-2").unwrap();
    assert!(!blocked.blocking_reasons.is_empty());
    assert_eq!(preview_runtime_state(&blocked), LiveRuntimeState::PreflightBlocked);
}

#[test]
fn reference_freshness_needs_an_unblocked_priced_snapshot() {
    let fresh = internal_reference_snapshot(LiveEnvironment::Mainnet, Symbol::BtcUsdt, "50000.50", 0, Some(99_000), Timeframe::M1, 5_000, 100_000);
    let resolution = ReferencePriceResolution { price: (5000050, 2), snapshot: Some(fresh.clone()), blocking_reason: None };
    assert!(resolution_is_fresh(&resolution));
    let blocked = ReferencePriceResolution {
        price: (5000050, 2),
        snapshot: Some(fresh.clone()),
        blocking_reason: Some(LiveBlockingReason::ReferencePriceStale),
    };
    assert!(!resolution_is_fresh(&blocked));
    let stale = ReferencePriceResolution {
        price: (5000050, 2),
        snapshot: Some(LiveReferencePriceSnapshot { stale: true, ..fresh.clone() }),
        blocking_reason: None,
    };
    assert!(!resolution_is_fresh(&stale));
    let unpriced = ReferencePriceResolution {
        price: (0, 0),
        snapshot: Some(LiveReferencePriceSnapshot { price: None, ..fresh }),
        blocking_reason: None,
    };
    assert!(!resolution_is_fresh(&unpriced));
    let missing = ReferencePriceResolution { price: (0, 0), snapshot: None, blocking_reason: None };
    assert!(!resolution_is_fresh(&missing));
}
