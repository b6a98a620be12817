use relxen::intent::{build_preview_checked, try_build_live_order_preview, LatestSignal, LiveIntentInput};
use relxen::live::{
    LiveAccountShadow, LiveBlockingReason, LiveCredentialId, LiveCredentialSource, LiveCredentialSummary,
    LiveCredentialValidationStatus, LiveEnvironment, LiveModePreference, LiveReconciliationStatus, LiveRuntimeState,
    LiveShadowBalance, LiveShadowPosition, LiveShadowStreamState, LiveWarning,
};
use relxen::live_actions::{
    execution_request_refusal, flatten_request_refusal, mainnet_canary_refusal, plan_flatten, submission_refusal,
    FlattenStep,
};
use relxen::market::{SignalSide, Symbol};
use relxen::options::ServiceOptions;
use relxen::orders::{
    LiveAutoExecutorStatus, LiveExecutionRequest, LiveExecutionSnapshot, LiveExecutionState, LiveFlattenRequest,
    LiveKillSwitchState, LiveOrderPreview, LiveOrderSide, LiveOrderType, LiveRiskProfile, LiveStateRecord,
};
use relxen::readiness::{build_live_status_core, AccountSnapshotSummary, LiveStatusCore};

const NOW: i64 = 10_000_000;

fn shadow(environment: LiveEnvironment) -> LiveAccountShadow {
    let mut s = LiveAccountShadow::default();
    s.environment = environment;
    s.ambiguous = false;
    s.multi_assets_margin = Some(false);
    s.divergence_reasons = Vec::new();
    s.balances = vec![LiveShadowBalance {
        asset: "USDT".to_string(),
        wallet_balance: "1000".to_string(),
        cross_wallet_balance: None,
        balance_change: None,
        updated_at: NOW,
    }];
    s
}

fn intent_input(environment: LiveEnvironment, order_type: LiveOrderType, limit_price: Option<(i128, u32)>) -> LiveIntentInput {
    LiveIntentInput {
        environment,
        symbol: Symbol::BtcUsdt,
        fixed_notional_text: "100".to_string(),
        leverage_text: "5".to_string(),
        rules_status: "TRADING".to_string(),
        tick_size_text: Some("0.1".to_string()),
        step_size_text: Some("0.001".to_string()),
        min_qty_text: Some("0.001".to_string()),
        min_notional_text: Some("5".to_string()),
        shadow: shadow(environment),
        latest_signal: Some(LatestSignal { id: "sig-1".to_string(), side: SignalSide::Buy, open_time: 60_000 }),
        order_type,
        reference_price: (50000, 0),
        limit_price,
        now_ms: NOW,
    }
}

fn credential(environment: LiveEnvironment) -> LiveCredentialSummary {
    LiveCredentialSummary {
        id: LiveCredentialId::new("cred-1"),
        alias: "main".to_string(),
        environment,
        source: LiveCredentialSource::SecureStore,
        api_key_hint: "abcd…wxyz".to_string(),
        validation_status: LiveCredentialValidationStatus::Valid,
        last_validated_at: Some(NOW - 1_000),
        last_validation_error: None,
        is_active: true,
        created_at: 0,
        updated_at: 0,
    }
}

fn running_reconciliation(environment: LiveEnvironment) -> LiveReconciliationStatus {
    let mut rec = LiveReconciliationStatus::default();
    rec.state = LiveRuntimeState::ShadowRunning;
    rec.stream.state = LiveShadowStreamState::Running;
    rec.stream.environment = environment;
    rec.stream.last_event_time = Some(NOW - 1_000);
    rec.shadow = Some(shadow(environment));
    rec
}

fn status(
    environment: LiveEnvironment,
    preview: &Option<LiveOrderPreview>,
    kill_switch: &LiveKillSwitchState,
    risk: &LiveRiskProfile,
    options: &ServiceOptions,
) -> LiveStatusCore {
    let live_state = LiveStateRecord {
        mode_preference: LiveModePreference::LiveReadOnly,
        environment,
        armed: true,
        updated_at: NOW,
    };
    build_live_status_core(
        &live_state,
        &Some(credential(environment)),
        Some(NOW - 1_000),
        Some(AccountSnapshotSummary { fetched_at: NOW - 1_000, has_open_position: false }),
        running_reconciliation(environment),
        preview,
        LiveExecutionSnapshot::default(),
        kill_switch,
        risk,
        &LiveAutoExecutorStatus::default(),
        false,
        &Vec::new(),
        NOW,
        options,
    )
}

#[test]
fn market_preview_sizes_and_rounds_quantity() {
    let p = build_preview_checked(&intent_input(LiveEnvironment::Testnet, LiveOrderType::Market, None), "intent-1")
        .unwrap();
    assert!(p.blocking_reasons.is_empty());
    assert_eq!(p.message, "TESTNET PREVIEW READY. Actual placement is testnet-only and gated.");
    let i = p.intent.unwrap();
    assert_eq!(i.id, "intent-1");
    assert_eq!(i.quantity, "0.002");
    assert_eq!(i.price, None);
    assert_eq!(i.sizing.raw_quantity, "0.002");
    assert_eq!(i.sizing.estimated_notional, "100");
    assert_eq!(i.sizing.required_margin, "20");
    assert_eq!(i.sizing.available_balance, "1000");
    assert_eq!(i.intent_hash, "testnet:BTCUSDT:BUY:MARKET:0.002:-:false:sig-1");
    assert_eq!(i.exchange_payload.get("quantity").map(|s| s.as_str()), Some("0.002"));
    assert_eq!(i.exchange_payload.get("type").map(|s| s.as_str()), Some("MARKET"));
    assert_eq!(i.reason, "latest_closed_signal");
    assert!(i.can_execute_now);
}

#[test]
fn limit_preview_rounds_price_to_tick_and_notes_it() {
    let p = build_preview_checked(
        &intent_input(LiveEnvironment::Testnet, LiveOrderType::Limit, Some((4999987, 2))),
        "intent-2",
    )
    .unwrap();
    let i = p.intent.unwrap();
    assert_eq!(i.price.as_deref(), Some("49999.8"));
    assert_eq!(i.time_in_force.as_deref(), Some("GTC"));
    assert_eq!(i.exchange_payload.get("timeInForce").map(|s| s.as_str()), Some("GTC"));
    assert!(i.validation_notes.iter().any(|n| n == "limit price rounded from 49999.87 to 49999.8"));
}

#[test]
fn limit_preview_without_price_is_blocked() {
    let p = build_preview_checked(&intent_input(LiveEnvironment::Testnet, LiveOrderType::Limit, None), "x").unwrap();
    assert!(p.intent.is_none());
    assert_eq!(p.blocking_reasons, vec![LiveBlockingReason::IntentUnavailable]);
    assert_eq!(p.validation_errors, vec!["limit order preview requires limit_price".to_string()]);
    assert_eq!(p.message, "PREFLIGHT BLOCKED. No exchange request was sent.");
}

#[test]
fn preview_blocks_on_rules_margin_and_minimums() {
    let mut input = intent_input(LiveEnvironment::Testnet, LiveOrderType::Market, None);
    input.rules_status = "BREAK".to_string();
    input.min_notional_text = Some("500".to_string());
    input.shadow.balances[0].wallet_balance = "1".to_string();
    let p = build_preview_checked(&input, "x").unwrap();
    assert!(p.intent.is_none());
    assert_eq!(
        p.blocking_reasons,
        vec![LiveBlockingReason::IntentUnavailable, LiveBlockingReason::MinNotional, LiveBlockingReason::RulesMissing]
    );
    assert_eq!(
        p.validation_errors,
        vec![
            "symbol status is BREAK".to_string(),
            "required margin exceeds available live shadow balance".to_string(),
            "estimated notional 100.000 is below min notional 500".to_string(),
        ]
    );
}

#[test]
fn preview_on_mainnet_refuses_preflight() {
    let p = try_build_live_order_preview(&intent_input(LiveEnvironment::Mainnet, LiveOrderType::Market, None)).unwrap();
    assert_eq!(p.blocking_reasons, vec![LiveBlockingReason::PreflightNotSupportedOnMainnet]);
    assert_eq!(p.message, "Preflight is testnet-only in this batch.");
    assert_eq!(p.intent.unwrap().id.len(), 36);
}

#[test]
fn armed_testnet_with_fresh_state_can_submit() {
    let preview = build_preview_checked(&intent_input(LiveEnvironment::Testnet, LiveOrderType::Market, None), "i").unwrap();
    let s = status(
        LiveEnvironment::Testnet,
        &Some(preview),
        &LiveKillSwitchState::default(),
        &LiveRiskProfile::default(),
        &ServiceOptions::default(),
    );
    assert!(s.readiness.can_arm, "{:?}", s.readiness.blocking_reasons);
    assert!(s.readiness.blocking_reasons.is_empty());
    assert!(s.execution.can_submit, "{:?}", s.execution.blocking_reasons);
    assert!(s.armed);
    assert_eq!(s.execution.state, LiveExecutionState::TestnetExecutionReady);
    assert_eq!(s.state, LiveRuntimeState::TestnetExecutionReady);
    assert!(s.execution_availability.can_execute_live);
    assert_eq!(s.execution_availability.message, "TESTNET execution ready for the displayed preview.");
    assert_eq!(s.readiness.warnings, vec![LiveWarning::TestnetEnvironment]);
    assert!(!s.mainnet_canary.canary_ready);
}

#[test]
fn kill_switch_blocks_submission() {
    let preview = build_preview_checked(&intent_input(LiveEnvironment::Testnet, LiveOrderType::Market, None), "i").unwrap();
    let mut kill = LiveKillSwitchState::default();
    kill.engaged = true;
    let s = status(LiveEnvironment::Testnet, &Some(preview), &kill, &LiveRiskProfile::default(), &ServiceOptions::default());
    assert!(!s.execution.can_submit);
    assert!(!s.readiness.can_arm);
    assert!(!s.armed);
    assert!(s.execution.blocking_reasons.contains(&LiveBlockingReason::KillSwitchEngaged));
    assert_eq!(s.execution.state, LiveExecutionState::KillSwitchEngaged);
    assert_eq!(s.state, LiveRuntimeState::KillSwitchEngaged);
}

#[test]
fn mainnet_execution_needs_canary_flag_and_risk_profile() {
    let preview = build_preview_checked(
        &intent_input(LiveEnvironment::Mainnet, LiveOrderType::Limit, Some((4900000, 2))),
        "i",
    )
    .unwrap();
    let s = status(
        LiveEnvironment::Mainnet,
        &Some(preview.clone()),
        &LiveKillSwitchState::default(),
        &LiveRiskProfile::default(),
        &ServiceOptions::default(),
    );
    assert!(!s.execution.can_submit);
    assert!(s.execution.blocking_reasons.contains(&LiveBlockingReason::MainnetCanaryDisabled));
    assert!(s.execution.blocking_reasons.contains(&LiveBlockingReason::MainnetCanaryRiskProfileMissing));
    assert_eq!(s.execution.state, LiveExecutionState::MainnetExecutionBlocked);
    assert_eq!(s.execution_availability.message, "MAINNET canary execution is disabled by server policy.");
    assert!(!s.mainnet_canary.canary_ready);
    assert_eq!(
        s.mainnet_canary.required_confirmation.as_deref(),
        Some("SUBMIT MAINNET BUY LIMIT BTCUSDT 0.002 @ 49000")
    );

    let mut options = ServiceOptions::default();
    options.enable_mainnet_canary_execution = true;
    let mut risk = LiveRiskProfile::default();
    risk.configured = true;
    let s = status(LiveEnvironment::Mainnet, &Some(preview.clone()), &LiveKillSwitchState::default(), &risk, &options);
    // The default limits (50 notional) are below this order's notional.
    assert!(s.execution.blocking_reasons.contains(&LiveBlockingReason::RiskLimitExceeded));
    assert!(!s.execution.blocking_reasons.contains(&LiveBlockingReason::MainnetCanaryDisabled));
    assert!(!s.execution.blocking_reasons.contains(&LiveBlockingReason::MainnetCanaryRiskProfileMissing));

    risk.limits.max_notional_per_order = "1000".to_string();
    risk.limits.max_leverage = "10".to_string();
    let s = status(LiveEnvironment::Mainnet, &Some(preview), &LiveKillSwitchState::default(), &risk, &options);
    // A mainnet preview still carries the preflight refusal, which keeps submission closed.
    assert_eq!(
        s.execution.blocking_reasons,
        vec![LiveBlockingReason::PreflightNotSupportedOnMainnet]
    );
    assert!(!s.execution.can_submit);
    assert!(s.mainnet_canary.enabled_by_server);
    assert!(s.mainnet_canary.risk_profile_configured);
    assert!(!s.mainnet_canary.canary_ready);
}

#[test]
fn missing_credential_fails_readiness_closed() {
    let live_state = LiveStateRecord {
        mode_preference: LiveModePreference::LiveReadOnly,
        environment: LiveEnvironment::Testnet,
        armed: true,
        updated_at: NOW,
    };
    let s = build_live_status_core(
        &live_state,
        &None,
        None,
        None,
        LiveReconciliationStatus::default(),
        &None,
        LiveExecutionSnapshot::default(),
        &LiveKillSwitchState::default(),
        &LiveRiskProfile::default(),
        &LiveAutoExecutorStatus::default(),
        true,
        &vec![LiveBlockingReason::SecureStoreUnavailable],
        NOW,
        &ServiceOptions::default(),
    );
    assert!(!s.readiness.can_arm);
    assert_eq!(s.readiness.state, LiveRuntimeState::CredentialsMissing);
    assert_eq!(
        s.readiness.blocking_reasons,
        vec![
            LiveBlockingReason::AccountSnapshotMissing,
            LiveBlockingReason::NoActiveCredential,
            LiveBlockingReason::PaperPositionOpen,
            LiveBlockingReason::SecureStoreUnavailable,
            LiveBlockingReason::SymbolRulesMissing,
        ]
    );
    let codes: Vec<&str> = s.readiness.checks.iter().map(|c| c.code.as_str()).collect();
    assert_eq!(codes, vec!["active_credential", "symbol_rules", "account_snapshot", "paper_position_flat"]);
    assert!(!s.execution.can_submit);
    assert!(!s.armed);
}

#[test]
fn execution_request_refusals_follow_the_preview() {
    let request = LiveExecutionRequest {
        intent_id: Some("other".to_string()),
        confirm_testnet: true,
        confirm_mainnet_canary: false,
        confirmation_text: None,
    };
    let r = execution_request_refusal(LiveEnvironment::Testnet, &None, &request, false, NOW).unwrap();
    assert_eq!(r.blocking_reason, Some(LiveBlockingReason::IntentUnavailable));
    assert_eq!(r.message, "No live intent preview exists.");
    let preview = build_preview_checked(&intent_input(LiveEnvironment::Testnet, LiveOrderType::Market, None), "i").unwrap();
    let r = execution_request_refusal(LiveEnvironment::Testnet, &Some(preview.clone()), &request, false, NOW).unwrap();
    assert_eq!(r.blocking_reason, Some(LiveBlockingReason::PreviewMismatch));
    let ok = LiveExecutionRequest { intent_id: Some("i".to_string()), ..request.clone() };
    assert!(execution_request_refusal(LiveEnvironment::Testnet, &Some(preview.clone()), &ok, false, NOW).is_none());
    let unconfirmed = LiveExecutionRequest { confirm_testnet: false, ..ok };
    let r = execution_request_refusal(LiveEnvironment::Testnet, &Some(preview), &unconfirmed, false, NOW).unwrap();
    assert_eq!(r.blocking_reason, Some(LiveBlockingReason::ExecutionStatusUnknown));
    assert!(!r.accepted);
    assert_eq!(r.created_at, NOW);
}

#[test]
fn mainnet_canary_needs_non_marketable_limit_and_exact_confirmation() {
    let preview = build_preview_checked(
        &intent_input(LiveEnvironment::Mainnet, LiveOrderType::Limit, Some((4900000, 2))),
        "i",
    )
    .unwrap();
    let intent = preview.intent.unwrap();
    let mut request = LiveExecutionRequest {
        intent_id: None,
        confirm_testnet: false,
        confirm_mainnet_canary: true,
        confirmation_text: Some("wrong".to_string()),
    };
    let marketable = mainnet_canary_refusal(&intent, &request, None, (48000, 0), true, true, NOW).unwrap();
    assert_eq!(marketable.blocking_reason, Some(LiveBlockingReason::MainnetCanaryLimitMarketable));
    let stale = mainnet_canary_refusal(
        &intent,
        &request,
        Some(LiveBlockingReason::ReferencePriceStale),
        (50000, 0),
        true,
        true,
        NOW,
    )
    .unwrap();
    assert_eq!(stale.blocking_reason, Some(LiveBlockingReason::ReferencePriceStale));
    let disabled = mainnet_canary_refusal(&intent, &request, None, (50000, 0), false, true, NOW).unwrap();
    assert_eq!(disabled.blocking_reason, Some(LiveBlockingReason::MainnetCanaryDisabled));
    let unconfirmed = mainnet_canary_refusal(&intent, &request, None, (50000, 0), true, true, NOW).unwrap();
    assert_eq!(unconfirmed.blocking_reason, Some(LiveBlockingReason::MainnetConfirmationMissing));
    assert_eq!(
        unconfirmed.message,
        "MAINNET canary requires exact confirmation: SUBMIT MAINNET BUY LIMIT BTCUSDT 0.002 @ 49000"
    );
    request.confirmation_text = Some("SUBMIT MAINNET BUY LIMIT BTCUSDT 0.002 @ 49000".to_string());
    assert!(mainnet_canary_refusal(&intent, &request, None, (50000, 0), true, true, NOW).is_none());
}

#[test]
fn submission_refused_with_first_execution_reason() {
    let mut execution = LiveExecutionSnapshot::default();
    execution.blocking_reasons = vec![LiveBlockingReason::KillSwitchEngaged, LiveBlockingReason::RuntimeBusy];
    let r = submission_refusal(LiveEnvironment::Testnet, &execution, NOW).unwrap();
    assert_eq!(r.blocking_reason, Some(LiveBlockingReason::KillSwitchEngaged));
    assert_eq!(r.message, "testnet execution blocked: kill_switch_engaged");
    execution.can_submit = true;
    assert!(submission_refusal(LiveEnvironment::Testnet, &execution, NOW).is_none());
}

#[test]
fn flatten_plans_reduce_only_order_against_position() {
    let request = LiveFlattenRequest { confirm_testnet: true, confirm_mainnet_canary: false, confirmation_text: None };
    assert!(flatten_request_refusal(LiveEnvironment::Testnet, &request, Symbol::BtcUsdt, false, NOW).is_none());
    let mainnet = flatten_request_refusal(LiveEnvironment::Mainnet, &request, Symbol::BtcUsdt, true, NOW).unwrap();
    assert_eq!(mainnet.message, "MAINNET canary flatten requires exact confirmation: FLATTEN MAINNET BTCUSDT");

    let mut sh = shadow(LiveEnvironment::Testnet);
    sh.positions = vec![LiveShadowPosition {
        symbol: Symbol::BtcUsdt,
        position_side: "BOTH".to_string(),
        position_amt: "-0.0157".to_string(),
        entry_price: "50000".to_string(),
        unrealized_pnl: "0".to_string(),
        margin_type: None,
        isolated_wallet: None,
        updated_at: NOW,
    }];
    match plan_flatten(&Vec::new(), &Some(sh.clone()), Symbol::BtcUsdt, true, &Some("0.001".to_string()), NOW) {
        Ok(FlattenStep::Submit { side, quantity }) => {
            assert_eq!(side, LiveOrderSide::Buy);
            assert_eq!(relxen::decimal::decimal_to_exchange_string(quantity), "0.015");
        },
        _ => panic!("expected a flatten order"),
    }
    match plan_flatten(&vec![LiveBlockingReason::StaleShadowState], &Some(sh.clone()), Symbol::BtcUsdt, true, &None, NOW) {
        Ok(FlattenStep::Finished(r)) => assert_eq!(r.blocking_reason, Some(LiveBlockingReason::ShadowStateAmbiguous)),
        _ => panic!("expected a refusal"),
    }
    match plan_flatten(&Vec::new(), &Some(sh.clone()), Symbol::BtcUsdc, true, &None, NOW) {
        Ok(FlattenStep::Finished(r)) => {
            assert!(r.accepted);
            assert_eq!(r.message, "No active-symbol shadow position to flatten.");
        },
        _ => panic!("expected nothing to flatten"),
    }
    assert!(plan_flatten(&Vec::new(), &Some(sh), Symbol::BtcUsdt, false, &None, NOW).is_err());
}
