use std::collections::BTreeMap;

use relxen::action_gates::{
    plan_cancel, plan_cancel_all, plan_execution, plan_flatten_request, CancelAllStep, CancelStep, ExecutionStep,
    FlattenRequestStep,
};
use relxen::auto_signal::{decide_auto_signal, AutoSignal, AutoSignalStep};
use relxen::live::LiveShadowPosition;
use relxen::live_actions::{outcome_after_failed_submission, SubmissionOutcome};
use relxen::market::Timeframe;
use relxen::options::EnvCredentialConfig;
use relxen::orders::{LiveAutoExecutorStateKind, LiveCancelAllRequest};
use relxen::readiness_flow::{missing_data_blockers, readiness_fetch_plan, ReadinessFetch};
use relxen::auto_session::MainnetAutoSession;
use relxen::error::AppError;
use relxen::intent::{build_preview_checked, LatestSignal, LiveIntentInput};
use relxen::live::{
    LiveAccountShadow, LiveBlockingReason, LiveCredentialId, LiveCredentialSource, LiveCredentialSummary,
    LiveCredentialValidationStatus, LiveEnvironment, LiveModePreference, LiveReconciliationStatus, LiveRuntimeState,
    LiveShadowBalance, LiveShadowStreamState,
};
use relxen::market::{SignalSide, Symbol};
use relxen::options::ServiceOptions;
use relxen::orders::{
    LiveAutoExecutorStatus, LiveCancelRequest, LiveExecutionRequest, LiveExecutionSnapshot, LiveFlattenRequest,
    LiveKillSwitchState, LiveOrderRecord, LiveOrderSide, LiveOrderStatus, LiveOrderType, LiveRiskProfile,
    LiveStateRecord,
};
use relxen::readiness::{build_live_status, AccountSnapshotSummary};

const NOW: i64 = 10_000_000;

fn shadow(environment: LiveEnvironment) -> LiveAccountShadow {
    let mut s = LiveAccountShadow::default();
    s.environment = environment;
    s.ambiguous = false;
    s.multi_assets_margin = Some(false);
    s.divergence_reasons = Vec::new();
    s.balances = vec![LiveShadowBalance {
        asset: "USDT".to_string(),
        wallet_balance: "1000".to_string(),
        cross_wallet_balance: None,
        balance_change: None,
        updated_at: NOW,
    }];
    s
}

fn input(environment: LiveEnvironment, order_type: LiveOrderType, limit_price: Option<(i128, u32)>) -> LiveIntentInput {
    LiveIntentInput {
        environment,
        symbol: Symbol::BtcUsdt,
        fixed_notional_text: "100".to_string(),
        leverage_text: "5".to_string(),
        rules_status: "TRADING".to_string(),
        tick_size_text: Some("0.1".to_string()),
        step_size_text: Some("0.001".to_string()),
        min_qty_text: Some("0.001".to_string()),
        min_notional_text: Some("5".to_string()),
        shadow: shadow(environment),
        latest_signal: Some(LatestSignal { id: "sig-1".to_string(), side: SignalSide::Buy, open_time: 60_000 }),
        order_type,
        reference_price: (50000, 0),
        limit_price,
        now_ms: NOW,
    }
}

fn credential(environment: LiveEnvironment) -> LiveCredentialSummary {
    LiveCredentialSummary {
        id: LiveCredentialId::new("cred-1"),
        alias: "main".to_string(),
        environment,
        source: LiveCredentialSource::SecureStore,
        api_key_hint: "abcd…wxyz".to_string(),
        validation_status: LiveCredentialValidationStatus::Valid,
        last_validated_at: Some(NOW - 1_000),
        last_validation_error: None,
        is_active: true,
        created_at: 0,
        updated_at: 0,
    }
}

fn running_reconciliation(environment: LiveEnvironment) -> LiveReconciliationStatus {
    let mut rec = LiveReconciliationStatus::default();
    rec.state = LiveRuntimeState::ShadowRunning;
    rec.stream.state = LiveShadowStreamState::Running;
    rec.stream.environment = environment;
    rec.stream.last_event_time = Some(NOW - 1_000);
    rec.shadow = Some(shadow(environment));
    rec
}

#[test]
fn full_live_status_is_stamped_and_never_executes_from_readiness() {
    let preview = build_preview_checked(&input(LiveEnvironment::Testnet, LiveOrderType::Market, None), "i").unwrap();
    let live_state = LiveStateRecord {
        mode_preference: LiveModePreference::LiveReadOnly,
        environment: LiveEnvironment::Testnet,
        armed: true,
        updated_at: 5,
    };
    let s = build_live_status(
        &live_state,
        Some(credential(LiveEnvironment::Testnet)),
        Some(NOW - 1_000),
        Some(AccountSnapshotSummary { fetched_at: NOW - 1_000, has_open_position: false }),
        running_reconciliation(LiveEnvironment::Testnet),
        Some(preview.clone()),
        Vec::new(),
        LiveExecutionSnapshot::default(),
        LiveKillSwitchState::default(),
        LiveRiskProfile::default(),
        LiveAutoExecutorStatus::default(),
        MainnetAutoSession::default(),
        false,
        &Vec::new(),
        NOW,
        &ServiceOptions::default(),
    );
    assert!(s.feature_visible);
    assert_eq!(s.environment, LiveEnvironment::Testnet);
    assert_eq!(s.mode_preference, LiveModePreference::LiveReadOnly);
    assert_eq!(s.updated_at, NOW);
    assert_eq!(s.readiness.refreshed_at, NOW);
    assert_eq!(s.readiness.environment, LiveEnvironment::Testnet);
    assert!(!s.readiness.can_execute_live);
    assert!(s.readiness.can_arm);
    assert!(s.armed);
    assert!(s.execution.can_submit);
    assert!(s.execution_availability.can_execute_live);
    assert_eq!(s.state, LiveRuntimeState::TestnetExecutionReady);
    assert_eq!(s.active_credential, Some(credential(LiveEnvironment::Testnet)));
    assert_eq!(s.readiness.active_credential, s.active_credential);
    assert_eq!(s.intent_preview, Some(preview));
    assert_eq!(s.mainnet_auto, MainnetAutoSession::default());
}

fn execution_ready() -> LiveExecutionSnapshot {
    let mut e = LiveExecutionSnapshot::default();
    e.can_submit = true;
    e
}

#[test]
fn execution_runs_every_gate_in_order() {
    let preview = build_preview_checked(&input(LiveEnvironment::Testnet, LiveOrderType::Market, None), "i").unwrap();
    let request = LiveExecutionRequest {
        intent_id: Some("i".to_string()),
        confirm_testnet: true,
        confirm_mainnet_canary: false,
        confirmation_text: None,
    };
    let cred = LiveCredentialId::new("cred-1");
    match plan_execution(&cred, LiveEnvironment::Testnet, &None, &request, None, (0, 0), false, false, &execution_ready(), NOW) {
        ExecutionStep::Refused(r) => assert_eq!(r.blocking_reason, Some(LiveBlockingReason::IntentUnavailable)),
        _ => panic!("expected a refusal"),
    }
    let mut blocked = LiveExecutionSnapshot::default();
    blocked.blocking_reasons = vec![LiveBlockingReason::KillSwitchEngaged];
    match plan_execution(&cred, LiveEnvironment::Testnet, &Some(preview.clone()), &request, None, (0, 0), false, false, &blocked, NOW) {
        ExecutionStep::Refused(r) => {
            assert_eq!(r.blocking_reason, Some(LiveBlockingReason::KillSwitchEngaged));
            assert_eq!(r.message, "testnet execution blocked: kill_switch_engaged");
        },
        _ => panic!("expected a refusal"),
    }
    match plan_execution(&cred, LiveEnvironment::Testnet, &Some(preview), &request, None, (0, 0), false, false, &execution_ready(), NOW) {
        ExecutionStep::Submit(o) => {
            assert_eq!(o.status, LiveOrderStatus::SubmitPending);
            assert!(o.client_order_id.starts_with("rx_exec_"));
            assert_eq!(o.client_order_id.len(), 32);
            assert_eq!(o.id, o.client_order_id);
            assert_eq!(o.intent_id, Some("i".to_string()));
            assert_eq!(o.payload.get("newOrderRespType"), Some(&"ACK".to_string()));
            assert_eq!(o.submitted_at, NOW);
        },
        _ => panic!("expected an order"),
    }
}

#[test]
fn mainnet_execution_is_explicitly_blocked() {
    let preview = build_preview_checked(&input(LiveEnvironment::Mainnet, LiveOrderType::Market, None), "i").unwrap();
    let request = LiveExecutionRequest {
        intent_id: None,
        confirm_testnet: true,
        confirm_mainnet_canary: false,
        confirmation_text: None,
    };
    let cred = LiveCredentialId::new("cred-1");
    match plan_execution(&cred, LiveEnvironment::Mainnet, &Some(preview), &request, None, (50000, 0), false, false, &execution_ready(), NOW) {
        ExecutionStep::Refused(r) => {
            assert!(!r.accepted);
            assert!(r.order.is_none());
            assert_eq!(r.blocking_reason, Some(LiveBlockingReason::MainnetCanaryDisabled));
            assert_eq!(r.message, "MAINNET canary execution is disabled by server policy.");
        },
        _ => panic!("expected a refusal"),
    }
}

#[test]
fn mainnet_market_preview_is_refused_as_not_limit() {
    let preview = build_preview_checked(&input(LiveEnvironment::Mainnet, LiveOrderType::Market, None), "i").unwrap();
    let request = LiveExecutionRequest {
        intent_id: None,
        confirm_testnet: true,
        confirm_mainnet_canary: false,
        confirmation_text: None,
    };
    let cred = LiveCredentialId::new("cred-1");
    match plan_execution(&cred, LiveEnvironment::Mainnet, &Some(preview), &request, None, (50000, 0), true, false, &execution_ready(), NOW) {
        ExecutionStep::Refused(r) => {
            assert_eq!(r.blocking_reason, Some(LiveBlockingReason::MainnetCanaryLimitRequired));
            assert_eq!(r.message, "MAINNET canary requires a non-marketable LIMIT order.");
        },
        _ => panic!("expected a refusal"),
    }
    let limit = build_preview_checked(&input(LiveEnvironment::Mainnet, LiveOrderType::Limit, Some((4900000, 2))), "i").unwrap();
    match plan_execution(&cred, LiveEnvironment::Mainnet, &Some(limit), &request, None, (50000, 0), false, true, &execution_ready(), NOW) {
        ExecutionStep::Refused(r) => assert_eq!(r.blocking_reason, Some(LiveBlockingReason::MainnetCanaryDisabled)),
        _ => panic!("expected a refusal"),
    }
}

#[test]
fn flatten_request_checks_confirmation_before_the_plan() {
    let unconfirmed = LiveFlattenRequest { confirm_testnet: false, confirm_mainnet_canary: false, confirmation_text: None };
    match plan_flatten_request(
        LiveEnvironment::Testnet,
        &unconfirmed,
        Symbol::BtcUsdt,
        false,
        &Vec::new(),
        &None,
        true,
        &None,
        NOW,
    ) {
        Ok(FlattenRequestStep::Finished(r)) => {
            assert_eq!(r.blocking_reason, Some(LiveBlockingReason::ExecutionStatusUnknown));
            assert_eq!(r.message, "Flatten requires explicit TESTNET confirmation.");
        },
        _ => panic!("expected a refusal"),
    }
    let confirmed = LiveFlattenRequest { confirm_testnet: true, ..unconfirmed };
    match plan_flatten_request(LiveEnvironment::Testnet, &confirmed, Symbol::BtcUsdt, false, &Vec::new(), &None, true, &None, NOW) {
        Ok(FlattenRequestStep::Finished(r)) => assert_eq!(r.blocking_reason, Some(LiveBlockingReason::AccountSnapshotMissing)),
        _ => panic!("expected the missing shadow"),
    }
}

fn stored_order() -> LiveOrderRecord {
    LiveOrderRecord {
        id: "o1".to_string(),
        credential_id: Some(LiveCredentialId::new("c1")),
        environment: LiveEnvironment::Mainnet,
        symbol: Symbol::BtcUsdt,
        side: LiveOrderSide::Buy,
        order_type: LiveOrderType::Limit,
        status: LiveOrderStatus::Accepted,
        client_order_id: "rx_exec_1".to_string(),
        exchange_order_id: Some("77".to_string()),
        quantity: "0.002".to_string(),
        price: Some("49000".to_string()),
        executed_qty: "0".to_string(),
        avg_price: None,
        reduce_only: false,
        time_in_force: Some("GTC".to_string()),
        intent_id: Some("i1".to_string()),
        intent_hash: Some("h".to_string()),
        source_signal_id: None,
        source_open_time: None,
        reason: "manual".to_string(),
        payload: BTreeMap::new(),
        response_type: None,
        self_trade_prevention_mode: None,
        price_match: None,
        expire_reason: None,
        last_error: None,
        submitted_at: 100,
        updated_at: 100,
    }
}

#[test]
fn cancel_runs_its_gates_in_order() {
    let request = LiveCancelRequest {
        order_ref: "o1".to_string(),
        confirm_testnet: false,
        confirm_mainnet_canary: false,
        confirmation_text: None,
    };
    match plan_cancel(LiveEnvironment::Testnet, &request, None, true, NOW) {
        Ok(CancelStep::Refused(r)) => assert_eq!(r.blocking_reason, Some(LiveBlockingReason::ExecutionStatusUnknown)),
        _ => panic!("expected a refusal"),
    }
    match plan_cancel(LiveEnvironment::Mainnet, &request, None, true, NOW) {
        Err(e) => assert_eq!(e, AppError::NotFound("live order not found: o1".to_string())),
        _ => panic!("expected not found"),
    }
    match plan_cancel(LiveEnvironment::Mainnet, &request, Some(stored_order()), false, NOW) {
        Ok(CancelStep::Refused(r)) => assert_eq!(r.blocking_reason, Some(LiveBlockingReason::MainnetCanaryDisabled)),
        _ => panic!("expected a refusal"),
    }
    let confirmed = LiveCancelRequest {
        confirm_mainnet_canary: true,
        confirmation_text: Some("CANCEL MAINNET BTCUSDT rx_exec_1".to_string()),
        ..request
    };
    match plan_cancel(LiveEnvironment::Mainnet, &confirmed, Some(stored_order()), true, NOW) {
        Ok(CancelStep::Send(o)) => {
            assert_eq!(o.status, LiveOrderStatus::CancelPending);
            assert_eq!(o.updated_at, NOW);
            assert_eq!(o.client_order_id, "rx_exec_1");
        },
        _ => panic!("expected the order to send"),
    }
}

#[test]
fn blocking_reason_codes_sort_in_code_order() {
    let mut all = vec![
        LiveBlockingReason::ValidationStale,
        LiveBlockingReason::AccountSnapshotMissing,
        LiveBlockingReason::MainnetCanaryLimitRequired,
        LiveBlockingReason::MainnetCanaryLimitMarketable,
        LiveBlockingReason::EnvCredentialsMissing,
        LiveBlockingReason::EnvCredentialPartial,
    ];
    all.sort_by(|a, b| a.as_str().cmp(b.as_str()));
    assert_eq!(
        all,
        vec![
            LiveBlockingReason::AccountSnapshotMissing,
            LiveBlockingReason::EnvCredentialPartial,
            LiveBlockingReason::EnvCredentialsMissing,
            LiveBlockingReason::MainnetCanaryLimitMarketable,
            LiveBlockingReason::MainnetCanaryLimitRequired,
            LiveBlockingReason::ValidationStale,
        ]
    );
}

#[test]
fn flatten_cancels_the_symbols_orders_before_submitting() {
    let mut sh = shadow(LiveEnvironment::Testnet);
    sh.positions = vec![LiveShadowPosition {
        symbol: Symbol::BtcUsdt,
        position_side: "BOTH".to_string(),
        position_amt: "0.0157".to_string(),
        entry_price: "50000".to_string(),
        unrealized_pnl: "0".to_string(),
        margin_type: None,
        isolated_wallet: None,
        updated_at: NOW,
    }];
    let request = LiveFlattenRequest { confirm_testnet: true, confirm_mainnet_canary: false, confirmation_text: None };
    match plan_flatten_request(
        LiveEnvironment::Testnet,
        &request,
        Symbol::BtcUsdt,
        false,
        &Vec::new(),
        &Some(sh),
        true,
        &Some("0.001".to_string()),
        NOW,
    ) {
        Ok(FlattenRequestStep::CancelAllThenSubmit { cancel_all, side, quantity }) => {
            assert!(cancel_all.confirm_testnet);
            assert!(!cancel_all.confirm_mainnet_canary);
            assert_eq!(cancel_all.confirmation_text, Some("CANCEL ALL MAINNET BTCUSDT".to_string()));
            assert_eq!(side, LiveOrderSide::Sell);
            assert_eq!(relxen::decimal::decimal_to_exchange_string(quantity), "0.015");
        },
        _ => panic!("expected cancel-all then submit"),
    }
}

#[test]
fn cancel_all_cancels_each_open_order_of_the_symbol() {
    let mut other = stored_order();
    other.id = "o2".to_string();
    other.symbol = Symbol::BtcUsdc;
    let mut done = stored_order();
    done.id = "o3".to_string();
    done.status = LiveOrderStatus::Filled;
    let orders = vec![stored_order(), other, done];
    let request = LiveCancelAllRequest {
        confirm_testnet: true,
        confirm_mainnet_canary: true,
        confirmation_text: Some("CANCEL ALL MAINNET BTCUSDT".to_string()),
    };
    match plan_cancel_all(LiveEnvironment::Mainnet, Symbol::BtcUsdt, &request, &orders, true, NOW) {
        CancelAllStep::CancelEach(reqs) => {
            assert_eq!(reqs.len(), 1);
            assert_eq!(reqs[0].order_ref, "o1");
            assert_eq!(reqs[0].confirmation_text, Some("CANCEL MAINNET BTCUSDT rx_exec_1".to_string()));
        },
        _ => panic!("expected cancels"),
    }
    match plan_cancel_all(LiveEnvironment::Mainnet, Symbol::BtcUsdt, &request, &orders, false, NOW) {
        CancelAllStep::Refused(r) => {
            assert_eq!(r.blocking_reason, Some(LiveBlockingReason::MainnetCanaryDisabled));
            assert_eq!(r.message, "MAINNET canary cancel-all is disabled by server policy.");
        },
        _ => panic!("expected a refusal"),
    }
}

#[test]
fn failed_submission_is_repaired_from_the_exchange_when_found() {
    match outcome_after_failed_submission("timeout".to_string(), Ok(Some(stored_order()))) {
        SubmissionOutcome::Repaired(o) => assert_eq!(o, stored_order()),
        _ => panic!("expected a repair"),
    }
    match outcome_after_failed_submission("timeout".to_string(), Ok(None)) {
        SubmissionOutcome::Unresolved(e) => assert_eq!(e, "timeout"),
        _ => panic!("expected unresolved"),
    }
    match outcome_after_failed_submission("timeout".to_string(), Err("down".to_string())) {
        SubmissionOutcome::Unresolved(e) => assert_eq!(e, "timeout"),
        _ => panic!("expected unresolved"),
    }
}

fn running_auto() -> LiveAutoExecutorStatus {
    let mut a = LiveAutoExecutorStatus::default();
    a.state = LiveAutoExecutorStateKind::Running;
    a
}

fn signal() -> AutoSignal {
    AutoSignal {
        id: "sig-1".to_string(),
        symbol: Symbol::BtcUsdt,
        timeframe: Timeframe::M1,
        open_time: 60_000,
        side: SignalSide::Buy,
    }
}

#[test]
fn testnet_auto_drill_helper_replays_latest_signal_once_and_suppresses_duplicate() {
    let mut held: Vec<String> = Vec::new();
    let lock = match decide_auto_signal(running_auto(), LiveEnvironment::Testnet, &held, &signal(), NOW) {
        AutoSignalStep::Locked(lock) => lock,
        _ => panic!("expected the first replay to take the lock"),
    };
    assert_eq!(lock.key, "testnet:BTCUSDT:1m:60000:Buy");
    assert_eq!(lock.signal_id, "sig-1");
    held.push(lock.key.clone());
    match decide_auto_signal(running_auto(), LiveEnvironment::Testnet, &held, &signal(), NOW + 1) {
        AutoSignalStep::Suppressed(a) => {
            assert_eq!(a.state, LiveAutoExecutorStateKind::Running);
            assert_eq!(a.blocking_reasons, vec![LiveBlockingReason::DuplicateSignalSuppressed]);
            assert_eq!(a.last_signal_id, Some("sig-1".to_string()));
        },
        _ => panic!("expected the replay to be suppressed"),
    }
    match decide_auto_signal(running_auto(), LiveEnvironment::Mainnet, &Vec::new(), &signal(), NOW) {
        AutoSignalStep::Blocked(a) => assert_eq!(a.blocking_reasons, vec![LiveBlockingReason::MainnetAutoBlocked]),
        _ => panic!("expected mainnet to be blocked"),
    }
    assert!(matches!(
        decide_auto_signal(LiveAutoExecutorStatus::default(), LiveEnvironment::Testnet, &Vec::new(), &signal(), NOW),
        AutoSignalStep::Ignored
    ));
}

#[test]
fn readiness_refresh_reads_the_exchange_only_for_a_valid_credential() {
    let config = EnvCredentialConfig::default();
    match readiness_fetch_plan(&None, &config, LiveEnvironment::Testnet, true, 60_000, NOW) {
        ReadinessFetch::BuildNow(v) => assert_eq!(v, vec![LiveBlockingReason::NoActiveCredential]),
        _ => panic!("expected an immediate build"),
    }
    let mut failed = credential(LiveEnvironment::Testnet);
    failed.validation_status = LiveCredentialValidationStatus::InvalidApiKey;
    match readiness_fetch_plan(&Some(failed), &config, LiveEnvironment::Testnet, true, 60_000, NOW) {
        ReadinessFetch::BuildNow(v) => assert_eq!(v, vec![LiveBlockingReason::ValidationFailed]),
        _ => panic!("a failed validation must not reach the exchange"),
    }
    let mut unknown = credential(LiveEnvironment::Testnet);
    unknown.validation_status = LiveCredentialValidationStatus::Unknown;
    match readiness_fetch_plan(&Some(unknown), &config, LiveEnvironment::Testnet, true, 60_000, NOW) {
        ReadinessFetch::BuildNow(v) => assert_eq!(v, vec![LiveBlockingReason::ValidationMissing]),
        _ => panic!("expected an immediate build"),
    }
    assert!(matches!(
        readiness_fetch_plan(&Some(credential(LiveEnvironment::Testnet)), &config, LiveEnvironment::Testnet, true, 60_000, NOW),
        ReadinessFetch::FetchRemote
    ));
    match readiness_fetch_plan(&Some(credential(LiveEnvironment::Testnet)), &config, LiveEnvironment::Testnet, true, 10, NOW) {
        ReadinessFetch::WithoutRemote(v) => assert_eq!(v, vec![LiveBlockingReason::ValidationMissing]),
        _ => panic!("a stale validation must not reach the exchange"),
    }
    match readiness_fetch_plan(&Some(credential(LiveEnvironment::Testnet)), &config, LiveEnvironment::Testnet, false, 60_000, NOW) {
        ReadinessFetch::UseHeld(v) => assert!(v.is_empty()),
        _ => panic!("expected the held data"),
    }
    assert_eq!(
        missing_data_blockers(vec![LiveBlockingReason::ValidationMissing], false, false),
        vec![
            LiveBlockingReason::ValidationMissing,
            LiveBlockingReason::SymbolRulesMissing,
            LiveBlockingReason::AccountSnapshotMissing,
        ]
    );
    assert!(missing_data_blockers(Vec::new(), true, true).is_empty());
}
