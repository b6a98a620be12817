use std::collections::BTreeMap;

use relxen::auto_flow::{
    auto_drill_refusal, auto_duplicate_suppressed, block_intent_lock, intent_lock_key, latest_closed_signal,
    new_intent_lock, record_auto_execution, start_auto_executor, stop_auto_executor,
};
use relxen::cancel_flow::{
    attribute_fill, cancel_all_refusal, cancel_all_requests, cancel_confirmation_phrase, mainnet_cancel_refusal,
    mark_cancel_pending, order_or_not_found, repair_candidates, settle_cancel, settle_repair_query,
    testnet_cancel_refusal,
};
use relxen::connection_flow::{connection_on_market_event, connection_resync_required, connection_updated, disconnect_detail};
use relxen::error::AppError;
use relxen::live::{LiveBlockingReason, LiveEnvironment, LiveModePreference};
use relxen::live_controls::{
    arm_refusal, armed_state, configured_risk_profile, disarmed_state, engaged_kill_switch, released_kill_switch,
    with_mode_preference,
};
use relxen::market::{ConnectionState, ConnectionStatus, SignalSide, Symbol, Timeframe};
use relxen::metadata::AppMetadata;
use relxen::orders::{
    LiveAutoExecutorStateKind, LiveAutoExecutorStatus, LiveCancelAllRequest, LiveCancelRequest, LiveExecutionResult,
    LiveExecutionSnapshot, LiveFillRecord, LiveIntentLockStatus, LiveOrderRecord, LiveOrderSide, LiveOrderStatus,
    LiveOrderType, LiveRiskProfile, LiveStateRecord,
};

fn order(id: &str, client: &str, status: LiveOrderStatus, symbol: Symbol) -> LiveOrderRecord {
    LiveOrderRecord {
        id: id.to_string(),
        credential_id: None,
        environment: LiveEnvironment::Testnet,
        symbol,
        side: LiveOrderSide::Buy,
        order_type: LiveOrderType::Limit,
        status,
        client_order_id: client.to_string(),
        exchange_order_id: Some(format!("x{id}")),
        quantity: "0.002".to_string(),
        price: Some("49000".to_string()),
        executed_qty: "0".to_string(),
        avg_price: None,
        reduce_only: false,
        time_in_force: Some("GTC".to_string()),
        intent_id: None,
        intent_hash: None,
        source_signal_id: None,
        source_open_time: None,
        reason: "manual".to_string(),
        payload: BTreeMap::new(),
        response_type: None,
        self_trade_prevention_mode: None,
        price_match: None,
        expire_reason: None,
        last_error: None,
        submitted_at: 1,
        updated_at: 1,
    }
}

fn cancel_request(text: Option<&str>) -> LiveCancelRequest {
    LiveCancelRequest {
        order_ref: "o1".to_string(),
        confirm_testnet: false,
        confirm_mainnet_canary: true,
        confirmation_text: text.map(|t| t.to_string()),
    }
}

#[test]
fn cancels_need_their_confirmations() {
    let r = testnet_cancel_refusal(LiveEnvironment::Testnet, &cancel_request(None), 7).unwrap();
    assert!(!r.accepted);
    assert_eq!(r.blocking_reason, Some(LiveBlockingReason::ExecutionStatusUnknown));
    assert_eq!(r.message, "Cancel requires explicit TESTNET confirmation.");
    assert!(testnet_cancel_refusal(LiveEnvironment::Mainnet, &cancel_request(None), 7).is_none());

    let o = order("o1", "rx_exec_1", LiveOrderStatus::Working, Symbol::BtcUsdt);
    assert_eq!(cancel_confirmation_phrase(&o), "CANCEL MAINNET BTCUSDT rx_exec_1");
    let r = mainnet_cancel_refusal(LiveEnvironment::Mainnet, &o, &cancel_request(None), false, 7).unwrap();
    assert_eq!(r.blocking_reason, Some(LiveBlockingReason::MainnetCanaryDisabled));
    let r = mainnet_cancel_refusal(LiveEnvironment::Mainnet, &o, &cancel_request(Some("nope")), true, 7).unwrap();
    assert_eq!(r.blocking_reason, Some(LiveBlockingReason::MainnetConfirmationMissing));
    assert_eq!(r.message, "MAINNET canary cancel requires exact confirmation: CANCEL MAINNET BTCUSDT rx_exec_1");
    assert!(mainnet_cancel_refusal(
        LiveEnvironment::Mainnet,
        &o,
        &cancel_request(Some("CANCEL MAINNET BTCUSDT rx_exec_1")),
        true,
        7
    )
    .is_none());

    assert_eq!(
        order_or_not_found(None, "o9"),
        Err(AppError::NotFound("live order not found: o9".to_string()))
    );
}

#[test]
fn cancel_outcomes_settle_the_order() {
    let o = mark_cancel_pending(order("o1", "c1", LiveOrderStatus::Working, Symbol::BtcUsdt), 50);
    assert_eq!(o.status, LiveOrderStatus::CancelPending);
    assert_eq!(o.updated_at, 50);

    let mut exchange = o.clone();
    exchange.status = LiveOrderStatus::Canceled;
    let (merged, result) = settle_cancel(o.clone(), Ok(exchange), LiveEnvironment::Testnet, 60);
    assert_eq!(merged.status, LiveOrderStatus::Canceled);
    assert!(result.accepted);
    assert_eq!(result.message, "TESTNET cancel submitted; final state follows exchange reconciliation.");
    assert_eq!(result.order.unwrap().status, LiveOrderStatus::Canceled);

    let (failed, result) = settle_cancel(o, Err("timeout".to_string()), LiveEnvironment::Mainnet, 60);
    assert_eq!(failed.status, LiveOrderStatus::UnknownNeedsRepair);
    assert_eq!(failed.last_error.as_deref(), Some("timeout"));
    assert_eq!(result.blocking_reason, Some(LiveBlockingReason::CancelFailed));
    assert_eq!(result.message, "TESTNET cancel failed: timeout");
}

#[test]
fn cancel_all_targets_open_orders_of_the_symbol() {
    let request = LiveCancelAllRequest {
        confirm_testnet: true,
        confirm_mainnet_canary: false,
        confirmation_text: None,
    };
    assert!(cancel_all_refusal(LiveEnvironment::Testnet, Symbol::BtcUsdt, &request, false, 1).is_none());
    let r = cancel_all_refusal(LiveEnvironment::Mainnet, Symbol::BtcUsdt, &request, true, 1).unwrap();
    assert_eq!(r.message, "MAINNET canary cancel-all requires exact confirmation: CANCEL ALL MAINNET BTCUSDT");

    let orders = vec![
        order("o1", "c1", LiveOrderStatus::Working, Symbol::BtcUsdt),
        order("o2", "c2", LiveOrderStatus::Filled, Symbol::BtcUsdt),
        order("o3", "c3", LiveOrderStatus::Accepted, Symbol::BtcUsdc),
        order("o4", "c4", LiveOrderStatus::PartiallyFilled, Symbol::BtcUsdt),
    ];
    let reqs = cancel_all_requests(&orders, Symbol::BtcUsdt, &request);
    assert_eq!(reqs.len(), 2);
    assert_eq!(reqs[0].order_ref, "o1");
    assert_eq!(reqs[1].order_ref, "o4");
    assert_eq!(reqs[1].confirmation_text.as_deref(), Some("CANCEL MAINNET BTCUSDT c4"));
    assert_eq!(repair_candidates(&orders, Symbol::BtcUsdt, 10), vec![0, 3]);
    assert_eq!(repair_candidates(&orders, Symbol::BtcUsdt, 1), vec![0]);
}

#[test]
fn repair_settles_queries_and_attributes_fills() {
    let o = order("o1", "c1", LiveOrderStatus::Working, Symbol::BtcUsdt);
    let missing = settle_repair_query(o.clone(), None, 9);
    assert_eq!(missing.status, LiveOrderStatus::UnknownNeedsRepair);
    assert_eq!(missing.last_error.as_deref(), Some("recent-window repair could not find order"));

    let fill = LiveFillRecord {
        id: "f1".to_string(),
        order_id: None,
        client_order_id: None,
        exchange_order_id: Some("xo1".to_string()),
        symbol: Symbol::BtcUsdt,
        side: LiveOrderSide::Buy,
        quantity: "0.001".to_string(),
        price: "49000".to_string(),
        commission: None,
        commission_asset: None,
        realized_pnl: None,
        trade_id: None,
        event_time: 3,
        created_at: 3,
    };
    let orders = vec![order("o0", "c0", LiveOrderStatus::Working, Symbol::BtcUsdt), o];
    let attributed = attribute_fill(fill.clone(), &orders);
    assert_eq!(attributed.order_id.as_deref(), Some("o1"));
    assert_eq!(attributed.client_order_id.as_deref(), Some("c1"));
    let mut unknown = fill;
    unknown.exchange_order_id = Some("other".to_string());
    assert_eq!(attribute_fill(unknown.clone(), &orders), unknown);
}

#[test]
fn auto_executor_starts_stops_and_locks_signals() {
    let auto = LiveAutoExecutorStatus::default();
    let mut execution = LiveExecutionSnapshot::default();
    execution.can_submit = false;
    execution.blocking_reasons = vec![LiveBlockingReason::IntentUnavailable];
    let running = start_auto_executor(auto.clone(), LiveEnvironment::Testnet, true, &execution, 10);
    assert_eq!(running.state, LiveAutoExecutorStateKind::Running);
    assert_eq!(running.started_at, Some(10));
    assert!(running.blocking_reasons.is_empty());
    assert_eq!(running.last_message.as_deref(), Some("TESTNET auto executor running."));

    execution.blocking_reasons = vec![LiveBlockingReason::KillSwitchEngaged];
    let blocked = start_auto_executor(auto.clone(), LiveEnvironment::Testnet, true, &execution, 10);
    assert_eq!(blocked.state, LiveAutoExecutorStateKind::Blocked);
    assert_eq!(blocked.blocking_reasons, vec![LiveBlockingReason::KillSwitchEngaged]);
    let mainnet = start_auto_executor(auto.clone(), LiveEnvironment::Mainnet, true, &execution, 10);
    assert_eq!(mainnet.blocking_reasons, vec![LiveBlockingReason::MainnetAutoBlocked]);
    let unconfirmed = start_auto_executor(auto.clone(), LiveEnvironment::Testnet, false, &execution, 10);
    assert_eq!(unconfirmed.last_message.as_deref(), Some("TESTNET auto start requires explicit confirmation."));

    let stopped = stop_auto_executor(running, 20);
    assert_eq!(stopped.state, LiveAutoExecutorStateKind::Stopped);
    assert_eq!(stopped.stopped_at, Some(20));

    let key = intent_lock_key(LiveEnvironment::Testnet, Symbol::BtcUsdt, Timeframe::M1, 600_000, SignalSide::Buy);
    assert_eq!(key, "testnet:BTCUSDT:1m:600000:Buy");
    let dup = auto_duplicate_suppressed(auto.clone(), "s1", 600_000, 30);
    assert_eq!(dup.blocking_reasons, vec![LiveBlockingReason::DuplicateSignalSuppressed]);
    assert_eq!(dup.last_signal_id.as_deref(), Some("s1"));

    let lock = new_intent_lock(
        key,
        LiveEnvironment::Testnet,
        Symbol::BtcUsdt,
        Timeframe::M1,
        "s1".to_string(),
        600_000,
        SignalSide::Buy,
        40,
    );
    assert_eq!(lock.status, LiveIntentLockStatus::Created);
    let blocked_lock = block_intent_lock(lock.clone(), Some(LiveBlockingReason::SymbolRulesMissing), 41);
    assert_eq!(blocked_lock.status, LiveIntentLockStatus::Blocked);
    assert_eq!(blocked_lock.block_reason, Some(LiveBlockingReason::SymbolRulesMissing));

    let result = LiveExecutionResult {
        accepted: true,
        order: Some(order("o7", "c7", LiveOrderStatus::Accepted, Symbol::BtcUsdt)),
        blocking_reason: None,
        message: "ok".to_string(),
        created_at: 42,
    };
    let (l, a) = record_auto_execution(lock, auto, "s1", 600_000, "h1", &result, 42);
    assert_eq!(l.status, LiveIntentLockStatus::Submitted);
    assert_eq!(l.order_id.as_deref(), Some("o7"));
    assert_eq!(l.intent_hash.as_deref(), Some("h1"));
    assert_eq!(a.last_order_id.as_deref(), Some("o7"));
    assert_eq!(a.last_message.as_deref(), Some("ok"));
    assert!(a.blocking_reasons.is_empty());
}

#[test]
fn auto_drill_checks_and_latest_signal() {
    assert_eq!(
        auto_drill_refusal(false, LiveEnvironment::Testnet, LiveAutoExecutorStateKind::Running),
        Some(AppError::Live("testnet drill helpers are disabled by server policy".to_string()))
    );
    assert_eq!(
        auto_drill_refusal(true, LiveEnvironment::Testnet, LiveAutoExecutorStateKind::Stopped),
        Some(AppError::Conflict("start TESTNET auto executor before running the auto drill helper".to_string()))
    );
    assert_eq!(auto_drill_refusal(true, LiveEnvironment::Testnet, LiveAutoExecutorStateKind::Running), None);
    let signals = vec![(true, 5), (false, 9), (true, 7), (true, 7), (true, 3)];
    assert_eq!(latest_closed_signal(&signals), Some(3));
    assert_eq!(latest_closed_signal(&vec![(false, 1)]), None);
}

#[test]
fn operator_controls_leave_the_expected_state() {
    let on = engaged_kill_switch(None, 5);
    assert!(on.engaged);
    assert_eq!(on.reason.as_deref(), Some("operator_engaged"));
    assert_eq!(on.engaged_at, Some(5));
    let off = released_kill_switch(Some("done".to_string()), 6);
    assert!(!off.engaged);
    assert_eq!(off.reason.as_deref(), Some("done"));
    assert_eq!(off.released_at, Some(6));

    assert_eq!(arm_refusal(true, &vec![]), None);
    assert_eq!(
        arm_refusal(false, &vec![LiveBlockingReason::KillSwitchEngaged, LiveBlockingReason::ValidationMissing]),
        Some(AppError::Conflict("live mode cannot be armed: [KillSwitchEngaged, ValidationMissing]".to_string()))
    );
    assert_eq!(
        arm_refusal(false, &vec![]),
        Some(AppError::Conflict("live mode cannot be armed: []".to_string()))
    );

    let state = LiveStateRecord::default();
    let armed = armed_state(state, 9);
    assert!(armed.armed);
    assert_eq!(armed.mode_preference, LiveModePreference::LiveReadOnly);
    let disarmed = disarmed_state(armed, 10);
    assert!(!disarmed.armed);
    assert_eq!(disarmed.mode_preference, LiveModePreference::Paper);
    let paper = with_mode_preference(armed, LiveModePreference::Paper, 11);
    assert!(!paper.armed);
    let profile = configured_risk_profile(LiveRiskProfile::default(), 12);
    assert!(profile.configured);
    assert_eq!(profile.updated_at, 12);

    let metadata = AppMetadata::new("0.1.0", 99);
    assert_eq!(metadata.app_name, "RelXen");
}

fn connection(status: ConnectionStatus) -> ConnectionState {
    ConnectionState {
        status,
        status_since: Some(1),
        last_message_time: None,
        reconnect_attempts: 2,
        resync_required: true,
        detail: None,
    }
}

#[test]
fn connection_status_follows_stream_events() {
    let c = connection_updated(connection(ConnectionStatus::Connected), ConnectionStatus::Reconnecting, 3, false, disconnect_detail("eof"), 50);
    assert_eq!(c.status, ConnectionStatus::Reconnecting);
    assert_eq!(c.status_since, Some(50));
    assert_eq!(c.detail.as_deref(), Some("stream interrupted: eof"));
    let same = connection_updated(connection(ConnectionStatus::Connected), ConnectionStatus::Connected, 0, false, "x".to_string(), 50);
    assert_eq!(same.status_since, Some(1));

    let stale = connection_resync_required(connection(ConnectionStatus::Reconnecting), 4, "gap".to_string(), 60);
    assert_eq!(stale.status, ConnectionStatus::Stale);
    assert!(stale.resync_required);

    let (c, left) = connection_on_market_event(connection(ConnectionStatus::Resynced), true, 2, 70);
    assert_eq!(c.status, ConnectionStatus::Resynced);
    assert_eq!(left, 1);
    assert!(!c.resync_required);
    assert_eq!(c.last_message_time, Some(70));
    let (c, left) = connection_on_market_event(connection(ConnectionStatus::Resynced), true, 0, 70);
    assert_eq!(c.status, ConnectionStatus::Connected);
    assert_eq!(c.detail.as_deref(), Some("stream healthy"));
    assert_eq!(left, 0);
    let (c, _) = connection_on_market_event(connection(ConnectionStatus::Stale), true, 0, 80);
    assert_eq!(c.status, ConnectionStatus::Connected);
    assert_eq!(c.status_since, Some(80));
    let (c, _) = connection_on_market_event(connection(ConnectionStatus::Stale), false, 0, 80);
    assert_eq!(c.status, ConnectionStatus::Stale);

}
