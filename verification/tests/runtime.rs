use std::collections::BTreeMap;

use relxen::evidence::{evidence_directory, evidence_recommendation, evidence_session_id, prefixed_uuid};
use relxen::execution::execution_with_cache;
use relxen::history::{
    check_recovered_candles, plan_recovery, recovery_progress_detail, CandleKey, KlineRangeRequest, RecoveryPlan,
};
use relxen::live::LiveEnvironment;
use relxen::market::{ConnectionStatus, Symbol, Timeframe};
use relxen::orders::{LiveExecutionSnapshot, LiveOrderRecord, LiveOrderSide, LiveOrderStatus, LiveOrderType};
use relxen::reference::preview_needs_refresh;
use relxen::runtime_flow::{runtime_step, RuntimeAction, StreamEvent};

const MIN: i64 = 60_000;

#[test]
fn runtime_loop_steps() {
    assert_eq!(
        runtime_step(0, StreamEvent::Opening),
        (0, RuntimeAction::ShowConnection {
            status: ConnectionStatus::Reconnecting,
            detail: "opening Binance kline stream".to_string()
        })
    );
    assert_eq!(
        runtime_step(3, StreamEvent::Opening),
        (3, RuntimeAction::ShowConnection {
            status: ConnectionStatus::Reconnecting,
            detail: "reconnecting Binance kline stream (attempt 3)".to_string()
        })
    );
    assert_eq!(
        runtime_step(0, StreamEvent::SubscribeFailed("dns".to_string())),
        (1, RuntimeAction::Disconnect { detail: "subscribe failed: dns".to_string(), pause_secs: 2 })
    );
    assert_eq!(runtime_step(0, StreamEvent::RecoveryNotNeeded), (0, RuntimeAction::Continue));
    assert_eq!(
        runtime_step(2, StreamEvent::RecoveryNotNeeded),
        (2, RuntimeAction::ShowConnection {
            status: ConnectionStatus::Connected,
            detail: "reconnected without candle gap".to_string()
        })
    );
    assert_eq!(
        runtime_step(2, StreamEvent::Recovered(3)),
        (2, RuntimeAction::ShowConnection {
            status: ConnectionStatus::Resynced,
            detail: "reconciled 3 closed candle(s)".to_string()
        })
    );
    assert_eq!(
        runtime_step(2, StreamEvent::RecoveryHardResync("gap".to_string())),
        (3, RuntimeAction::HardResync { reason: "gap".to_string(), pause_secs: 1 })
    );
    assert_eq!(
        runtime_step(2, StreamEvent::EventFailed("db".to_string())),
        (3, RuntimeAction::HardResync { reason: "failed to process live market event: db".to_string(), pause_secs: 0 })
    );
    assert_eq!(
        runtime_step(4, StreamEvent::StreamEnded),
        (5, RuntimeAction::Disconnect { detail: "market stream ended".to_string(), pause_secs: 0 })
    );
}

fn key(open_time: i64, closed: bool) -> CandleKey {
    CandleKey { symbol: Symbol::BtcUsdt, timeframe: Timeframe::M1, open_time, closed }
}

fn gap_plan() -> RecoveryPlan {
    plan_recovery(Symbol::BtcUsdt, Timeframe::M1, 1, Some((5 * MIN, true)), Some(5 * MIN), 5, 10, 9 * MIN, 100)
        .unwrap()
        .unwrap()
}

#[test]
fn recovered_candles_must_bridge_the_gap() {
    let plan = gap_plan();
    assert_eq!(recovery_progress_detail(&plan), "recovering 3 closed candle(s) through 480000");
    // Unsorted, with a repeat, an unfinished candle and one outside the range.
    let fetched = vec![key(8 * MIN, true), key(6 * MIN, true), key(7 * MIN, false), key(7 * MIN, true), key(6 * MIN, true), key(9 * MIN, true)];
    assert_eq!(check_recovered_candles(Timeframe::M1, &plan, &fetched), Ok(vec![1, 3, 0]));
    let short = vec![key(6 * MIN, true), key(8 * MIN, true)];
    assert_eq!(
        check_recovered_candles(Timeframe::M1, &plan, &short),
        Err("recovery window returned 2 candles but 3 were required".to_string())
    );
    let plan = RecoveryPlan {
        fetch_request: KlineRangeRequest {
            symbol: Symbol::BtcUsdt,
            timeframe: Timeframe::M1,
            start_open_time: 6 * MIN,
            end_open_time: 9 * MIN,
        },
        last_persisted_closed_open_time: 5 * MIN,
        first_stream_open_time: 10 * MIN,
        gap_closed_candles: 3,
        required_context_closed: 0,
        available_context_closed: 0,
    };
    let holes = vec![key(6 * MIN, true), key(8 * MIN, true), key(9 * MIN, true)];
    assert_eq!(
        check_recovered_candles(Timeframe::M1, &plan, &holes),
        Err("recovery window does not bridge gap at open_time 420000".to_string())
    );
}

#[test]
fn evidence_is_named_and_listed() {
    let id = prefixed_uuid("mnauto_dry_");
    assert_eq!(id.len(), "mnauto_dry_".len() + 32);
    assert!(id.starts_with("mnauto_dry_"));
    assert_eq!(evidence_session_id(Some("s1".to_string())), "s1");
    assert!(evidence_session_id(None).starts_with("mnauto_export_"));
    let dir = evidence_directory(1_700_000_000_000, "s1");
    assert_eq!(dir, "artifacts/mainnet-auto/1700000000000-s1");
    assert_eq!(evidence_recommendation(None), "live_not_allowed");
    assert_eq!(evidence_recommendation(Some("safe_to_repeat_dry_run")), "safe_to_repeat_dry_run");
}

#[test]
fn mainnet_previews_refresh_stale_reference_prices() {
    let candle = Some((Symbol::BtcUsdt, 1_000));
    // Testnet never forces a refresh.
    assert!(!preview_needs_refresh(LiveEnvironment::Testnet, candle, Symbol::BtcUsdt, None, Some(5_000), ConnectionStatus::Stale, Some(5_000)));
    // The kill switch was released after the price was observed.
    assert!(preview_needs_refresh(LiveEnvironment::Mainnet, candle, Symbol::BtcUsdt, None, Some(5_000), ConnectionStatus::Connected, Some(1)));
    // Released before the last stream message.
    assert!(!preview_needs_refresh(LiveEnvironment::Mainnet, candle, Symbol::BtcUsdt, Some(6_000), Some(5_000), ConnectionStatus::Connected, Some(1)));
    // Reconnecting since after the observation.
    assert!(preview_needs_refresh(LiveEnvironment::Mainnet, candle, Symbol::BtcUsdt, Some(6_000), None, ConnectionStatus::Reconnecting, Some(7_000)));
    assert!(!preview_needs_refresh(LiveEnvironment::Mainnet, candle, Symbol::BtcUsdt, Some(6_000), None, ConnectionStatus::Connected, Some(7_000)));
    // No candle of the symbol: any release or reconnect forces a refresh.
    assert!(preview_needs_refresh(LiveEnvironment::Mainnet, Some((Symbol::BtcUsdc, 1_000)), Symbol::BtcUsdt, None, Some(1), ConnectionStatus::Connected, None));
}

fn order(id: &str, status: LiveOrderStatus) -> LiveOrderRecord {
    LiveOrderRecord {
        id: id.to_string(),
        credential_id: None,
        environment: LiveEnvironment::Testnet,
        symbol: Symbol::BtcUsdt,
        side: LiveOrderSide::Sell,
        order_type: LiveOrderType::Market,
        status,
        client_order_id: format!("c{id}"),
        exchange_order_id: None,
        quantity: "0.001".to_string(),
        price: None,
        executed_qty: "0".to_string(),
        avg_price: None,
        reduce_only: false,
        time_in_force: None,
        intent_id: None,
        intent_hash: None,
        source_signal_id: None,
        source_open_time: None,
        reason: "auto".to_string(),
        payload: BTreeMap::new(),
        response_type: None,
        self_trade_prevention_mode: None,
        price_match: None,
        expire_reason: None,
        last_error: None,
        submitted_at: 0,
        updated_at: 0,
    }
}

#[test]
fn execution_cache_shows_the_last_open_order() {
    let orders = vec![order("a", LiveOrderStatus::Working), order("b", LiveOrderStatus::Accepted), order("c", LiveOrderStatus::Filled)];
    let e = execution_with_cache(LiveExecutionSnapshot::default(), orders, vec![], true, true);
    assert_eq!(e.active_order.as_ref().map(|o| o.id.as_str()), Some("b"));
    assert!(e.repair_recent_window_only);
    assert!(e.mainnet_canary_enabled);
    assert!(e.kill_switch_engaged);
    let e = execution_with_cache(LiveExecutionSnapshot::default(), vec![order("c", LiveOrderStatus::Canceled)], vec![], false, false);
    assert!(e.active_order.is_none());
}
