use std::collections::BTreeMap;

use relxen::credentials::{
    env_credential_alias, env_credential_id, mask_api_key, mask_listen_key, validate_secret_input,
    UnavailableLiveExchange, UnavailableSecretStore,
};
use relxen::error::AppError;
use relxen::live::{LiveCredentialId, LiveCredentialSecret, LiveCredentialValidationStatus, LiveEnvironment, LiveShadowOrder};
use relxen::market::{AsoMode, Symbol, Timeframe};
use relxen::order_flow::{
    client_order_id, fill_from_shadow_order, intent_hash, live_order_status_from_exchange_status, merge_exchange_ack,
    merge_exchange_order, push_recent, record_from_order_update,
};
use relxen::orders::{LiveOrderRecord, LiveOrderSide, LiveOrderStatus, LiveOrderType};
use relxen::settings::{repair_settings, settings_requires_rebuild, validate_series_settings, SeriesSettings};
use relxen::text::{sorted_unique, str_contains, str_less};

#[test]
fn secret_input_rejects_blank_fields() {
    assert_eq!(validate_secret_input("key", "secret"), Ok(()));
    assert_eq!(
        validate_secret_input("   ", "secret"),
        Err(AppError::Validation("api_key cannot be empty".to_string()))
    );
    assert_eq!(
        validate_secret_input("key", "\t\n"),
        Err(AppError::Validation("api_secret cannot be empty".to_string()))
    );
}

#[test]
fn api_keys_are_masked() {
    assert_eq!(mask_api_key("abcd1234efgh5678"), "abcd…5678");
    assert_eq!(mask_api_key("  abcd1234efgh5678 "), "abcd…5678");
    assert_eq!(mask_api_key("12345678"), "****");
    assert_eq!(mask_api_key(""), "****");
}

#[test]
fn listen_keys_are_masked() {
    assert_eq!(mask_listen_key("short"), "listenKey…");
    assert_eq!(mask_listen_key("0123456789"), "listenKey…");
    assert_eq!(mask_listen_key("abcdefghijkl"), "abcd…ijkl");
}

#[test]
fn environment_credentials_have_fixed_names() {
    assert_eq!(env_credential_alias(LiveEnvironment::Testnet), "env-testnet");
    assert_eq!(env_credential_alias(LiveEnvironment::Mainnet), "env-mainnet");
    assert_eq!(env_credential_id(LiveEnvironment::Mainnet), LiveCredentialId::new("env-mainnet"));
}

#[test]
fn unconfigured_adapters_refuse() {
    let store = UnavailableSecretStore;
    let id = LiveCredentialId::new("c1");
    let secret = LiveCredentialSecret { api_key: "k".to_string(), api_secret: "s".to_string() };
    let refused = AppError::SecureStoreUnavailable("secure storage adapter is not configured".to_string());
    assert_eq!(store.store(&id, &secret), Err(refused.clone()));
    assert_eq!(store.read(&id), Err(refused.clone()));
    assert_eq!(store.delete(&id), Err(refused.clone()));
    assert_eq!(store.ensure_available(), Err(refused));

    let exchange = UnavailableLiveExchange;
    let result = exchange.validate_credentials(LiveEnvironment::Testnet, &id, &secret);
    assert_eq!(result.status, LiveCredentialValidationStatus::NetworkError);
    assert_eq!(result.credential_id, id);
    assert_eq!(result.message.as_deref(), Some("live exchange adapter is not configured"));
    assert_eq!(exchange.unavailable(), AppError::Exchange("live exchange adapter is not configured".to_string()));
}

#[test]
fn exchange_statuses_map_to_order_statuses() {
    assert_eq!(live_order_status_from_exchange_status("NEW"), LiveOrderStatus::Working);
    assert_eq!(live_order_status_from_exchange_status("PARTIALLY_FILLED"), LiveOrderStatus::PartiallyFilled);
    assert_eq!(live_order_status_from_exchange_status("FILLED"), LiveOrderStatus::Filled);
    assert_eq!(live_order_status_from_exchange_status("CANCELED"), LiveOrderStatus::Canceled);
    assert_eq!(live_order_status_from_exchange_status("REJECTED"), LiveOrderStatus::Rejected);
    assert_eq!(live_order_status_from_exchange_status("EXPIRED"), LiveOrderStatus::Expired);
    assert_eq!(live_order_status_from_exchange_status("EXPIRED_IN_MATCH"), LiveOrderStatus::ExpiredInMatch);
    assert_eq!(live_order_status_from_exchange_status("new"), LiveOrderStatus::UnknownNeedsRepair);
}

fn local_order() -> LiveOrderRecord {
    LiveOrderRecord {
        id: "o1".to_string(),
        credential_id: Some(LiveCredentialId::new("c1")),
        environment: LiveEnvironment::Testnet,
        symbol: Symbol::BtcUsdt,
        side: LiveOrderSide::Buy,
        order_type: LiveOrderType::Limit,
        status: LiveOrderStatus::SubmitPending,
        client_order_id: "rx_exec_1".to_string(),
        exchange_order_id: None,
        quantity: "0.002".to_string(),
        price: Some("49000".to_string()),
        executed_qty: "0".to_string(),
        avg_price: None,
        reduce_only: false,
        time_in_force: Some("GTC".to_string()),
        intent_id: Some("i1".to_string()),
        intent_hash: Some("h".to_string()),
        source_signal_id: None,
        source_open_time: None,
        reason: "manual".to_string(),
        payload: BTreeMap::new(),
        response_type: None,
        self_trade_prevention_mode: None,
        price_match: None,
        expire_reason: None,
        last_error: Some("timeout".to_string()),
        submitted_at: 100,
        updated_at: 100,
    }
}

#[test]
fn exchange_order_merges_into_local_record() {
    let mut exchange = local_order();
    exchange.status = LiveOrderStatus::Filled;
    exchange.exchange_order_id = Some("777".to_string());
    exchange.quantity = "0".to_string();
    exchange.price = None;
    exchange.executed_qty = "0.002".to_string();
    exchange.avg_price = Some("48990".to_string());
    exchange.updated_at = 50;
    let merged = merge_exchange_order(local_order(), exchange, 200);
    assert_eq!(merged.status, LiveOrderStatus::Filled);
    assert_eq!(merged.exchange_order_id.as_deref(), Some("777"));
    // A zero quantity from the exchange keeps the local one; a missing price keeps the local price.
    assert_eq!(merged.quantity, "0.002");
    assert_eq!(merged.price.as_deref(), Some("49000"));
    assert_eq!(merged.executed_qty, "0.002");
    assert_eq!(merged.avg_price.as_deref(), Some("48990"));
    assert_eq!(merged.updated_at, 200);
    assert_eq!(merged.last_error, None);
    assert_eq!(merged.intent_id.as_deref(), Some("i1"));

    let mut ack = local_order();
    ack.exchange_order_id = Some("888".to_string());
    ack.updated_at = 300;
    let acked = merge_exchange_ack(local_order(), ack, 200);
    assert_eq!(acked.status, LiveOrderStatus::Accepted);
    assert_eq!(acked.response_type.as_deref(), Some("ACK"));
    assert_eq!(acked.exchange_order_id.as_deref(), Some("888"));
    assert_eq!(acked.updated_at, 300);
}

#[test]
fn recent_lists_keep_the_newest_items() {
    let mut items = vec![1, 2, 3];
    push_recent(&mut items, 4, 3);
    assert_eq!(items, vec![2, 3, 4]);
    push_recent(&mut items, 5, 10);
    assert_eq!(items, vec![2, 3, 4, 5]);
    push_recent(&mut items, 6, 0);
    assert!(items.is_empty());
}

#[test]
fn intent_hash_joins_the_order_fields() {
    assert_eq!(
        intent_hash(
            LiveEnvironment::Testnet,
            Symbol::BtcUsdt,
            LiveOrderSide::Sell,
            LiveOrderType::Limit,
            "0.010",
            Some("50000.1"),
            true,
            None,
        ),
        "testnet:BTCUSDT:SELL:LIMIT:0.010:50000.1:true:-"
    );
}

#[test]
fn client_order_ids_are_prefixed_random_hex() {
    let a = client_order_id("rx_exec");
    let b = client_order_id("rx_exec");
    assert_eq!(a.len(), "rx_exec".len() + 25);
    assert!(a.starts_with("rx_exec_"));
    assert!(a["rx_exec_".len()..].chars().all(|c| c.is_ascii_digit() || ('a'..='f').contains(&c)));
    assert_ne!(a, b);
}

fn shadow_order() -> LiveShadowOrder {
    LiveShadowOrder {
        order_id: "777".to_string(),
        client_order_id: Some("rx_exec_1".to_string()),
        symbol: Symbol::BtcUsdt,
        side: LiveOrderSide::Buy,
        order_type: LiveOrderType::Limit,
        time_in_force: Some("GTC".to_string()),
        original_qty: "0.002".to_string(),
        executed_qty: "0.001".to_string(),
        price: Some("49000".to_string()),
        avg_price: Some("49000".to_string()),
        status: "PARTIALLY_FILLED".to_string(),
        execution_type: Some("TRADE".to_string()),
        reduce_only: false,
        position_side: Some("BOTH".to_string()),
        last_filled_qty: Some("0.001".to_string()),
        last_filled_price: Some("49000".to_string()),
        commission: Some("0.01".to_string()),
        commission_asset: Some("USDT".to_string()),
        trade_id: Some("55".to_string()),
        self_trade_prevention_mode: None,
        price_match: None,
        expire_reason: None,
        last_update_time: 1_000,
    }
}

#[test]
fn user_data_fills_are_recorded_once_per_trade() {
    let record = local_order();
    let fill = fill_from_shadow_order(&record, &shadow_order(), 2_000).unwrap();
    assert_eq!(fill.id, "trade_777_55");
    assert_eq!(fill.order_id.as_deref(), Some("o1"));
    assert_eq!(fill.quantity, "0.001");
    assert_eq!(fill.created_at, 2_000);

    let mut without_trade = shadow_order();
    without_trade.trade_id = None;
    let fill = fill_from_shadow_order(&record, &without_trade, 2_000).unwrap();
    assert_eq!(fill.id, "fill_rx_exec_1_1000_0.001");

    let mut zero = shadow_order();
    zero.last_filled_qty = Some("0".to_string());
    assert_eq!(fill_from_shadow_order(&record, &zero, 2_000), None);
    let mut none = shadow_order();
    none.last_filled_price = None;
    assert_eq!(fill_from_shadow_order(&record, &none, 2_000), None);
}

#[test]
fn order_updates_build_or_refresh_records() {
    let fresh = record_from_order_update(&None, &shadow_order(), LiveEnvironment::Testnet, 500);
    assert_eq!(fresh.id, "rx_exec_1");
    assert_eq!(fresh.status, LiveOrderStatus::PartiallyFilled);
    assert_eq!(fresh.reason, "user_data_stream");
    assert_eq!(fresh.submitted_at, 1_000);
    assert_eq!(fresh.updated_at, 1_000);

    let mut anonymous = shadow_order();
    anonymous.client_order_id = None;
    let fresh = record_from_order_update(&None, &anonymous, LiveEnvironment::Testnet, 5_000);
    assert_eq!(fresh.id, "order_777");
    assert_eq!(fresh.client_order_id, "order_777");
    assert_eq!(fresh.updated_at, 5_000);

    let refreshed = record_from_order_update(&Some(local_order()), &shadow_order(), LiveEnvironment::Testnet, 500);
    assert_eq!(refreshed.id, "o1");
    assert_eq!(refreshed.reason, "manual");
    assert_eq!(refreshed.intent_id.as_deref(), Some("i1"));
    assert_eq!(refreshed.executed_qty, "0.001");
    assert_eq!(refreshed.submitted_at, 100);
}

#[test]
fn series_settings_are_checked_and_repaired() {
    let a = SeriesSettings { active_symbol: Symbol::BtcUsdt, timeframe: Timeframe::M1, aso_length: 10, aso_mode: AsoMode::Both };
    let mut b = a;
    assert!(!settings_requires_rebuild(&a, &b));
    b.timeframe = Timeframe::M5;
    assert!(settings_requires_rebuild(&a, &b));

    assert_eq!(validate_series_settings(&vec![Symbol::BtcUsdt], Symbol::BtcUsdt, 10), Ok(()));
    assert_eq!(
        validate_series_settings(&vec![], Symbol::BtcUsdt, 10),
        Err("at least one symbol must be available".to_string())
    );
    assert_eq!(
        validate_series_settings(&vec![Symbol::BtcUsdc], Symbol::BtcUsdt, 10),
        Err("active symbol must be part of available_symbols".to_string())
    );
    assert_eq!(
        validate_series_settings(&vec![Symbol::BtcUsdt], Symbol::BtcUsdt, 1),
        Err("aso_length must be >= 2".to_string())
    );

    let mut available = vec![Symbol::BtcUsdc];
    let mut active = Symbol::BtcUsdt;
    repair_settings(&mut available, &mut active);
    assert_eq!(available, vec![Symbol::BtcUsdc]);
    assert_eq!(active, Symbol::BtcUsdc);
    let mut available = vec![];
    let mut active = Symbol::BtcUsdc;
    repair_settings(&mut available, &mut active);
    assert_eq!(available, vec![Symbol::BtcUsdt, Symbol::BtcUsdc]);
    assert_eq!(active, Symbol::BtcUsdc);
}

#[test]
fn text_helpers_order_and_search() {
    assert!(str_less("abc", "abd"));
    assert!(str_less("ab", "abc"));
    assert!(!str_less("abc", "abc"));
    assert!(!str_less("b", "abc"));
    assert!(str_contains("insufficient margin", "margin"));
    assert!(str_contains("x", ""));
    assert!(!str_contains("margin", "margins"));
    let items = vec!["b".to_string(), "a".to_string(), "b".to_string(), "c".to_string()];
    assert_eq!(sorted_unique(&items), vec!["a".to_string(), "b".to_string(), "c".to_string()]);
}
