//! How user-data stream events change the account shadow and the
//! reconciliation, and the smaller live gates around them: the blockers of
//! the mainnet-auto configuration, of credentials loaded from the
//! environment, and of an autonomous live start.

use vstd::prelude::*;

use crate::live::{
    LiveAccountShadow, LiveBlockingReason, LiveEnvironment, LiveReconciliationStatus, LiveRuntimeState,
    LiveShadowOrder, LiveShadowStreamState,
};
use crate::execution::clone_opt_string;
use crate::mainnet_auto::{MainnetAutoConfig, MainnetAutoRunMode};
use crate::options::EnvCredentialConfig;
use crate::text::{sorted_unique, sorted_unique_of, str_eq, texts_of};

verus! {

/// The shadow an account update gives: the update's shadow, for the
/// environment, unambiguous, updated at `now_ms`, its last event time kept
/// where it has one and `now_ms` otherwise.
pub open spec fn account_update_shadow(shadow: LiveAccountShadow, environment: LiveEnvironment, now_ms: i64) -> LiveAccountShadow {
    LiveAccountShadow {
        environment,
        ambiguous: false,
        updated_at: now_ms,
        last_event_time: if shadow.last_event_time is Some {
            shadow.last_event_time
        } else {
            Some(now_ms)
        },
        ..shadow
    }
}

/// Applies an account update to the shadow.
pub fn apply_account_update(shadow: LiveAccountShadow, environment: LiveEnvironment, now_ms: i64) -> (s: LiveAccountShadow)
    ensures
        s == account_update_shadow(shadow, environment, now_ms),
{
    let mut shadow = shadow;
    shadow.environment = environment;
    shadow.ambiguous = false;
    shadow.updated_at = now_ms;
    if shadow.last_event_time.is_none() {
        shadow.last_event_time = Some(now_ms);
    }
    shadow
}

/// Whether an exchange order status is final: filled, canceled, rejected
/// or expired.
pub open spec fn final_status_text(status: Seq<char>) -> bool {
    status == "FILLED"@ || status == "CANCELED"@ || status == "REJECTED"@ || status == "EXPIRED"@ || status
        == "EXPIRED_IN_MATCH"@
}

/// The open orders after an order update: every order but the updated one,
/// in order, then the update itself unless its status is final.
pub open spec fn open_orders_after(open: Seq<LiveShadowOrder>, order: LiveShadowOrder) -> Seq<LiveShadowOrder> {
    open.filter(|o: LiveShadowOrder| o.order_id@ != order.order_id@) + if final_status_text(order.status@) {
        Seq::empty()
    } else {
        seq![order]
    }
}

fn is_final_status(status: &str) -> (b: bool)
    ensures
        b == final_status_text(status@),
{
    str_eq(status, "FILLED") || str_eq(status, "CANCELED") || str_eq(status, "REJECTED") || str_eq(status, "EXPIRED")
        || str_eq(status, "EXPIRED_IN_MATCH")
}

/// Applies an order update to the shadow at `now_ms`: the order replaces
/// its earlier report among the open orders, or leaves them once final;
/// the shadow is for the environment, unambiguous, with its last event and
/// update at `now_ms`.
pub fn apply_order_update(
    shadow: LiveAccountShadow,
    order: LiveShadowOrder,
    environment: LiveEnvironment,
    now_ms: i64,
) -> (s: LiveAccountShadow)
    ensures
        s == (LiveAccountShadow {
            environment,
            open_orders: s.open_orders,
            last_event_time: Some(now_ms),
            updated_at: now_ms,
            ambiguous: false,
            ..shadow
        }),
        s.open_orders@ == open_orders_after(shadow.open_orders@, order),
{
    let mut shadow = shadow;
    let ghost old_open = shadow.open_orders@;
    let mut kept: Vec<LiveShadowOrder> = Vec::new();
    let n = shadow.open_orders.len();
    let mut remaining = shadow.open_orders;
    shadow.open_orders = Vec::new();
    let mut i: usize = 0;
    while i < n
        invariant
            n == old_open.len(),
            remaining@ == old_open,
            i <= n,
            kept@ == old_open.subrange(0, i as int).filter(|o: LiveShadowOrder| o.order_id@ != order.order_id@),
        decreases n - i,
    {
        let same = str_eq(remaining[i].order_id.as_str(), order.order_id.as_str());
        proof {
            reveal(Seq::filter);
            assert(old_open.subrange(0, i + 1).drop_last() =~= old_open.subrange(0, i as int));
        }
        if !same {
            kept.push(clone_shadow_order(&remaining[i]));
        }
        i = i + 1;
    }
    assert(old_open.subrange(0, n as int) =~= old_open);
    let fin = is_final_status(order.status.as_str());
    if !fin {
        kept.push(order);
    }
    assert(kept@ =~= open_orders_after(old_open, order));
    shadow.open_orders = kept;
    shadow.environment = environment;
    shadow.last_event_time = Some(now_ms);
    shadow.updated_at = now_ms;
    shadow.ambiguous = false;
    shadow
}

fn clone_shadow_order(o: &LiveShadowOrder) -> (c: LiveShadowOrder)
    ensures
        c == *o,
{
    LiveShadowOrder {
        order_id: o.order_id.clone(),
        client_order_id: clone_opt_string(&o.client_order_id),
        symbol: o.symbol,
        side: o.side,
        order_type: o.order_type,
        time_in_force: clone_opt_string(&o.time_in_force),
        original_qty: o.original_qty.clone(),
        executed_qty: o.executed_qty.clone(),
        price: clone_opt_string(&o.price),
        avg_price: clone_opt_string(&o.avg_price),
        status: o.status.clone(),
        execution_type: clone_opt_string(&o.execution_type),
        reduce_only: o.reduce_only,
        position_side: clone_opt_string(&o.position_side),
        last_filled_qty: clone_opt_string(&o.last_filled_qty),
        last_filled_price: clone_opt_string(&o.last_filled_price),
        commission: clone_opt_string(&o.commission),
        commission_asset: clone_opt_string(&o.commission_asset),
        trade_id: clone_opt_string(&o.trade_id),
        self_trade_prevention_mode: clone_opt_string(&o.self_trade_prevention_mode),
        price_match: clone_opt_string(&o.price_match),
        expire_reason: clone_opt_string(&o.expire_reason),
        last_update_time: o.last_update_time,
    }
}

/// Applies an account configuration update to the shadow: for the
/// environment, its position mode where the update gives one, its last
/// event at the update's time, updated at `now_ms`.
pub fn apply_account_config_update(
    shadow: LiveAccountShadow,
    environment: LiveEnvironment,
    event_time: i64,
    position_mode: Option<String>,
    now_ms: i64,
) -> (s: LiveAccountShadow)
    ensures
        s == (LiveAccountShadow {
            environment,
            position_mode: if position_mode is Some {
                position_mode
            } else {
                shadow.position_mode
            },
            last_event_time: Some(event_time),
            updated_at: now_ms,
            ..shadow
        }),
{
    let mut shadow = shadow;
    shadow.environment = environment;
    match position_mode {
        Some(m) => shadow.position_mode = Some(m),
        None => {},
    }
    shadow.last_event_time = Some(event_time);
    shadow.updated_at = now_ms;
    shadow
}

/// The reconciliation after a shadow update from the stream: running, for
/// the environment, its stream's last event at the shadow's last event,
/// holding the shadow, updated at `now_ms`. An account update also clears
/// the stream's staleness and the blocking reasons and notes what was
/// applied.
pub fn reconcile_shadow_update(
    rec: LiveReconciliationStatus,
    shadow: LiveAccountShadow,
    environment: LiveEnvironment,
    account_update: bool,
    now_ms: i64,
) -> (r: LiveReconciliationStatus)
    ensures
        r.state == LiveRuntimeState::ShadowRunning,
        r.stream.state == LiveShadowStreamState::Running,
        r.stream.environment == environment,
        r.stream.last_event_time == shadow.last_event_time,
        r.stream.stale == if account_update { false } else { rec.stream.stale },
        account_update ==> r.stream.detail is Some && r.stream.detail->0@ == "ACCOUNT_UPDATE applied"@,
        !account_update ==> r.stream.detail == rec.stream.detail,
        r.stream == (crate::live::LiveShadowStreamStatus {
            state: LiveShadowStreamState::Running,
            environment,
            last_event_time: shadow.last_event_time,
            stale: r.stream.stale,
            detail: r.stream.detail,
            ..rec.stream
        }),
        r.shadow == Some(shadow),
        r.blocking_reasons@ == if account_update { Seq::empty() } else { rec.blocking_reasons@ },
        r.updated_at == now_ms,
        r == (LiveReconciliationStatus {
            state: LiveRuntimeState::ShadowRunning,
            stream: r.stream,
            shadow: Some(shadow),
            blocking_reasons: r.blocking_reasons,
            updated_at: now_ms,
            ..rec
        }),
{
    let mut rec = rec;
    rec.state = LiveRuntimeState::ShadowRunning;
    rec.stream.state = LiveShadowStreamState::Running;
    rec.stream.environment = environment;
    rec.stream.last_event_time = shadow.last_event_time;
    if account_update {
        rec.stream.stale = false;
        rec.stream.detail = Some(String::from_str("ACCOUNT_UPDATE applied"));
        rec.blocking_reasons = Vec::new();
    }
    rec.shadow = Some(shadow);
    rec.updated_at = now_ms;
    rec
}

/// The blockers of a live mainnet-auto configuration, each once and sorted:
/// live execution not enabled, dry-run mode, and each safety requirement
/// that is still switched on.
pub open spec fn config_raw_blockers(config: MainnetAutoConfig) -> Seq<Seq<char>> {
    (if !config.enable_live_execution { seq!["mainnet_auto_config_disabled"@] } else { Seq::empty() }) + (if config.mode
        == MainnetAutoRunMode::DryRun {
        seq!["mainnet_auto_mode_dry_run"@]
    } else {
        Seq::empty()
    }) + (if config.require_manual_canary_evidence {
        seq!["manual_canary_evidence_required"@]
    } else {
        Seq::empty()
    }) + (if config.evidence_required { seq!["evidence_logging_required"@] } else { Seq::empty() }) + (
    if config.lesson_report_required {
        seq!["lesson_report_required"@]
    } else {
        Seq::empty()
    })
}

/// The blockers of a live mainnet-auto configuration, each once and in the
/// order of `str`.
pub fn mainnet_auto_config_blockers(config: &MainnetAutoConfig) -> (b: Vec<String>)
    ensures
        sorted_unique_of(texts_of(b@), config_raw_blockers(*config)),
{
    let mut raw: Vec<String> = Vec::new();
    if !config.enable_live_execution {
        raw.push(String::from_str("mainnet_auto_config_disabled"));
    }
    if config.mode == MainnetAutoRunMode::DryRun {
        raw.push(String::from_str("mainnet_auto_mode_dry_run"));
    }
    if config.require_manual_canary_evidence {
        raw.push(String::from_str("manual_canary_evidence_required"));
    }
    if config.evidence_required {
        raw.push(String::from_str("evidence_logging_required"));
    }
    if config.lesson_report_required {
        raw.push(String::from_str("lesson_report_required"));
    }
    assert(texts_of(raw@) =~= config_raw_blockers(*config));
    sorted_unique(&raw)
}

/// The reasons credentials loaded from the environment block readiness:
/// none when such loading is off; a partial pair, else a missing one.
pub open spec fn env_blockers(config: EnvCredentialConfig, environment: LiveEnvironment) -> Seq<LiveBlockingReason> {
    let pair = config.pair_for(environment);
    if !config.enabled {
        Seq::empty()
    } else if pair.api_key is Some != pair.api_secret is Some {
        seq![LiveBlockingReason::EnvCredentialPartial]
    } else if !(pair.api_key is Some && pair.api_secret is Some) {
        seq![LiveBlockingReason::EnvCredentialsMissing]
    } else {
        Seq::empty()
    }
}

/// The reasons credentials loaded from the environment block readiness.
pub fn env_credential_blockers(config: &EnvCredentialConfig, environment: LiveEnvironment) -> (b: Vec<
    LiveBlockingReason,
>)
    ensures
        b@ == env_blockers(*config, environment),
{
    if !config.enabled {
        return Vec::new();
    }
    let pair = config.pair(environment);
    let mut b: Vec<LiveBlockingReason> = Vec::new();
    if pair.is_partial() {
        b.push(LiveBlockingReason::EnvCredentialPartial);
    } else if pair.secret().is_none() {
        b.push(LiveBlockingReason::EnvCredentialsMissing);
    }
    b
}

/// The readiness reasons of an autonomous live start: those of readiness,
/// with `ExecutionNotImplemented` added where it is not yet listed.
pub fn start_check_blocking(readiness_blocking: &Vec<LiveBlockingReason>) -> (b: Vec<LiveBlockingReason>)
    ensures
        b@ == if readiness_blocking@.contains(LiveBlockingReason::ExecutionNotImplemented) {
            readiness_blocking@
        } else {
            readiness_blocking@.push(LiveBlockingReason::ExecutionNotImplemented)
        },
{
    let mut b = readiness_blocking.clone();
    if !crate::live::contains_reason(&b, LiveBlockingReason::ExecutionNotImplemented) {
        b.push(LiveBlockingReason::ExecutionNotImplemented);
    }
    b
}


/// The blockers of a request to start a live mainnet-auto session: those
/// of the configuration, the mode not being live, and live execution not
/// enabled.
pub open spec fn live_start_raw_blockers(config: MainnetAutoConfig) -> Seq<Seq<char>> {
    config_raw_blockers(config) + (if config.mode != MainnetAutoRunMode::Live {
        seq!["mainnet_auto_mode_not_live"@]
    } else {
        Seq::empty()
    }) + (if !config.enable_live_execution { seq!["mainnet_auto_config_disabled"@] } else { Seq::empty() })
}

/// The blockers of a request to start a live mainnet-auto session, each
/// once and in the order of `str`.
pub fn mainnet_auto_live_start_blockers(config: &MainnetAutoConfig) -> (b: Vec<String>)
    ensures
        sorted_unique_of(texts_of(b@), live_start_raw_blockers(*config)),
{
    let mut raw = mainnet_auto_config_blockers(config);
    let ghost base = texts_of(raw@);
    if config.mode != MainnetAutoRunMode::Live {
        raw.push(String::from_str("mainnet_auto_mode_not_live"));
    }
    if !config.enable_live_execution {
        raw.push(String::from_str("mainnet_auto_config_disabled"));
    }
    let ghost extra = (if config.mode != MainnetAutoRunMode::Live {
        seq!["mainnet_auto_mode_not_live"@]
    } else {
        Seq::<Seq<char>>::empty()
    }) + (if !config.enable_live_execution { seq!["mainnet_auto_config_disabled"@] } else { Seq::empty() });
    assert(texts_of(raw@) =~= base + extra);
    let b = sorted_unique(&raw);
    proof {
        assert forall|t: Seq<char>| texts_of(b@).contains(t) <==> live_start_raw_blockers(*config).contains(t) by {
            if (base + extra).contains(t) {
                let k = choose|k: int| 0 <= k < (base + extra).len() && (base + extra)[k] == t;
                if k < base.len() {
                    assert(base.contains(t));
                    assert(config_raw_blockers(*config).contains(t));
                    let j = choose|j: int| 0 <= j < config_raw_blockers(*config).len() && config_raw_blockers(
                        *config,
                    )[j] == t;
                    assert(live_start_raw_blockers(*config)[j] == t);
                } else {
                    assert(live_start_raw_blockers(*config)[config_raw_blockers(*config).len() + (k - base.len())]
                        == t);
                }
            }
            if live_start_raw_blockers(*config).contains(t) {
                let k = choose|k: int| 0 <= k < live_start_raw_blockers(*config).len() && live_start_raw_blockers(
                    *config,
                )[k] == t;
                if k < config_raw_blockers(*config).len() {
                    assert(config_raw_blockers(*config).contains(t));
                    assert(base.contains(t));
                    let j = choose|j: int| 0 <= j < base.len() && base[j] == t;
                    assert((base + extra)[j] == t);
                } else {
                    assert((base + extra)[base.len() + (k - config_raw_blockers(*config).len())] == t);
                }
            }
        }
    }
    b
}
} // verus!
