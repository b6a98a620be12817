//! The live execution gates: which blocking reasons apply, whether an order
//! may be submitted now, and the execution state shown to the operator.

use vstd::prelude::*;

use crate::decimal::{decimal_greater, decimal_less, lemma_positive_iff_mantissa, parse_decimal_or_zero, parts_or_zero, pow10};
use crate::live::{
    canonical_reasons, canonical_reasons_of, contains_reason, dedup_adjacent, dedup_warnings,
    LiveAccountShadow, LiveBlockingReason, LiveCredentialId, LiveEnvironment,
    LiveExecutionAvailability, LiveReconciliationStatus, LiveShadowStreamState, LiveWarning,
};
use crate::options::ServiceOptions;
use crate::orders::{
    LiveAutoExecutorStateKind, LiveAutoExecutorStatus, LiveExecutionSnapshot, LiveExecutionState, LiveFillRecord,
    LiveKillSwitchState, LiveOrderIntent, LiveOrderPreview, LiveOrderRecord, LiveOrderStatus,
    LiveRiskProfile, LiveStateRecord,
};
use crate::text::{concat_str, str_eq};

verus! {

/// `a - b`, clamped to the range of `i64` (`i64::saturating_sub`).
pub open spec fn sat_sub(a: i64, b: i64) -> int {
    let d = a - b;
    if d > i64::MAX {
        i64::MAX as int
    } else if d < i64::MIN {
        i64::MIN as int
    } else {
        d
    }
}

/// `a - b`, clamped to the range of `i64`.
pub fn saturating_sub_i64(a: i64, b: i64) -> (r: i64)
    ensures
        r == sat_sub(a, b),
{
    let d = a as i128 - b as i128;
    if d > i64::MAX as i128 {
        i64::MAX
    } else if d < i64::MIN as i128 {
        i64::MIN
    } else {
        d as i64
    }
}

/// A one-element sequence when `c` holds, else the empty sequence.
pub open spec fn only_if<T>(c: bool, r: T) -> Seq<T> {
    if c {
        seq![r]
    } else {
        Seq::empty()
    }
}

/// Whether the shadow holds a position whose side is not `BOTH`, which
/// means the account is in hedge mode.
pub open spec fn has_hedge_position(shadow: LiveAccountShadow) -> bool {
    exists|i: int| 0 <= i < shadow.positions@.len() && #[trigger] shadow.positions@[i].position_side@ != "BOTH"@
}

/// Whether the shadow shows an account mode that live execution does not
/// support: multi-assets margin or hedge mode.
pub open spec fn unsupported_account_mode(shadow: LiveAccountShadow) -> bool {
    shadow.multi_assets_margin == Some(true) || has_hedge_position(shadow)
}

/// Whether there is a shadow or a stream that belongs to another
/// environment than the selected one.
pub open spec fn stream_environment_mismatch(rec: LiveReconciliationStatus, env: LiveEnvironment) -> bool {
    (rec.shadow is Some || rec.stream.state != LiveShadowStreamState::Stopped)
        && rec.stream.environment != env
}

/// Whether the stream's last event is older than the staleness limit.
pub open spec fn stream_event_stale(rec: LiveReconciliationStatus, now: i64, stale_ms: i64) -> bool {
    match rec.stream.last_event_time {
        Some(t) => sat_sub(now, t) > stale_ms,
        None => false,
    }
}

/// The reasons that the user-data stream gives.
pub open spec fn stream_blocks(
    rec: LiveReconciliationStatus,
    env: LiveEnvironment,
    now: i64,
    stale_ms: i64,
) -> Seq<LiveBlockingReason> {
    (match rec.stream.state {
        LiveShadowStreamState::Running => Seq::empty(),
        LiveShadowStreamState::Degraded | LiveShadowStreamState::Expired => seq![
            LiveBlockingReason::ShadowStateAmbiguous,
        ],
        _ => seq![LiveBlockingReason::ShadowStreamDown],
    }) + only_if(stream_environment_mismatch(rec, env), LiveBlockingReason::ShadowStateAmbiguous)
        + only_if(rec.stream.stale, LiveBlockingReason::StaleShadowState)
        + only_if(stream_event_stale(rec, now, stale_ms), LiveBlockingReason::StaleShadowState)
}

/// The reasons that the account shadow gives.
pub open spec fn shadow_blocks(rec: LiveReconciliationStatus, env: LiveEnvironment) -> Seq<LiveBlockingReason> {
    match rec.shadow {
        Some(s) => only_if(s.ambiguous, LiveBlockingReason::ShadowStateAmbiguous)
            + only_if(s.environment != env, LiveBlockingReason::ShadowStateAmbiguous)
            + only_if(unsupported_account_mode(s), LiveBlockingReason::UnsupportedAccountMode),
        None => seq![LiveBlockingReason::AccountSnapshotMissing],
    }
}

/// Whether an intent exceeds the risk limits: its estimated notional above
/// a positive per-order maximum, or its leverage above a positive maximum
/// leverage. Text that does not read as a decimal counts as zero.
pub open spec fn risk_exceeded(intent: LiveOrderIntent, risk: LiveRiskProfile) -> bool {
    let notional = parts_or_zero(intent.sizing.estimated_notional@);
    let max_notional = parts_or_zero(risk.limits.max_notional_per_order@);
    let leverage = parts_or_zero(intent.sizing.leverage@);
    let max_leverage = parts_or_zero(risk.limits.max_leverage@);
    (decimal_less((0i128, 0u32), max_notional) && decimal_less(max_notional, notional))
        || (decimal_less((0i128, 0u32), max_leverage) && decimal_less(max_leverage, leverage))
}

/// Whether an intent exceeds the risk limits.
pub fn intent_exceeds_risk_limits(intent: &LiveOrderIntent, risk_profile: &LiveRiskProfile) -> (b: bool)
    ensures
        b == risk_exceeded(*intent, *risk_profile),
{
    let notional = parse_decimal_or_zero(intent.sizing.estimated_notional.as_str());
    let max_notional = parse_decimal_or_zero(risk_profile.limits.max_notional_per_order.as_str());
    let leverage = parse_decimal_or_zero(intent.sizing.leverage.as_str());
    let max_leverage = parse_decimal_or_zero(risk_profile.limits.max_leverage.as_str());
    (decimal_greater(max_notional, (0, 0)) && decimal_greater(notional, max_notional))
        || (decimal_greater(max_leverage, (0, 0)) && decimal_greater(leverage, max_leverage))
}

/// The reasons that the current preview gives.
pub open spec fn preview_blocks(
    preview: Option<LiveOrderPreview>,
    env: LiveEnvironment,
    now: i64,
    ttl_ms: i64,
    risk: LiveRiskProfile,
) -> Seq<LiveBlockingReason> {
    match preview {
        None => seq![LiveBlockingReason::IntentUnavailable],
        Some(p) => p.blocking_reasons@ + match p.intent {
            None => seq![LiveBlockingReason::IntentUnavailable],
            Some(i) => i.blocking_reasons@
                + only_if(i.environment != env, LiveBlockingReason::PreviewMismatch)
                + only_if(sat_sub(now, i.built_at) > ttl_ms, LiveBlockingReason::PreviewMismatch)
                + only_if(risk.configured && risk_exceeded(i, risk), LiveBlockingReason::RiskLimitExceeded)
                + only_if(
                    !i.can_execute_now && env == LiveEnvironment::Testnet,
                    LiveBlockingReason::ExecutionNotImplemented,
                ),
        },
    }
}

/// The index of the last order in `orders` that is still open.
pub open spec fn last_open_index(orders: Seq<LiveOrderRecord>) -> Option<int>
    decreases orders.len(),
{
    if orders.len() == 0 {
        None
    } else if orders.last().status.open() {
        Some(orders.len() - 1)
    } else {
        last_open_index(orders.drop_last())
    }
}

/// Every reason that blocks execution, with repeats, before sorting.
pub open spec fn execution_raw_blocks(
    live_state: LiveStateRecord,
    readiness_blocking: Seq<LiveBlockingReason>,
    rec: LiveReconciliationStatus,
    preview: Option<LiveOrderPreview>,
    orders: Seq<LiveOrderRecord>,
    kill_switch: LiveKillSwitchState,
    risk: LiveRiskProfile,
    now: i64,
    options: ServiceOptions,
) -> Seq<LiveBlockingReason> {
    let env = live_state.environment;
    readiness_blocking
        + only_if(kill_switch.engaged, LiveBlockingReason::KillSwitchEngaged)
        + only_if(
            env == LiveEnvironment::Mainnet && !options.enable_mainnet_canary_execution,
            LiveBlockingReason::MainnetCanaryDisabled,
        )
        + only_if(env == LiveEnvironment::Mainnet && !risk.configured, LiveBlockingReason::MainnetCanaryRiskProfileMissing)
        + only_if(!live_state.armed, LiveBlockingReason::RuntimeBusy)
        + stream_blocks(rec, env, now, options.live_shadow_stale_ms)
        + shadow_blocks(rec, env)
        + only_if(last_open_index(orders) is Some, LiveBlockingReason::RuntimeBusy)
        + preview_blocks(preview, env, now, options.live_intent_ttl_ms, risk)
}

/// The warnings of the execution gates, with repeats, before adjacent
/// repeats are dropped.
pub open spec fn execution_raw_warnings(
    live_state: LiveStateRecord,
    readiness_warnings: Seq<LiveWarning>,
    rec: LiveReconciliationStatus,
    now: i64,
    options: ServiceOptions,
) -> Seq<LiveWarning> {
    readiness_warnings
        + only_if(stream_environment_mismatch(rec, live_state.environment), LiveWarning::ShadowStreamStale)
        + only_if(rec.stream.stale, LiveWarning::ShadowStreamStale)
        + only_if(stream_event_stale(rec, now, options.live_shadow_stale_ms), LiveWarning::ShadowStreamStale)
}

/// The execution state that an open order's status gives.
pub open spec fn order_execution_state(s: LiveOrderStatus) -> LiveExecutionState {
    match s {
        LiveOrderStatus::SubmitPending => LiveExecutionState::TestnetSubmitPending,
        LiveOrderStatus::Working | LiveOrderStatus::Accepted => LiveExecutionState::TestnetOrderOpen,
        LiveOrderStatus::PartiallyFilled => LiveExecutionState::TestnetPartiallyFilled,
        LiveOrderStatus::Filled => LiveExecutionState::TestnetFilled,
        LiveOrderStatus::CancelPending => LiveExecutionState::TestnetCancelPending,
        _ => LiveExecutionState::ExecutionDegraded,
    }
}

/// The execution state: that of the active order if there is one;
/// otherwise, on mainnet, canary-ready or blocked; on testnet, the kill
/// switch first, then running auto, ready, degraded when the shadow is
/// ambiguous or stale, and blocked.
pub open spec fn execution_state_for(
    env: LiveEnvironment,
    active: Option<LiveOrderStatus>,
    can_submit: bool,
    canary_enabled: bool,
    risk_configured: bool,
    kill_engaged: bool,
    auto_running: bool,
    shadow_degraded: bool,
) -> LiveExecutionState {
    match active {
        Some(s) => order_execution_state(s),
        None => if env == LiveEnvironment::Mainnet {
            if can_submit && canary_enabled && risk_configured {
                LiveExecutionState::MainnetCanaryReady
            } else {
                LiveExecutionState::MainnetExecutionBlocked
            }
        } else if kill_engaged {
            LiveExecutionState::KillSwitchEngaged
        } else if can_submit && auto_running {
            LiveExecutionState::TestnetAutoRunning
        } else if can_submit {
            LiveExecutionState::TestnetExecutionReady
        } else if shadow_degraded {
            LiveExecutionState::ExecutionDegraded
        } else {
            LiveExecutionState::ExecutionBlocked
        },
    }
}

/// The first reason of a sorted list, or `ExecutionNotImplemented` when
/// there is none.
pub open spec fn first_reason(s: Seq<LiveBlockingReason>) -> LiveBlockingReason {
    if s.len() > 0 {
        s[0]
    } else {
        LiveBlockingReason::ExecutionNotImplemented
    }
}

/// The availability message shown to the operator.
pub open spec fn availability_message(
    env: LiveEnvironment,
    can_submit: bool,
    canary_enabled: bool,
    reason: LiveBlockingReason,
) -> Seq<char> {
    if can_submit {
        if env == LiveEnvironment::Mainnet {
            "MAINNET canary execution ready for the displayed preview."@
        } else {
            "TESTNET execution ready for the displayed preview."@
        }
    } else if env == LiveEnvironment::Mainnet && !canary_enabled {
        "MAINNET canary execution is disabled by server policy."@
    } else if env == LiveEnvironment::Mainnet {
        "MAINNET canary execution blocked: "@ + reason.text()
    } else {
        "TESTNET execution blocked: "@ + reason.text()
    }
}

/// Whether `c` is a copy of the order `o`: every field equal, the payload
/// holding the same entries.
pub open spec fn order_copy(c: LiveOrderRecord, o: LiveOrderRecord) -> bool {
    &&& c.id == o.id
    &&& c.credential_id == o.credential_id
    &&& c.environment == o.environment
    &&& c.symbol == o.symbol
    &&& c.side == o.side
    &&& c.order_type == o.order_type
    &&& c.status == o.status
    &&& c.client_order_id == o.client_order_id
    &&& c.exchange_order_id == o.exchange_order_id
    &&& c.quantity == o.quantity
    &&& c.price == o.price
    &&& c.executed_qty == o.executed_qty
    &&& c.avg_price == o.avg_price
    &&& c.reduce_only == o.reduce_only
    &&& c.time_in_force == o.time_in_force
    &&& c.intent_id == o.intent_id
    &&& c.intent_hash == o.intent_hash
    &&& c.source_signal_id == o.source_signal_id
    &&& c.source_open_time == o.source_open_time
    &&& c.reason == o.reason
    &&& c.payload@ == o.payload@
    &&& c.response_type == o.response_type
    &&& c.self_trade_prevention_mode == o.self_trade_prevention_mode
    &&& c.price_match == o.price_match
    &&& c.expire_reason == o.expire_reason
    &&& c.last_error == o.last_error
    &&& c.submitted_at == o.submitted_at
    &&& c.updated_at == o.updated_at
}

/// A copy of an optional string.
pub fn clone_opt_string(s: &Option<String>) -> (c: Option<String>)
    ensures
        c == *s,
{
    match s {
        Some(x) => Some(x.clone()),
        None => None,
    }
}

/// A copy of an optional credential identifier.
pub fn clone_opt_credential_id(s: &Option<LiveCredentialId>) -> (c: Option<LiveCredentialId>)
    ensures
        c == *s,
{
    match s {
        Some(x) => Some(LiveCredentialId(x.0.clone())),
        None => None,
    }
}

/// A copy of an order record.
pub fn clone_order(o: &LiveOrderRecord) -> (c: LiveOrderRecord)
    ensures
        order_copy(c, *o),
{
    LiveOrderRecord {
        id: o.id.clone(),
        credential_id: clone_opt_credential_id(&o.credential_id),
        environment: o.environment,
        symbol: o.symbol,
        side: o.side,
        order_type: o.order_type,
        status: o.status,
        client_order_id: o.client_order_id.clone(),
        exchange_order_id: clone_opt_string(&o.exchange_order_id),
        quantity: o.quantity.clone(),
        price: clone_opt_string(&o.price),
        executed_qty: o.executed_qty.clone(),
        avg_price: clone_opt_string(&o.avg_price),
        reduce_only: o.reduce_only,
        time_in_force: clone_opt_string(&o.time_in_force),
        intent_id: clone_opt_string(&o.intent_id),
        intent_hash: clone_opt_string(&o.intent_hash),
        source_signal_id: clone_opt_string(&o.source_signal_id),
        source_open_time: o.source_open_time,
        reason: o.reason.clone(),
        payload: o.payload.clone(),
        response_type: clone_opt_string(&o.response_type),
        self_trade_prevention_mode: clone_opt_string(&o.self_trade_prevention_mode),
        price_match: clone_opt_string(&o.price_match),
        expire_reason: clone_opt_string(&o.expire_reason),
        last_error: clone_opt_string(&o.last_error),
        submitted_at: o.submitted_at,
        updated_at: o.updated_at,
    }
}

/// The index of the last open order.
fn find_last_open(orders: &Vec<LiveOrderRecord>) -> (k: Option<usize>)
    ensures
        match last_open_index(orders@) {
            Some(i) => k is Some && k->0 as int == i && 0 <= i < orders@.len(),
            None => k is None,
        },
{
    let mut i = orders.len();
    assert(orders@.subrange(0, i as int) =~= orders@);
    while i > 0
        invariant
            i <= orders.len(),
            last_open_index(orders@) == last_open_index(orders@.subrange(0, i as int)),
        decreases i,
    {
        let ghost pre = orders@.subrange(0, i as int);
        if orders[i - 1].status.is_open() {
            return Some(i - 1);
        }
        assert(pre.drop_last() =~= orders@.subrange(0, i - 1));
        i = i - 1;
    }
    None
}

fn shadow_hedge_position(shadow: &LiveAccountShadow) -> (b: bool)
    ensures
        b == has_hedge_position(*shadow),
{
    let mut i: usize = 0;
    while i < shadow.positions.len()
        invariant
            i <= shadow.positions@.len(),
            forall|j: int| 0 <= j < i ==> #[trigger] shadow.positions@[j].position_side@ == "BOTH"@,
        decreases shadow.positions.len() - i,
    {
        if !str_eq(shadow.positions[i].position_side.as_str(), "BOTH") {
            return true;
        }
        i = i + 1;
    }
    false
}

/// Whether the shadow shows an unsupported account mode.
pub fn shadow_has_unsupported_mode(shadow: &LiveAccountShadow) -> (b: bool)
    ensures
        b == unsupported_account_mode(*shadow),
{
    let multi = match shadow.multi_assets_margin {
        Some(m) => m,
        None => false,
    };
    multi || shadow_hedge_position(shadow)
}

fn push_when(v: &mut Vec<LiveBlockingReason>, c: bool, r: LiveBlockingReason)
    ensures
        final(v)@ == old(v)@ + only_if(c, r),
{
    if c {
        v.push(r);
    }
    assert(final(v)@ =~= old(v)@ + only_if(c, r));
}

fn push_warning_when(v: &mut Vec<LiveWarning>, c: bool, w: LiveWarning)
    ensures
        final(v)@ == old(v)@ + only_if(c, w),
{
    if c {
        v.push(w);
    }
    assert(final(v)@ =~= old(v)@ + only_if(c, w));
}

fn append_reasons(v: &mut Vec<LiveBlockingReason>, extra: &Vec<LiveBlockingReason>)
    ensures
        final(v)@ == old(v)@ + extra@,
{
    let mut i: usize = 0;
    while i < extra.len()
        invariant
            i <= extra.len(),
            v@ == old(v)@ + extra@.subrange(0, i as int),
        decreases extra.len() - i,
    {
        v.push(extra[i]);
        assert(v@ =~= old(v)@ + extra@.subrange(0, i + 1));
        i = i + 1;
    }
    assert(extra@.subrange(0, extra@.len() as int) =~= extra@);
}

fn copy_warnings(v: &Vec<LiveWarning>) -> (c: Vec<LiveWarning>)
    ensures
        c@ == v@,
{
    let mut c: Vec<LiveWarning> = Vec::new();
    let mut i: usize = 0;
    while i < v.len()
        invariant
            i <= v.len(),
            c@ == v@.subrange(0, i as int),
        decreases v.len() - i,
    {
        c.push(v[i]);
        i = i + 1;
    }
    assert(c@ =~= v@);
    c
}

pub(crate) fn is_stream_event_stale(rec: &LiveReconciliationStatus, now_ms: i64, stale_ms: i64) -> (b: bool)
    ensures
        b == stream_event_stale(*rec, now_ms, stale_ms),
{
    match rec.stream.last_event_time {
        Some(t) => saturating_sub_i64(now_ms, t) > stale_ms,
        None => false,
    }
}

fn stream_block_list(
    reconciliation: &LiveReconciliationStatus,
    env: LiveEnvironment,
    now_ms: i64,
    stale_ms: i64,
) -> (raw: Vec<LiveBlockingReason>)
    ensures
        raw@ == stream_blocks(*reconciliation, env, now_ms, stale_ms),
{
    let mut raw: Vec<LiveBlockingReason> = Vec::new();
    match reconciliation.stream.state {
        LiveShadowStreamState::Running => {},
        LiveShadowStreamState::Degraded | LiveShadowStreamState::Expired => {
            raw.push(LiveBlockingReason::ShadowStateAmbiguous);
        },
        _ => {
            raw.push(LiveBlockingReason::ShadowStreamDown);
        },
    }
    let mismatch = (reconciliation.shadow.is_some()
        || reconciliation.stream.state != LiveShadowStreamState::Stopped)
        && reconciliation.stream.environment != env;
    push_when(&mut raw, mismatch, LiveBlockingReason::ShadowStateAmbiguous);
    push_when(&mut raw, reconciliation.stream.stale, LiveBlockingReason::StaleShadowState);
    let event_stale = is_stream_event_stale(reconciliation, now_ms, stale_ms);
    push_when(&mut raw, event_stale, LiveBlockingReason::StaleShadowState);
    assert(raw@ =~= stream_blocks(*reconciliation, env, now_ms, stale_ms));
    raw
}

fn shadow_block_list(reconciliation: &LiveReconciliationStatus, env: LiveEnvironment) -> (raw: Vec<LiveBlockingReason>)
    ensures
        raw@ == shadow_blocks(*reconciliation, env),
{
    let mut raw: Vec<LiveBlockingReason> = Vec::new();
    match &reconciliation.shadow {
        Some(shadow) => {
            push_when(&mut raw, shadow.ambiguous, LiveBlockingReason::ShadowStateAmbiguous);
            push_when(&mut raw, shadow.environment != env, LiveBlockingReason::ShadowStateAmbiguous);
            let unsupported = shadow_has_unsupported_mode(shadow);
            push_when(&mut raw, unsupported, LiveBlockingReason::UnsupportedAccountMode);
        },
        None => {
            raw.push(LiveBlockingReason::AccountSnapshotMissing);
        },
    }
    assert(raw@ =~= shadow_blocks(*reconciliation, env));
    raw
}

fn preview_block_list(
    intent_preview: &Option<LiveOrderPreview>,
    env: LiveEnvironment,
    now_ms: i64,
    ttl_ms: i64,
    risk_profile: &LiveRiskProfile,
) -> (raw: Vec<LiveBlockingReason>)
    ensures
        raw@ == preview_blocks(*intent_preview, env, now_ms, ttl_ms, *risk_profile),
{
    let mut raw: Vec<LiveBlockingReason> = Vec::new();
    match intent_preview {
        Some(preview) => {
            append_reasons(&mut raw, &preview.blocking_reasons);
            let ghost mid = raw@;
            match &preview.intent {
                Some(intent) => {
                    append_reasons(&mut raw, &intent.blocking_reasons);
                    push_when(&mut raw, intent.environment != env, LiveBlockingReason::PreviewMismatch);
                    push_when(
                        &mut raw,
                        saturating_sub_i64(now_ms, intent.built_at) > ttl_ms,
                        LiveBlockingReason::PreviewMismatch,
                    );
                    let exceeded = risk_profile.configured && intent_exceeds_risk_limits(intent, risk_profile);
                    push_when(&mut raw, exceeded, LiveBlockingReason::RiskLimitExceeded);
                    push_when(
                        &mut raw,
                        !intent.can_execute_now && env == LiveEnvironment::Testnet,
                        LiveBlockingReason::ExecutionNotImplemented,
                    );
                },
                None => {
                    raw.push(LiveBlockingReason::IntentUnavailable);
                },
            }
        },
        None => {
            raw.push(LiveBlockingReason::IntentUnavailable);
        },
    }
    assert(raw@ =~= preview_blocks(*intent_preview, env, now_ms, ttl_ms, *risk_profile));
    raw
}

fn execution_block_list(
    live_state: &LiveStateRecord,
    readiness_blocking: &Vec<LiveBlockingReason>,
    reconciliation: &LiveReconciliationStatus,
    intent_preview: &Option<LiveOrderPreview>,
    has_active_order: bool,
    kill_switch: &LiveKillSwitchState,
    risk_profile: &LiveRiskProfile,
    now_ms: i64,
    options: &ServiceOptions,
    Ghost(orders): Ghost<Seq<LiveOrderRecord>>,
) -> (raw: Vec<LiveBlockingReason>)
    requires
        has_active_order == last_open_index(orders) is Some,
    ensures
        raw@ == execution_raw_blocks(
            *live_state,
            readiness_blocking@,
            *reconciliation,
            *intent_preview,
            orders,
            *kill_switch,
            *risk_profile,
            now_ms,
            *options,
        ),
{
    let env = live_state.environment;
    let mut raw: Vec<LiveBlockingReason> = Vec::new();
    append_reasons(&mut raw, readiness_blocking);
    push_when(&mut raw, kill_switch.engaged, LiveBlockingReason::KillSwitchEngaged);
    push_when(
        &mut raw,
        env == LiveEnvironment::Mainnet && !options.enable_mainnet_canary_execution,
        LiveBlockingReason::MainnetCanaryDisabled,
    );
    push_when(
        &mut raw,
        env == LiveEnvironment::Mainnet && !risk_profile.configured,
        LiveBlockingReason::MainnetCanaryRiskProfileMissing,
    );
    push_when(&mut raw, !live_state.armed, LiveBlockingReason::RuntimeBusy);
    let s = stream_block_list(reconciliation, env, now_ms, options.live_shadow_stale_ms);
    append_reasons(&mut raw, &s);
    let sh = shadow_block_list(reconciliation, env);
    append_reasons(&mut raw, &sh);
    push_when(&mut raw, has_active_order, LiveBlockingReason::RuntimeBusy);
    let p = preview_block_list(intent_preview, env, now_ms, options.live_intent_ttl_ms, risk_profile);
    append_reasons(&mut raw, &p);
    raw
}

fn execution_warning_list(
    live_state: &LiveStateRecord,
    readiness_warnings: &Vec<LiveWarning>,
    reconciliation: &LiveReconciliationStatus,
    now_ms: i64,
    options: &ServiceOptions,
) -> (w: Vec<LiveWarning>)
    ensures
        w@ == dedup_adjacent(
            execution_raw_warnings(*live_state, readiness_warnings@, *reconciliation, now_ms, *options),
        ),
{
    let env = live_state.environment;
    let mismatch = (reconciliation.shadow.is_some()
        || reconciliation.stream.state != LiveShadowStreamState::Stopped)
        && reconciliation.stream.environment != env;
    let event_stale = is_stream_event_stale(reconciliation, now_ms, options.live_shadow_stale_ms);
    let mut warnings = copy_warnings(readiness_warnings);
    push_warning_when(&mut warnings, mismatch, LiveWarning::ShadowStreamStale);
    push_warning_when(&mut warnings, reconciliation.stream.stale, LiveWarning::ShadowStreamStale);
    push_warning_when(&mut warnings, event_stale, LiveWarning::ShadowStreamStale);
    dedup_warnings(&warnings)
}

fn execution_state_of(
    env: LiveEnvironment,
    active_status: Option<LiveOrderStatus>,
    can_submit: bool,
    canary_enabled: bool,
    risk_configured: bool,
    kill_engaged: bool,
    auto_running: bool,
    degraded: bool,
) -> (s: LiveExecutionState)
    ensures
        s == execution_state_for(
            env,
            active_status,
            can_submit,
            canary_enabled,
            risk_configured,
            kill_engaged,
            auto_running,
            degraded,
        ),
{
    match active_status {
        Some(status) => match status {
            LiveOrderStatus::SubmitPending => LiveExecutionState::TestnetSubmitPending,
            LiveOrderStatus::Working | LiveOrderStatus::Accepted => LiveExecutionState::TestnetOrderOpen,
            LiveOrderStatus::PartiallyFilled => LiveExecutionState::TestnetPartiallyFilled,
            LiveOrderStatus::Filled => LiveExecutionState::TestnetFilled,
            LiveOrderStatus::CancelPending => LiveExecutionState::TestnetCancelPending,
            _ => LiveExecutionState::ExecutionDegraded,
        },
        None => {
            if env == LiveEnvironment::Mainnet {
                if can_submit && canary_enabled && risk_configured {
                    LiveExecutionState::MainnetCanaryReady
                } else {
                    LiveExecutionState::MainnetExecutionBlocked
                }
            } else if kill_engaged {
                LiveExecutionState::KillSwitchEngaged
            } else if can_submit && auto_running {
                LiveExecutionState::TestnetAutoRunning
            } else if can_submit {
                LiveExecutionState::TestnetExecutionReady
            } else if degraded {
                LiveExecutionState::ExecutionDegraded
            } else {
                LiveExecutionState::ExecutionBlocked
            }
        },
    }
}

fn availability_text(
    env: LiveEnvironment,
    can_submit: bool,
    canary_enabled: bool,
    first: LiveBlockingReason,
) -> (m: String)
    ensures
        m@ == availability_message(env, can_submit, canary_enabled, first),
{
    if can_submit {
        if env == LiveEnvironment::Mainnet {
            String::from_str("MAINNET canary execution ready for the displayed preview.")
        } else {
            String::from_str("TESTNET execution ready for the displayed preview.")
        }
    } else if env == LiveEnvironment::Mainnet && !canary_enabled {
        String::from_str("MAINNET canary execution is disabled by server policy.")
    } else if env == LiveEnvironment::Mainnet {
        concat_str("MAINNET canary execution blocked: ", first.as_str())
    } else {
        concat_str("TESTNET execution blocked: ", first.as_str())
    }
}

/// What the execution status holds: the sorted, unique blocking reasons of
/// every failed gate, whether an order may be submitted, the warnings with
/// adjacent repeats dropped, the execution state, the active order, and the
/// availability summary; the order and fill history is carried over.
pub open spec fn execution_status_holds(
    res: (LiveExecutionSnapshot, LiveExecutionAvailability),
    live_state: LiveStateRecord,
    readiness_ready: bool,
    readiness_blocking: Seq<LiveBlockingReason>,
    readiness_warnings: Seq<LiveWarning>,
    reconciliation: LiveReconciliationStatus,
    intent_preview: Option<LiveOrderPreview>,
    execution: LiveExecutionSnapshot,
    kill_switch: LiveKillSwitchState,
    risk_profile: LiveRiskProfile,
    auto_executor: LiveAutoExecutorStatus,
    now_ms: i64,
    options: ServiceOptions,
) -> bool {
    let env = live_state.environment;
    let raw = execution_raw_blocks(
        live_state,
        readiness_blocking,
        reconciliation,
        intent_preview,
        execution.recent_orders@,
        kill_switch,
        risk_profile,
        now_ms,
        options,
    );
    let can = readiness_ready && raw.len() == 0;
    let idx = last_open_index(execution.recent_orders@);
    let active_status = match idx {
        Some(k) => Some(execution.recent_orders@[k].status),
        None => None,
    };
    let out = res.0;
    &&& canonical_reasons_of(out.blocking_reasons@, raw)
    &&& out.can_submit == can
    &&& out.warnings@ == dedup_adjacent(
        execution_raw_warnings(live_state, readiness_warnings, reconciliation, now_ms, options),
    )
    &&& out.environment == env
    &&& out.state == execution_state_for(
        env,
        active_status,
        can,
        options.enable_mainnet_canary_execution,
        risk_profile.configured,
        kill_switch.engaged,
        auto_executor.state == LiveAutoExecutorStateKind::Running,
        raw.contains(LiveBlockingReason::ShadowStateAmbiguous)
            || raw.contains(LiveBlockingReason::StaleShadowState),
    )
    &&& match idx {
        Some(k) => out.active_order is Some && order_copy(
            out.active_order->0,
            execution.recent_orders@[k],
        ),
        None => out.active_order is None,
    }
    &&& out.recent_orders == execution.recent_orders
    &&& out.recent_fills == execution.recent_fills
    &&& out.kill_switch_engaged == kill_switch.engaged
    &&& out.mainnet_canary_enabled == options.enable_mainnet_canary_execution
    &&& out.repair_recent_window_only
    &&& out.updated_at == now_ms
    &&& res.1.can_execute_live == can
    &&& res.1.reason == first_reason(out.blocking_reasons@)
    &&& res.1.message@ == availability_message(
        env,
        can,
        options.enable_mainnet_canary_execution,
        res.1.reason,
    )
}

/// Computes the execution gates: which reasons block submitting the
/// current preview, whether an order may be submitted, the execution state
/// and what the operator is told.
#[verifier::rlimit(80)]
#[verifier::spinoff_prover]
pub fn build_execution_status(
    live_state: &LiveStateRecord,
    readiness_ready: bool,
    readiness_blocking: &Vec<LiveBlockingReason>,
    readiness_warnings: &Vec<LiveWarning>,
    reconciliation: &LiveReconciliationStatus,
    intent_preview: &Option<LiveOrderPreview>,
    execution: LiveExecutionSnapshot,
    kill_switch: &LiveKillSwitchState,
    risk_profile: &LiveRiskProfile,
    auto_executor: &LiveAutoExecutorStatus,
    now_ms: i64,
    options: &ServiceOptions,
) -> (res: (LiveExecutionSnapshot, LiveExecutionAvailability))
    ensures
        execution_status_holds(
            res,
            *live_state,
            readiness_ready,
            readiness_blocking@,
            readiness_warnings@,
            *reconciliation,
            *intent_preview,
            execution,
            *kill_switch,
            *risk_profile,
            *auto_executor,
            now_ms,
            *options,
        ),
{
    let env = live_state.environment;
    let mut execution = execution;
    let ghost orders = execution.recent_orders@;
    let active_index = find_last_open(&execution.recent_orders);
    let raw = execution_block_list(
        live_state,
        readiness_blocking,
        reconciliation,
        intent_preview,
        active_index.is_some(),
        kill_switch,
        risk_profile,
        now_ms,
        options,
        Ghost(orders),
    );
    let warnings = execution_warning_list(live_state, readiness_warnings, reconciliation, now_ms, options);
    let blocking = canonical_reasons(&raw);
    let can_submit = readiness_ready && blocking.len() == 0;
    proof {
        if raw@.len() > 0 {
            assert(raw@.contains(raw@[0]));
            assert(blocking@.contains(raw@[0]));
        }
        if blocking@.len() > 0 {
            assert(blocking@.contains(blocking@[0]));
        }
    }
    let degraded = contains_reason(&raw, LiveBlockingReason::ShadowStateAmbiguous)
        || contains_reason(&raw, LiveBlockingReason::StaleShadowState);
    let (active_order, active_status) = match active_index {
        Some(k) => {
            assert(last_open_index(orders) == Some(k as int));
            let o = clone_order(&execution.recent_orders[k]);
            assert(order_copy(o, orders[k as int]));
            let st = o.status;
            (Some(o), Some(st))
        },
        None => (None, None),
    };
    let state = execution_state_of(
        env,
        active_status,
        can_submit,
        options.enable_mainnet_canary_execution,
        risk_profile.configured,
        kill_switch.engaged,
        auto_executor.state == LiveAutoExecutorStateKind::Running,
        degraded,
    );
    let first = if blocking.len() > 0 {
        blocking[0]
    } else {
        LiveBlockingReason::ExecutionNotImplemented
    };
    let message = availability_text(env, can_submit, options.enable_mainnet_canary_execution, first);

    execution.environment = env;
    execution.state = state;
    execution.can_submit = can_submit;
    execution.blocking_reasons = blocking;
    execution.warnings = warnings;
    execution.active_order = active_order;
    execution.kill_switch_engaged = kill_switch.engaged;
    execution.mainnet_canary_enabled = options.enable_mainnet_canary_execution;
    execution.repair_recent_window_only = true;
    execution.updated_at = now_ms;

    let availability = LiveExecutionAvailability { can_execute_live: can_submit, reason: first, message };
    proof {
        let raw_s = execution_raw_blocks(
            *live_state,
            readiness_blocking@,
            *reconciliation,
            *intent_preview,
            orders,
            *kill_switch,
            *risk_profile,
            now_ms,
            *options,
        );
        assert(raw@ == raw_s);
        assert(can_submit == (readiness_ready && raw_s.len() == 0));
    }
    (execution, availability)
}


/// The stored execution state with the recent orders and fills, the
/// server's canary flag and the kill switch: the open order shown is the
/// last open one of the recent orders, and repair covers the recent window
/// only.
pub fn execution_with_cache(
    execution: LiveExecutionSnapshot,
    recent_orders: Vec<LiveOrderRecord>,
    recent_fills: Vec<LiveFillRecord>,
    canary_enabled: bool,
    kill_switch_engaged: bool,
) -> (r: LiveExecutionSnapshot)
    ensures
        r == (LiveExecutionSnapshot {
            recent_orders,
            recent_fills,
            repair_recent_window_only: true,
            mainnet_canary_enabled: canary_enabled,
            kill_switch_engaged,
            active_order: r.active_order,
            ..execution
        }),
        match last_open_index(recent_orders@) {
            Some(i) => r.active_order is Some && order_copy(r.active_order->0, recent_orders@[i]),
            None => r.active_order is None,
        },
{
    let active = match find_last_open(&recent_orders) {
        Some(k) => Some(clone_order(&recent_orders[k])),
        None => None,
    };
    LiveExecutionSnapshot {
        recent_orders,
        recent_fills,
        repair_recent_window_only: true,
        mainnet_canary_enabled: canary_enabled,
        kill_switch_engaged,
        active_order: active,
        ..execution
    }
}

/// An intent exceeds the risk limits exactly where its estimated notional
/// is above a positive per-order maximum or its leverage above a positive
/// maximum leverage, each read from its text (zero where refused): a
/// leverage of 5 against a maximum of 3 is refused, one of 3 is not.
pub proof fn lemma_risk_limits_bound_notional_and_leverage(intent: LiveOrderIntent, risk: LiveRiskProfile)
    ensures
        ({
            let notional = parts_or_zero(intent.sizing.estimated_notional@);
            let max_notional = parts_or_zero(risk.limits.max_notional_per_order@);
            let leverage = parts_or_zero(intent.sizing.leverage@);
            let max_leverage = parts_or_zero(risk.limits.max_leverage@);
            &&& (max_leverage.0 > 0 && leverage.0 * pow10(max_leverage.1 as nat) > max_leverage.0 * pow10(
                leverage.1 as nat,
            )) ==> risk_exceeded(intent, risk)
            &&& (max_notional.0 > 0 && notional.0 * pow10(max_notional.1 as nat) > max_notional.0 * pow10(
                notional.1 as nat,
            )) ==> risk_exceeded(intent, risk)
            &&& risk_exceeded(intent, risk) ==> (max_leverage.0 > 0 && leverage.0 * pow10(max_leverage.1 as nat)
                > max_leverage.0 * pow10(leverage.1 as nat)) || (max_notional.0 > 0 && notional.0 * pow10(
                max_notional.1 as nat,
            ) > max_notional.0 * pow10(notional.1 as nat))
        }),
{
    lemma_positive_iff_mantissa(parts_or_zero(risk.limits.max_leverage@));
    lemma_positive_iff_mantissa(parts_or_zero(risk.limits.max_notional_per_order@));
}

} // verus!
