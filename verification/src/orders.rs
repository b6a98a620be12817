//! Live orders, fills, previews, risk limits and the execution snapshot.

use std::collections::BTreeMap;

use vstd::prelude::*;

use crate::live::{LiveBlockingReason, LiveCredentialId, LiveEnvironment, LiveModePreference, LiveWarning};
use crate::market::{SignalSide, Symbol, Timeframe};

verus! {

/// The side of a live order.
#[derive(Debug, Clone, Copy, PartialEq, Eq, Structural)]
pub enum LiveOrderSide {
    Buy,
    Sell,
}

impl LiveOrderSide {
    /// The side as the exchange spells it.
    pub open spec fn text(self) -> Seq<char> {
        match self {
            LiveOrderSide::Buy => "BUY"@,
            LiveOrderSide::Sell => "SELL"@,
        }
    }

    /// The side as the exchange spells it.
    pub fn as_binance(self) -> (s: &'static str)
        ensures
            s@ == self.text(),
    {
        match self {
            LiveOrderSide::Buy => "BUY",
            LiveOrderSide::Sell => "SELL",
        }
    }
}

/// The type of a live order.
#[derive(Debug, Clone, Copy, PartialEq, Eq, Structural)]
pub enum LiveOrderType {
    Market,
    Limit,
}

impl LiveOrderType {
    /// The type as the exchange spells it.
    pub open spec fn text(self) -> Seq<char> {
        match self {
            LiveOrderType::Market => "MARKET"@,
            LiveOrderType::Limit => "LIMIT"@,
        }
    }

    /// The type as the exchange spells it.
    pub fn as_binance(self) -> (s: &'static str)
        ensures
            s@ == self.text(),
    {
        match self {
            LiveOrderType::Market => "MARKET",
            LiveOrderType::Limit => "LIMIT",
        }
    }
}


/// How the order quantity of a preview was derived, as decimal text.
#[derive(Debug, Clone, PartialEq, Eq)]
pub struct LiveOrderSizingBreakdown {
    pub requested_notional: String,
    pub available_balance: String,
    pub leverage: String,
    pub required_margin: String,
    pub raw_quantity: String,
    pub rounded_quantity: String,
    pub estimated_notional: String,
}

/// An order the operator could place, with the exact exchange payload.
#[derive(Debug, Clone, PartialEq, Eq)]
pub struct LiveOrderIntent {
    pub id: String,
    pub intent_hash: String,
    pub environment: LiveEnvironment,
    pub symbol: Symbol,
    pub side: LiveOrderSide,
    pub order_type: LiveOrderType,
    pub quantity: String,
    pub price: Option<String>,
    pub reduce_only: bool,
    pub time_in_force: Option<String>,
    pub source_signal_id: Option<String>,
    pub source_open_time: Option<i64>,
    pub reason: String,
    pub exchange_payload: BTreeMap<String, String>,
    pub sizing: LiveOrderSizingBreakdown,
    pub validation_notes: Vec<String>,
    pub blocking_reasons: Vec<LiveBlockingReason>,
    pub can_preflight: bool,
    pub can_execute_now: bool,
    pub built_at: i64,
}

/// The state of live order execution.
#[derive(Debug, Clone, Copy, PartialEq, Eq, Structural)]
pub enum LiveExecutionState {
    Disabled,
    CredentialsMissing,
    ValidationMissing,
    ValidationFailed,
    ShadowOnly,
    PreflightReady,
    TestnetExecutionReady,
    TestnetAutoReady,
    TestnetAutoRunning,
    TestnetSubmitPending,
    TestnetOrderOpen,
    TestnetPartiallyFilled,
    TestnetFilled,
    TestnetCancelPending,
    TestnetFlattenPending,
    ExecutionDegraded,
    ExecutionBlocked,
    MainnetExecutionBlocked,
    MainnetCanaryReady,
    MainnetManualExecutionEnabled,
    KillSwitchEngaged,
    Error,
}

/// The lifecycle status of a live order.
#[derive(Debug, Clone, Copy, PartialEq, Eq, Structural)]
pub enum LiveOrderStatus {
    LocalCreated,
    SubmitPending,
    Accepted,
    Working,
    PartiallyFilled,
    Filled,
    CancelPending,
    Canceled,
    Rejected,
    Expired,
    ExpiredInMatch,
    UnknownNeedsRepair,
}

impl LiveOrderStatus {
    /// The status's name.
    pub open spec fn text(self) -> Seq<char> {
        match self {
            LiveOrderStatus::LocalCreated => "local_created"@,
            LiveOrderStatus::SubmitPending => "submit_pending"@,
            LiveOrderStatus::Accepted => "accepted"@,
            LiveOrderStatus::Working => "working"@,
            LiveOrderStatus::PartiallyFilled => "partially_filled"@,
            LiveOrderStatus::Filled => "filled"@,
            LiveOrderStatus::CancelPending => "cancel_pending"@,
            LiveOrderStatus::Canceled => "canceled"@,
            LiveOrderStatus::Rejected => "rejected"@,
            LiveOrderStatus::Expired => "expired"@,
            LiveOrderStatus::ExpiredInMatch => "expired_in_match"@,
            LiveOrderStatus::UnknownNeedsRepair => "unknown_needs_repair"@,
        }
    }

    /// The status's name.
    pub fn as_str(self) -> (s: &'static str)
        ensures
            s@ == self.text(),
    {
        match self {
            LiveOrderStatus::LocalCreated => "local_created",
            LiveOrderStatus::SubmitPending => "submit_pending",
            LiveOrderStatus::Accepted => "accepted",
            LiveOrderStatus::Working => "working",
            LiveOrderStatus::PartiallyFilled => "partially_filled",
            LiveOrderStatus::Filled => "filled",
            LiveOrderStatus::CancelPending => "cancel_pending",
            LiveOrderStatus::Canceled => "canceled",
            LiveOrderStatus::Rejected => "rejected",
            LiveOrderStatus::Expired => "expired",
            LiveOrderStatus::ExpiredInMatch => "expired_in_match",
            LiveOrderStatus::UnknownNeedsRepair => "unknown_needs_repair",
        }
    }
}


impl LiveOrderStatus {
    /// Whether an order in this status may still change on the exchange:
    /// every status but filled, canceled, rejected, expired and expired in
    /// match.
    pub open spec fn open(self) -> bool {
        match self {
            LiveOrderStatus::LocalCreated
            | LiveOrderStatus::SubmitPending
            | LiveOrderStatus::Accepted
            | LiveOrderStatus::Working
            | LiveOrderStatus::PartiallyFilled
            | LiveOrderStatus::CancelPending
            | LiveOrderStatus::UnknownNeedsRepair => true,
            _ => false,
        }
    }

    /// Whether an order in this status may still change on the exchange.
    pub fn is_open(self) -> (b: bool)
        ensures
            b == self.open(),
    {
        match self {
            LiveOrderStatus::LocalCreated
            | LiveOrderStatus::SubmitPending
            | LiveOrderStatus::Accepted
            | LiveOrderStatus::Working
            | LiveOrderStatus::PartiallyFilled
            | LiveOrderStatus::CancelPending
            | LiveOrderStatus::UnknownNeedsRepair => true,
            _ => false,
        }
    }
}

/// A live order as the dashboard records it.
#[derive(Debug, Clone, PartialEq, Eq)]
pub struct LiveOrderRecord {
    pub id: String,
    pub credential_id: Option<LiveCredentialId>,
    pub environment: LiveEnvironment,
    pub symbol: Symbol,
    pub side: LiveOrderSide,
    pub order_type: LiveOrderType,
    pub status: LiveOrderStatus,
    pub client_order_id: String,
    pub exchange_order_id: Option<String>,
    pub quantity: String,
    pub price: Option<String>,
    pub executed_qty: String,
    pub avg_price: Option<String>,
    pub reduce_only: bool,
    pub time_in_force: Option<String>,
    pub intent_id: Option<String>,
    pub intent_hash: Option<String>,
    pub source_signal_id: Option<String>,
    pub source_open_time: Option<i64>,
    pub reason: String,
    pub payload: BTreeMap<String, String>,
    pub response_type: Option<String>,
    pub self_trade_prevention_mode: Option<String>,
    pub price_match: Option<String>,
    pub expire_reason: Option<String>,
    pub last_error: Option<String>,
    pub submitted_at: i64,
    pub updated_at: i64,
}

/// One fill of a live order.
#[derive(Debug, Clone, PartialEq, Eq)]
pub struct LiveFillRecord {
    pub id: String,
    pub order_id: Option<String>,
    pub client_order_id: Option<String>,
    pub exchange_order_id: Option<String>,
    pub symbol: Symbol,
    pub side: LiveOrderSide,
    pub quantity: String,
    pub price: String,
    pub commission: Option<String>,
    pub commission_asset: Option<String>,
    pub realized_pnl: Option<String>,
    pub trade_id: Option<String>,
    pub event_time: i64,
    pub created_at: i64,
}

/// The execution gates and recent orders and fills.
#[derive(Debug, Clone, PartialEq, Eq)]
pub struct LiveExecutionSnapshot {
    pub state: LiveExecutionState,
    pub environment: LiveEnvironment,
    pub can_submit: bool,
    pub blocking_reasons: Vec<LiveBlockingReason>,
    pub warnings: Vec<LiveWarning>,
    pub active_order: Option<LiveOrderRecord>,
    pub recent_orders: Vec<LiveOrderRecord>,
    pub recent_fills: Vec<LiveFillRecord>,
    pub kill_switch_engaged: bool,
    pub repair_recent_window_only: bool,
    pub mainnet_canary_enabled: bool,
    pub updated_at: i64,
}

impl Default for LiveExecutionSnapshot {
    /// Nothing submitted yet, blocked for want of a credential.
    fn default() -> (s: LiveExecutionSnapshot)
        ensures
            s.state == LiveExecutionState::CredentialsMissing,
            s.environment == LiveEnvironment::Testnet,
            !s.can_submit,
            s.blocking_reasons@ == seq![LiveBlockingReason::NoActiveCredential],
            s.warnings@ == Seq::<LiveWarning>::empty(),
            s.active_order is None,
            s.recent_orders@.len() == 0,
            s.recent_fills@.len() == 0,
            !s.kill_switch_engaged,
            s.repair_recent_window_only,
            !s.mainnet_canary_enabled,
            s.updated_at == 0,
    {
        LiveExecutionSnapshot {
            state: LiveExecutionState::CredentialsMissing,
            environment: LiveEnvironment::Testnet,
            can_submit: false,
            blocking_reasons: vec![LiveBlockingReason::NoActiveCredential],
            warnings: Vec::new(),
            active_order: None,
            recent_orders: Vec::new(),
            recent_fills: Vec::new(),
            kill_switch_engaged: false,
            repair_recent_window_only: true,
            mainnet_canary_enabled: false,
            updated_at: 0,
        }
    }
}

/// The operator's request to execute the current preview.
#[derive(Debug, Clone, PartialEq, Eq)]
pub struct LiveExecutionRequest {
    pub intent_id: Option<String>,
    pub confirm_testnet: bool,
    pub confirm_mainnet_canary: bool,
    pub confirmation_text: Option<String>,
}

/// The outcome of an execution request.
#[derive(Debug, Clone, PartialEq, Eq)]
pub struct LiveExecutionResult {
    pub accepted: bool,
    pub order: Option<LiveOrderRecord>,
    pub blocking_reason: Option<LiveBlockingReason>,
    pub message: String,
    pub created_at: i64,
}

/// The operator's request to cancel one order.
#[derive(Debug, Clone, PartialEq, Eq)]
pub struct LiveCancelRequest {
    pub order_ref: String,
    pub confirm_testnet: bool,
    pub confirm_mainnet_canary: bool,
    pub confirmation_text: Option<String>,
}

/// The operator's request to cancel every open order of the active symbol.
#[derive(Debug, Clone, PartialEq, Eq)]
pub struct LiveCancelAllRequest {
    pub confirm_testnet: bool,
    pub confirm_mainnet_canary: bool,
    pub confirmation_text: Option<String>,
}

/// The outcome of a cancel request.
#[derive(Debug, Clone, PartialEq, Eq)]
pub struct LiveCancelResult {
    pub accepted: bool,
    pub order: Option<LiveOrderRecord>,
    pub blocking_reason: Option<LiveBlockingReason>,
    pub message: String,
    pub created_at: i64,
}

/// The operator's request to flatten the active symbol's position.
#[derive(Debug, Clone, PartialEq, Eq)]
pub struct LiveFlattenRequest {
    pub confirm_testnet: bool,
    pub confirm_mainnet_canary: bool,
    pub confirmation_text: Option<String>,
}

/// The outcome of a flatten request.
#[derive(Debug, Clone, PartialEq, Eq)]
pub struct LiveFlattenResult {
    pub accepted: bool,
    pub canceled_orders: Vec<LiveOrderRecord>,
    pub flatten_order: Option<LiveOrderRecord>,
    pub blocking_reason: Option<LiveBlockingReason>,
    pub message: String,
    pub created_at: i64,
}

/// A previewed intent that passed the execution gates.
#[derive(Debug, Clone, PartialEq, Eq)]
pub struct LiveExecutableIntent {
    pub intent: LiveOrderIntent,
    pub intent_hash: String,
    pub payload: BTreeMap<String, String>,
    pub can_execute: bool,
    pub blocking_reasons: Vec<LiveBlockingReason>,
}

/// The reference price used to judge a limit order's marketability.
#[derive(Debug, Clone, PartialEq, Eq)]
pub struct LiveReferencePriceSnapshot {
    pub environment: LiveEnvironment,
    pub symbol: Symbol,
    pub price: Option<String>,
    pub source: Option<String>,
    pub observed_at: Option<i64>,
    pub fetched_at: Option<i64>,
    pub age_ms: Option<i64>,
    pub stale: bool,
    pub failure_reason: Option<String>,
    pub blocking_reason: Option<LiveBlockingReason>,
}

/// Whether a rounded limit price would cross the book.
#[derive(Debug, Clone, PartialEq, Eq)]
pub struct LiveMarketabilityCheck {
    pub reference_price: Option<String>,
    pub reference_price_source: Option<String>,
    pub reference_price_age_ms: Option<i64>,
    pub rounded_order_price: Option<String>,
    pub marketable_after_rounding: Option<bool>,
    pub checked_at: i64,
}

/// Why a preview can no longer be executed.
#[derive(Debug, Clone, Copy, PartialEq, Eq, Structural)]
pub enum LiveIntentStalenessReason {
    PreviewMissing,
    PreviewTooOld,
    IntentIdMismatch,
    LiveStateChanged,
}

impl LiveIntentStalenessReason {
    /// The wire code of the value.
    pub open spec fn text(self) -> Seq<char> {
        match self {
            LiveIntentStalenessReason::PreviewMissing => "preview_missing"@,
            LiveIntentStalenessReason::PreviewTooOld => "preview_too_old"@,
            LiveIntentStalenessReason::IntentIdMismatch => "intent_id_mismatch"@,
            LiveIntentStalenessReason::LiveStateChanged => "live_state_changed"@,
        }
    }

    /// The wire code of the value.
    pub fn as_str(self) -> (s: &'static str)
        ensures
            s@ == self.text(),
    {
        match self {
            LiveIntentStalenessReason::PreviewMissing => "preview_missing",
            LiveIntentStalenessReason::PreviewTooOld => "preview_too_old",
            LiveIntentStalenessReason::IntentIdMismatch => "intent_id_mismatch",
            LiveIntentStalenessReason::LiveStateChanged => "live_state_changed",
        }
    }
}


/// Whether a previewed intent may be executed now.
#[derive(Debug, Clone, PartialEq, Eq)]
pub struct LiveIntentExecutionReadiness {
    pub can_execute: bool,
    pub intent_hash: Option<String>,
    pub blocking_reasons: Vec<LiveBlockingReason>,
    pub staleness_reasons: Vec<LiveIntentStalenessReason>,
    pub checked_at: i64,
}

/// The readiness of a preview together with the executable intent.
#[derive(Debug, Clone, PartialEq, Eq)]
pub struct LiveExecutionPreviewBridgeResult {
    pub readiness: LiveIntentExecutionReadiness,
    pub executable: Option<LiveExecutableIntent>,
}

/// One entry of the execution audit trail.
#[derive(Debug, Clone, PartialEq, Eq)]
pub struct LiveExecutionAuditEvent {
    pub id: String,
    pub event_type: String,
    pub order_id: Option<String>,
    pub message: String,
    pub created_at: i64,
}

/// A built order preview: the intent, or why none could be built.
#[derive(Debug, Clone, PartialEq, Eq)]
pub struct LiveOrderPreview {
    pub built_at: i64,
    pub intent: Option<LiveOrderIntent>,
    pub blocking_reasons: Vec<LiveBlockingReason>,
    pub validation_errors: Vec<String>,
    pub reference_price: Option<LiveReferencePriceSnapshot>,
    pub marketability_check: Option<LiveMarketabilityCheck>,
    pub message: String,
}

/// The operator's kill switch.
#[derive(Debug, Clone, PartialEq, Eq)]
pub struct LiveKillSwitchState {
    pub engaged: bool,
    pub reason: Option<String>,
    pub engaged_at: Option<i64>,
    pub released_at: Option<i64>,
    pub updated_at: i64,
}

impl Default for LiveKillSwitchState {
    /// A released switch with no history.
    fn default() -> (s: LiveKillSwitchState)
        ensures
            s == (LiveKillSwitchState {
                engaged: false,
                reason: None,
                engaged_at: None,
                released_at: None,
                updated_at: 0,
            }),
    {
        LiveKillSwitchState { engaged: false, reason: None, engaged_at: None, released_at: None, updated_at: 0 }
    }
}

/// Per-session limits on live orders, with amounts as decimal text.
#[derive(Debug, Clone, PartialEq, Eq)]
pub struct LiveRiskLimits {
    pub max_notional_per_order: String,
    pub max_open_notional_active_symbol: String,
    pub max_leverage: String,
    pub max_orders_per_session: u64,
    pub max_fills_per_session: u64,
    pub max_consecutive_rejections: u64,
    pub max_daily_realized_loss: String,
}

impl Default for LiveRiskLimits {
    /// 50 notional per order and open, leverage 3, 5 orders, 10 fills, 2
    /// rejections and a daily loss of 25.
    fn default() -> (s: LiveRiskLimits)
        ensures
            s.max_notional_per_order@ == "50"@,
            s.max_open_notional_active_symbol@ == "50"@,
            s.max_leverage@ == "3"@,
            s.max_orders_per_session == 5,
            s.max_fills_per_session == 10,
            s.max_consecutive_rejections == 2,
            s.max_daily_realized_loss@ == "25"@,
    {
        LiveRiskLimits {
            max_notional_per_order: String::from_str("50"),
            max_open_notional_active_symbol: String::from_str("50"),
            max_leverage: String::from_str("3"),
            max_orders_per_session: 5,
            max_fills_per_session: 10,
            max_consecutive_rejections: 2,
            max_daily_realized_loss: String::from_str("25"),
        }
    }
}

/// The risk profile the operator configured for live orders.
#[derive(Debug, Clone, PartialEq, Eq)]
pub struct LiveRiskProfile {
    pub configured: bool,
    pub profile_name: Option<String>,
    pub limits: LiveRiskLimits,
    pub updated_at: i64,
}

impl Default for LiveRiskProfile {
    /// An unconfigured profile with the default limits.
    fn default() -> (s: LiveRiskProfile)
        ensures
            !s.configured,
            s.profile_name is None,
            s.limits.max_notional_per_order@ == "50"@,
            s.limits.max_leverage@ == "3"@,
            s.updated_at == 0,
    {
        LiveRiskProfile { configured: false, profile_name: None, limits: LiveRiskLimits::default(), updated_at: 0 }
    }
}

/// The state of the closed-candle auto executor.
#[derive(Debug, Clone, Copy, PartialEq, Eq, Structural)]
pub enum LiveAutoExecutorStateKind {
    Stopped,
    Ready,
    Running,
    Blocked,
    Degraded,
}

impl LiveAutoExecutorStateKind {
    /// The wire code of the value.
    pub open spec fn text(self) -> Seq<char> {
        match self {
            LiveAutoExecutorStateKind::Stopped => "stopped"@,
            LiveAutoExecutorStateKind::Ready => "ready"@,
            LiveAutoExecutorStateKind::Running => "running"@,
            LiveAutoExecutorStateKind::Blocked => "blocked"@,
            LiveAutoExecutorStateKind::Degraded => "degraded"@,
        }
    }

    /// The wire code of the value.
    pub fn as_str(self) -> (s: &'static str)
        ensures
            s@ == self.text(),
    {
        match self {
            LiveAutoExecutorStateKind::Stopped => "stopped",
            LiveAutoExecutorStateKind::Ready => "ready",
            LiveAutoExecutorStateKind::Running => "running",
            LiveAutoExecutorStateKind::Blocked => "blocked",
            LiveAutoExecutorStateKind::Degraded => "degraded",
        }
    }
}


/// The closed-candle auto executor.
#[derive(Debug, Clone, PartialEq, Eq)]
pub struct LiveAutoExecutorStatus {
    pub state: LiveAutoExecutorStateKind,
    pub environment: LiveEnvironment,
    pub order_type: LiveOrderType,
    pub started_at: Option<i64>,
    pub stopped_at: Option<i64>,
    pub last_signal_id: Option<String>,
    pub last_signal_open_time: Option<i64>,
    pub last_intent_hash: Option<String>,
    pub last_order_id: Option<String>,
    pub last_message: Option<String>,
    pub blocking_reasons: Vec<LiveBlockingReason>,
    pub updated_at: i64,
}

impl Default for LiveAutoExecutorStatus {
    /// A stopped testnet market-order executor.
    fn default() -> (s: LiveAutoExecutorStatus)
        ensures
            s.state == LiveAutoExecutorStateKind::Stopped,
            s.environment == LiveEnvironment::Testnet,
            s.order_type == LiveOrderType::Market,
            s.started_at is None,
            s.stopped_at is None,
            s.last_signal_id is None,
            s.last_signal_open_time is None,
            s.last_intent_hash is None,
            s.last_order_id is None,
            s.last_message is None,
            s.blocking_reasons@ == seq![LiveBlockingReason::AutoExecutorStopped],
            s.updated_at == 0,
    {
        LiveAutoExecutorStatus {
            state: LiveAutoExecutorStateKind::Stopped,
            environment: LiveEnvironment::Testnet,
            order_type: LiveOrderType::Market,
            started_at: None,
            stopped_at: None,
            last_signal_id: None,
            last_signal_open_time: None,
            last_intent_hash: None,
            last_order_id: None,
            last_message: None,
            blocking_reasons: vec![LiveBlockingReason::AutoExecutorStopped],
            updated_at: 0,
        }
    }
}

/// What became of a signal-driven intent lock.
#[derive(Debug, Clone, Copy, PartialEq, Eq, Structural)]
pub enum LiveIntentLockStatus {
    Created,
    Submitted,
    Blocked,
    Repaired,
}

impl LiveIntentLockStatus {
    /// The wire code of the value.
    pub open spec fn text(self) -> Seq<char> {
        match self {
            LiveIntentLockStatus::Created => "created"@,
            LiveIntentLockStatus::Submitted => "submitted"@,
            LiveIntentLockStatus::Blocked => "blocked"@,
            LiveIntentLockStatus::Repaired => "repaired"@,
        }
    }

    /// The wire code of the value.
    pub fn as_str(self) -> (s: &'static str)
        ensures
            s@ == self.text(),
    {
        match self {
            LiveIntentLockStatus::Created => "created",
            LiveIntentLockStatus::Submitted => "submitted",
            LiveIntentLockStatus::Blocked => "blocked",
            LiveIntentLockStatus::Repaired => "repaired",
        }
    }
}


/// The lock that keeps one closed-candle signal from being executed twice.
#[derive(Debug, Clone, PartialEq, Eq)]
pub struct LiveIntentLock {
    pub key: String,
    pub environment: LiveEnvironment,
    pub symbol: Symbol,
    pub timeframe: Timeframe,
    pub signal_id: String,
    pub signal_open_time: i64,
    pub signal_side: SignalSide,
    pub intent_hash: Option<String>,
    pub order_id: Option<String>,
    pub status: LiveIntentLockStatus,
    pub block_reason: Option<LiveBlockingReason>,
    pub created_at: i64,
    pub updated_at: i64,
}

/// The gates of the manual mainnet canary.
#[derive(Debug, Clone, PartialEq, Eq)]
pub struct LiveMainnetCanaryStatus {
    pub enabled_by_server: bool,
    pub risk_profile_configured: bool,
    pub canary_ready: bool,
    pub manual_execution_enabled: bool,
    pub required_confirmation: Option<String>,
    pub blocking_reasons: Vec<LiveBlockingReason>,
    pub updated_at: i64,
}

impl Default for LiveMainnetCanaryStatus {
    /// A canary disabled by the server.
    fn default() -> (s: LiveMainnetCanaryStatus)
        ensures
            !s.enabled_by_server,
            !s.risk_profile_configured,
            !s.canary_ready,
            !s.manual_execution_enabled,
            s.required_confirmation is None,
            s.blocking_reasons@ == seq![LiveBlockingReason::MainnetCanaryDisabled],
            s.updated_at == 0,
    {
        LiveMainnetCanaryStatus {
            enabled_by_server: false,
            risk_profile_configured: false,
            canary_ready: false,
            manual_execution_enabled: false,
            required_confirmation: None,
            blocking_reasons: vec![LiveBlockingReason::MainnetCanaryDisabled],
            updated_at: 0,
        }
    }
}

/// The operator's request to engage the kill switch.
#[derive(Debug, Clone, PartialEq, Eq)]
pub struct LiveKillSwitchRequest {
    pub reason: Option<String>,
}

/// The operator's request to start the testnet auto executor.
#[derive(Debug, Clone, PartialEq, Eq)]
pub struct LiveAutoExecutorRequest {
    pub confirm_testnet_auto: bool,
}

/// The result of a testnet `order/test` preflight.
#[derive(Debug, Clone, PartialEq, Eq)]
pub struct LiveOrderPreflightResult {
    pub id: String,
    pub credential_id: Option<LiveCredentialId>,
    pub environment: LiveEnvironment,
    pub symbol: Symbol,
    pub side: Option<LiveOrderSide>,
    pub order_type: Option<LiveOrderType>,
    pub payload: BTreeMap<String, String>,
    pub accepted: bool,
    pub exchange_error_code: Option<i64>,
    pub exchange_error_message: Option<String>,
    pub local_blocking_reason: Option<LiveBlockingReason>,
    pub source_signal_id: Option<String>,
    pub message: String,
    pub created_at: i64,
}

/// The persisted live-mode preferences.
#[derive(Debug, Clone, Copy, PartialEq, Eq, Structural)]
pub struct LiveStateRecord {
    pub mode_preference: LiveModePreference,
    pub environment: LiveEnvironment,
    pub armed: bool,
    pub updated_at: i64,
}

impl Default for LiveStateRecord {
    /// Paper mode on testnet, disarmed.
    fn default() -> (s: LiveStateRecord)
        ensures
            s == (LiveStateRecord {
                mode_preference: LiveModePreference::Paper,
                environment: LiveEnvironment::Testnet,
                armed: false,
                updated_at: 0,
            }),
    {
        LiveStateRecord {
            mode_preference: LiveModePreference::Paper,
            environment: LiveEnvironment::Testnet,
            armed: false,
            updated_at: 0,
        }
    }
}

} // verus!
