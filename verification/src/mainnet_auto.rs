//! Mainnet auto mode: its configuration, risk budget, watchdog and the
//! margin-type gate.

use std::collections::BTreeMap;

use vstd::prelude::*;

use crate::live::LiveMarginType;
use crate::market::{SignalSide, Symbol};
use crate::orders::LiveOrderType;
use crate::text::{ascii_lower_seq, chars_eq_str, concat_str, trim_lower_chars, trim_seq};

verus! {

/// The state of mainnet auto mode.
#[derive(Debug, Clone, Copy, PartialEq, Eq, Structural)]
pub enum MainnetAutoState {
    Disabled,
    ConfigBlocked,
    CredentialsMissing,
    ValidationMissing,
    ReadinessBlocked,
    RiskProfileMissing,
    DryRunReady,
    DryRunRunning,
    Armed,
    LiveReady,
    LiveRunning,
    Stopping,
    Stopped,
    WatchdogStopped,
    KillSwitchEngaged,
    Degraded,
    Error,
}

/// Whether mainnet auto only records decisions or also submits orders.
#[derive(Debug, Clone, Copy, PartialEq, Eq, Structural)]
pub enum MainnetAutoRunMode {
    DryRun,
    Live,
}

impl MainnetAutoRunMode {
    /// The mode's name.
    pub open spec fn text(self) -> Seq<char> {
        match self {
            MainnetAutoRunMode::DryRun => "dry_run"@,
            MainnetAutoRunMode::Live => "live"@,
        }
    }

    /// The mode's name.
    pub fn as_str(self) -> (s: &'static str)
        ensures
            s@ == self.text(),
    {
        match self {
            MainnetAutoRunMode::DryRun => "dry_run",
            MainnetAutoRunMode::Live => "live",
        }
    }
}

/// Why the mainnet auto watchdog stopped a session.
#[derive(Debug, Clone, Copy, PartialEq, Eq, Structural)]
pub enum MainnetAutoStopReason {
    KillSwitchEngaged,
    MarketDataStale,
    ShadowStale,
    UserDataStreamDown,
    AccountSnapshotStale,
    ReferencePriceStale,
    RulesStale,
    OrderReconciliationAmbiguous,
    UnexpectedOpenOrder,
    UnexpectedPosition,
    MaxRuntimeReached,
    MaxOrdersReached,
    MaxFillsReached,
    MaxLossReached,
    MaxRejectionsReached,
    DuplicateSignalDetected,
    LiveStartBlocked,
    LeverageAboveMax,
    UnsupportedAccountMode,
    UnsupportedMarginMode,
    EvidenceLoggingFailed,
    LessonReportFailed,
    MainnetAutoConfigDisabled,
    OperatorStop,
}

impl MainnetAutoStopReason {
    /// The reason's code.
    pub open spec fn text(self) -> Seq<char> {
        match self {
            MainnetAutoStopReason::KillSwitchEngaged => "kill_switch_engaged"@,
            MainnetAutoStopReason::MarketDataStale => "market_data_stale"@,
            MainnetAutoStopReason::ShadowStale => "shadow_stale"@,
            MainnetAutoStopReason::UserDataStreamDown => "user_data_stream_down"@,
            MainnetAutoStopReason::AccountSnapshotStale => "account_snapshot_stale"@,
            MainnetAutoStopReason::ReferencePriceStale => "reference_price_stale"@,
            MainnetAutoStopReason::RulesStale => "rules_stale"@,
            MainnetAutoStopReason::OrderReconciliationAmbiguous => "order_reconciliation_ambiguous"@,
            MainnetAutoStopReason::UnexpectedOpenOrder => "unexpected_open_order"@,
            MainnetAutoStopReason::UnexpectedPosition => "unexpected_position"@,
            MainnetAutoStopReason::MaxRuntimeReached => "max_runtime_reached"@,
            MainnetAutoStopReason::MaxOrdersReached => "max_orders_reached"@,
            MainnetAutoStopReason::MaxFillsReached => "max_fills_reached"@,
            MainnetAutoStopReason::MaxLossReached => "max_loss_reached"@,
            MainnetAutoStopReason::MaxRejectionsReached => "max_rejections_reached"@,
            MainnetAutoStopReason::DuplicateSignalDetected => "duplicate_signal_detected"@,
            MainnetAutoStopReason::LiveStartBlocked => "live_start_blocked"@,
            MainnetAutoStopReason::LeverageAboveMax => "leverage_above_max"@,
            MainnetAutoStopReason::UnsupportedAccountMode => "unsupported_account_mode"@,
            MainnetAutoStopReason::UnsupportedMarginMode => "unsupported_margin_mode"@,
            MainnetAutoStopReason::EvidenceLoggingFailed => "evidence_logging_failed"@,
            MainnetAutoStopReason::LessonReportFailed => "lesson_report_failed"@,
            MainnetAutoStopReason::MainnetAutoConfigDisabled => "mainnet_auto_config_disabled"@,
            MainnetAutoStopReason::OperatorStop => "operator_stop"@,
        }
    }

    /// The reason's code.
    pub fn as_str(self) -> (s: &'static str)
        ensures
            s@ == self.text(),
    {
        match self {
            MainnetAutoStopReason::KillSwitchEngaged => "kill_switch_engaged",
            MainnetAutoStopReason::MarketDataStale => "market_data_stale",
            MainnetAutoStopReason::ShadowStale => "shadow_stale",
            MainnetAutoStopReason::UserDataStreamDown => "user_data_stream_down",
            MainnetAutoStopReason::AccountSnapshotStale => "account_snapshot_stale",
            MainnetAutoStopReason::ReferencePriceStale => "reference_price_stale",
            MainnetAutoStopReason::RulesStale => "rules_stale",
            MainnetAutoStopReason::OrderReconciliationAmbiguous => "order_reconciliation_ambiguous",
            MainnetAutoStopReason::UnexpectedOpenOrder => "unexpected_open_order",
            MainnetAutoStopReason::UnexpectedPosition => "unexpected_position",
            MainnetAutoStopReason::MaxRuntimeReached => "max_runtime_reached",
            MainnetAutoStopReason::MaxOrdersReached => "max_orders_reached",
            MainnetAutoStopReason::MaxFillsReached => "max_fills_reached",
            MainnetAutoStopReason::MaxLossReached => "max_loss_reached",
            MainnetAutoStopReason::MaxRejectionsReached => "max_rejections_reached",
            MainnetAutoStopReason::DuplicateSignalDetected => "duplicate_signal_detected",
            MainnetAutoStopReason::LiveStartBlocked => "live_start_blocked",
            MainnetAutoStopReason::LeverageAboveMax => "leverage_above_max",
            MainnetAutoStopReason::UnsupportedAccountMode => "unsupported_account_mode",
            MainnetAutoStopReason::UnsupportedMarginMode => "unsupported_margin_mode",
            MainnetAutoStopReason::EvidenceLoggingFailed => "evidence_logging_failed",
            MainnetAutoStopReason::LessonReportFailed => "lesson_report_failed",
            MainnetAutoStopReason::MainnetAutoConfigDisabled => "mainnet_auto_config_disabled",
            MainnetAutoStopReason::OperatorStop => "operator_stop",
        }
    }
}

/// What mainnet auto decided for one signal.
#[derive(Debug, Clone, Copy, PartialEq, Eq, Structural)]
pub enum MainnetAutoDecisionOutcome {
    SignalSeen,
    SkippedUnfinishedCandle,
    SkippedDuplicate,
    SkippedStaleMarketData,
    SkippedStalePreview,
    SkippedStaleReferencePrice,
    SkippedStaleShadow,
    SkippedRiskBudget,
    SkippedOpenOrder,
    SkippedOpenPosition,
    SkippedKillSwitch,
    SkippedAutoDisabled,
    SkippedConfigBlocked,
    DryRunWouldSubmit,
    LiveSubmitRequested,
    LiveSubmitBlocked,
    WatchdogStopped,
}

impl MainnetAutoDecisionOutcome {
    /// The outcome's code.
    pub open spec fn text(self) -> Seq<char> {
        match self {
            MainnetAutoDecisionOutcome::SignalSeen => "signal_seen"@,
            MainnetAutoDecisionOutcome::SkippedUnfinishedCandle => "skipped_unfinished_candle"@,
            MainnetAutoDecisionOutcome::SkippedDuplicate => "skipped_duplicate"@,
            MainnetAutoDecisionOutcome::SkippedStaleMarketData => "skipped_stale_market_data"@,
            MainnetAutoDecisionOutcome::SkippedStalePreview => "skipped_stale_preview"@,
            MainnetAutoDecisionOutcome::SkippedStaleReferencePrice => "skipped_stale_reference_price"@,
            MainnetAutoDecisionOutcome::SkippedStaleShadow => "skipped_stale_shadow"@,
            MainnetAutoDecisionOutcome::SkippedRiskBudget => "skipped_risk_budget"@,
            MainnetAutoDecisionOutcome::SkippedOpenOrder => "skipped_open_order"@,
            MainnetAutoDecisionOutcome::SkippedOpenPosition => "skipped_open_position"@,
            MainnetAutoDecisionOutcome::SkippedKillSwitch => "skipped_kill_switch"@,
            MainnetAutoDecisionOutcome::SkippedAutoDisabled => "skipped_auto_disabled"@,
            MainnetAutoDecisionOutcome::SkippedConfigBlocked => "skipped_config_blocked"@,
            MainnetAutoDecisionOutcome::DryRunWouldSubmit => "dry_run_would_submit"@,
            MainnetAutoDecisionOutcome::LiveSubmitRequested => "live_submit_requested"@,
            MainnetAutoDecisionOutcome::LiveSubmitBlocked => "live_submit_blocked"@,
            MainnetAutoDecisionOutcome::WatchdogStopped => "watchdog_stopped"@,
        }
    }

    /// The outcome's code.
    pub fn as_str(self) -> (s: &'static str)
        ensures
            s@ == self.text(),
    {
        match self {
            MainnetAutoDecisionOutcome::SignalSeen => "signal_seen",
            MainnetAutoDecisionOutcome::SkippedUnfinishedCandle => "skipped_unfinished_candle",
            MainnetAutoDecisionOutcome::SkippedDuplicate => "skipped_duplicate",
            MainnetAutoDecisionOutcome::SkippedStaleMarketData => "skipped_stale_market_data",
            MainnetAutoDecisionOutcome::SkippedStalePreview => "skipped_stale_preview",
            MainnetAutoDecisionOutcome::SkippedStaleReferencePrice => "skipped_stale_reference_price",
            MainnetAutoDecisionOutcome::SkippedStaleShadow => "skipped_stale_shadow",
            MainnetAutoDecisionOutcome::SkippedRiskBudget => "skipped_risk_budget",
            MainnetAutoDecisionOutcome::SkippedOpenOrder => "skipped_open_order",
            MainnetAutoDecisionOutcome::SkippedOpenPosition => "skipped_open_position",
            MainnetAutoDecisionOutcome::SkippedKillSwitch => "skipped_kill_switch",
            MainnetAutoDecisionOutcome::SkippedAutoDisabled => "skipped_auto_disabled",
            MainnetAutoDecisionOutcome::SkippedConfigBlocked => "skipped_config_blocked",
            MainnetAutoDecisionOutcome::DryRunWouldSubmit => "dry_run_would_submit",
            MainnetAutoDecisionOutcome::LiveSubmitRequested => "live_submit_requested",
            MainnetAutoDecisionOutcome::LiveSubmitBlocked => "live_submit_blocked",
            MainnetAutoDecisionOutcome::WatchdogStopped => "watchdog_stopped",
        }
    }
}

/// The margin type a mainnet auto session may trade with.
#[derive(Debug, Clone, Copy, PartialEq, Eq, Structural)]
pub enum MainnetAutoAllowedMarginType {
    Isolated,
    Cross,
    Any,
}

impl MainnetAutoAllowedMarginType {
    /// The policy's name.
    pub open spec fn text(self) -> Seq<char> {
        match self {
            MainnetAutoAllowedMarginType::Isolated => "isolated"@,
            MainnetAutoAllowedMarginType::Cross => "cross"@,
            MainnetAutoAllowedMarginType::Any => "any"@,
        }
    }

    /// The policy's name.
    pub fn as_str(self) -> (s: &'static str)
        ensures
            s@ == self.text(),
    {
        match self {
            MainnetAutoAllowedMarginType::Isolated => "isolated",
            MainnetAutoAllowedMarginType::Cross => "cross",
            MainnetAutoAllowedMarginType::Any => "any",
        }
    }

    /// The value that the text `s` names, if any (after trimming white space and lower-casing ASCII letters).
    pub open spec fn from_text(s: Seq<char>) -> Option<MainnetAutoAllowedMarginType> {
        let t = ascii_lower_seq(trim_seq(s));
        if t == "isolated"@ {
            Some(MainnetAutoAllowedMarginType::Isolated)
        } else if t == "cross"@ {
            Some(MainnetAutoAllowedMarginType::Cross)
        } else if t == "any"@ {
            Some(MainnetAutoAllowedMarginType::Any)
        } else {
            None
        }
    }

    /// Parses the text form of the value.
    pub fn parse(value: &str) -> (r: Result<MainnetAutoAllowedMarginType, String>)
        ensures
            match MainnetAutoAllowedMarginType::from_text(value@) {
                Some(x) => r == Ok::<MainnetAutoAllowedMarginType, String>(x),
                None => r is Err && r->Err_0@ == "unsupported mainnet auto margin policy: "@ + value@,
            },
    {
        let v = trim_lower_chars(value);
        if chars_eq_str(&v, "isolated") {
            Ok(MainnetAutoAllowedMarginType::Isolated)
        } else if chars_eq_str(&v, "cross") {
            Ok(MainnetAutoAllowedMarginType::Cross)
        } else if chars_eq_str(&v, "any") {
            Ok(MainnetAutoAllowedMarginType::Any)
        } else {
            Err(concat_str("unsupported mainnet auto margin policy: ", value))
        }
    }
}

impl std::str::FromStr for MainnetAutoAllowedMarginType {
    type Err = String;

    fn from_str(value: &str) -> (r: Result<MainnetAutoAllowedMarginType, String>)
        ensures
            match MainnetAutoAllowedMarginType::from_text(value@) {
                Some(x) => r == Ok::<MainnetAutoAllowedMarginType, String>(x),
                None => r is Err && r->Err_0@ == "unsupported mainnet auto margin policy: "@ + value@,
            },
    {
        MainnetAutoAllowedMarginType::parse(value)
    }
}

impl Default for MainnetAutoAllowedMarginType {
    fn default() -> (r: MainnetAutoAllowedMarginType)
        ensures
            r == MainnetAutoAllowedMarginType::Isolated,
    {
        MainnetAutoAllowedMarginType::Isolated
    }
}


impl MainnetAutoAllowedMarginType {
    /// Whether a position with the actual margin type may be traded: never
    /// when the type is unknown; `Any` admits cross and isolated, the others
    /// only their own type.
    pub open spec fn admits(self, actual: LiveMarginType) -> bool {
        match (self, actual) {
            (_, LiveMarginType::Unknown) => false,
            (MainnetAutoAllowedMarginType::Any, _) => true,
            (MainnetAutoAllowedMarginType::Isolated, LiveMarginType::Isolated) => true,
            (MainnetAutoAllowedMarginType::Cross, LiveMarginType::Cross) => true,
            _ => false,
        }
    }

    /// Whether a position with the actual margin type may be traded.
    pub fn allows(self, actual: LiveMarginType) -> (b: bool)
        ensures
            b == self.admits(actual),
    {
        match (self, actual) {
            (_, LiveMarginType::Unknown) => false,
            (MainnetAutoAllowedMarginType::Any, LiveMarginType::Cross) => true,
            (MainnetAutoAllowedMarginType::Any, LiveMarginType::Isolated) => true,
            (MainnetAutoAllowedMarginType::Isolated, LiveMarginType::Isolated) => true,
            (MainnetAutoAllowedMarginType::Cross, LiveMarginType::Cross) => true,
            _ => false,
        }
    }
}

/// How mainnet auto turns the oscillator into a desired position.
#[derive(Debug, Clone, Copy, PartialEq, Eq, Structural)]
pub enum AsoPositionPolicy {
    CrossoverOnly,
    AlwaysInMarket,
    FlatAllowed,
}

impl AsoPositionPolicy {
    /// The policy's name.
    pub open spec fn text(self) -> Seq<char> {
        match self {
            AsoPositionPolicy::CrossoverOnly => "crossover_only"@,
            AsoPositionPolicy::AlwaysInMarket => "always_in_market"@,
            AsoPositionPolicy::FlatAllowed => "flat_allowed"@,
        }
    }

    /// The policy's name.
    pub fn as_str(self) -> (s: &'static str)
        ensures
            s@ == self.text(),
    {
        match self {
            AsoPositionPolicy::CrossoverOnly => "crossover_only",
            AsoPositionPolicy::AlwaysInMarket => "always_in_market",
            AsoPositionPolicy::FlatAllowed => "flat_allowed",
        }
    }

    /// The value that the text `s` names, if any (after trimming white space and lower-casing ASCII letters).
    pub open spec fn from_text(s: Seq<char>) -> Option<AsoPositionPolicy> {
        let t = ascii_lower_seq(trim_seq(s));
        if t == "crossover_only"@ || t == "crossover-only"@ {
            Some(AsoPositionPolicy::CrossoverOnly)
        } else if t == "always_in_market"@ || t == "always-in-market"@ {
            Some(AsoPositionPolicy::AlwaysInMarket)
        } else if t == "flat_allowed"@ || t == "flat-allowed"@ {
            Some(AsoPositionPolicy::FlatAllowed)
        } else {
            None
        }
    }

    /// Parses the text form of the value.
    pub fn parse(value: &str) -> (r: Result<AsoPositionPolicy, String>)
        ensures
            match AsoPositionPolicy::from_text(value@) {
                Some(x) => r == Ok::<AsoPositionPolicy, String>(x),
                None => r is Err && r->Err_0@ == "unsupported ASO position policy: "@ + value@,
            },
    {
        let v = trim_lower_chars(value);
        if chars_eq_str(&v, "crossover_only") || chars_eq_str(&v, "crossover-only") {
            Ok(AsoPositionPolicy::CrossoverOnly)
        } else if chars_eq_str(&v, "always_in_market") || chars_eq_str(&v, "always-in-market") {
            Ok(AsoPositionPolicy::AlwaysInMarket)
        } else if chars_eq_str(&v, "flat_allowed") || chars_eq_str(&v, "flat-allowed") {
            Ok(AsoPositionPolicy::FlatAllowed)
        } else {
            Err(concat_str("unsupported ASO position policy: ", value))
        }
    }
}

impl std::str::FromStr for AsoPositionPolicy {
    type Err = String;

    fn from_str(value: &str) -> (r: Result<AsoPositionPolicy, String>)
        ensures
            match AsoPositionPolicy::from_text(value@) {
                Some(x) => r == Ok::<AsoPositionPolicy, String>(x),
                None => r is Err && r->Err_0@ == "unsupported ASO position policy: "@ + value@,
            },
    {
        AsoPositionPolicy::parse(value)
    }
}

impl Default for AsoPositionPolicy {
    fn default() -> (r: AsoPositionPolicy)
        ensures
            r == AsoPositionPolicy::CrossoverOnly,
    {
        AsoPositionPolicy::CrossoverOnly
    }
}

/// The position side mainnet auto wants, or none.
#[derive(Debug, Clone, Copy, PartialEq, Eq, Structural)]
pub enum MainnetAutoDesiredSide {
    Long,
    Short,
    NoSide,
}

impl MainnetAutoDesiredSide {
    /// The side's name.
    pub open spec fn text(self) -> Seq<char> {
        match self {
            MainnetAutoDesiredSide::Long => "long"@,
            MainnetAutoDesiredSide::Short => "short"@,
            MainnetAutoDesiredSide::NoSide => "none"@,
        }
    }

    /// The side's name.
    pub fn as_str(self) -> (s: &'static str)
        ensures
            s@ == self.text(),
    {
        match self {
            MainnetAutoDesiredSide::Long => "long",
            MainnetAutoDesiredSide::Short => "short",
            MainnetAutoDesiredSide::NoSide => "none",
        }
    }
}

impl Default for MainnetAutoDesiredSide {
    fn default() -> (r: MainnetAutoDesiredSide)
        ensures
            r == MainnetAutoDesiredSide::NoSide,
    {
        MainnetAutoDesiredSide::NoSide
    }
}


impl MainnetAutoDesiredSide {
    /// The position side that a signal asks for: long for a buy, short for
    /// a sell.
    pub open spec fn of_signal(side: SignalSide) -> MainnetAutoDesiredSide {
        match side {
            SignalSide::Buy => MainnetAutoDesiredSide::Long,
            SignalSide::Sell => MainnetAutoDesiredSide::Short,
        }
    }

    /// The position side that a signal asks for.
    pub fn from_signal_side(side: SignalSide) -> (d: MainnetAutoDesiredSide)
        ensures
            d == MainnetAutoDesiredSide::of_signal(side),
    {
        match side {
            SignalSide::Buy => MainnetAutoDesiredSide::Long,
            SignalSide::Sell => MainnetAutoDesiredSide::Short,
        }
    }
}

/// What the position policy tells mainnet auto to do.
#[derive(Debug, Clone, Copy, PartialEq, Eq, Structural)]
pub enum MainnetAutoPolicyAction {
    EnterLong,
    EnterShort,
    Hold,
    Close,
    Reverse,
    NoTrade,
    Blocked,
}

impl MainnetAutoPolicyAction {
    /// The action's name.
    pub open spec fn text(self) -> Seq<char> {
        match self {
            MainnetAutoPolicyAction::EnterLong => "enter_long"@,
            MainnetAutoPolicyAction::EnterShort => "enter_short"@,
            MainnetAutoPolicyAction::Hold => "hold"@,
            MainnetAutoPolicyAction::Close => "close"@,
            MainnetAutoPolicyAction::Reverse => "reverse"@,
            MainnetAutoPolicyAction::NoTrade => "no_trade"@,
            MainnetAutoPolicyAction::Blocked => "blocked"@,
        }
    }

    /// The action's name.
    pub fn as_str(self) -> (s: &'static str)
        ensures
            s@ == self.text(),
    {
        match self {
            MainnetAutoPolicyAction::EnterLong => "enter_long",
            MainnetAutoPolicyAction::EnterShort => "enter_short",
            MainnetAutoPolicyAction::Hold => "hold",
            MainnetAutoPolicyAction::Close => "close",
            MainnetAutoPolicyAction::Reverse => "reverse",
            MainnetAutoPolicyAction::NoTrade => "no_trade",
            MainnetAutoPolicyAction::Blocked => "blocked",
        }
    }
}

impl Default for MainnetAutoPolicyAction {
    fn default() -> (r: MainnetAutoPolicyAction)
        ensures
            r == MainnetAutoPolicyAction::NoTrade,
    {
        MainnetAutoPolicyAction::NoTrade
    }
}


/// The confirmation for a 15-minute mainnet auto live session.
pub const MAINNET_AUTO_LIVE_CONFIRMATION_TEXT_15M: &'static str = "START MAINNET AUTO LIVE BTCUSDT 15M";

/// The confirmation for a 60-minute mainnet auto live session.
pub const MAINNET_AUTO_LIVE_CONFIRMATION_TEXT_60M: &'static str = "START MAINNET AUTO LIVE BTCUSDT 60M";

/// The confirmation for a session that runs until the operator stops it.
pub const MAINNET_AUTO_LIVE_CONFIRMATION_TEXT_OPERATOR_STOP: &'static str =
    "START MAINNET AUTO LIVE BTCUSDT OPERATOR STOP";

/// The default confirmation: that of a 15-minute session.
pub const MAINNET_AUTO_LIVE_CONFIRMATION_TEXT: &'static str = MAINNET_AUTO_LIVE_CONFIRMATION_TEXT_15M;

/// The runtime, in minutes, that stands for "until the operator stops".
pub const MAINNET_AUTO_OPERATOR_STOP_RUNTIME_MINUTES: u64 = 0;

/// The runtimes, in minutes, that a live session may have.
pub const MAINNET_AUTO_ALLOWED_RUNTIME_MINUTES: [u64; 3] = [MAINNET_AUTO_OPERATOR_STOP_RUNTIME_MINUTES, 15, 60];

/// Whether a live session may run for `minutes`: 0 (until stopped), 15 or 60.
pub open spec fn runtime_allowed(minutes: u64) -> bool {
    minutes == 0 || minutes == 15 || minutes == 60
}

/// Whether a live session may run for `minutes`.
pub fn mainnet_auto_live_runtime_allowed(minutes: u64) -> (b: bool)
    ensures
        b == runtime_allowed(minutes),
{
    let allowed = MAINNET_AUTO_ALLOWED_RUNTIME_MINUTES;
    let mut i: usize = 0;
    while i < 3
        invariant
            i <= 3,
            allowed@ == seq![0u64, 15u64, 60u64],
            forall|j: int| 0 <= j < i ==> allowed@[j] != minutes,
        decreases 3 - i,
    {
        if allowed[i] == minutes {
            return true;
        }
        i = i + 1;
    }
    false
}

/// The exact text the operator must type to start a live session of
/// `minutes`, where that runtime is allowed.
pub open spec fn confirmation_text_for(minutes: u64) -> Option<Seq<char>> {
    if minutes == 0 {
        Some("START MAINNET AUTO LIVE BTCUSDT OPERATOR STOP"@)
    } else if minutes == 15 {
        Some("START MAINNET AUTO LIVE BTCUSDT 15M"@)
    } else if minutes == 60 {
        Some("START MAINNET AUTO LIVE BTCUSDT 60M"@)
    } else {
        None
    }
}

/// The text the operator must type to start a live session of `minutes`.
pub fn mainnet_auto_live_confirmation_text(minutes: u64) -> (t: Option<&'static str>)
    ensures
        match confirmation_text_for(minutes) {
            Some(s) => t is Some && t->0@ == s,
            None => t is None,
        },
{
    if minutes == MAINNET_AUTO_OPERATOR_STOP_RUNTIME_MINUTES {
        Some(MAINNET_AUTO_LIVE_CONFIRMATION_TEXT_OPERATOR_STOP)
    } else if minutes == 15 {
        Some(MAINNET_AUTO_LIVE_CONFIRMATION_TEXT_15M)
    } else if minutes == 60 {
        Some(MAINNET_AUTO_LIVE_CONFIRMATION_TEXT_60M)
    } else {
        None
    }
}

/// The configuration of mainnet auto mode, with amounts as decimal text.
#[derive(Debug, Clone, PartialEq, Eq)]
pub struct MainnetAutoConfig {
    pub enable_live_execution: bool,
    pub mode: MainnetAutoRunMode,
    pub max_runtime_minutes: u64,
    pub max_orders: u64,
    pub max_fills: u64,
    pub max_notional: String,
    pub max_daily_loss: String,
    pub require_flat_start: bool,
    pub require_flat_stop: bool,
    pub require_manual_canary_evidence: bool,
    pub evidence_required: bool,
    pub lesson_report_required: bool,
    pub allowed_margin_type: MainnetAutoAllowedMarginType,
    pub position_policy: AsoPositionPolicy,
    pub aso_delta_threshold: String,
    pub aso_zone_threshold: String,
}

impl Default for MainnetAutoConfig {
    /// Live execution off, dry-run mode, 15 minutes, one order and one fill,
    /// notional 80, daily loss 5, every safety requirement on, isolated
    /// margin, the crossover-only policy and thresholds 5 and 55.
    fn default() -> (c: MainnetAutoConfig)
        ensures
            !c.enable_live_execution,
            c.mode == MainnetAutoRunMode::DryRun,
            c.max_runtime_minutes == 15,
            c.max_orders == 1,
            c.max_fills == 1,
            c.max_notional@ == "80"@,
            c.max_daily_loss@ == "5"@,
            c.require_flat_start,
            c.require_flat_stop,
            c.require_manual_canary_evidence,
            c.evidence_required,
            c.lesson_report_required,
            c.allowed_margin_type == MainnetAutoAllowedMarginType::Isolated,
            c.position_policy == AsoPositionPolicy::CrossoverOnly,
            c.aso_delta_threshold@ == "5"@,
            c.aso_zone_threshold@ == "55"@,
    {
        MainnetAutoConfig {
            enable_live_execution: false,
            mode: MainnetAutoRunMode::DryRun,
            max_runtime_minutes: 15,
            max_orders: 1,
            max_fills: 1,
            max_notional: String::from_str("80"),
            max_daily_loss: String::from_str("5"),
            require_flat_start: true,
            require_flat_stop: true,
            require_manual_canary_evidence: true,
            evidence_required: true,
            lesson_report_required: true,
            allowed_margin_type: MainnetAutoAllowedMarginType::Isolated,
            position_policy: AsoPositionPolicy::CrossoverOnly,
            aso_delta_threshold: String::from_str("5"),
            aso_zone_threshold: String::from_str("55"),
        }
    }
}

/// The operator's request to start a mainnet auto live session.
#[derive(Debug, Clone, PartialEq, Eq)]
pub struct MainnetAutoLiveStartRequest {
    pub symbol: Symbol,
    pub duration_minutes: u64,
    pub order_type: LiveOrderType,
    pub confirmation_text: String,
    pub allowed_margin_type: MainnetAutoAllowedMarginType,
    pub position_policy: AsoPositionPolicy,
    pub aso_delta_threshold: String,
    pub aso_zone_threshold: String,
}

/// The default delta threshold of the position policy: `5`.
pub fn default_mainnet_auto_aso_delta_threshold() -> (s: String)
    ensures
        s@ == "5"@,
{
    String::from_str("5")
}

/// The default zone threshold of the position policy: `55`.
pub fn default_mainnet_auto_aso_zone_threshold() -> (s: String)
    ensures
        s@ == "55"@,
{
    String::from_str("55")
}

/// Limits on one mainnet auto session, with amounts as decimal text.
#[derive(Debug, Clone, PartialEq, Eq)]
pub struct MainnetAutoRiskBudget {
    pub configured: bool,
    pub budget_id: String,
    pub max_notional_per_order: String,
    pub max_total_session_notional: String,
    pub max_open_notional: String,
    pub max_orders_per_session: u64,
    pub max_fills_per_session: u64,
    pub max_consecutive_losses: u64,
    pub max_consecutive_rejections: u64,
    pub max_daily_realized_loss: String,
    pub max_position_age_seconds: u64,
    pub max_runtime_minutes: u64,
    pub max_leverage: String,
    pub require_flat_start: bool,
    pub require_flat_stop: bool,
    pub allowed_symbols: Vec<Symbol>,
    pub allowed_order_types: Vec<LiveOrderType>,
    pub require_fresh_reference_price: bool,
    pub require_fresh_shadow: bool,
    pub require_fresh_user_data_stream: bool,
    pub require_evidence_logging: bool,
    pub require_lessons_report: bool,
    pub updated_at: i64,
}

impl Default for MainnetAutoRiskBudget {
    /// The dry-run default budget: notional 80, one order, one fill, one
    /// loss, one rejection, daily loss 5, positions up to 300 s, 15 minutes,
    /// leverage 5, BTCUSDT limit orders only, every freshness and logging
    /// requirement on.
    fn default() -> (b: MainnetAutoRiskBudget)
        ensures
            b.configured,
            b.budget_id@ == "mainnet-auto-dry-run-default"@,
            b.max_notional_per_order@ == "80"@,
            b.max_total_session_notional@ == "80"@,
            b.max_open_notional@ == "80"@,
            b.max_orders_per_session == 1,
            b.max_fills_per_session == 1,
            b.max_consecutive_losses == 1,
            b.max_consecutive_rejections == 1,
            b.max_daily_realized_loss@ == "5"@,
            b.max_position_age_seconds == 300,
            b.max_runtime_minutes == 15,
            b.max_leverage@ == "5"@,
            b.require_flat_start,
            b.require_flat_stop,
            b.allowed_symbols@ == seq![Symbol::BtcUsdt],
            b.allowed_order_types@ == seq![LiveOrderType::Limit],
            b.require_fresh_reference_price,
            b.require_fresh_shadow,
            b.require_fresh_user_data_stream,
            b.require_evidence_logging,
            b.require_lessons_report,
            b.updated_at == 0,
    {
        MainnetAutoRiskBudget {
            configured: true,
            budget_id: String::from_str("mainnet-auto-dry-run-default"),
            max_notional_per_order: String::from_str("80"),
            max_total_session_notional: String::from_str("80"),
            max_open_notional: String::from_str("80"),
            max_orders_per_session: 1,
            max_fills_per_session: 1,
            max_consecutive_losses: 1,
            max_consecutive_rejections: 1,
            max_daily_realized_loss: String::from_str("5"),
            max_position_age_seconds: 300,
            max_runtime_minutes: 15,
            max_leverage: String::from_str("5"),
            require_flat_start: true,
            require_flat_stop: true,
            allowed_symbols: vec![Symbol::BtcUsdt],
            allowed_order_types: vec![LiveOrderType::Limit],
            require_fresh_reference_price: true,
            require_fresh_shadow: true,
            require_fresh_user_data_stream: true,
            require_evidence_logging: true,
            require_lessons_report: true,
            updated_at: 0,
        }
    }
}

/// The mainnet auto watchdog.
#[derive(Debug, Clone, PartialEq, Eq)]
pub struct MainnetAutoWatchdogStatus {
    pub running: bool,
    pub last_check_at: Option<i64>,
    pub last_stop_reason: Option<MainnetAutoStopReason>,
    pub last_message: Option<String>,
}

impl Default for MainnetAutoWatchdogStatus {
    /// An idle watchdog.
    fn default() -> (w: MainnetAutoWatchdogStatus)
        ensures
            !w.running,
            w.last_check_at is None,
            w.last_stop_reason is None,
            w.last_message is Some && w.last_message->0@ == "Mainnet auto watchdog is idle."@,
    {
        MainnetAutoWatchdogStatus {
            running: false,
            last_check_at: None,
            last_stop_reason: None,
            last_message: Some(String::from_str("Mainnet auto watchdog is idle.")),
        }
    }
}

/// Whether the actual margin type passes the session's margin gate.
#[derive(Debug, Clone, PartialEq, Eq)]
pub struct MainnetAutoMarginPolicyStatus {
    pub allowed_margin_type: MainnetAutoAllowedMarginType,
    pub actual_margin_type: LiveMarginType,
    pub allowed: bool,
    pub blocker: Option<String>,
    pub warning: Option<String>,
}

impl MainnetAutoMarginPolicyStatus {
    /// The margin gate for an actual margin type: allowed as
    /// `MainnetAutoAllowedMarginType::admits` says; blocked with
    /// `margin_type_unknown` when the type is unknown, with
    /// `margin_type_not_allowed` when it is known but refused; warned with
    /// `margin_type_any_allowed` when it passes only because any type is
    /// allowed.
    pub fn evaluate(
        allowed_margin_type: MainnetAutoAllowedMarginType,
        actual_margin_type: LiveMarginType,
    ) -> (s: MainnetAutoMarginPolicyStatus)
        ensures
            s.allowed_margin_type == allowed_margin_type,
            s.actual_margin_type == actual_margin_type,
            s.allowed == allowed_margin_type.admits(actual_margin_type),
            actual_margin_type == LiveMarginType::Unknown ==> s.blocker is Some
                && s.blocker->0@ == "margin_type_unknown"@,
            actual_margin_type != LiveMarginType::Unknown && !s.allowed ==> s.blocker is Some
                && s.blocker->0@ == "margin_type_not_allowed"@,
            actual_margin_type != LiveMarginType::Unknown && s.allowed ==> s.blocker is None,
            (s.allowed && allowed_margin_type == MainnetAutoAllowedMarginType::Any) ==> s.warning is Some
                && s.warning->0@ == "margin_type_any_allowed"@,
            !(s.allowed && allowed_margin_type == MainnetAutoAllowedMarginType::Any) ==> s.warning is None,
    {
        let allowed = allowed_margin_type.allows(actual_margin_type);
        let blocker = if actual_margin_type == LiveMarginType::Unknown {
            Some(String::from_str("margin_type_unknown"))
        } else if !allowed {
            Some(String::from_str("margin_type_not_allowed"))
        } else {
            None
        };
        let warning = if allowed && allowed_margin_type == MainnetAutoAllowedMarginType::Any {
            Some(String::from_str("margin_type_any_allowed"))
        } else {
            None
        };
        MainnetAutoMarginPolicyStatus { allowed_margin_type, actual_margin_type, allowed, blocker, warning }
    }
}

impl Default for MainnetAutoMarginPolicyStatus {
    /// An isolated-only policy whose margin type is still unknown.
    fn default() -> (s: MainnetAutoMarginPolicyStatus)
        ensures
            s.allowed_margin_type == MainnetAutoAllowedMarginType::Isolated,
            s.actual_margin_type == LiveMarginType::Unknown,
            !s.allowed,
            s.blocker is Some && s.blocker->0@ == "margin_type_unknown"@,
            s.warning is None,
    {
        MainnetAutoMarginPolicyStatus::evaluate(MainnetAutoAllowedMarginType::Isolated, LiveMarginType::Unknown)
    }
}

/// One stop of a session by the watchdog.
#[derive(Debug, Clone, PartialEq, Eq)]
pub struct MainnetAutoWatchdogEvent {
    pub id: String,
    pub session_id: String,
    pub reason: MainnetAutoStopReason,
    pub message: String,
    pub created_at: i64,
}

/// The lessons drawn from one mainnet auto session.
#[derive(Debug, Clone, PartialEq, Eq)]
pub struct MainnetAutoLessonReport {
    pub id: String,
    pub session_id: String,
    pub mode: MainnetAutoRunMode,
    pub live_order_submitted: bool,
    pub position_policy: AsoPositionPolicy,
    pub signals_observed: u64,
    pub desired_side_evaluations: u64,
    pub enter_decisions: u64,
    pub hold_decisions: u64,
    pub reverse_decisions: u64,
    pub no_trade_decisions: u64,
    pub margin_type_block_count: u64,
    pub decisions_blocked: u64,
    pub would_submit_decisions: u64,
    pub duplicate_suppression_count: u64,
    pub top_blockers: Vec<String>,
    pub watchdog_stop_reason: Option<MainnetAutoStopReason>,
    pub risk_budget_utilization: BTreeMap<String, String>,
    pub reference_price_freshness_summary: String,
    pub aso_signal_summary: String,
    pub stale_or_degraded_state: Vec<String>,
    pub next_checks: Vec<String>,
    pub recommendation: String,
    pub explanation: String,
    pub lessons_path: Option<String>,
    pub created_at: i64,
}

/// Where the evidence of a session was exported.
#[derive(Debug, Clone, PartialEq, Eq)]
pub struct MainnetAutoEvidenceExportResult {
    pub path: String,
    pub files: Vec<String>,
    pub final_verdict: String,
    pub live_order_submitted: bool,
    pub created_at: i64,
}

} // verus!
