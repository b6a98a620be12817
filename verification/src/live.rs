//! Live-trading readiness vocabulary: environments, credentials, runtime
//! states, blocking reasons and the account shadow kept from the
//! exchange's user-data stream.

use vstd::prelude::*;

use crate::market::Symbol;
use crate::orders::{LiveOrderSide, LiveOrderType};
use crate::text::{
    ascii_lower_seq, chars_eq_str, chars_of, concat_str, lemma_text_lt_at, lemma_text_order, text_lt, trim_lower_chars,
    trim_seq,
};

verus! {

/// Whether the operator prefers paper trading or read-only live mode.
#[derive(Debug, Clone, Copy, PartialEq, Eq, Structural)]
pub enum LiveModePreference {
    Paper,
    LiveReadOnly,
}

impl LiveModePreference {
    /// The wire code of the value.
    pub open spec fn text(self) -> Seq<char> {
        match self {
            LiveModePreference::Paper => "paper"@,
            LiveModePreference::LiveReadOnly => "live_read_only"@,
        }
    }

    /// The wire code of the value.
    pub fn as_str(self) -> (s: &'static str)
        ensures
            s@ == self.text(),
    {
        match self {
            LiveModePreference::Paper => "paper",
            LiveModePreference::LiveReadOnly => "live_read_only",
        }
    }
}

/// The exchange environment a live credential belongs to.
#[derive(Debug, Clone, Copy, PartialEq, Eq, Structural)]
pub enum LiveEnvironment {
    Testnet,
    Mainnet,
}

impl LiveEnvironment {
    /// The environment's name.
    pub open spec fn text(self) -> Seq<char> {
        match self {
            LiveEnvironment::Testnet => "testnet"@,
            LiveEnvironment::Mainnet => "mainnet"@,
        }
    }

    /// The environment's name.
    pub fn as_str(self) -> (s: &'static str)
        ensures
            s@ == self.text(),
    {
        match self {
            LiveEnvironment::Testnet => "testnet",
            LiveEnvironment::Mainnet => "mainnet",
        }
    }

    /// The value that the text `s` names, if any.
    pub open spec fn from_text(s: Seq<char>) -> Option<LiveEnvironment> {
        let t = s;
        if t == "testnet"@ {
            Some(LiveEnvironment::Testnet)
        } else if t == "mainnet"@ {
            Some(LiveEnvironment::Mainnet)
        } else {
            None
        }
    }

    /// Parses the text form of the value.
    pub fn parse(value: &str) -> (r: Result<LiveEnvironment, String>)
        ensures
            match LiveEnvironment::from_text(value@) {
                Some(x) => r == Ok::<LiveEnvironment, String>(x),
                None => r is Err && r->Err_0@ == "unsupported live environment: "@ + value@,
            },
    {
        let v = chars_of(value);
        if chars_eq_str(&v, "testnet") {
            Ok(LiveEnvironment::Testnet)
        } else if chars_eq_str(&v, "mainnet") {
            Ok(LiveEnvironment::Mainnet)
        } else {
            Err(concat_str("unsupported live environment: ", value))
        }
    }
}

impl std::str::FromStr for LiveEnvironment {
    type Err = String;

    fn from_str(value: &str) -> (r: Result<LiveEnvironment, String>)
        ensures
            match LiveEnvironment::from_text(value@) {
                Some(x) => r == Ok::<LiveEnvironment, String>(x),
                None => r is Err && r->Err_0@ == "unsupported live environment: "@ + value@,
            },
    {
        LiveEnvironment::parse(value)
    }
}

/// The margin type the exchange reports for a position.
#[derive(Debug, Clone, Copy, PartialEq, Eq, Structural)]
pub enum LiveMarginType {
    Cross,
    Isolated,
    Unknown,
}

impl LiveMarginType {
    /// The margin type's name.
    pub open spec fn text(self) -> Seq<char> {
        match self {
            LiveMarginType::Cross => "cross"@,
            LiveMarginType::Isolated => "isolated"@,
            LiveMarginType::Unknown => "unknown"@,
        }
    }

    /// The margin type's name.
    pub fn as_str(self) -> (s: &'static str)
        ensures
            s@ == self.text(),
    {
        match self {
            LiveMarginType::Cross => "cross",
            LiveMarginType::Isolated => "isolated",
            LiveMarginType::Unknown => "unknown",
        }
    }

    /// The value that the text `s` names, if any (after trimming white space and lower-casing ASCII letters).
    pub open spec fn from_text(s: Seq<char>) -> Option<LiveMarginType> {
        let t = ascii_lower_seq(trim_seq(s));
        if t == "cross"@ || t == "crossed"@ {
            Some(LiveMarginType::Cross)
        } else if t == "isolated"@ {
            Some(LiveMarginType::Isolated)
        } else if t == "unknown"@ {
            Some(LiveMarginType::Unknown)
        } else {
            None
        }
    }

    /// Parses the text form of the value.
    pub fn parse(value: &str) -> (r: Result<LiveMarginType, String>)
        ensures
            match LiveMarginType::from_text(value@) {
                Some(x) => r == Ok::<LiveMarginType, String>(x),
                None => r is Err && r->Err_0@ == "unsupported live margin type: "@ + value@,
            },
    {
        let v = trim_lower_chars(value);
        if chars_eq_str(&v, "cross") || chars_eq_str(&v, "crossed") {
            Ok(LiveMarginType::Cross)
        } else if chars_eq_str(&v, "isolated") {
            Ok(LiveMarginType::Isolated)
        } else if chars_eq_str(&v, "unknown") {
            Ok(LiveMarginType::Unknown)
        } else {
            Err(concat_str("unsupported live margin type: ", value))
        }
    }
}

impl std::str::FromStr for LiveMarginType {
    type Err = String;

    fn from_str(value: &str) -> (r: Result<LiveMarginType, String>)
        ensures
            match LiveMarginType::from_text(value@) {
                Some(x) => r == Ok::<LiveMarginType, String>(x),
                None => r is Err && r->Err_0@ == "unsupported live margin type: "@ + value@,
            },
    {
        LiveMarginType::parse(value)
    }
}

impl Default for LiveMarginType {
    fn default() -> (r: LiveMarginType)
        ensures
            r == LiveMarginType::Unknown,
    {
        LiveMarginType::Unknown
    }
}


impl LiveMarginType {
    /// The margin type that an exchange field names: `cross` or `crossed`
    /// give `Cross`, `isolated` gives `Isolated` (after trimming and
    /// ASCII lower-casing); anything else, or no field, gives `Unknown`.
    pub open spec fn from_exchange_text(value: Option<Seq<char>>) -> LiveMarginType {
        match value {
            Some(s) => {
                let t = ascii_lower_seq(trim_seq(s));
                if t == "cross"@ || t == "crossed"@ {
                    LiveMarginType::Cross
                } else if t == "isolated"@ {
                    LiveMarginType::Isolated
                } else {
                    LiveMarginType::Unknown
                }
            },
            None => LiveMarginType::Unknown,
        }
    }

    /// Reads the margin type that the exchange reports.
    pub fn from_exchange_str(value: Option<&str>) -> (m: LiveMarginType)
        ensures
            m == LiveMarginType::from_exchange_text(
                match value {
                    Some(s) => Some(s@),
                    None => None,
                },
            ),
    {
        match value {
            Some(s) => {
                let t = trim_lower_chars(s);
                if chars_eq_str(&t, "cross") || chars_eq_str(&t, "crossed") {
                    LiveMarginType::Cross
                } else if chars_eq_str(&t, "isolated") {
                    LiveMarginType::Isolated
                } else {
                    LiveMarginType::Unknown
                }
            },
            None => LiveMarginType::Unknown,
        }
    }
}

/// The identifier of a stored live credential.
#[derive(Debug, Clone, PartialEq, Eq, PartialOrd, Ord, Hash)]
pub struct LiveCredentialId(pub String);

impl LiveCredentialId {
    /// An identifier with the given text.
    pub fn new(value: &str) -> (id: LiveCredentialId)
        ensures
            id.0@ == value@,
    {
        LiveCredentialId(String::from_str(value))
    }

    /// The identifier's text.
    pub fn as_str(&self) -> (s: &str)
        ensures
            s@ == self.0@,
    {
        self.0.as_str()
    }
}

/// The outcome of validating a credential against the exchange.
#[derive(Debug, Clone, Copy, PartialEq, Eq, Structural)]
pub enum LiveCredentialValidationStatus {
    Unknown,
    Valid,
    InvalidApiKey,
    InvalidSignature,
    PermissionDenied,
    TimestampSkew,
    EnvironmentMismatch,
    NetworkError,
    ExchangeError,
    ResponseDecodeError,
    SecureStoreUnavailable,
}

impl LiveCredentialValidationStatus {
    /// The status's name.
    pub open spec fn text(self) -> Seq<char> {
        match self {
            LiveCredentialValidationStatus::Unknown => "unknown"@,
            LiveCredentialValidationStatus::Valid => "valid"@,
            LiveCredentialValidationStatus::InvalidApiKey => "invalid_api_key"@,
            LiveCredentialValidationStatus::InvalidSignature => "invalid_signature"@,
            LiveCredentialValidationStatus::PermissionDenied => "permission_denied"@,
            LiveCredentialValidationStatus::TimestampSkew => "timestamp_skew"@,
            LiveCredentialValidationStatus::EnvironmentMismatch => "environment_mismatch"@,
            LiveCredentialValidationStatus::NetworkError => "network_error"@,
            LiveCredentialValidationStatus::ExchangeError => "exchange_error"@,
            LiveCredentialValidationStatus::ResponseDecodeError => "response_decode_error"@,
            LiveCredentialValidationStatus::SecureStoreUnavailable => "secure_store_unavailable"@,
        }
    }

    /// The status's name.
    pub fn as_str(self) -> (s: &'static str)
        ensures
            s@ == self.text(),
    {
        match self {
            LiveCredentialValidationStatus::Unknown => "unknown",
            LiveCredentialValidationStatus::Valid => "valid",
            LiveCredentialValidationStatus::InvalidApiKey => "invalid_api_key",
            LiveCredentialValidationStatus::InvalidSignature => "invalid_signature",
            LiveCredentialValidationStatus::PermissionDenied => "permission_denied",
            LiveCredentialValidationStatus::TimestampSkew => "timestamp_skew",
            LiveCredentialValidationStatus::EnvironmentMismatch => "environment_mismatch",
            LiveCredentialValidationStatus::NetworkError => "network_error",
            LiveCredentialValidationStatus::ExchangeError => "exchange_error",
            LiveCredentialValidationStatus::ResponseDecodeError => "response_decode_error",
            LiveCredentialValidationStatus::SecureStoreUnavailable => "secure_store_unavailable",
        }
    }

    /// The value that the text `s` names, if any.
    pub open spec fn from_text(s: Seq<char>) -> Option<LiveCredentialValidationStatus> {
        let t = s;
        if t == "unknown"@ {
            Some(LiveCredentialValidationStatus::Unknown)
        } else if t == "valid"@ {
            Some(LiveCredentialValidationStatus::Valid)
        } else if t == "invalid_api_key"@ {
            Some(LiveCredentialValidationStatus::InvalidApiKey)
        } else if t == "invalid_signature"@ {
            Some(LiveCredentialValidationStatus::InvalidSignature)
        } else if t == "permission_denied"@ {
            Some(LiveCredentialValidationStatus::PermissionDenied)
        } else if t == "timestamp_skew"@ {
            Some(LiveCredentialValidationStatus::TimestampSkew)
        } else if t == "environment_mismatch"@ {
            Some(LiveCredentialValidationStatus::EnvironmentMismatch)
        } else if t == "network_error"@ {
            Some(LiveCredentialValidationStatus::NetworkError)
        } else if t == "exchange_error"@ {
            Some(LiveCredentialValidationStatus::ExchangeError)
        } else if t == "response_decode_error"@ {
            Some(LiveCredentialValidationStatus::ResponseDecodeError)
        } else if t == "secure_store_unavailable"@ {
            Some(LiveCredentialValidationStatus::SecureStoreUnavailable)
        } else {
            None
        }
    }

    /// Parses the text form of the value.
    pub fn parse(value: &str) -> (r: Result<LiveCredentialValidationStatus, String>)
        ensures
            match LiveCredentialValidationStatus::from_text(value@) {
                Some(x) => r == Ok::<LiveCredentialValidationStatus, String>(x),
                None => r is Err && r->Err_0@ == "unsupported validation status: "@ + value@,
            },
    {
        let v = chars_of(value);
        if chars_eq_str(&v, "unknown") {
            Ok(LiveCredentialValidationStatus::Unknown)
        } else if chars_eq_str(&v, "valid") {
            Ok(LiveCredentialValidationStatus::Valid)
        } else if chars_eq_str(&v, "invalid_api_key") {
            Ok(LiveCredentialValidationStatus::InvalidApiKey)
        } else if chars_eq_str(&v, "invalid_signature") {
            Ok(LiveCredentialValidationStatus::InvalidSignature)
        } else if chars_eq_str(&v, "permission_denied") {
            Ok(LiveCredentialValidationStatus::PermissionDenied)
        } else if chars_eq_str(&v, "timestamp_skew") {
            Ok(LiveCredentialValidationStatus::TimestampSkew)
        } else if chars_eq_str(&v, "environment_mismatch") {
            Ok(LiveCredentialValidationStatus::EnvironmentMismatch)
        } else if chars_eq_str(&v, "network_error") {
            Ok(LiveCredentialValidationStatus::NetworkError)
        } else if chars_eq_str(&v, "exchange_error") {
            Ok(LiveCredentialValidationStatus::ExchangeError)
        } else if chars_eq_str(&v, "response_decode_error") {
            Ok(LiveCredentialValidationStatus::ResponseDecodeError)
        } else if chars_eq_str(&v, "secure_store_unavailable") {
            Ok(LiveCredentialValidationStatus::SecureStoreUnavailable)
        } else {
            Err(concat_str("unsupported validation status: ", value))
        }
    }
}

impl std::str::FromStr for LiveCredentialValidationStatus {
    type Err = String;

    fn from_str(value: &str) -> (r: Result<LiveCredentialValidationStatus, String>)
        ensures
            match LiveCredentialValidationStatus::from_text(value@) {
                Some(x) => r == Ok::<LiveCredentialValidationStatus, String>(x),
                None => r is Err && r->Err_0@ == "unsupported validation status: "@ + value@,
            },
    {
        LiveCredentialValidationStatus::parse(value)
    }
}


impl LiveCredentialValidationStatus {
    /// Whether the credential validated successfully.
    pub fn is_valid(self) -> (b: bool)
        ensures
            b == (self == LiveCredentialValidationStatus::Valid),
    {
        match self {
            LiveCredentialValidationStatus::Valid => true,
            _ => false,
        }
    }
}

/// Where a credential's secret is kept.
#[derive(Debug, Clone, Copy, PartialEq, Eq, Structural)]
pub enum LiveCredentialSource {
    SecureStore,
    Env,
}

impl LiveCredentialSource {
    /// The source's name.
    pub open spec fn text(self) -> Seq<char> {
        match self {
            LiveCredentialSource::SecureStore => "secure_store"@,
            LiveCredentialSource::Env => "env"@,
        }
    }

    /// The source's name.
    pub fn as_str(self) -> (s: &'static str)
        ensures
            s@ == self.text(),
    {
        match self {
            LiveCredentialSource::SecureStore => "secure_store",
            LiveCredentialSource::Env => "env",
        }
    }

    /// The value that the text `s` names, if any.
    pub open spec fn from_text(s: Seq<char>) -> Option<LiveCredentialSource> {
        let t = s;
        if t == "secure_store"@ {
            Some(LiveCredentialSource::SecureStore)
        } else if t == "env"@ {
            Some(LiveCredentialSource::Env)
        } else {
            None
        }
    }

    /// Parses the text form of the value.
    pub fn parse(value: &str) -> (r: Result<LiveCredentialSource, String>)
        ensures
            match LiveCredentialSource::from_text(value@) {
                Some(x) => r == Ok::<LiveCredentialSource, String>(x),
                None => r is Err && r->Err_0@ == "unsupported credential source: "@ + value@,
            },
    {
        let v = chars_of(value);
        if chars_eq_str(&v, "secure_store") {
            Ok(LiveCredentialSource::SecureStore)
        } else if chars_eq_str(&v, "env") {
            Ok(LiveCredentialSource::Env)
        } else {
            Err(concat_str("unsupported credential source: ", value))
        }
    }
}

impl std::str::FromStr for LiveCredentialSource {
    type Err = String;

    fn from_str(value: &str) -> (r: Result<LiveCredentialSource, String>)
        ensures
            match LiveCredentialSource::from_text(value@) {
                Some(x) => r == Ok::<LiveCredentialSource, String>(x),
                None => r is Err && r->Err_0@ == "unsupported credential source: "@ + value@,
            },
    {
        LiveCredentialSource::parse(value)
    }
}


/// An API key and its secret.
#[derive(Debug, Clone, PartialEq, Eq)]
pub struct LiveCredentialSecret {
    pub api_key: String,
    pub api_secret: String,
}

/// Masked metadata of a stored credential; the secret itself never
/// appears here.
#[derive(Debug, Clone, PartialEq, Eq)]
pub struct LiveCredentialSummary {
    pub id: LiveCredentialId,
    pub alias: String,
    pub environment: LiveEnvironment,
    pub source: LiveCredentialSource,
    pub api_key_hint: String,
    pub validation_status: LiveCredentialValidationStatus,
    pub last_validated_at: Option<i64>,
    pub last_validation_error: Option<String>,
    pub is_active: bool,
    pub created_at: i64,
    pub updated_at: i64,
}

/// The result of one credential validation.
#[derive(Debug, Clone, PartialEq, Eq)]
pub struct LiveCredentialValidationResult {
    pub credential_id: LiveCredentialId,
    pub environment: LiveEnvironment,
    pub status: LiveCredentialValidationStatus,
    pub validated_at: i64,
    pub message: Option<String>,
}

/// The overall state of live mode shown to the operator.
#[derive(Debug, Clone, Copy, PartialEq, Eq, Structural)]
pub enum LiveRuntimeState {
    Disabled,
    CredentialsMissing,
    SecureStoreUnavailable,
    ValidationMissing,
    ValidationPending,
    ValidationFailed,
    RulesUnavailable,
    AccountSnapshotUnavailable,
    NotReady,
    ReadyReadOnly,
    ArmedReadOnly,
    ShadowStarting,
    ShadowSyncing,
    ShadowRunning,
    ShadowDegraded,
    PreflightReady,
    PreflightBlocked,
    TestnetExecutionReady,
    TestnetAutoReady,
    TestnetAutoRunning,
    TestnetSubmitPending,
    TestnetOrderOpen,
    TestnetPartiallyFilled,
    TestnetFilled,
    TestnetCancelPending,
    TestnetFlattenPending,
    ExecutionDegraded,
    ExecutionBlocked,
    MainnetExecutionBlocked,
    MainnetCanaryReady,
    MainnetManualExecutionEnabled,
    KillSwitchEngaged,
    StartBlocked,
    ExecutionNotImplemented,
    Error,
}



/// Why a live action is not allowed.
#[derive(Debug, Clone, Copy, PartialEq, Eq, Structural)]
pub enum LiveBlockingReason {
    NoActiveCredential,
    EnvCredentialsMissing,
    EnvCredentialPartial,
    SecureStoreUnavailable,
    ValidationFailed,
    ValidationMissing,
    ValidationStale,
    AccountSnapshotMissing,
    SymbolRulesMissing,
    RulesMissing,
    UnsupportedSymbol,
    UnsupportedTimeframe,
    UnsupportedAccountMode,
    PaperPositionOpen,
    RuntimeBusy,
    ShadowStreamDown,
    ShadowStateAmbiguous,
    PreflightNotSupportedOnMainnet,
    IntentUnavailable,
    MinNotional,
    PrecisionInvalid,
    MainnetExecutionBlocked,
    MainnetCanaryDisabled,
    MainnetCanaryRiskProfileMissing,
    MainnetCanaryLimitRequired,
    MainnetCanaryLimitMarketable,
    MainnetConfirmationMissing,
    MainnetAutoBlocked,
    ReferencePriceUnavailable,
    ReferencePriceStale,
    ReferencePriceSourceFailed,
    StaleShadowState,
    PreviewMismatch,
    ExecutionStatusUnknown,
    DuplicateClientOrderId,
    OrderRejected,
    OrderNotFound,
    CancelFailed,
    FlattenFailed,
    KillSwitchEngaged,
    RiskLimitExceeded,
    AutoExecutorStopped,
    DuplicateSignalSuppressed,
    RecentWindowRepairOnly,
    ExecutionNotImplemented,
}

impl LiveBlockingReason {
    /// The reason's code.
    pub open spec fn text(self) -> Seq<char> {
        match self {
            LiveBlockingReason::NoActiveCredential => "no_active_credential"@,
            LiveBlockingReason::EnvCredentialsMissing => "env_credentials_missing"@,
            LiveBlockingReason::EnvCredentialPartial => "env_credential_partial"@,
            LiveBlockingReason::SecureStoreUnavailable => "secure_store_unavailable"@,
            LiveBlockingReason::ValidationFailed => "validation_failed"@,
            LiveBlockingReason::ValidationMissing => "validation_missing"@,
            LiveBlockingReason::ValidationStale => "validation_stale"@,
            LiveBlockingReason::AccountSnapshotMissing => "account_snapshot_missing"@,
            LiveBlockingReason::SymbolRulesMissing => "symbol_rules_missing"@,
            LiveBlockingReason::RulesMissing => "rules_missing"@,
            LiveBlockingReason::UnsupportedSymbol => "unsupported_symbol"@,
            LiveBlockingReason::UnsupportedTimeframe => "unsupported_timeframe"@,
            LiveBlockingReason::UnsupportedAccountMode => "unsupported_account_mode"@,
            LiveBlockingReason::PaperPositionOpen => "paper_position_open"@,
            LiveBlockingReason::RuntimeBusy => "runtime_busy"@,
            LiveBlockingReason::ShadowStreamDown => "shadow_stream_down"@,
            LiveBlockingReason::ShadowStateAmbiguous => "shadow_state_ambiguous"@,
            LiveBlockingReason::PreflightNotSupportedOnMainnet => "preflight_not_supported_on_mainnet"@,
            LiveBlockingReason::IntentUnavailable => "intent_unavailable"@,
            LiveBlockingReason::MinNotional => "min_notional"@,
            LiveBlockingReason::PrecisionInvalid => "precision_invalid"@,
            LiveBlockingReason::MainnetExecutionBlocked => "mainnet_execution_blocked"@,
            LiveBlockingReason::MainnetCanaryDisabled => "mainnet_canary_disabled"@,
            LiveBlockingReason::MainnetCanaryRiskProfileMissing => "mainnet_canary_risk_profile_missing"@,
            LiveBlockingReason::MainnetCanaryLimitRequired => "mainnet_canary_limit_required"@,
            LiveBlockingReason::MainnetCanaryLimitMarketable => "mainnet_canary_limit_marketable"@,
            LiveBlockingReason::MainnetConfirmationMissing => "mainnet_confirmation_missing"@,
            LiveBlockingReason::MainnetAutoBlocked => "mainnet_auto_blocked"@,
            LiveBlockingReason::ReferencePriceUnavailable => "reference_price_unavailable"@,
            LiveBlockingReason::ReferencePriceStale => "reference_price_stale"@,
            LiveBlockingReason::ReferencePriceSourceFailed => "reference_price_source_failed"@,
            LiveBlockingReason::StaleShadowState => "stale_shadow_state"@,
            LiveBlockingReason::PreviewMismatch => "preview_mismatch"@,
            LiveBlockingReason::ExecutionStatusUnknown => "execution_status_unknown"@,
            LiveBlockingReason::DuplicateClientOrderId => "duplicate_client_order_id"@,
            LiveBlockingReason::OrderRejected => "order_rejected"@,
            LiveBlockingReason::OrderNotFound => "order_not_found"@,
            LiveBlockingReason::CancelFailed => "cancel_failed"@,
            LiveBlockingReason::FlattenFailed => "flatten_failed"@,
            LiveBlockingReason::KillSwitchEngaged => "kill_switch_engaged"@,
            LiveBlockingReason::RiskLimitExceeded => "risk_limit_exceeded"@,
            LiveBlockingReason::AutoExecutorStopped => "auto_executor_stopped"@,
            LiveBlockingReason::DuplicateSignalSuppressed => "duplicate_signal_suppressed"@,
            LiveBlockingReason::RecentWindowRepairOnly => "recent_window_repair_only"@,
            LiveBlockingReason::ExecutionNotImplemented => "execution_not_implemented"@,
        }
    }

    /// The reason's code.
    pub fn as_str(self) -> (s: &'static str)
        ensures
            s@ == self.text(),
    {
        match self {
            LiveBlockingReason::NoActiveCredential => "no_active_credential",
            LiveBlockingReason::EnvCredentialsMissing => "env_credentials_missing",
            LiveBlockingReason::EnvCredentialPartial => "env_credential_partial",
            LiveBlockingReason::SecureStoreUnavailable => "secure_store_unavailable",
            LiveBlockingReason::ValidationFailed => "validation_failed",
            LiveBlockingReason::ValidationMissing => "validation_missing",
            LiveBlockingReason::ValidationStale => "validation_stale",
            LiveBlockingReason::AccountSnapshotMissing => "account_snapshot_missing",
            LiveBlockingReason::SymbolRulesMissing => "symbol_rules_missing",
            LiveBlockingReason::RulesMissing => "rules_missing",
            LiveBlockingReason::UnsupportedSymbol => "unsupported_symbol",
            LiveBlockingReason::UnsupportedTimeframe => "unsupported_timeframe",
            LiveBlockingReason::UnsupportedAccountMode => "unsupported_account_mode",
            LiveBlockingReason::PaperPositionOpen => "paper_position_open",
            LiveBlockingReason::RuntimeBusy => "runtime_busy",
            LiveBlockingReason::ShadowStreamDown => "shadow_stream_down",
            LiveBlockingReason::ShadowStateAmbiguous => "shadow_state_ambiguous",
            LiveBlockingReason::PreflightNotSupportedOnMainnet => "preflight_not_supported_on_mainnet",
            LiveBlockingReason::IntentUnavailable => "intent_unavailable",
            LiveBlockingReason::MinNotional => "min_notional",
            LiveBlockingReason::PrecisionInvalid => "precision_invalid",
            LiveBlockingReason::MainnetExecutionBlocked => "mainnet_execution_blocked",
            LiveBlockingReason::MainnetCanaryDisabled => "mainnet_canary_disabled",
            LiveBlockingReason::MainnetCanaryRiskProfileMissing => "mainnet_canary_risk_profile_missing",
            LiveBlockingReason::MainnetCanaryLimitRequired => "mainnet_canary_limit_required",
            LiveBlockingReason::MainnetCanaryLimitMarketable => "mainnet_canary_limit_marketable",
            LiveBlockingReason::MainnetConfirmationMissing => "mainnet_confirmation_missing",
            LiveBlockingReason::MainnetAutoBlocked => "mainnet_auto_blocked",
            LiveBlockingReason::ReferencePriceUnavailable => "reference_price_unavailable",
            LiveBlockingReason::ReferencePriceStale => "reference_price_stale",
            LiveBlockingReason::ReferencePriceSourceFailed => "reference_price_source_failed",
            LiveBlockingReason::StaleShadowState => "stale_shadow_state",
            LiveBlockingReason::PreviewMismatch => "preview_mismatch",
            LiveBlockingReason::ExecutionStatusUnknown => "execution_status_unknown",
            LiveBlockingReason::DuplicateClientOrderId => "duplicate_client_order_id",
            LiveBlockingReason::OrderRejected => "order_rejected",
            LiveBlockingReason::OrderNotFound => "order_not_found",
            LiveBlockingReason::CancelFailed => "cancel_failed",
            LiveBlockingReason::FlattenFailed => "flatten_failed",
            LiveBlockingReason::KillSwitchEngaged => "kill_switch_engaged",
            LiveBlockingReason::RiskLimitExceeded => "risk_limit_exceeded",
            LiveBlockingReason::AutoExecutorStopped => "auto_executor_stopped",
            LiveBlockingReason::DuplicateSignalSuppressed => "duplicate_signal_suppressed",
            LiveBlockingReason::RecentWindowRepairOnly => "recent_window_repair_only",
            LiveBlockingReason::ExecutionNotImplemented => "execution_not_implemented",
        }
    }
}

impl LiveBlockingReason {
    /// The position of the reason's code in the ascending order of all
    /// codes; lists of reasons are kept in this order.
    pub open spec fn rank(self) -> nat {
        match self {
            LiveBlockingReason::NoActiveCredential => 20,
            LiveBlockingReason::EnvCredentialsMissing => 6,
            LiveBlockingReason::EnvCredentialPartial => 5,
            LiveBlockingReason::SecureStoreUnavailable => 34,
            LiveBlockingReason::ValidationFailed => 42,
            LiveBlockingReason::ValidationMissing => 43,
            LiveBlockingReason::ValidationStale => 44,
            LiveBlockingReason::AccountSnapshotMissing => 0,
            LiveBlockingReason::SymbolRulesMissing => 38,
            LiveBlockingReason::RulesMissing => 32,
            LiveBlockingReason::UnsupportedSymbol => 40,
            LiveBlockingReason::UnsupportedTimeframe => 41,
            LiveBlockingReason::UnsupportedAccountMode => 39,
            LiveBlockingReason::PaperPositionOpen => 23,
            LiveBlockingReason::RuntimeBusy => 33,
            LiveBlockingReason::ShadowStreamDown => 36,
            LiveBlockingReason::ShadowStateAmbiguous => 35,
            LiveBlockingReason::PreflightNotSupportedOnMainnet => 25,
            LiveBlockingReason::IntentUnavailable => 10,
            LiveBlockingReason::MinNotional => 19,
            LiveBlockingReason::PrecisionInvalid => 24,
            LiveBlockingReason::MainnetExecutionBlocked => 18,
            LiveBlockingReason::MainnetCanaryDisabled => 13,
            LiveBlockingReason::MainnetCanaryRiskProfileMissing => 16,
            LiveBlockingReason::MainnetCanaryLimitRequired => 15,
            LiveBlockingReason::MainnetCanaryLimitMarketable => 14,
            LiveBlockingReason::MainnetConfirmationMissing => 17,
            LiveBlockingReason::MainnetAutoBlocked => 12,
            LiveBlockingReason::ReferencePriceUnavailable => 30,
            LiveBlockingReason::ReferencePriceStale => 29,
            LiveBlockingReason::ReferencePriceSourceFailed => 28,
            LiveBlockingReason::StaleShadowState => 37,
            LiveBlockingReason::PreviewMismatch => 26,
            LiveBlockingReason::ExecutionStatusUnknown => 8,
            LiveBlockingReason::DuplicateClientOrderId => 3,
            LiveBlockingReason::OrderRejected => 22,
            LiveBlockingReason::OrderNotFound => 21,
            LiveBlockingReason::CancelFailed => 2,
            LiveBlockingReason::FlattenFailed => 9,
            LiveBlockingReason::KillSwitchEngaged => 11,
            LiveBlockingReason::RiskLimitExceeded => 31,
            LiveBlockingReason::AutoExecutorStopped => 1,
            LiveBlockingReason::DuplicateSignalSuppressed => 4,
            LiveBlockingReason::RecentWindowRepairOnly => 27,
            LiveBlockingReason::ExecutionNotImplemented => 7,
        }
    }

    /// The reason whose code has the given position.
    pub open spec fn of_rank(k: nat) -> LiveBlockingReason {
        if k == 0 {
            LiveBlockingReason::AccountSnapshotMissing
        } else if k == 1 {
            LiveBlockingReason::AutoExecutorStopped
        } else if k == 2 {
            LiveBlockingReason::CancelFailed
        } else if k == 3 {
            LiveBlockingReason::DuplicateClientOrderId
        } else if k == 4 {
            LiveBlockingReason::DuplicateSignalSuppressed
        } else if k == 5 {
            LiveBlockingReason::EnvCredentialPartial
        } else if k == 6 {
            LiveBlockingReason::EnvCredentialsMissing
        } else if k == 7 {
            LiveBlockingReason::ExecutionNotImplemented
        } else if k == 8 {
            LiveBlockingReason::ExecutionStatusUnknown
        } else if k == 9 {
            LiveBlockingReason::FlattenFailed
        } else if k == 10 {
            LiveBlockingReason::IntentUnavailable
        } else if k == 11 {
            LiveBlockingReason::KillSwitchEngaged
        } else if k == 12 {
            LiveBlockingReason::MainnetAutoBlocked
        } else if k == 13 {
            LiveBlockingReason::MainnetCanaryDisabled
        } else if k == 14 {
            LiveBlockingReason::MainnetCanaryLimitMarketable
        } else if k == 15 {
            LiveBlockingReason::MainnetCanaryLimitRequired
        } else if k == 16 {
            LiveBlockingReason::MainnetCanaryRiskProfileMissing
        } else if k == 17 {
            LiveBlockingReason::MainnetConfirmationMissing
        } else if k == 18 {
            LiveBlockingReason::MainnetExecutionBlocked
        } else if k == 19 {
            LiveBlockingReason::MinNotional
        } else if k == 20 {
            LiveBlockingReason::NoActiveCredential
        } else if k == 21 {
            LiveBlockingReason::OrderNotFound
        } else if k == 22 {
            LiveBlockingReason::OrderRejected
        } else if k == 23 {
            LiveBlockingReason::PaperPositionOpen
        } else if k == 24 {
            LiveBlockingReason::PrecisionInvalid
        } else if k == 25 {
            LiveBlockingReason::PreflightNotSupportedOnMainnet
        } else if k == 26 {
            LiveBlockingReason::PreviewMismatch
        } else if k == 27 {
            LiveBlockingReason::RecentWindowRepairOnly
        } else if k == 28 {
            LiveBlockingReason::ReferencePriceSourceFailed
        } else if k == 29 {
            LiveBlockingReason::ReferencePriceStale
        } else if k == 30 {
            LiveBlockingReason::ReferencePriceUnavailable
        } else if k == 31 {
            LiveBlockingReason::RiskLimitExceeded
        } else if k == 32 {
            LiveBlockingReason::RulesMissing
        } else if k == 33 {
            LiveBlockingReason::RuntimeBusy
        } else if k == 34 {
            LiveBlockingReason::SecureStoreUnavailable
        } else if k == 35 {
            LiveBlockingReason::ShadowStateAmbiguous
        } else if k == 36 {
            LiveBlockingReason::ShadowStreamDown
        } else if k == 37 {
            LiveBlockingReason::StaleShadowState
        } else if k == 38 {
            LiveBlockingReason::SymbolRulesMissing
        } else if k == 39 {
            LiveBlockingReason::UnsupportedAccountMode
        } else if k == 40 {
            LiveBlockingReason::UnsupportedSymbol
        } else if k == 41 {
            LiveBlockingReason::UnsupportedTimeframe
        } else if k == 42 {
            LiveBlockingReason::ValidationFailed
        } else if k == 43 {
            LiveBlockingReason::ValidationMissing
        } else {
            LiveBlockingReason::ValidationStale
        }
    }

    /// The position of the reason's code in the order of all codes.
    pub fn code_rank(self) -> (k: u8)
        ensures
            k == self.rank(),
            k < 45,
    {
        match self {
            LiveBlockingReason::NoActiveCredential => 20,
            LiveBlockingReason::EnvCredentialsMissing => 6,
            LiveBlockingReason::EnvCredentialPartial => 5,
            LiveBlockingReason::SecureStoreUnavailable => 34,
            LiveBlockingReason::ValidationFailed => 42,
            LiveBlockingReason::ValidationMissing => 43,
            LiveBlockingReason::ValidationStale => 44,
            LiveBlockingReason::AccountSnapshotMissing => 0,
            LiveBlockingReason::SymbolRulesMissing => 38,
            LiveBlockingReason::RulesMissing => 32,
            LiveBlockingReason::UnsupportedSymbol => 40,
            LiveBlockingReason::UnsupportedTimeframe => 41,
            LiveBlockingReason::UnsupportedAccountMode => 39,
            LiveBlockingReason::PaperPositionOpen => 23,
            LiveBlockingReason::RuntimeBusy => 33,
            LiveBlockingReason::ShadowStreamDown => 36,
            LiveBlockingReason::ShadowStateAmbiguous => 35,
            LiveBlockingReason::PreflightNotSupportedOnMainnet => 25,
            LiveBlockingReason::IntentUnavailable => 10,
            LiveBlockingReason::MinNotional => 19,
            LiveBlockingReason::PrecisionInvalid => 24,
            LiveBlockingReason::MainnetExecutionBlocked => 18,
            LiveBlockingReason::MainnetCanaryDisabled => 13,
            LiveBlockingReason::MainnetCanaryRiskProfileMissing => 16,
            LiveBlockingReason::MainnetCanaryLimitRequired => 15,
            LiveBlockingReason::MainnetCanaryLimitMarketable => 14,
            LiveBlockingReason::MainnetConfirmationMissing => 17,
            LiveBlockingReason::MainnetAutoBlocked => 12,
            LiveBlockingReason::ReferencePriceUnavailable => 30,
            LiveBlockingReason::ReferencePriceStale => 29,
            LiveBlockingReason::ReferencePriceSourceFailed => 28,
            LiveBlockingReason::StaleShadowState => 37,
            LiveBlockingReason::PreviewMismatch => 26,
            LiveBlockingReason::ExecutionStatusUnknown => 8,
            LiveBlockingReason::DuplicateClientOrderId => 3,
            LiveBlockingReason::OrderRejected => 22,
            LiveBlockingReason::OrderNotFound => 21,
            LiveBlockingReason::CancelFailed => 2,
            LiveBlockingReason::FlattenFailed => 9,
            LiveBlockingReason::KillSwitchEngaged => 11,
            LiveBlockingReason::RiskLimitExceeded => 31,
            LiveBlockingReason::AutoExecutorStopped => 1,
            LiveBlockingReason::DuplicateSignalSuppressed => 4,
            LiveBlockingReason::RecentWindowRepairOnly => 27,
            LiveBlockingReason::ExecutionNotImplemented => 7,
        }
    }

    /// The reason whose code has the given position.
    pub fn from_code_rank(k: u8) -> (r: LiveBlockingReason)
        requires
            k < 45,
        ensures
            r == LiveBlockingReason::of_rank(k as nat),
            r.rank() == k,
    {
        if k == 0 {
            LiveBlockingReason::AccountSnapshotMissing
        } else if k == 1 {
            LiveBlockingReason::AutoExecutorStopped
        } else if k == 2 {
            LiveBlockingReason::CancelFailed
        } else if k == 3 {
            LiveBlockingReason::DuplicateClientOrderId
        } else if k == 4 {
            LiveBlockingReason::DuplicateSignalSuppressed
        } else if k == 5 {
            LiveBlockingReason::EnvCredentialPartial
        } else if k == 6 {
            LiveBlockingReason::EnvCredentialsMissing
        } else if k == 7 {
            LiveBlockingReason::ExecutionNotImplemented
        } else if k == 8 {
            LiveBlockingReason::ExecutionStatusUnknown
        } else if k == 9 {
            LiveBlockingReason::FlattenFailed
        } else if k == 10 {
            LiveBlockingReason::IntentUnavailable
        } else if k == 11 {
            LiveBlockingReason::KillSwitchEngaged
        } else if k == 12 {
            LiveBlockingReason::MainnetAutoBlocked
        } else if k == 13 {
            LiveBlockingReason::MainnetCanaryDisabled
        } else if k == 14 {
            LiveBlockingReason::MainnetCanaryLimitMarketable
        } else if k == 15 {
            LiveBlockingReason::MainnetCanaryLimitRequired
        } else if k == 16 {
            LiveBlockingReason::MainnetCanaryRiskProfileMissing
        } else if k == 17 {
            LiveBlockingReason::MainnetConfirmationMissing
        } else if k == 18 {
            LiveBlockingReason::MainnetExecutionBlocked
        } else if k == 19 {
            LiveBlockingReason::MinNotional
        } else if k == 20 {
            LiveBlockingReason::NoActiveCredential
        } else if k == 21 {
            LiveBlockingReason::OrderNotFound
        } else if k == 22 {
            LiveBlockingReason::OrderRejected
        } else if k == 23 {
            LiveBlockingReason::PaperPositionOpen
        } else if k == 24 {
            LiveBlockingReason::PrecisionInvalid
        } else if k == 25 {
            LiveBlockingReason::PreflightNotSupportedOnMainnet
        } else if k == 26 {
            LiveBlockingReason::PreviewMismatch
        } else if k == 27 {
            LiveBlockingReason::RecentWindowRepairOnly
        } else if k == 28 {
            LiveBlockingReason::ReferencePriceSourceFailed
        } else if k == 29 {
            LiveBlockingReason::ReferencePriceStale
        } else if k == 30 {
            LiveBlockingReason::ReferencePriceUnavailable
        } else if k == 31 {
            LiveBlockingReason::RiskLimitExceeded
        } else if k == 32 {
            LiveBlockingReason::RulesMissing
        } else if k == 33 {
            LiveBlockingReason::RuntimeBusy
        } else if k == 34 {
            LiveBlockingReason::SecureStoreUnavailable
        } else if k == 35 {
            LiveBlockingReason::ShadowStateAmbiguous
        } else if k == 36 {
            LiveBlockingReason::ShadowStreamDown
        } else if k == 37 {
            LiveBlockingReason::StaleShadowState
        } else if k == 38 {
            LiveBlockingReason::SymbolRulesMissing
        } else if k == 39 {
            LiveBlockingReason::UnsupportedAccountMode
        } else if k == 40 {
            LiveBlockingReason::UnsupportedSymbol
        } else if k == 41 {
            LiveBlockingReason::UnsupportedTimeframe
        } else if k == 42 {
            LiveBlockingReason::ValidationFailed
        } else if k == 43 {
            LiveBlockingReason::ValidationMissing
        } else {
            LiveBlockingReason::ValidationStale
        }
    }
}

/// Two reasons with the same position in the code order are the same
/// reason, and every reason's position is below 45.
pub proof fn lemma_rank_injective(a: LiveBlockingReason, b: LiveBlockingReason)
    ensures
        a.rank() < 45,
        a.rank() == b.rank() ==> a == b,
        LiveBlockingReason::of_rank(a.rank()) == a,
{
}

/// Whether `s` is strictly ascending in code order (so it holds no reason
/// twice).
pub open spec fn strictly_ranked(s: Seq<LiveBlockingReason>) -> bool {
    forall|i: int, j: int| 0 <= i < j < s.len() ==> s[i].rank() < s[j].rank()
}

/// Whether `out` lists exactly the reasons of `items`, each once, in code
/// order: what sorting a list by code and dropping repeats gives.
pub open spec fn canonical_reasons_of(out: Seq<LiveBlockingReason>, items: Seq<LiveBlockingReason>) -> bool {
    &&& strictly_ranked(out)
    &&& forall|r: LiveBlockingReason| out.contains(r) <==> items.contains(r)
}

/// Whether `v` contains `r`.
pub fn contains_reason(v: &Vec<LiveBlockingReason>, r: LiveBlockingReason) -> (b: bool)
    ensures
        b == v@.contains(r),
{
    let mut i: usize = 0;
    while i < v.len()
        invariant
            i <= v.len(),
            forall|j: int| 0 <= j < i ==> v@[j] != r,
        decreases v.len() - i,
    {
        if v[i] == r {
            return true;
        }
        i = i + 1;
    }
    false
}

/// The reasons of `v`, each once, in code order (sorting by code and
/// removing repeats).
pub fn canonical_reasons(v: &Vec<LiveBlockingReason>) -> (out: Vec<LiveBlockingReason>)
    ensures
        canonical_reasons_of(out@, v@),
{
    let mut out: Vec<LiveBlockingReason> = Vec::new();
    let mut k: u8 = 0;
    while k < 45
        invariant
            k <= 45,
            strictly_ranked(out@),
            forall|i: int| 0 <= i < out@.len() ==> #[trigger] out@[i].rank() < k,
            forall|r: LiveBlockingReason| out@.contains(r) ==> v@.contains(r),
            forall|r: LiveBlockingReason| r.rank() < k && v@.contains(r) ==> out@.contains(r),
        decreases 45 - k,
    {
        let r = LiveBlockingReason::from_code_rank(k);
        if contains_reason(v, r) {
            let ghost before = out@;
            out.push(r);
            proof {
                assert forall|x: LiveBlockingReason| out@.contains(x) implies v@.contains(x) by {
                    if x != r {
                        let i = choose|i: int| 0 <= i < out@.len() && out@[i] == x;
                        assert(before[i] == x);
                    }
                }
                assert forall|x: LiveBlockingReason| x.rank() < k + 1 && v@.contains(x) implies out@.contains(x) by {
                    lemma_rank_injective(x, r);
                    if x.rank() < k {
                        assert(before.contains(x));
                        let i = choose|i: int| 0 <= i < before.len() && before[i] == x;
                        assert(out@[i] == x);
                    } else {
                        assert(out@[out@.len() - 1] == x);
                    }
                }
            }
        } else {
            proof {
                assert forall|x: LiveBlockingReason| x.rank() < k + 1 && v@.contains(x) implies out@.contains(x) by {
                    lemma_rank_injective(x, r);
                }
            }
        }
        k = k + 1;
    }
    proof {
        assert forall|x: LiveBlockingReason| v@.contains(x) implies out@.contains(x) by {
            lemma_rank_injective(x, x);
        }
    }
    out
}

/// A condition that does not block live mode but should be shown.
#[derive(Debug, Clone, Copy, PartialEq, Eq, Structural)]
pub enum LiveWarning {
    ValidationStale,
    RulesSnapshotStale,
    AccountSnapshotStale,
    ShadowSnapshotStale,
    ShadowStreamStale,
    TestnetEnvironment,
    OpenExchangePositionDetected,
    UnsupportedExchangeMode,
}


/// `s` with each run of equal neighbours reduced to one element, as
/// `Vec::dedup` leaves it.
pub open spec fn dedup_adjacent<T>(s: Seq<T>) -> Seq<T>
    decreases s.len(),
{
    if s.len() <= 1 {
        s
    } else if s.last() == s[s.len() - 2] {
        dedup_adjacent(s.drop_last())
    } else {
        dedup_adjacent(s.drop_last()).push(s.last())
    }
}

proof fn lemma_dedup_adjacent_last<T>(s: Seq<T>)
    requires
        s.len() > 0,
    ensures
        dedup_adjacent(s).len() > 0,
        dedup_adjacent(s).last() == s.last(),
    decreases s.len(),
{
    if s.len() > 1 && s.last() == s[s.len() - 2] {
        lemma_dedup_adjacent_last(s.drop_last());
    }
}

/// The warnings of `v` with runs of equal neighbours reduced to one.
pub fn dedup_warnings(v: &Vec<LiveWarning>) -> (out: Vec<LiveWarning>)
    ensures
        out@ == dedup_adjacent(v@),
{
    let mut out: Vec<LiveWarning> = Vec::new();
    let mut i: usize = 0;
    while i < v.len()
        invariant
            i <= v.len(),
            out@ == dedup_adjacent(v@.subrange(0, i as int)),
        decreases v.len() - i,
    {
        let ghost pre = v@.subrange(0, i as int);
        let ghost post = v@.subrange(0, i + 1);
        assert(post.drop_last() =~= pre);
        if i > 0 {
            proof {
                lemma_dedup_adjacent_last(pre);
            }
            if v[i] != v[i - 1] {
                out.push(v[i]);
            }
        } else {
            out.push(v[i]);
            assert(out@ =~= post);
        }
        i = i + 1;
    }
    assert(v@.subrange(0, v@.len() as int) =~= v@);
    out
}

/// One named readiness gate and whether it passed.
#[derive(Debug, Clone, PartialEq, Eq)]
pub struct LiveGateCheck {
    pub code: String,
    pub passed: bool,
    pub message: String,
}

/// Whether live execution can run now, and why not.
#[derive(Debug, Clone, PartialEq, Eq)]
pub struct LiveExecutionAvailability {
    pub can_execute_live: bool,
    pub reason: LiveBlockingReason,
    pub message: String,
}

/// The account modes the exchange reports.
#[derive(Debug, Clone, PartialEq, Eq)]
pub struct LiveAccountModeStatus {
    pub environment: LiveEnvironment,
    pub position_mode: Option<String>,
    pub multi_assets_margin: Option<bool>,
    pub fetched_at: i64,
}

/// The state of the user-data stream that feeds the account shadow.
#[derive(Debug, Clone, Copy, PartialEq, Eq, Structural)]
pub enum LiveShadowStreamState {
    Stopped,
    Starting,
    Connecting,
    Syncing,
    Running,
    Reconnecting,
    Degraded,
    Expired,
}


/// The user-data stream and its health.
#[derive(Debug, Clone, PartialEq, Eq)]
pub struct LiveShadowStreamStatus {
    pub state: LiveShadowStreamState,
    pub environment: LiveEnvironment,
    pub listen_key_hint: Option<String>,
    pub status_since: i64,
    pub started_at: Option<i64>,
    pub last_event_time: Option<i64>,
    pub last_rest_sync_at: Option<i64>,
    pub reconnect_attempts: u64,
    pub stale: bool,
    pub detail: Option<String>,
}

impl LiveShadowStreamStatus {
    /// A stopped testnet stream that has seen nothing.
    pub open spec fn initial() -> LiveShadowStreamStatus {
        LiveShadowStreamStatus {
                state: LiveShadowStreamState::Stopped,
                environment: LiveEnvironment::Testnet,
                listen_key_hint: None,
                status_since: 0,
                started_at: None,
                last_event_time: None,
                last_rest_sync_at: None,
                reconnect_attempts: 0,
                stale: false,
                detail: None,
        }
    }
}

impl Default for LiveShadowStreamStatus {
    /// A stopped testnet stream that has seen nothing.
    fn default() -> (s: LiveShadowStreamStatus)
        ensures
            s == LiveShadowStreamStatus::initial(),
    {
        LiveShadowStreamStatus {
            state: LiveShadowStreamState::Stopped,
            environment: LiveEnvironment::Testnet,
            listen_key_hint: None,
            status_since: 0,
            started_at: None,
            last_event_time: None,
            last_rest_sync_at: None,
            reconnect_attempts: 0,
            stale: false,
            detail: None,
        }
    }
}

/// One asset balance of the account shadow, as exchange decimal text.
#[derive(Debug, Clone, PartialEq, Eq)]
pub struct LiveShadowBalance {
    pub asset: String,
    pub wallet_balance: String,
    pub cross_wallet_balance: Option<String>,
    pub balance_change: Option<String>,
    pub updated_at: i64,
}

/// One position of the account shadow, as exchange decimal text.
#[derive(Debug, Clone, PartialEq, Eq)]
pub struct LiveShadowPosition {
    pub symbol: Symbol,
    pub position_side: String,
    pub position_amt: String,
    pub entry_price: String,
    pub unrealized_pnl: String,
    pub margin_type: Option<String>,
    pub isolated_wallet: Option<String>,
    pub updated_at: i64,
}

/// One order as the user-data stream reports it.
#[derive(Debug, Clone, PartialEq, Eq)]
pub struct LiveShadowOrder {
    pub order_id: String,
    pub client_order_id: Option<String>,
    pub symbol: Symbol,
    pub side: LiveOrderSide,
    pub order_type: LiveOrderType,
    pub time_in_force: Option<String>,
    pub original_qty: String,
    pub executed_qty: String,
    pub price: Option<String>,
    pub avg_price: Option<String>,
    pub status: String,
    pub execution_type: Option<String>,
    pub reduce_only: bool,
    pub position_side: Option<String>,
    pub last_filled_qty: Option<String>,
    pub last_filled_price: Option<String>,
    pub commission: Option<String>,
    pub commission_asset: Option<String>,
    pub trade_id: Option<String>,
    pub self_trade_prevention_mode: Option<String>,
    pub price_match: Option<String>,
    pub expire_reason: Option<String>,
    pub last_update_time: i64,
}

/// The account as reconstructed from REST snapshots and user-data events.
#[derive(Debug, Clone, PartialEq, Eq)]
pub struct LiveAccountShadow {
    pub environment: LiveEnvironment,
    pub balances: Vec<LiveShadowBalance>,
    pub positions: Vec<LiveShadowPosition>,
    pub open_orders: Vec<LiveShadowOrder>,
    pub can_trade: bool,
    pub multi_assets_margin: Option<bool>,
    pub position_mode: Option<String>,
    pub last_event_time: Option<i64>,
    pub last_rest_sync_at: Option<i64>,
    pub updated_at: i64,
    pub ambiguous: bool,
    pub divergence_reasons: Vec<LiveBlockingReason>,
}

impl Default for LiveAccountShadow {
    /// An empty testnet shadow that is ambiguous until a snapshot arrives.
    fn default() -> (s: LiveAccountShadow)
        ensures
            s.environment == LiveEnvironment::Testnet,
            s.balances@ == Seq::<LiveShadowBalance>::empty(),
            s.positions@ == Seq::<LiveShadowPosition>::empty(),
            s.open_orders@ == Seq::<LiveShadowOrder>::empty(),
            !s.can_trade,
            s.multi_assets_margin is None,
            s.position_mode is None,
            s.last_event_time is None,
            s.last_rest_sync_at is None,
            s.updated_at == 0,
            s.ambiguous,
            s.divergence_reasons@ == seq![LiveBlockingReason::AccountSnapshotMissing],
    {
        LiveAccountShadow {
            environment: LiveEnvironment::Testnet,
            balances: Vec::new(),
            positions: Vec::new(),
            open_orders: Vec::new(),
            can_trade: false,
            multi_assets_margin: None,
            position_mode: None,
            last_event_time: None,
            last_rest_sync_at: None,
            updated_at: 0,
            ambiguous: true,
            divergence_reasons: vec![LiveBlockingReason::AccountSnapshotMissing],
        }
    }
}

/// The reconciliation of the account shadow with the stream.
#[derive(Debug, Clone, PartialEq, Eq)]
pub struct LiveReconciliationStatus {
    pub state: LiveRuntimeState,
    pub stream: LiveShadowStreamStatus,
    pub shadow: Option<LiveAccountShadow>,
    pub blocking_reasons: Vec<LiveBlockingReason>,
    pub warnings: Vec<LiveWarning>,
    pub updated_at: i64,
}

impl Default for LiveReconciliationStatus {
    /// No credentials, a stopped stream and no shadow.
    fn default() -> (s: LiveReconciliationStatus)
        ensures
            s.state == LiveRuntimeState::CredentialsMissing,
            s.stream == LiveShadowStreamStatus::initial(),
            s.shadow is None,
            s.blocking_reasons@ == Seq::<LiveBlockingReason>::empty(),
            s.warnings@ == Seq::<LiveWarning>::empty(),
            s.updated_at == 0,
    {
        LiveReconciliationStatus {
            state: LiveRuntimeState::CredentialsMissing,
            stream: LiveShadowStreamStatus::default(),
            shadow: None,
            blocking_reasons: Vec::new(),
            warnings: Vec::new(),
            updated_at: 0,
        }
    }
}

/// An event of the exchange's user-data stream.
#[derive(Debug, Clone, PartialEq, Eq)]
#[allow(inconsistent_fields)]
pub enum LiveUserDataEvent {
    AccountUpdate(LiveAccountShadow),
    OrderTradeUpdate(Box<LiveShadowOrder>),
    AccountConfigUpdate {
        event_time: i64,
        position_mode: Option<String>,
        leverage_symbol: Option<Symbol>,
        leverage: Option<i64>,
    },
    ListenKeyExpired { event_time: i64 },
    Unknown { event_type: String, event_time: Option<i64> },
}

impl LiveUserDataEvent {
    /// The exchange time the event carries, where it carries one.
    pub open spec fn time_of(self) -> Option<i64> {
        match self {
            LiveUserDataEvent::AccountUpdate(shadow) => shadow.last_event_time,
            LiveUserDataEvent::OrderTradeUpdate(order) => Some(order.last_update_time),
            LiveUserDataEvent::AccountConfigUpdate { event_time, .. } => Some(event_time),
            LiveUserDataEvent::ListenKeyExpired { event_time } => Some(event_time),
            LiveUserDataEvent::Unknown { event_time, .. } => event_time,
        }
    }

    /// The exchange time the event carries, where it carries one.
    pub fn event_time(&self) -> (t: Option<i64>)
        ensures
            t == self.time_of(),
    {
        match self {
            LiveUserDataEvent::AccountUpdate(shadow) => shadow.last_event_time,
            LiveUserDataEvent::OrderTradeUpdate(order) => Some(order.last_update_time),
            LiveUserDataEvent::AccountConfigUpdate { event_time, .. } => Some(*event_time),
            LiveUserDataEvent::ListenKeyExpired { event_time } => Some(*event_time),
            LiveUserDataEvent::Unknown { event_time, .. } => *event_time,
        }
    }
}

/// Parsing the name of an environment, a validation status or a
/// credential source gives back that value.
pub proof fn lemma_live_codes_round_trip(
    e: LiveEnvironment,
    v: LiveCredentialValidationStatus,
    c: LiveCredentialSource,
)
    ensures
        LiveEnvironment::from_text(e.text()) == Some(e),
        LiveCredentialValidationStatus::from_text(v.text()) == Some(v),
        LiveCredentialSource::from_text(c.text()) == Some(c),
{
    reveal_strlit("testnet");
    reveal_strlit("mainnet");
    assert("testnet"@[0] != "mainnet"@[0]);
    reveal_strlit("secure_store");
    reveal_strlit("env");
    assert("secure_store"@.len() == 12 && "env"@.len() == 3);
    reveal_strlit("unknown");
    reveal_strlit("valid");
    reveal_strlit("invalid_api_key");
    reveal_strlit("invalid_signature");
    reveal_strlit("permission_denied");
    reveal_strlit("timestamp_skew");
    reveal_strlit("environment_mismatch");
    reveal_strlit("network_error");
    reveal_strlit("exchange_error");
    reveal_strlit("response_decode_error");
    reveal_strlit("secure_store_unavailable");
    assert("unknown"@.len() == 7);
    assert("valid"@.len() == 5);
    assert("invalid_api_key"@.len() == 15);
    assert("invalid_signature"@.len() == 17);
    assert("permission_denied"@.len() == 17);
    assert("timestamp_skew"@.len() == 14);
    assert("environment_mismatch"@.len() == 20);
    assert("network_error"@.len() == 13);
    assert("exchange_error"@.len() == 14);
    assert("response_decode_error"@.len() == 21);
    assert("secure_store_unavailable"@.len() == 24);
    assert("invalid_api_key"@[8] != "invalid_signature"@[8]);
    assert("network_error"@[0] != "exchange_error"@[0]);
    assert("timestamp_skew"@[0] != "exchange_error"@[0]);
    assert("timestamp_skew"@[0] != "network_error"@[0]);
}

/// The codes at positions 0 to 11 ascend in the order of `str`.
#[verifier::spinoff_prover]
proof fn lemma_codes_ascend_from_0(k: nat)
    requires
        0 <= k < 11,
    ensures
        text_lt(LiveBlockingReason::of_rank(k).text(), LiveBlockingReason::of_rank(k + 1).text()),
{
    if k == 0 {
        reveal_strlit("account_snapshot_missing");
        reveal_strlit("auto_executor_stopped");
        assert("account_snapshot_missing"@.subrange(0, 1) =~= "auto_executor_stopped"@.subrange(0, 1));
        lemma_text_lt_at("account_snapshot_missing"@, "auto_executor_stopped"@, 1);
    } else if k == 1 {
        reveal_strlit("auto_executor_stopped");
        reveal_strlit("cancel_failed");
        assert("auto_executor_stopped"@.subrange(0, 0) =~= "cancel_failed"@.subrange(0, 0));
        lemma_text_lt_at("auto_executor_stopped"@, "cancel_failed"@, 0);
    } else if k == 2 {
        reveal_strlit("cancel_failed");
        reveal_strlit("duplicate_client_order_id");
        assert("cancel_failed"@.subrange(0, 0) =~= "duplicate_client_order_id"@.subrange(0, 0));
        lemma_text_lt_at("cancel_failed"@, "duplicate_client_order_id"@, 0);
    } else if k == 3 {
        reveal_strlit("duplicate_client_order_id");
        reveal_strlit("duplicate_signal_suppressed");
        assert("duplicate_client_order_id"@.subrange(0, 10) =~= "duplicate_signal_suppressed"@.subrange(0, 10));
        lemma_text_lt_at("duplicate_client_order_id"@, "duplicate_signal_suppressed"@, 10);
    } else if k == 4 {
        reveal_strlit("duplicate_signal_suppressed");
        reveal_strlit("env_credential_partial");
        assert("duplicate_signal_suppressed"@.subrange(0, 0) =~= "env_credential_partial"@.subrange(0, 0));
        lemma_text_lt_at("duplicate_signal_suppressed"@, "env_credential_partial"@, 0);
    } else if k == 5 {
        reveal_strlit("env_credential_partial");
        reveal_strlit("env_credentials_missing");
        assert("env_credential_partial"@.subrange(0, 14) =~= "env_credentials_missing"@.subrange(0, 14));
        lemma_text_lt_at("env_credential_partial"@, "env_credentials_missing"@, 14);
    } else if k == 6 {
        reveal_strlit("env_credentials_missing");
        reveal_strlit("execution_not_implemented");
        assert("env_credentials_missing"@.subrange(0, 1) =~= "execution_not_implemented"@.subrange(0, 1));
        lemma_text_lt_at("env_credentials_missing"@, "execution_not_implemented"@, 1);
    } else if k == 7 {
        reveal_strlit("execution_not_implemented");
        reveal_strlit("execution_status_unknown");
        assert("execution_not_implemented"@.subrange(0, 10) =~= "execution_status_unknown"@.subrange(0, 10));
        lemma_text_lt_at("execution_not_implemented"@, "execution_status_unknown"@, 10);
    } else if k == 8 {
        reveal_strlit("execution_status_unknown");
        reveal_strlit("flatten_failed");
        assert("execution_status_unknown"@.subrange(0, 0) =~= "flatten_failed"@.subrange(0, 0));
        lemma_text_lt_at("execution_status_unknown"@, "flatten_failed"@, 0);
    } else if k == 9 {
        reveal_strlit("flatten_failed");
        reveal_strlit("intent_unavailable");
        assert("flatten_failed"@.subrange(0, 0) =~= "intent_unavailable"@.subrange(0, 0));
        lemma_text_lt_at("flatten_failed"@, "intent_unavailable"@, 0);
    } else if k == 10 {
        reveal_strlit("intent_unavailable");
        reveal_strlit("kill_switch_engaged");
        assert("intent_unavailable"@.subrange(0, 0) =~= "kill_switch_engaged"@.subrange(0, 0));
        lemma_text_lt_at("intent_unavailable"@, "kill_switch_engaged"@, 0);
    }
}

/// The codes at positions 11 to 22 ascend in the order of `str`.
#[verifier::spinoff_prover]
proof fn lemma_codes_ascend_from_11(k: nat)
    requires
        11 <= k < 22,
    ensures
        text_lt(LiveBlockingReason::of_rank(k).text(), LiveBlockingReason::of_rank(k + 1).text()),
{
    if k == 11 {
        reveal_strlit("kill_switch_engaged");
        reveal_strlit("mainnet_auto_blocked");
        assert("kill_switch_engaged"@.subrange(0, 0) =~= "mainnet_auto_blocked"@.subrange(0, 0));
        lemma_text_lt_at("kill_switch_engaged"@, "mainnet_auto_blocked"@, 0);
    } else if k == 12 {
        reveal_strlit("mainnet_auto_blocked");
        reveal_strlit("mainnet_canary_disabled");
        assert("mainnet_auto_blocked"@.subrange(0, 8) =~= "mainnet_canary_disabled"@.subrange(0, 8));
        lemma_text_lt_at("mainnet_auto_blocked"@, "mainnet_canary_disabled"@, 8);
    } else if k == 13 {
        reveal_strlit("mainnet_canary_disabled");
        reveal_strlit("mainnet_canary_limit_marketable");
        assert("mainnet_canary_disabled"@.subrange(0, 15) =~= "mainnet_canary_limit_marketable"@.subrange(0, 15));
        lemma_text_lt_at("mainnet_canary_disabled"@, "mainnet_canary_limit_marketable"@, 15);
    } else if k == 14 {
        reveal_strlit("mainnet_canary_limit_marketable");
        reveal_strlit("mainnet_canary_limit_required");
        assert("mainnet_canary_limit_marketable"@.subrange(0, 21) =~= "mainnet_canary_limit_required"@.subrange(0, 21));
        lemma_text_lt_at("mainnet_canary_limit_marketable"@, "mainnet_canary_limit_required"@, 21);
    } else if k == 15 {
        reveal_strlit("mainnet_canary_limit_required");
        reveal_strlit("mainnet_canary_risk_profile_missing");
        assert("mainnet_canary_limit_required"@.subrange(0, 15) =~= "mainnet_canary_risk_profile_missing"@.subrange(0, 15));
        lemma_text_lt_at("mainnet_canary_limit_required"@, "mainnet_canary_risk_profile_missing"@, 15);
    } else if k == 16 {
        reveal_strlit("mainnet_canary_risk_profile_missing");
        reveal_strlit("mainnet_confirmation_missing");
        assert("mainnet_canary_risk_profile_missing"@.subrange(0, 9) =~= "mainnet_confirmation_missing"@.subrange(0, 9));
        lemma_text_lt_at("mainnet_canary_risk_profile_missing"@, "mainnet_confirmation_missing"@, 9);
    } else if k == 17 {
        reveal_strlit("mainnet_confirmation_missing");
        reveal_strlit("mainnet_execution_blocked");
        assert("mainnet_confirmation_missing"@.subrange(0, 8) =~= "mainnet_execution_blocked"@.subrange(0, 8));
        lemma_text_lt_at("mainnet_confirmation_missing"@, "mainnet_execution_blocked"@, 8);
    } else if k == 18 {
        reveal_strlit("mainnet_execution_blocked");
        reveal_strlit("min_notional");
        assert("mainnet_execution_blocked"@.subrange(0, 1) =~= "min_notional"@.subrange(0, 1));
        lemma_text_lt_at("mainnet_execution_blocked"@, "min_notional"@, 1);
    } else if k == 19 {
        reveal_strlit("min_notional");
        reveal_strlit("no_active_credential");
        assert("min_notional"@.subrange(0, 0) =~= "no_active_credential"@.subrange(0, 0));
        lemma_text_lt_at("min_notional"@, "no_active_credential"@, 0);
    } else if k == 20 {
        reveal_strlit("no_active_credential");
        reveal_strlit("order_not_found");
        assert("no_active_credential"@.subrange(0, 0) =~= "order_not_found"@.subrange(0, 0));
        lemma_text_lt_at("no_active_credential"@, "order_not_found"@, 0);
    } else if k == 21 {
        reveal_strlit("order_not_found");
        reveal_strlit("order_rejected");
        assert("order_not_found"@.subrange(0, 6) =~= "order_rejected"@.subrange(0, 6));
        lemma_text_lt_at("order_not_found"@, "order_rejected"@, 6);
    }
}

/// The codes at positions 22 to 33 ascend in the order of `str`.
#[verifier::spinoff_prover]
proof fn lemma_codes_ascend_from_22(k: nat)
    requires
        22 <= k < 33,
    ensures
        text_lt(LiveBlockingReason::of_rank(k).text(), LiveBlockingReason::of_rank(k + 1).text()),
{
    if k == 22 {
        reveal_strlit("order_rejected");
        reveal_strlit("paper_position_open");
        assert("order_rejected"@.subrange(0, 0) =~= "paper_position_open"@.subrange(0, 0));
        lemma_text_lt_at("order_rejected"@, "paper_position_open"@, 0);
    } else if k == 23 {
        reveal_strlit("paper_position_open");
        reveal_strlit("precision_invalid");
        assert("paper_position_open"@.subrange(0, 1) =~= "precision_invalid"@.subrange(0, 1));
        lemma_text_lt_at("paper_position_open"@, "precision_invalid"@, 1);
    } else if k == 24 {
        reveal_strlit("precision_invalid");
        reveal_strlit("preflight_not_supported_on_mainnet");
        assert("precision_invalid"@.subrange(0, 3) =~= "preflight_not_supported_on_mainnet"@.subrange(0, 3));
        lemma_text_lt_at("precision_invalid"@, "preflight_not_supported_on_mainnet"@, 3);
    } else if k == 25 {
        reveal_strlit("preflight_not_supported_on_mainnet");
        reveal_strlit("preview_mismatch");
        assert("preflight_not_supported_on_mainnet"@.subrange(0, 3) =~= "preview_mismatch"@.subrange(0, 3));
        lemma_text_lt_at("preflight_not_supported_on_mainnet"@, "preview_mismatch"@, 3);
    } else if k == 26 {
        reveal_strlit("preview_mismatch");
        reveal_strlit("recent_window_repair_only");
        assert("preview_mismatch"@.subrange(0, 0) =~= "recent_window_repair_only"@.subrange(0, 0));
        lemma_text_lt_at("preview_mismatch"@, "recent_window_repair_only"@, 0);
    } else if k == 27 {
        reveal_strlit("recent_window_repair_only");
        reveal_strlit("reference_price_source_failed");
        assert("recent_window_repair_only"@.subrange(0, 2) =~= "reference_price_source_failed"@.subrange(0, 2));
        lemma_text_lt_at("recent_window_repair_only"@, "reference_price_source_failed"@, 2);
    } else if k == 28 {
        reveal_strlit("reference_price_source_failed");
        reveal_strlit("reference_price_stale");
        assert("reference_price_source_failed"@.subrange(0, 17) =~= "reference_price_stale"@.subrange(0, 17));
        lemma_text_lt_at("reference_price_source_failed"@, "reference_price_stale"@, 17);
    } else if k == 29 {
        reveal_strlit("reference_price_stale");
        reveal_strlit("reference_price_unavailable");
        assert("reference_price_stale"@.subrange(0, 16) =~= "reference_price_unavailable"@.subrange(0, 16));
        lemma_text_lt_at("reference_price_stale"@, "reference_price_unavailable"@, 16);
    } else if k == 30 {
        reveal_strlit("reference_price_unavailable");
        reveal_strlit("risk_limit_exceeded");
        assert("reference_price_unavailable"@.subrange(0, 1) =~= "risk_limit_exceeded"@.subrange(0, 1));
        lemma_text_lt_at("reference_price_unavailable"@, "risk_limit_exceeded"@, 1);
    } else if k == 31 {
        reveal_strlit("risk_limit_exceeded");
        reveal_strlit("rules_missing");
        assert("risk_limit_exceeded"@.subrange(0, 1) =~= "rules_missing"@.subrange(0, 1));
        lemma_text_lt_at("risk_limit_exceeded"@, "rules_missing"@, 1);
    } else if k == 32 {
        reveal_strlit("rules_missing");
        reveal_strlit("runtime_busy");
        assert("rules_missing"@.subrange(0, 2) =~= "runtime_busy"@.subrange(0, 2));
        lemma_text_lt_at("rules_missing"@, "runtime_busy"@, 2);
    }
}

/// The codes at positions 33 to 44 ascend in the order of `str`.
#[verifier::spinoff_prover]
proof fn lemma_codes_ascend_from_33(k: nat)
    requires
        33 <= k < 44,
    ensures
        text_lt(LiveBlockingReason::of_rank(k).text(), LiveBlockingReason::of_rank(k + 1).text()),
{
    if k == 33 {
        reveal_strlit("runtime_busy");
        reveal_strlit("secure_store_unavailable");
        assert("runtime_busy"@.subrange(0, 0) =~= "secure_store_unavailable"@.subrange(0, 0));
        lemma_text_lt_at("runtime_busy"@, "secure_store_unavailable"@, 0);
    } else if k == 34 {
        reveal_strlit("secure_store_unavailable");
        reveal_strlit("shadow_state_ambiguous");
        assert("secure_store_unavailable"@.subrange(0, 1) =~= "shadow_state_ambiguous"@.subrange(0, 1));
        lemma_text_lt_at("secure_store_unavailable"@, "shadow_state_ambiguous"@, 1);
    } else if k == 35 {
        reveal_strlit("shadow_state_ambiguous");
        reveal_strlit("shadow_stream_down");
        assert("shadow_state_ambiguous"@.subrange(0, 9) =~= "shadow_stream_down"@.subrange(0, 9));
        lemma_text_lt_at("shadow_state_ambiguous"@, "shadow_stream_down"@, 9);
    } else if k == 36 {
        reveal_strlit("shadow_stream_down");
        reveal_strlit("stale_shadow_state");
        assert("shadow_stream_down"@.subrange(0, 1) =~= "stale_shadow_state"@.subrange(0, 1));
        lemma_text_lt_at("shadow_stream_down"@, "stale_shadow_state"@, 1);
    } else if k == 37 {
        reveal_strlit("stale_shadow_state");
        reveal_strlit("symbol_rules_missing");
        assert("stale_shadow_state"@.subrange(0, 1) =~= "symbol_rules_missing"@.subrange(0, 1));
        lemma_text_lt_at("stale_shadow_state"@, "symbol_rules_missing"@, 1);
    } else if k == 38 {
        reveal_strlit("symbol_rules_missing");
        reveal_strlit("unsupported_account_mode");
        assert("symbol_rules_missing"@.subrange(0, 0) =~= "unsupported_account_mode"@.subrange(0, 0));
        lemma_text_lt_at("symbol_rules_missing"@, "unsupported_account_mode"@, 0);
    } else if k == 39 {
        reveal_strlit("unsupported_account_mode");
        reveal_strlit("unsupported_symbol");
        assert("unsupported_account_mode"@.subrange(0, 12) =~= "unsupported_symbol"@.subrange(0, 12));
        lemma_text_lt_at("unsupported_account_mode"@, "unsupported_symbol"@, 12);
    } else if k == 40 {
        reveal_strlit("unsupported_symbol");
        reveal_strlit("unsupported_timeframe");
        assert("unsupported_symbol"@.subrange(0, 12) =~= "unsupported_timeframe"@.subrange(0, 12));
        lemma_text_lt_at("unsupported_symbol"@, "unsupported_timeframe"@, 12);
    } else if k == 41 {
        reveal_strlit("unsupported_timeframe");
        reveal_strlit("validation_failed");
        assert("unsupported_timeframe"@.subrange(0, 0) =~= "validation_failed"@.subrange(0, 0));
        lemma_text_lt_at("unsupported_timeframe"@, "validation_failed"@, 0);
    } else if k == 42 {
        reveal_strlit("validation_failed");
        reveal_strlit("validation_missing");
        assert("validation_failed"@.subrange(0, 11) =~= "validation_missing"@.subrange(0, 11));
        lemma_text_lt_at("validation_failed"@, "validation_missing"@, 11);
    } else if k == 43 {
        reveal_strlit("validation_missing");
        reveal_strlit("validation_stale");
        assert("validation_missing"@.subrange(0, 11) =~= "validation_stale"@.subrange(0, 11));
        lemma_text_lt_at("validation_missing"@, "validation_stale"@, 11);
    }
}

/// The code of each position comes before the code of the next one in
/// the order of `str`.
proof fn lemma_next_code_follows(k: nat)
    requires
        k < 44,
    ensures
        text_lt(LiveBlockingReason::of_rank(k).text(), LiveBlockingReason::of_rank(k + 1).text()),
{
    if k < 11 {
        lemma_codes_ascend_from_0(k);
    } else if k < 22 {
        lemma_codes_ascend_from_11(k);
    } else if k < 33 {
        lemma_codes_ascend_from_22(k);
    } else if k < 44 {
        lemma_codes_ascend_from_33(k);
    }
}

/// Codes at lower positions come first in the order of `str`.
proof fn lemma_codes_ascend(i: nat, j: nat)
    requires
        i < j < 45,
    ensures
        text_lt(LiveBlockingReason::of_rank(i).text(), LiveBlockingReason::of_rank(j).text()),
    decreases j - i,
{
    lemma_next_code_follows(i);
    if i + 1 < j {
        lemma_codes_ascend(i + 1, j);
        lemma_text_order(
            LiveBlockingReason::of_rank(i).text(),
            LiveBlockingReason::of_rank((i + 1) as nat).text(),
            LiveBlockingReason::of_rank(j).text(),
        );
    }
}

/// The code order of blocking reasons is the order of `str` on their codes,
/// and no two reasons share a code: sorting reasons by code and dropping
/// repeats drops exactly the repeated reasons.
pub proof fn lemma_codes_follow_rank(a: LiveBlockingReason, b: LiveBlockingReason)
    ensures
        a.rank() < b.rank() <==> text_lt(a.text(), b.text()),
        a.text() == b.text() <==> a == b,
{
    lemma_rank_injective(a, b);
    lemma_rank_injective(b, a);
    lemma_text_order(a.text(), b.text(), a.text());
    lemma_text_order(b.text(), a.text(), b.text());
    if a.rank() < b.rank() {
        lemma_codes_ascend(a.rank(), b.rank());
    } else if b.rank() < a.rank() {
        lemma_codes_ascend(b.rank(), a.rank());
    }
}

} // verus!
