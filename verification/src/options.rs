//! Service options and the credentials that may come from the environment.

use vstd::prelude::*;

use crate::live::{LiveCredentialSecret, LiveEnvironment};
use crate::mainnet_auto::MainnetAutoConfig;

verus! {

/// An API key and secret that may each be given or missing.
#[derive(Clone)]
pub struct EnvCredentialPair {
    pub api_key: Option<String>,
    pub api_secret: Option<String>,
}

impl Default for EnvCredentialPair {
    /// Neither part given.
    fn default() -> (p: EnvCredentialPair)
        ensures
            p.api_key is None,
            p.api_secret is None,
    {
        EnvCredentialPair { api_key: None, api_secret: None }
    }
}

impl EnvCredentialPair {
    /// Whether exactly one of the key and the secret is given.
    pub fn is_partial(&self) -> (b: bool)
        ensures
            b == (self.api_key is Some != self.api_secret is Some),
    {
        match (&self.api_key, &self.api_secret) {
            (Some(_), None) => true,
            (None, Some(_)) => true,
            _ => false,
        }
    }

    /// `complete`, `missing` or `partial`: what may be logged about the
    /// pair without showing it.
    pub fn redacted_state(&self) -> (s: &'static str)
        ensures
            s@ == if self.api_key is Some && self.api_secret is Some {
                "complete"@
            } else if self.api_key is None && self.api_secret is None {
                "missing"@
            } else {
                "partial"@
            },
    {
        match (&self.api_key, &self.api_secret) {
            (Some(_), Some(_)) => "complete",
            (None, None) => "missing",
            _ => "partial",
        }
    }

    /// The credential secret, when both parts are given.
    pub fn secret(&self) -> (s: Option<LiveCredentialSecret>)
        ensures
            match (self.api_key, self.api_secret) {
                (Some(k), Some(x)) => s is Some && s->0.api_key@ == k@ && s->0.api_secret@ == x@,
                _ => s is None,
            },
    {
        match (&self.api_key, &self.api_secret) {
            (Some(k), Some(x)) => Some(LiveCredentialSecret { api_key: k.clone(), api_secret: x.clone() }),
            _ => None,
        }
    }
}

/// Credentials read from the process environment, one pair per exchange
/// environment.
#[derive(Clone)]
pub struct EnvCredentialConfig {
    pub enabled: bool,
    pub authoritative: bool,
    pub testnet: EnvCredentialPair,
    pub mainnet: EnvCredentialPair,
}

impl Default for EnvCredentialConfig {
    /// Disabled, with no credentials.
    fn default() -> (c: EnvCredentialConfig)
        ensures
            !c.enabled,
            !c.authoritative,
            c.testnet.api_key is None && c.testnet.api_secret is None,
            c.mainnet.api_key is None && c.mainnet.api_secret is None,
    {
        EnvCredentialConfig {
            enabled: false,
            authoritative: false,
            testnet: EnvCredentialPair::default(),
            mainnet: EnvCredentialPair::default(),
        }
    }
}

impl EnvCredentialConfig {
    /// The pair for an environment.
    pub open spec fn pair_for(self, environment: LiveEnvironment) -> EnvCredentialPair {
        match environment {
            LiveEnvironment::Testnet => self.testnet,
            LiveEnvironment::Mainnet => self.mainnet,
        }
    }

    /// The pair for an environment.
    pub fn pair(&self, environment: LiveEnvironment) -> (p: &EnvCredentialPair)
        ensures
            *p == self.pair_for(environment),
    {
        match environment {
            LiveEnvironment::Testnet => &self.testnet,
            LiveEnvironment::Mainnet => &self.mainnet,
        }
    }

    /// The complete secret for an environment, if both parts are given.
    pub fn secret_for(&self, environment: LiveEnvironment) -> (s: Option<LiveCredentialSecret>)
        ensures
            match (self.pair_for(environment).api_key, self.pair_for(environment).api_secret) {
                (Some(k), Some(x)) => s is Some && s->0.api_key@ == k@ && s->0.api_secret@ == x@,
                _ => s is None,
            },
    {
        self.pair(environment).secret()
    }
}

/// Limits and switches of the application service.
#[derive(Clone)]
pub struct ServiceOptions {
    pub history_limit: usize,
    pub recent_signals_limit: usize,
    pub recent_trades_limit: usize,
    pub recent_logs_limit: usize,
    pub recovery_limit: usize,
    pub auto_start: bool,
    pub live_validation_ttl_ms: i64,
    pub live_snapshot_stale_ms: i64,
    pub live_shadow_stale_ms: i64,
    pub recent_preflight_limit: usize,
    pub recent_live_order_limit: usize,
    pub recent_live_fill_limit: usize,
    pub live_intent_ttl_ms: i64,
    pub enable_mainnet_canary_execution: bool,
    pub enable_testnet_drill_helpers: bool,
    pub env_credentials: EnvCredentialConfig,
    pub mainnet_auto_config: MainnetAutoConfig,
    pub live_user_stream_forced_reconnect_ms: i64,
    pub live_repair_recent_window_limit: usize,
}

impl Default for ServiceOptions {
    /// 500 candles of history, 200 recent signals, trades and logs, 64
    /// recovery candles, auto start, a day's validation TTL, five minutes
    /// before snapshots and 90 s before the shadow go stale, 50 preflights
    /// and orders, 100 fills, a 30 s intent TTL, the mainnet canary and the
    /// drill helpers off, no environment credentials, the default mainnet
    /// auto configuration, a daily forced user-stream reconnect and a
    /// 100-entry repair window.
    fn default() -> (o: ServiceOptions)
        ensures
            o.history_limit == 500,
            o.recent_signals_limit == 200,
            o.recent_trades_limit == 200,
            o.recent_logs_limit == 200,
            o.recovery_limit == 64,
            o.auto_start,
            o.live_validation_ttl_ms == 86_400_000,
            o.live_snapshot_stale_ms == 300_000,
            o.live_shadow_stale_ms == 90_000,
            o.recent_preflight_limit == 50,
            o.recent_live_order_limit == 50,
            o.recent_live_fill_limit == 100,
            o.live_intent_ttl_ms == 30_000,
            !o.enable_mainnet_canary_execution,
            !o.enable_testnet_drill_helpers,
            !o.env_credentials.enabled,
            !o.env_credentials.authoritative,
            !o.mainnet_auto_config.enable_live_execution,
            o.live_user_stream_forced_reconnect_ms == 86_400_000,
            o.live_repair_recent_window_limit == 100,
    {
        ServiceOptions {
            history_limit: 500,
            recent_signals_limit: 200,
            recent_trades_limit: 200,
            recent_logs_limit: 200,
            recovery_limit: 64,
            auto_start: true,
            live_validation_ttl_ms: 24 * 60 * 60 * 1_000,
            live_snapshot_stale_ms: 5 * 60 * 1_000,
            live_shadow_stale_ms: 90_000,
            recent_preflight_limit: 50,
            recent_live_order_limit: 50,
            recent_live_fill_limit: 100,
            live_intent_ttl_ms: 30_000,
            enable_mainnet_canary_execution: false,
            enable_testnet_drill_helpers: false,
            env_credentials: EnvCredentialConfig::default(),
            mainnet_auto_config: MainnetAutoConfig::default(),
            live_user_stream_forced_reconnect_ms: 24 * 60 * 60 * 1_000,
            live_repair_recent_window_limit: 100,
        }
    }
}

} // verus!
