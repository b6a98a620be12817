//! Verified core of the RelXen trading dashboard: market and live-trading
//! models, history-window planning, credential handling and the live
//! readiness and execution gates.

pub mod text;
pub mod market;
pub mod live;
pub mod orders;
pub mod mainnet_auto;
pub mod policy;
pub mod error;
pub mod options;
pub mod decimal;
pub mod execution;
pub mod canary;
pub mod readiness;
pub mod safety;
pub mod history;
pub mod credentials;
pub mod order_flow;
pub mod live_actions;
pub mod intent;
pub mod dry_run;
pub mod shadow_flow;
pub mod settings;
pub mod reference;
pub mod cancel_flow;
pub mod auto_flow;
pub mod preflight;
pub mod lessons;
pub mod credential_flow;
pub mod live_controls;
pub mod metadata;
pub mod connection_flow;
pub mod shadow_session;
pub mod runtime_flow;
pub mod evidence;
pub mod auto_session;
pub mod action_gates;
pub mod auto_signal;
pub mod readiness_flow;
