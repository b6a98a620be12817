//! What a readiness refresh reads before the status is built: nothing where
//! there is no credential or its validation failed, the exchange only for a
//! currently valid credential, and else the rules and account already held.

use vstd::prelude::*;

use crate::live::{LiveBlockingReason, LiveCredentialSummary, LiveCredentialValidationStatus, LiveEnvironment};
use crate::options::EnvCredentialConfig;
use crate::readiness::{validation_is_stale, validation_stale};
use crate::shadow_flow::{env_blockers, env_credential_blockers};

verus! {

/// What a readiness refresh does before building the status.
pub enum ReadinessFetch {
    /// Build the status at once with these extra reasons; neither the
    /// secure store nor the exchange is called.
    BuildNow(Vec<LiveBlockingReason>),
    /// Read the secret, then the symbol rules and the account from the
    /// exchange.
    FetchRemote,
    /// Build with the symbol rules and account already held, and these
    /// extra reasons.
    UseHeld(Vec<LiveBlockingReason>),
    /// Build without symbol rules or account, with these extra reasons.
    WithoutRemote(Vec<LiveBlockingReason>),
}

/// The extra reasons of a credential whose validation is not valid:
/// missing where it was never checked, else failed.
pub open spec fn validation_reason(status: LiveCredentialValidationStatus) -> LiveBlockingReason {
    if status == LiveCredentialValidationStatus::Unknown {
        LiveBlockingReason::ValidationMissing
    } else {
        LiveBlockingReason::ValidationFailed
    }
}

/// Decides what a refresh reads at `now_ms`:
/// - without a credential, build at once with no credential and the
///   reasons the environment's credentials give;
/// - with a credential whose validation is not valid, build at once with
///   that reason;
/// - with a stale validation, the validation counts as missing;
/// - the exchange is read only when asked for and nothing blocks;
/// - else the rules and account held are used where no remote read was
///   asked for, and none at all where one was asked for but blocked.
pub fn readiness_fetch_plan(
    credential: &Option<LiveCredentialSummary>,
    config: &EnvCredentialConfig,
    environment: LiveEnvironment,
    fetch_remote: bool,
    validation_ttl_ms: i64,
    now_ms: i64,
) -> (r: ReadinessFetch)
    ensures
        match *credential {
            None => r matches ReadinessFetch::BuildNow(v) && v@ == seq![LiveBlockingReason::NoActiveCredential] + env_blockers(
                *config,
                environment,
            ),
            Some(c) => if c.validation_status != LiveCredentialValidationStatus::Valid {
                r matches ReadinessFetch::BuildNow(v) && v@ == seq![validation_reason(c.validation_status)]
            } else {
                let stale = validation_stale(c, validation_ttl_ms, now_ms);
                let extra = if stale { seq![LiveBlockingReason::ValidationMissing] } else { Seq::empty() };
                if fetch_remote && !stale {
                    r is FetchRemote
                } else if !fetch_remote {
                    r matches ReadinessFetch::UseHeld(v) && v@ == extra
                } else {
                    r matches ReadinessFetch::WithoutRemote(v) && v@ == extra
                }
            },
        },
        r is FetchRemote ==> fetch_remote && credential is Some && credential->0.validation_status
            == LiveCredentialValidationStatus::Valid && !validation_stale(credential->0, validation_ttl_ms, now_ms),
{
    let c = match credential {
        None => {
            let mut v: Vec<LiveBlockingReason> = Vec::new();
            v.push(LiveBlockingReason::NoActiveCredential);
            let mut env = env_credential_blockers(config, environment);
            v.append(&mut env);
            assert(v@ =~= seq![LiveBlockingReason::NoActiveCredential] + env_blockers(*config, environment));
            return ReadinessFetch::BuildNow(v);
        },
        Some(c) => c,
    };
    if c.validation_status != LiveCredentialValidationStatus::Valid {
        let reason = if c.validation_status == LiveCredentialValidationStatus::Unknown {
            LiveBlockingReason::ValidationMissing
        } else {
            LiveBlockingReason::ValidationFailed
        };
        let mut v: Vec<LiveBlockingReason> = Vec::new();
        v.push(reason);
        assert(v@ =~= seq![validation_reason(c.validation_status)]);
        return ReadinessFetch::BuildNow(v);
    }
    let stale = validation_is_stale(c, validation_ttl_ms, now_ms);
    let mut extra: Vec<LiveBlockingReason> = Vec::new();
    if stale {
        extra.push(LiveBlockingReason::ValidationMissing);
    }
    assert(extra@ =~= (if stale { seq![LiveBlockingReason::ValidationMissing] } else { Seq::empty() }));
    if fetch_remote && !stale {
        ReadinessFetch::FetchRemote
    } else if !fetch_remote {
        ReadinessFetch::UseHeld(extra)
    } else {
        ReadinessFetch::WithoutRemote(extra)
    }
}

/// The extra reasons once the data is gathered: the symbol rules missing,
/// then the account snapshot missing, after the reasons already found.
pub fn missing_data_blockers(extra: Vec<LiveBlockingReason>, rules_present: bool, account_present: bool) -> (v: Vec<
    LiveBlockingReason,
>)
    ensures
        v@ == extra@ + (if rules_present { Seq::empty() } else { seq![LiveBlockingReason::SymbolRulesMissing] }) + (
        if account_present {
            Seq::empty()
        } else {
            seq![LiveBlockingReason::AccountSnapshotMissing]
        }),
{
    let mut v = extra;
    let ghost start = v@;
    if !rules_present {
        v.push(LiveBlockingReason::SymbolRulesMissing);
    }
    let ghost mid = v@;
    if !account_present {
        v.push(LiveBlockingReason::AccountSnapshotMissing);
    }
    assert(v@ =~= start + (if rules_present { Seq::empty() } else { seq![LiveBlockingReason::SymbolRulesMissing] }) + (
    if account_present {
        Seq::<LiveBlockingReason>::empty()
    } else {
        seq![LiveBlockingReason::AccountSnapshotMissing]
    }));
    v
}

} // verus!
