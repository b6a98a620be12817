//! The manual mainnet canary: its gates and the confirmation phrase the
//! operator must type.

use vstd::prelude::*;

use crate::live::{LiveBlockingReason, LiveEnvironment, contains_reason};
use crate::orders::{LiveExecutionSnapshot, LiveMainnetCanaryStatus, LiveOrderIntent, LiveOrderPreview, LiveOrderType, LiveRiskProfile};
use crate::text::{append_str, concat_str};

verus! {

/// The phrase that confirms a mainnet order:
/// `SUBMIT MAINNET <side> LIMIT <symbol> <quantity> @ <price>` for a priced
/// limit order, `SUBMIT MAINNET <side> MARKET <symbol> <quantity>`
/// otherwise.
pub open spec fn confirmation_phrase(intent: LiveOrderIntent) -> Seq<char> {
    match (intent.order_type, intent.price) {
        (LiveOrderType::Limit, Some(price)) => "SUBMIT MAINNET "@ + intent.side.text() + " LIMIT "@
            + intent.symbol.text() + " "@ + intent.quantity@ + " @ "@ + price@,
        _ => "SUBMIT MAINNET "@ + intent.side.text() + " MARKET "@ + intent.symbol.text() + " "@
            + intent.quantity@,
    }
}

/// The phrase that confirms a mainnet order.
pub fn mainnet_confirmation_phrase(intent: &LiveOrderIntent) -> (s: String)
    ensures
        s@ == confirmation_phrase(*intent),
{
    let mut s = concat_str("SUBMIT MAINNET ", intent.side.as_binance());
    match (intent.order_type, &intent.price) {
        (LiveOrderType::Limit, Some(price)) => {
            append_str(&mut s, " LIMIT ");
            append_str(&mut s, intent.symbol.as_str());
            append_str(&mut s, " ");
            append_str(&mut s, intent.quantity.as_str());
            append_str(&mut s, " @ ");
            append_str(&mut s, price.as_str());
        },
        _ => {
            append_str(&mut s, " MARKET ");
            append_str(&mut s, intent.symbol.as_str());
            append_str(&mut s, " ");
            append_str(&mut s, intent.quantity.as_str());
        },
    }
    s
}

/// `acc` followed by the elements of `rest` that it does not yet hold, in
/// order, each once.
pub open spec fn append_missing(acc: Seq<LiveBlockingReason>, rest: Seq<LiveBlockingReason>) -> Seq<LiveBlockingReason>
    decreases rest.len(),
{
    if rest.len() == 0 {
        acc
    } else {
        append_missing(
            if acc.contains(rest[0]) {
                acc
            } else {
                acc.push(rest[0])
            },
            rest.drop_first(),
        )
    }
}

/// The reasons that block the canary: not on mainnet, disabled by the
/// server, no risk profile, then those of the execution gates not yet
/// listed.
pub open spec fn canary_blocks(
    environment: LiveEnvironment,
    enabled_by_server: bool,
    risk_configured: bool,
    execution_blocks: Seq<LiveBlockingReason>,
) -> Seq<LiveBlockingReason> {
    append_missing(
        (if environment != LiveEnvironment::Mainnet {
            seq![LiveBlockingReason::MainnetExecutionBlocked]
        } else {
            Seq::empty()
        }) + (if !enabled_by_server {
            seq![LiveBlockingReason::MainnetCanaryDisabled]
        } else {
            Seq::empty()
        }) + (if !risk_configured {
            seq![LiveBlockingReason::MainnetCanaryRiskProfileMissing]
        } else {
            Seq::empty()
        }),
        execution_blocks,
    )
}

/// The confirmation phrase the preview requires: that of its intent when
/// the intent is for mainnet.
pub open spec fn required_confirmation_for(preview: Option<LiveOrderPreview>) -> Option<Seq<char>> {
    match preview {
        Some(p) => match p.intent {
            Some(i) => if i.environment == LiveEnvironment::Mainnet {
                Some(confirmation_phrase(i))
            } else {
                None
            },
            None => None,
        },
        None => None,
    }
}

/// The gates of the manual mainnet canary. It is ready, and manual
/// execution enabled, only on mainnet, with the server switch on, a
/// configured risk profile, execution gates that allow submitting and a
/// mainnet intent to confirm.
pub fn build_mainnet_canary_status(
    environment: LiveEnvironment,
    enabled_by_server: bool,
    risk_profile: &LiveRiskProfile,
    execution: &LiveExecutionSnapshot,
    intent_preview: &Option<LiveOrderPreview>,
    updated_at: i64,
) -> (s: LiveMainnetCanaryStatus)
    ensures
        s.enabled_by_server == enabled_by_server,
        s.risk_profile_configured == risk_profile.configured,
        s.canary_ready == (environment == LiveEnvironment::Mainnet && enabled_by_server
            && risk_profile.configured && execution.can_submit
            && required_confirmation_for(*intent_preview) is Some),
        s.manual_execution_enabled == s.canary_ready,
        match required_confirmation_for(*intent_preview) {
            Some(t) => s.required_confirmation is Some && s.required_confirmation->0@ == t,
            None => s.required_confirmation is None,
        },
        s.blocking_reasons@ == canary_blocks(
            environment,
            enabled_by_server,
            risk_profile.configured,
            execution.blocking_reasons@,
        ),
        s.updated_at == updated_at,
{
    let mut blocking: Vec<LiveBlockingReason> = Vec::new();
    if environment != LiveEnvironment::Mainnet {
        blocking.push(LiveBlockingReason::MainnetExecutionBlocked);
    }
    if !enabled_by_server {
        blocking.push(LiveBlockingReason::MainnetCanaryDisabled);
    }
    if !risk_profile.configured {
        blocking.push(LiveBlockingReason::MainnetCanaryRiskProfileMissing);
    }
    let ghost base = blocking@;
    assert(base =~= (if environment != LiveEnvironment::Mainnet {
        seq![LiveBlockingReason::MainnetExecutionBlocked]
    } else {
        Seq::empty()
    }) + (if !enabled_by_server {
        seq![LiveBlockingReason::MainnetCanaryDisabled]
    } else {
        Seq::empty()
    }) + (if !risk_profile.configured {
        seq![LiveBlockingReason::MainnetCanaryRiskProfileMissing]
    } else {
        Seq::empty()
    }));
    let ghost rest_all = execution.blocking_reasons@;
    assert(rest_all.subrange(0, rest_all.len() as int) =~= rest_all);
    let mut i: usize = 0;
    while i < execution.blocking_reasons.len()
        invariant
            i <= rest_all.len(),
            rest_all == execution.blocking_reasons@,
            append_missing(blocking@, rest_all.subrange(i as int, rest_all.len() as int))
                == append_missing(base, rest_all),
        decreases execution.blocking_reasons.len() - i,
    {
        let r = execution.blocking_reasons[i];
        let ghost rest = rest_all.subrange(i as int, rest_all.len() as int);
        assert(rest[0] == r);
        assert(rest.drop_first() =~= rest_all.subrange(i + 1, rest_all.len() as int));
        if !contains_reason(&blocking, r) {
            blocking.push(r);
        }
        i = i + 1;
    }
    assert(rest_all.subrange(i as int, rest_all.len() as int) =~= Seq::<LiveBlockingReason>::empty());
    let required_confirmation = match intent_preview {
        Some(preview) => match &preview.intent {
            Some(intent) => {
                if intent.environment == LiveEnvironment::Mainnet {
                    Some(mainnet_confirmation_phrase(intent))
                } else {
                    None
                }
            },
            None => None,
        },
        None => None,
    };
    let canary_ready = environment == LiveEnvironment::Mainnet && enabled_by_server
        && risk_profile.configured && execution.can_submit && required_confirmation.is_some();
    LiveMainnetCanaryStatus {
        enabled_by_server,
        risk_profile_configured: risk_profile.configured,
        canary_ready,
        manual_execution_enabled: canary_ready,
        required_confirmation,
        blocking_reasons: blocking,
        updated_at,
    }
}

} // verus!
