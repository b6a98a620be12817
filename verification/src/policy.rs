//! The ASO position policy of mainnet auto: from the oscillator's reading
//! and the current position to a desired side and an action.
//!
//! The oscillator values are floating point; callers compare them and hand
//! over only the outcomes of the comparisons, which is all the decision
//! reads.

use vstd::prelude::*;

use crate::mainnet_auto::{AsoPositionPolicy, MainnetAutoDesiredSide, MainnetAutoPolicyAction};

verus! {

/// The comparisons of one finite (bulls, bears) oscillator reading with
/// each other and with the policy thresholds.
#[derive(Debug, Clone, Copy, PartialEq, Eq, Structural)]
pub struct AsoComparison {
    /// `bulls > bears`.
    pub bulls_exceed_bears: bool,
    /// `bears > bulls`.
    pub bears_exceed_bulls: bool,
    /// `|bulls - bears|` is below the delta threshold.
    pub delta_below_threshold: bool,
    /// `max(bulls, bears)` is below the zone threshold.
    pub zone_below_threshold: bool,
}

/// What the position policy decided.
#[derive(Debug, Clone, PartialEq, Eq)]
pub struct AsoPolicyOutcome {
    pub desired_side: MainnetAutoDesiredSide,
    pub action: MainnetAutoPolicyAction,
    pub blocker: Option<String>,
    pub reason: String,
}

/// The side the oscillator favours: long when bulls exceed bears, short
/// when bears exceed bulls, none when they are equal.
pub open spec fn side_from_state(c: AsoComparison) -> MainnetAutoDesiredSide {
    if c.bulls_exceed_bears {
        MainnetAutoDesiredSide::Long
    } else if c.bears_exceed_bulls {
        MainnetAutoDesiredSide::Short
    } else {
        MainnetAutoDesiredSide::NoSide
    }
}

/// The side a policy wants for a valid reading.
pub open spec fn desired_for(policy: AsoPositionPolicy, c: AsoComparison) -> MainnetAutoDesiredSide {
    match policy {
        AsoPositionPolicy::CrossoverOnly => MainnetAutoDesiredSide::NoSide,
        AsoPositionPolicy::AlwaysInMarket => side_from_state(c),
        AsoPositionPolicy::FlatAllowed => if c.delta_below_threshold || c.zone_below_threshold {
            MainnetAutoDesiredSide::NoSide
        } else {
            side_from_state(c)
        },
    }
}

/// The action that moves the current position to a desired side other
/// than none: enter from flat, hold when it already matches, reverse
/// otherwise.
pub open spec fn action_toward(
    current: MainnetAutoDesiredSide,
    desired: MainnetAutoDesiredSide,
) -> MainnetAutoPolicyAction {
    if current == MainnetAutoDesiredSide::NoSide && desired == MainnetAutoDesiredSide::Long {
        MainnetAutoPolicyAction::EnterLong
    } else if current == MainnetAutoDesiredSide::NoSide && desired == MainnetAutoDesiredSide::Short {
        MainnetAutoPolicyAction::EnterShort
    } else if current == desired {
        MainnetAutoPolicyAction::Hold
    } else {
        MainnetAutoPolicyAction::Reverse
    }
}

/// The reason code for an action chosen toward a desired side.
pub open spec fn action_reason(action: MainnetAutoPolicyAction) -> Seq<char> {
    match action {
        MainnetAutoPolicyAction::EnterLong => "desired_long_from_aso_state"@,
        MainnetAutoPolicyAction::EnterShort => "desired_short_from_aso_state"@,
        MainnetAutoPolicyAction::Hold => "desired_side_matches_current_position"@,
        MainnetAutoPolicyAction::Reverse => "desired_side_differs_from_current_position"@,
        _ => "no_trade"@,
    }
}

/// The reason code when a valid reading desires no side.
pub open spec fn no_side_reason(policy: AsoPositionPolicy, c: AsoComparison) -> Seq<char> {
    match policy {
        AsoPositionPolicy::AlwaysInMarket => "aso_state_equal_or_ambiguous"@,
        AsoPositionPolicy::FlatAllowed => if c.delta_below_threshold {
            "flat_allowed_delta_below_threshold"@
        } else {
            "flat_allowed_zone_below_threshold"@
        },
        AsoPositionPolicy::CrossoverOnly => "crossover_only_waits_for_new_closed_candle_cross"@,
    }
}

/// The decision of the position policy: `(desired side, action, blocker,
/// reason)`. Crossover-only never trades on the oscillator state; a missing
/// or non-finite reading (`None`) is blocked as `aso_state_invalid`; a
/// reading that desires no side holds an open position and does nothing
/// when flat.
pub open spec fn policy_decision(
    policy: AsoPositionPolicy,
    reading: Option<AsoComparison>,
    current: MainnetAutoDesiredSide,
) -> (MainnetAutoDesiredSide, MainnetAutoPolicyAction, Option<Seq<char>>, Seq<char>) {
    if policy == AsoPositionPolicy::CrossoverOnly {
        (
            MainnetAutoDesiredSide::NoSide,
            MainnetAutoPolicyAction::NoTrade,
            None,
            "crossover_only_waits_for_new_closed_candle_cross"@,
        )
    } else {
        match reading {
            None => (
                MainnetAutoDesiredSide::NoSide,
                MainnetAutoPolicyAction::NoTrade,
                Some("aso_state_invalid"@),
                "aso_state_invalid"@,
            ),
            Some(c) => {
                let desired = desired_for(policy, c);
                if desired == MainnetAutoDesiredSide::NoSide {
                    (
                        desired,
                        if current == MainnetAutoDesiredSide::NoSide {
                            MainnetAutoPolicyAction::NoTrade
                        } else {
                            MainnetAutoPolicyAction::Hold
                        },
                        None,
                        no_side_reason(policy, c),
                    )
                } else {
                    let action = action_toward(current, desired);
                    (desired, action, None, action_reason(action))
                }
            },
        }
    }
}

/// Whether an outcome is the policy decision for the given inputs.
pub open spec fn outcome_matches(
    o: AsoPolicyOutcome,
    policy: AsoPositionPolicy,
    reading: Option<AsoComparison>,
    current: MainnetAutoDesiredSide,
) -> bool {
    let d = policy_decision(policy, reading, current);
    &&& o.desired_side == d.0
    &&& o.action == d.1
    &&& match d.2 {
        Some(b) => o.blocker is Some && o.blocker->0@ == b,
        None => o.blocker is None,
    }
    &&& o.reason@ == d.3
}

fn side_from_comparison(c: AsoComparison) -> (d: MainnetAutoDesiredSide)
    ensures
        d == side_from_state(c),
{
    if c.bulls_exceed_bears {
        MainnetAutoDesiredSide::Long
    } else if c.bears_exceed_bulls {
        MainnetAutoDesiredSide::Short
    } else {
        MainnetAutoDesiredSide::NoSide
    }
}

/// Decides the desired side and action for the current position.
pub fn decide_aso_position(
    policy: AsoPositionPolicy,
    reading: Option<AsoComparison>,
    current_side: MainnetAutoDesiredSide,
) -> (o: AsoPolicyOutcome)
    ensures
        outcome_matches(o, policy, reading, current_side),
{
    if policy == AsoPositionPolicy::CrossoverOnly {
        return AsoPolicyOutcome {
            desired_side: MainnetAutoDesiredSide::NoSide,
            action: MainnetAutoPolicyAction::NoTrade,
            blocker: None,
            reason: String::from_str("crossover_only_waits_for_new_closed_candle_cross"),
        };
    }
    let c = match reading {
        None => {
            return AsoPolicyOutcome {
                desired_side: MainnetAutoDesiredSide::NoSide,
                action: MainnetAutoPolicyAction::NoTrade,
                blocker: Some(String::from_str("aso_state_invalid")),
                reason: String::from_str("aso_state_invalid"),
            };
        },
        Some(c) => c,
    };
    let desired = match policy {
        AsoPositionPolicy::CrossoverOnly => MainnetAutoDesiredSide::NoSide,
        AsoPositionPolicy::AlwaysInMarket => side_from_comparison(c),
        AsoPositionPolicy::FlatAllowed => {
            if c.delta_below_threshold || c.zone_below_threshold {
                MainnetAutoDesiredSide::NoSide
            } else {
                side_from_comparison(c)
            }
        },
    };
    if desired == MainnetAutoDesiredSide::NoSide {
        let action = if current_side == MainnetAutoDesiredSide::NoSide {
            MainnetAutoPolicyAction::NoTrade
        } else {
            MainnetAutoPolicyAction::Hold
        };
        let reason = match policy {
            AsoPositionPolicy::AlwaysInMarket => String::from_str("aso_state_equal_or_ambiguous"),
            AsoPositionPolicy::FlatAllowed => {
                if c.delta_below_threshold {
                    String::from_str("flat_allowed_delta_below_threshold")
                } else {
                    String::from_str("flat_allowed_zone_below_threshold")
                }
            },
            AsoPositionPolicy::CrossoverOnly => String::from_str(
                "crossover_only_waits_for_new_closed_candle_cross",
            ),
        };
        return AsoPolicyOutcome { desired_side: desired, action, blocker: None, reason };
    }
    let action = if current_side == MainnetAutoDesiredSide::NoSide
        && desired == MainnetAutoDesiredSide::Long {
        MainnetAutoPolicyAction::EnterLong
    } else if current_side == MainnetAutoDesiredSide::NoSide
        && desired == MainnetAutoDesiredSide::Short {
        MainnetAutoPolicyAction::EnterShort
    } else if current_side == desired {
        MainnetAutoPolicyAction::Hold
    } else {
        MainnetAutoPolicyAction::Reverse
    };
    let reason = match action {
        MainnetAutoPolicyAction::EnterLong => String::from_str("desired_long_from_aso_state"),
        MainnetAutoPolicyAction::EnterShort => String::from_str("desired_short_from_aso_state"),
        MainnetAutoPolicyAction::Hold => String::from_str("desired_side_matches_current_position"),
        MainnetAutoPolicyAction::Reverse => String::from_str(
            "desired_side_differs_from_current_position",
        ),
        _ => String::from_str("no_trade"),
    };
    AsoPolicyOutcome { desired_side: desired, action, blocker: None, reason }
}

/// The position policy never opens, reverses or closes a position unless
/// the reading is valid and the policy trades on the oscillator state; it
/// enters only from flat, reverses only from the opposite side, and holds
/// only a position it already has.
pub proof fn lemma_policy_actions_are_consistent(
    policy: AsoPositionPolicy,
    reading: Option<AsoComparison>,
    current: MainnetAutoDesiredSide,
)
    ensures
        ({
            let d = policy_decision(policy, reading, current);
            &&& (policy == AsoPositionPolicy::CrossoverOnly || reading is None)
                ==> d.1 == MainnetAutoPolicyAction::NoTrade && d.0 == MainnetAutoDesiredSide::NoSide
            &&& (d.1 == MainnetAutoPolicyAction::EnterLong || d.1 == MainnetAutoPolicyAction::EnterShort)
                ==> current == MainnetAutoDesiredSide::NoSide
            &&& d.1 == MainnetAutoPolicyAction::EnterLong ==> d.0 == MainnetAutoDesiredSide::Long
            &&& d.1 == MainnetAutoPolicyAction::EnterShort ==> d.0 == MainnetAutoDesiredSide::Short
            &&& d.1 == MainnetAutoPolicyAction::Reverse ==> current != MainnetAutoDesiredSide::NoSide
                && d.0 != MainnetAutoDesiredSide::NoSide && d.0 != current
            &&& d.1 == MainnetAutoPolicyAction::Hold ==> current != MainnetAutoDesiredSide::NoSide
            &&& d.1 != MainnetAutoPolicyAction::Close && d.1 != MainnetAutoPolicyAction::Blocked
        }),
{
}


/// Under the flat-allowed policy, a valid reading whose delta or zone is
/// below its threshold wants no side and never opens or reverses a
/// position: it does nothing when flat and holds an open position, and
/// names the delta where that is below its threshold, else the zone.
pub proof fn lemma_flat_allowed_stays_out_below_thresholds(c: AsoComparison, current: MainnetAutoDesiredSide)
    requires
        c.delta_below_threshold || c.zone_below_threshold,
    ensures
        ({
            let d = policy_decision(AsoPositionPolicy::FlatAllowed, Some(c), current);
            &&& d.0 == MainnetAutoDesiredSide::NoSide
            &&& d.1 != MainnetAutoPolicyAction::EnterLong
            &&& d.1 != MainnetAutoPolicyAction::EnterShort
            &&& d.1 != MainnetAutoPolicyAction::Reverse
            &&& d.1 == (if current == MainnetAutoDesiredSide::NoSide {
                MainnetAutoPolicyAction::NoTrade
            } else {
                MainnetAutoPolicyAction::Hold
            })
            &&& d.2 is None
            &&& d.3 == (if c.delta_below_threshold {
                "flat_allowed_delta_below_threshold"@
            } else {
                "flat_allowed_zone_below_threshold"@
            })
        }),
{
}


/// A policy that trades on the oscillator state follows the stronger
/// side of a valid reading (always-in-market always, flat-allowed where
/// neither delta nor zone is below its threshold): long where bulls
/// exceed bears, short where bears exceed bulls; it enters from flat,
/// holds the side it already has, and reverses the other one.
pub proof fn lemma_trading_policy_follows_stronger_side(
    policy: AsoPositionPolicy,
    c: AsoComparison,
    current: MainnetAutoDesiredSide,
)
    requires
        policy == AsoPositionPolicy::AlwaysInMarket || (policy == AsoPositionPolicy::FlatAllowed
            && !c.delta_below_threshold && !c.zone_below_threshold),
    ensures
        ({
            let d = policy_decision(policy, Some(c), current);
            let want = if c.bulls_exceed_bears {
                MainnetAutoDesiredSide::Long
            } else if c.bears_exceed_bulls {
                MainnetAutoDesiredSide::Short
            } else {
                MainnetAutoDesiredSide::NoSide
            };
            &&& d.0 == want
            &&& d.2 is None
            &&& want != MainnetAutoDesiredSide::NoSide ==> d.1 == (if current == MainnetAutoDesiredSide::NoSide {
                if want == MainnetAutoDesiredSide::Long {
                    MainnetAutoPolicyAction::EnterLong
                } else {
                    MainnetAutoPolicyAction::EnterShort
                }
            } else if current == want {
                MainnetAutoPolicyAction::Hold
            } else {
                MainnetAutoPolicyAction::Reverse
            })
            &&& want == MainnetAutoDesiredSide::NoSide ==> d.1 == (if current == MainnetAutoDesiredSide::NoSide {
                MainnetAutoPolicyAction::NoTrade
            } else {
                MainnetAutoPolicyAction::Hold
            })
        }),
{
}

} // verus!
