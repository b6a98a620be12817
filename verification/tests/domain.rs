use relxen::decimal::{decimal_to_exchange_string, decimal_to_string, quantize_down, try_quantize_down};
use relxen::intent::quantize_price;
use relxen::live::LiveMarginType;
use relxen::mainnet_auto::{
    AsoPositionPolicy, MainnetAutoAllowedMarginType, MainnetAutoConfig, MainnetAutoDesiredSide,
    MainnetAutoPolicyAction,
};
use relxen::orders::LiveOrderSide;
use relxen::policy::{decide_aso_position, AsoComparison, AsoPolicyOutcome};

/// The comparisons of a reading with the thresholds, as the float adapter
/// makes them: `None` for a missing or non-finite reading.
fn compare(bulls: Option<f64>, bears: Option<f64>, delta_threshold: f64, zone_threshold: f64) -> Option<AsoComparison> {
    let bulls = bulls?;
    let bears = bears?;
    if !(bulls.is_finite() && bears.is_finite()) {
        return None;
    }
    let delta = (bulls - bears).abs();
    let zone = bulls.max(bears);
    Some(AsoComparison {
        bulls_exceed_bears: bulls > bears,
        bears_exceed_bulls: bears > bulls,
        delta_below_threshold: delta < delta_threshold,
        zone_below_threshold: zone < zone_threshold,
    })
}

fn evaluate(
    policy: AsoPositionPolicy,
    bulls: Option<f64>,
    bears: Option<f64>,
    delta_threshold: f64,
    zone_threshold: f64,
    current_side: MainnetAutoDesiredSide,
) -> AsoPolicyOutcome {
    decide_aso_position(policy, compare(bulls, bears, delta_threshold, zone_threshold), current_side)
}

#[test]
fn mainnet_auto_default_position_policy_is_crossover_only() {
    assert_eq!(MainnetAutoConfig::default().position_policy, AsoPositionPolicy::CrossoverOnly);
}

#[test]
fn margin_policy_allows_only_explicit_margin_type() {
    assert!(MainnetAutoAllowedMarginType::Isolated.allows(LiveMarginType::Isolated));
    assert!(!MainnetAutoAllowedMarginType::Isolated.allows(LiveMarginType::Cross));
    assert!(MainnetAutoAllowedMarginType::Cross.allows(LiveMarginType::Cross));
    assert!(MainnetAutoAllowedMarginType::Any.allows(LiveMarginType::Cross));
    assert!(MainnetAutoAllowedMarginType::Any.allows(LiveMarginType::Isolated));
    assert!(!MainnetAutoAllowedMarginType::Any.allows(LiveMarginType::Unknown));
}

#[test]
fn always_in_market_chooses_long_when_bulls_exceed_bears() {
    let decision = evaluate(
        AsoPositionPolicy::AlwaysInMarket,
        Some(60.0),
        Some(40.0),
        5.0,
        55.0,
        MainnetAutoDesiredSide::NoSide,
    );
    assert_eq!(decision.desired_side, MainnetAutoDesiredSide::Long);
    assert_eq!(decision.action, MainnetAutoPolicyAction::EnterLong);
}

#[test]
fn always_in_market_chooses_short_when_bears_exceed_bulls() {
    let decision = evaluate(
        AsoPositionPolicy::AlwaysInMarket,
        Some(35.0),
        Some(65.0),
        5.0,
        55.0,
        MainnetAutoDesiredSide::NoSide,
    );
    assert_eq!(decision.desired_side, MainnetAutoDesiredSide::Short);
    assert_eq!(decision.action, MainnetAutoPolicyAction::EnterShort);
}

#[test]
fn always_in_market_does_nothing_on_equal_or_invalid_aso_state() {
    let equal = evaluate(
        AsoPositionPolicy::AlwaysInMarket,
        Some(50.0),
        Some(50.0),
        5.0,
        55.0,
        MainnetAutoDesiredSide::NoSide,
    );
    assert_eq!(equal.desired_side, MainnetAutoDesiredSide::NoSide);
    assert_eq!(equal.action, MainnetAutoPolicyAction::NoTrade);

    let invalid = evaluate(
        AsoPositionPolicy::AlwaysInMarket,
        None,
        Some(50.0),
        5.0,
        55.0,
        MainnetAutoDesiredSide::NoSide,
    );
    assert_eq!(invalid.action, MainnetAutoPolicyAction::NoTrade);
    assert_eq!(invalid.blocker.as_deref(), Some("aso_state_invalid"));
}

#[test]
fn flat_allowed_blocks_weak_delta() {
    let decision = evaluate(
        AsoPositionPolicy::FlatAllowed,
        Some(52.0),
        Some(48.0),
        5.0,
        55.0,
        MainnetAutoDesiredSide::NoSide,
    );
    assert_eq!(decision.desired_side, MainnetAutoDesiredSide::NoSide);
    assert_eq!(decision.action, MainnetAutoPolicyAction::NoTrade);
    assert_eq!(decision.reason, "flat_allowed_delta_below_threshold");
}

#[test]
fn flat_allowed_allows_long_when_delta_and_zone_pass() {
    let decision = evaluate(
        AsoPositionPolicy::FlatAllowed,
        Some(62.0),
        Some(38.0),
        5.0,
        55.0,
        MainnetAutoDesiredSide::NoSide,
    );
    assert_eq!(decision.desired_side, MainnetAutoDesiredSide::Long);
    assert_eq!(decision.action, MainnetAutoPolicyAction::EnterLong);
}

#[test]
fn flat_allowed_allows_short_when_delta_and_zone_pass() {
    let decision = evaluate(
        AsoPositionPolicy::FlatAllowed,
        Some(35.0),
        Some(65.0),
        5.0,
        55.0,
        MainnetAutoDesiredSide::NoSide,
    );
    assert_eq!(decision.desired_side, MainnetAutoDesiredSide::Short);
    assert_eq!(decision.action, MainnetAutoPolicyAction::EnterShort);
}

#[test]
fn crossover_only_preserves_wait_for_signal_behavior() {
    let decision = evaluate(
        AsoPositionPolicy::CrossoverOnly,
        Some(65.0),
        Some(35.0),
        5.0,
        55.0,
        MainnetAutoDesiredSide::NoSide,
    );
    assert_eq!(decision.desired_side, MainnetAutoDesiredSide::NoSide);
    assert_eq!(decision.action, MainnetAutoPolicyAction::NoTrade);
}

#[test]
fn quantity_rounds_down_to_step() {
    assert_eq!(decimal_to_string(quantize_down((1234567, 8), (1, 3))), "0.012");
}

#[test]
fn price_rounds_by_side_to_tick() {
    assert_eq!(decimal_to_string(quantize_price((100054, 2), (1, 1), LiveOrderSide::Buy)), "1000.5");
    assert_eq!(decimal_to_string(quantize_price((100054, 2), (1, 1), LiveOrderSide::Sell)), "1000.6");
}

#[test]
fn policy_holds_open_position_when_no_side_is_desired() {
    let decision = evaluate(
        AsoPositionPolicy::FlatAllowed,
        Some(54.0),
        Some(40.0),
        5.0,
        55.0,
        MainnetAutoDesiredSide::Long,
    );
    assert_eq!(decision.desired_side, MainnetAutoDesiredSide::NoSide);
    assert_eq!(decision.action, MainnetAutoPolicyAction::Hold);
    assert_eq!(decision.reason, "flat_allowed_zone_below_threshold");
}

#[test]
fn policy_reverses_and_holds_against_current_side() {
    let reverse = evaluate(
        AsoPositionPolicy::AlwaysInMarket,
        Some(30.0),
        Some(70.0),
        5.0,
        55.0,
        MainnetAutoDesiredSide::Long,
    );
    assert_eq!(reverse.action, MainnetAutoPolicyAction::Reverse);
    assert_eq!(reverse.reason, "desired_side_differs_from_current_position");
    let hold = evaluate(
        AsoPositionPolicy::AlwaysInMarket,
        Some(30.0),
        Some(70.0),
        5.0,
        55.0,
        MainnetAutoDesiredSide::Short,
    );
    assert_eq!(hold.action, MainnetAutoPolicyAction::Hold);
    assert_eq!(hold.reason, "desired_side_matches_current_position");
}

#[test]
fn quantize_keeps_value_for_non_positive_step_and_reports_overflow() {
    assert_eq!(quantize_down((1234567, 8), (0, 0)), (1234567, 8));
    assert_eq!(try_quantize_down((79_228_162_514_264_337_593_543_950_335, 0), (1, 28)), None);
    assert_eq!(quantize_price((100054, 2), (-1, 1), LiveOrderSide::Sell), (100054, 2));
}

#[test]
fn decimal_text_forms() {
    assert_eq!(decimal_to_string((1234567, 8)), "0.01234567");
    assert_eq!(decimal_to_string((-5, 1)), "-0.5");
    assert_eq!(decimal_to_string((0, 2)), "0.00");
    assert_eq!(decimal_to_string((120, 0)), "120");
    assert_eq!(decimal_to_exchange_string((12000, 3)), "12");
    assert_eq!(decimal_to_exchange_string((12300, 4)), "1.23");
    assert_eq!(decimal_to_exchange_string((0, 5)), "0");
}
