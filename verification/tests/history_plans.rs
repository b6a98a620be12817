use relxen::history::{
    build_history_load_plan, history_window_ending_at, is_contiguous_closed_window, latest_closed_open_time,
    merge_candles, plan_recovery, recovery_context_required, select_closed_window, validate_closed_window,
    CandleKey, HistoryWindow, KlineRangeRequest,
};
use relxen::market::{AsoMode, Symbol, Timeframe};

const MIN: i64 = 60_000;

fn key(open_time: i64, closed: bool) -> CandleKey {
    CandleKey { symbol: Symbol::BtcUsdt, timeframe: Timeframe::M1, open_time, closed }
}

fn window(start: i64, end: i64, n: usize) -> HistoryWindow {
    HistoryWindow { start_open_time: start, end_open_time: end, expected_closed_candles: n }
}

#[test]
fn latest_closed_candle_is_one_step_before_the_current_one() {
    // At 10:00:30 on the minute chart the candle opened at 10:00 is still
    // running, so the last closed one opened at 9:59.
    let now = 600 * MIN + 30_000;
    assert_eq!(latest_closed_open_time(Timeframe::M1, now), 599 * MIN);
    assert_eq!(latest_closed_open_time(Timeframe::M5, 3_600_000 + 1), 3_300_000);
}

#[test]
fn window_ends_at_the_requested_candle() {
    let w = history_window_ending_at(Timeframe::M1, 10 * MIN, 3);
    assert_eq!(w, window(8 * MIN, 10 * MIN, 3));
    // A request for no candles still asks for one.
    let w = history_window_ending_at(Timeframe::M5, 3_000_000, 0);
    assert_eq!(w, window(3_000_000, 3_000_000, 1));
}

#[test]
fn selection_sorts_dedups_and_filters_the_window() {
    let candles = vec![
        key(3 * MIN, true),
        key(MIN, true),
        key(2 * MIN, false),
        key(3 * MIN, true),
        CandleKey { symbol: Symbol::BtcUsdc, timeframe: Timeframe::M1, open_time: 2 * MIN, closed: true },
        key(2 * MIN, true),
        key(9 * MIN, true),
    ];
    let sel = select_closed_window(&candles, Symbol::BtcUsdt, Timeframe::M1, window(MIN, 3 * MIN, 3));
    assert_eq!(sel, vec![1, 5, 0]);
}

#[test]
fn window_validation_names_each_problem() {
    let w = window(MIN, 3 * MIN, 3);
    let good = vec![key(MIN, true), key(2 * MIN, true), key(3 * MIN, true)];
    assert_eq!(validate_closed_window(Timeframe::M1, w, &good), Ok(()));
    assert!(is_contiguous_closed_window(Timeframe::M1, w, &good));

    let short = vec![key(MIN, true), key(2 * MIN, true)];
    assert_eq!(
        validate_closed_window(Timeframe::M1, w, &short),
        Err("expected 3 closed candles but found 2".to_string())
    );
    let open = vec![key(MIN, true), key(2 * MIN, false), key(3 * MIN, true)];
    assert_eq!(
        validate_closed_window(Timeframe::M1, w, &open),
        Err("found unfinished candle at open_time 120000 inside required history window".to_string())
    );
    let gap = vec![key(MIN, true), key(3 * MIN, true), key(4 * MIN, true)];
    assert_eq!(
        validate_closed_window(Timeframe::M1, w, &gap),
        Err("history window is not contiguous at open_time 120000".to_string())
    );
    let late = vec![key(2 * MIN, true), key(3 * MIN, true), key(4 * MIN, true)];
    assert_eq!(
        validate_closed_window(Timeframe::M1, w, &late),
        Err("history window is not contiguous at open_time 60000".to_string())
    );
    assert!(!is_contiguous_closed_window(Timeframe::M1, w, &late));
    let wrong_end = window(MIN, 4 * MIN, 3);
    assert_eq!(
        validate_closed_window(Timeframe::M1, wrong_end, &good),
        Err("history window did not finish at expected end_open_time 240000".to_string())
    );
}

#[test]
fn load_plan_uses_local_history_only_when_it_covers_the_window() {
    // Warm-up for length 2 in group mode is 3 candles; the chart asks for 2.
    let now = 10 * MIN + 5;
    let local = vec![key(7 * MIN, true), key(8 * MIN, true), key(9 * MIN, true)];
    let plan = build_history_load_plan(Symbol::BtcUsdt, Timeframe::M1, 2, AsoMode::Group, 2, now, &local);
    assert_eq!(plan.chart_seed_closed_candles, 2);
    assert_eq!(plan.warmup_closed_candles, 3);
    assert_eq!(plan.recompute_tail_closed_candles, 2);
    assert_eq!(plan.requested_closed_candles, 3);
    assert_eq!(plan.latest_closed_open_time, 9 * MIN);
    assert_eq!(plan.window, window(7 * MIN, 9 * MIN, 3));
    assert_eq!(plan.local_closed_candles, 3);
    assert!(plan.local_contiguous);
    assert!(!plan.remote_backfill_required);

    let partial = vec![key(8 * MIN, true), key(9 * MIN, true)];
    let plan = build_history_load_plan(Symbol::BtcUsdt, Timeframe::M1, 2, AsoMode::Group, 2, now, &partial);
    assert_eq!(plan.local_closed_candles, 2);
    assert!(!plan.local_contiguous);
    assert!(plan.remote_backfill_required);
    assert_eq!(
        plan.range_request(),
        KlineRangeRequest {
            symbol: Symbol::BtcUsdt,
            timeframe: Timeframe::M1,
            start_open_time: 7 * MIN,
            end_open_time: 9 * MIN,
        }
    );
}

#[test]
fn merge_prefers_fresh_candles_and_keeps_the_latest() {
    let existing = vec![key(MIN, true), key(2 * MIN, true), key(3 * MIN, true)];
    let incoming = vec![key(3 * MIN, false), key(4 * MIN, true)];
    // Positions 0..3 are stored candles, 3.. are the fresh ones.
    assert_eq!(merge_candles(&existing, &incoming, 10), vec![0, 1, 3, 4]);
    assert_eq!(merge_candles(&existing, &incoming, 2), vec![3, 4]);
    assert_eq!(merge_candles(&existing, &incoming, 0), Vec::<usize>::new());
}

#[test]
fn recovery_context_is_one_less_than_warmup() {
    assert_eq!(recovery_context_required(14, AsoMode::Both), 26);
    assert_eq!(recovery_context_required(14, AsoMode::Intrabar), 13);
    assert_eq!(recovery_context_required(0, AsoMode::Group), 0);
}

#[test]
fn recovery_plans_the_gap_between_anchor_and_stream() {
    // The first connection needs nothing.
    assert_eq!(
        plan_recovery(Symbol::BtcUsdt, Timeframe::M1, 0, None, None, 5, 0, 10 * MIN, 100),
        Ok(None)
    );
    // A stream that resumes where expected needs nothing.
    assert_eq!(
        plan_recovery(Symbol::BtcUsdt, Timeframe::M1, 1, Some((5 * MIN, true)), Some(5 * MIN), 5, 10, 6 * MIN, 100),
        Ok(None)
    );
    // Without an anchor the reconnect fails.
    assert_eq!(
        plan_recovery(Symbol::BtcUsdt, Timeframe::M1, 1, Some((5 * MIN, false)), None, 5, 10, 9 * MIN, 100),
        Err("missing persisted candle anchor during reconnect".to_string())
    );
    // Too little oscillator context.
    assert_eq!(
        plan_recovery(Symbol::BtcUsdt, Timeframe::M1, 1, Some((5 * MIN, true)), Some(5 * MIN), 5, 4, 9 * MIN, 100),
        Err("insufficient indicator context before reconnect gap: have 4, need 5".to_string())
    );
    // A gap beyond the limit.
    assert_eq!(
        plan_recovery(Symbol::BtcUsdt, Timeframe::M1, 1, Some((5 * MIN, true)), Some(5 * MIN), 5, 10, 9 * MIN, 2),
        Err("gap requires 3 closed candles but recovery limit is 2".to_string())
    );
    // Candles 6, 7 and 8 are missing.
    let plan = plan_recovery(Symbol::BtcUsdt, Timeframe::M1, 1, Some((5 * MIN, true)), Some(5 * MIN), 5, 10, 9 * MIN + 7, 100)
        .unwrap()
        .unwrap();
    assert_eq!(
        plan.fetch_request,
        KlineRangeRequest {
            symbol: Symbol::BtcUsdt,
            timeframe: Timeframe::M1,
            start_open_time: 6 * MIN,
            end_open_time: 8 * MIN,
        }
    );
    assert_eq!(plan.last_persisted_closed_open_time, 5 * MIN);
    assert_eq!(plan.first_stream_open_time, 9 * MIN);
    assert_eq!(plan.gap_closed_candles, 3);
    assert_eq!(plan.required_context_closed, 5);
    assert_eq!(plan.available_context_closed, 10);
}

#[test]
fn window_check_stops_before_candles_near_the_end_of_time() {
    let w = window(0, MIN, 2);
    let candles = vec![key(0, false), key(i64::MAX - 10, true)];
    assert_eq!(
        validate_closed_window(Timeframe::M1, w, &candles),
        Err("found unfinished candle at open_time 0 inside required history window".to_string())
    );
    let gap = vec![key(0, true), key(i64::MAX - 10, true)];
    assert_eq!(
        validate_closed_window(Timeframe::M1, w, &gap),
        Err("history window is not contiguous at open_time 60000".to_string())
    );
}
