//! History planning: which closed candles a chart and the oscillator warm-up
//! need, which of the stored ones can serve, whether they form a complete,
//! contiguous window, and how a stored series and fresh candles merge.
//!
//! A candle enters this logic by its key: symbol, timeframe, open time and
//! whether it has closed. Selections are lists of positions into the list
//! the caller handed in.

use vstd::prelude::*;

use crate::error::AppError;
use crate::market::{warmup_candles, warmup_candles_required, AsoMode, Symbol, Timeframe};
use crate::text::{append_str, i64_decimal, int_decimal, nat_decimal, u64_decimal};

verus! {

/// What the history logic reads of a candle.
#[derive(Debug, Clone, Copy, PartialEq, Eq, Structural)]
pub struct CandleKey {
    pub symbol: Symbol,
    pub timeframe: Timeframe,
    pub open_time: i64,
    pub closed: bool,
}

/// Whether the positions `s` point into `ots` with strictly ascending open
/// times.
pub open spec fn ascending_by(ots: Seq<i64>, s: Seq<usize>) -> bool {
    &&& forall|a: int| 0 <= a < s.len() ==> #[trigger] s[a] < ots.len()
    &&& forall|a: int, b: int| 0 <= a < b < s.len() ==> ots[#[trigger] s[a] as int] < ots[#[trigger] s[b] as int]
}

/// Whether `s` lists every eligible position of `ots`, and nothing else, in
/// ascending open-time order.
pub open spec fn sorted_cover(ots: Seq<i64>, eligible: Seq<bool>, s: Seq<usize>) -> bool {
    &&& ascending_by(ots, s)
    &&& forall|a: int| 0 <= a < s.len() ==> eligible[#[trigger] s[a] as int]
    &&& forall|i: int| 0 <= i < ots.len() && eligible[i] ==> s.contains(i as usize)
}

/// Whether no two eligible positions share an open time.
pub open spec fn distinct_when_eligible(ots: Seq<i64>, eligible: Seq<bool>) -> bool {
    forall|i: int, j: int|
        0 <= i < ots.len() && 0 <= j < ots.len() && i != j && eligible[i] && eligible[j] ==> ots[i] != ots[j]
}

/// The eligible positions of `ots` in ascending open-time order.
pub open spec fn sorted_selection(ots: Seq<i64>, eligible: Seq<bool>) -> Seq<usize> {
    choose|s: Seq<usize>| sorted_cover(ots, eligible, s)
}

/// Two lists that point into `ots` with strictly ascending open times and
/// hold the same positions are the same list.
proof fn lemma_ascending_same_elements(ots: Seq<i64>, s1: Seq<usize>, s2: Seq<usize>)
    requires
        ascending_by(ots, s1),
        ascending_by(ots, s2),
        forall|x: usize| s1.contains(x) <==> s2.contains(x),
    ensures
        s1 == s2,
    decreases s1.len(),
{
    if s1.len() == 0 {
        if s2.len() > 0 {
            assert(s2.contains(s2[0]));
        }
    } else if s2.len() == 0 {
        assert(s1.contains(s1[0]));
    } else {
        // The first entries hold the least open time of the shared set.
        let a = s1[0];
        let b = s2[0];
        assert(s1.contains(a));
        assert(s2.contains(b));
        let q = choose|q: int| 0 <= q < s2.len() && s2[q] == a;
        let r = choose|r: int| 0 <= r < s1.len() && s1[r] == b;
        if a != b {
            assert(q != 0);
            assert(r != 0);
            assert(ots[b as int] < ots[a as int]);
            assert(ots[a as int] < ots[b as int]);
        }
        let t1 = s1.drop_first();
        let t2 = s2.drop_first();
        assert forall|x: usize| t1.contains(x) implies t2.contains(x) by {
            let i = choose|i: int| 0 <= i < t1.len() && t1[i] == x;
            assert(s1[i + 1] == x);
            assert(s1.contains(x));
            let j = choose|j: int| 0 <= j < s2.len() && s2[j] == x;
            if j == 0 {
                assert(ots[s1[0] as int] < ots[s1[i + 1] as int]);
            }
            assert(t2[j - 1] == x);
        }
        assert forall|x: usize| t2.contains(x) implies t1.contains(x) by {
            let i = choose|i: int| 0 <= i < t2.len() && t2[i] == x;
            assert(s2[i + 1] == x);
            assert(s2.contains(x));
            let j = choose|j: int| 0 <= j < s1.len() && s1[j] == x;
            if j == 0 {
                assert(ots[s2[0] as int] < ots[s2[i + 1] as int]);
            }
            assert(t1[j - 1] == x);
        }
        lemma_ascending_same_elements(ots, t1, t2);
        assert(s1 =~= seq![a] + t1);
        assert(s2 =~= seq![b] + t2);
    }
}

/// A sorted cover, where one exists, is the sorted selection.
proof fn lemma_sorted_cover_is_selection(ots: Seq<i64>, eligible: Seq<bool>, s: Seq<usize>)
    requires
        sorted_cover(ots, eligible, s),
        eligible.len() == ots.len(),
    ensures
        sorted_selection(ots, eligible) == s,
{
    let c = sorted_selection(ots, eligible);
    assert(sorted_cover(ots, eligible, c));
    assert forall|x: usize| s.contains(x) <==> c.contains(x) by {
        if s.contains(x) {
            let i = choose|i: int| 0 <= i < s.len() && s[i] == x;
            assert(eligible[s[i] as int]);
            assert((x as int) as usize == x);
        }
        if c.contains(x) {
            let i = choose|i: int| 0 <= i < c.len() && c[i] == x;
            assert(eligible[c[i] as int]);
            assert((x as int) as usize == x);
        }
    }
    lemma_ascending_same_elements(ots, s, c);
}

/// Lists the eligible positions of `ots` in ascending open-time order, when
/// no two of them share an open time.
fn sort_eligible(ots: &Vec<i64>, eligible: &Vec<bool>) -> (s: Vec<usize>)
    requires
        eligible@.len() == ots@.len(),
        distinct_when_eligible(ots@, eligible@),
    ensures
        sorted_cover(ots@, eligible@, s@),
        s@ == sorted_selection(ots@, eligible@),
{
    let n = ots.len();
    let mut out: Vec<usize> = Vec::new();
    let mut last: i64 = 0;
    let mut started = false;
    loop
        invariant
            n == ots@.len(),
            eligible@.len() == n,
            distinct_when_eligible(ots@, eligible@),
            ascending_by(ots@, out@),
            forall|a: int| 0 <= a < out@.len() ==> eligible@[#[trigger] out@[a] as int],
            started <==> out@.len() > 0,
            started ==> last == ots@[out@.last() as int],
            forall|a: int| 0 <= a < out@.len() ==> ots@[#[trigger] out@[a] as int] <= last,
            forall|i: int| 0 <= i < n && eligible@[i] && started && ots@[i] <= last ==> out@.contains(i as usize),
        decreases (if started { i64::MAX - last } else { i64::MAX - i64::MIN + 1 }),
    {
        let mut best: usize = n;
        let mut i: usize = 0;
        while i < n
            invariant
                n == ots@.len(),
                eligible@.len() == n,
                i <= n,
                best == n || (best < i && eligible@[best as int] && (!started || ots@[best as int] > last)),
                forall|j: int|
                    0 <= j < i && eligible@[j] && (!started || ots@[j] > last) ==> best < n && ots@[best as int]
                        <= ots@[j],
            decreases n - i,
        {
            if eligible[i] && (!started || ots[i] > last) && (best == n || ots[i] < ots[best]) {
                best = i;
            }
            i = i + 1;
        }
        if best == n {
            assert forall|i: int| 0 <= i < n && eligible@[i] implies out@.contains(i as usize) by {
                if !started || ots@[i] > last {
                    assert(false);
                }
            }
            proof {
                lemma_sorted_cover_is_selection(ots@, eligible@, out@);
            }
            return out;
        }
        let ghost old_out = out@;
        let ghost old_last = last;
        let ghost old_started = started;
        out.push(best);
        last = ots[best];
        started = true;
        proof {
            assert(out@.last() == best);
            assert forall|a: int, b: int| 0 <= a < b < out@.len() implies ots@[#[trigger] out@[a] as int]
                < ots@[#[trigger] out@[b] as int] by {
                if b == out@.len() - 1 {
                    assert(out@[a] == old_out[a]);
                } else {
                    assert(out@[a] == old_out[a]);
                    assert(out@[b] == old_out[b]);
                }
            }
            assert forall|a: int| 0 <= a < out@.len() implies ots@[#[trigger] out@[a] as int] <= last by {
                if a < old_out.len() {
                    assert(out@[a] == old_out[a]);
                }
            }
            assert forall|a: int| 0 <= a < out@.len() implies eligible@[#[trigger] out@[a] as int] by {
                if a < old_out.len() {
                    assert(out@[a] == old_out[a]);
                }
            }
            assert forall|i: int| 0 <= i < n && eligible@[i] && started && ots@[i] <= last implies out@.contains(
                i as usize,
            ) by {
                if old_started && ots@[i] <= old_last {
                    assert(old_out.contains(i as usize));
                    let k = choose|k: int| 0 <= k < old_out.len() && old_out[k] == i as usize;
                    assert(out@[k] == i as usize);
                } else {
                    assert(ots@[best as int] <= ots@[i]);
                    assert(ots@[i] == ots@[best as int]);
                    assert(i == best as int);
                    assert(out@[out@.len() - 1] == best);
                }
            }
        }
    }
}

/// The open times of `keys`, in order.
pub open spec fn open_times(keys: Seq<CandleKey>) -> Seq<i64> {
    Seq::new(keys.len(), |i: int| keys[i].open_time)
}

fn open_times_of(keys: &Vec<CandleKey>) -> (v: Vec<i64>)
    ensures
        v@ == open_times(keys@),
{
    let mut v: Vec<i64> = Vec::new();
    let mut i: usize = 0;
    while i < keys.len()
        invariant
            i <= keys@.len(),
            v@ == open_times(keys@).subrange(0, i as int),
        decreases keys@.len() - i,
    {
        v.push(keys[i].open_time);
        assert(v@ =~= open_times(keys@).subrange(0, i + 1));
        i = i + 1;
    }
    assert(v@ =~= open_times(keys@));
    v
}

/// The closed-candle history range a chart needs: the open times of its
/// first and last candles and how many closed candles lie from one to the
/// other.
#[derive(Debug, Clone, Copy, PartialEq, Eq, Structural)]
pub struct HistoryWindow {
    pub start_open_time: i64,
    pub end_open_time: i64,
    pub expected_closed_candles: usize,
}

/// Whether a candle belongs to the window: the symbol and timeframe asked
/// for, closed, and opening within the window.
pub open spec fn in_window(k: CandleKey, symbol: Symbol, timeframe: Timeframe, window: HistoryWindow) -> bool {
    &&& k.symbol == symbol
    &&& k.timeframe == timeframe
    &&& k.closed
    &&& window.start_open_time <= k.open_time <= window.end_open_time
}

/// Whether position `i` holds the first candle of the window with its open
/// time.
pub open spec fn first_in_window(
    keys: Seq<CandleKey>,
    symbol: Symbol,
    timeframe: Timeframe,
    window: HistoryWindow,
    i: int,
) -> bool {
    &&& 0 <= i < keys.len()
    &&& in_window(keys[i], symbol, timeframe, window)
    &&& forall|j: int|
        0 <= j < i && in_window(#[trigger] keys[j], symbol, timeframe, window) ==> keys[j].open_time
            != keys[i].open_time
}

/// For each position, whether it holds the first candle of the window with
/// its open time.
pub open spec fn window_firsts(
    keys: Seq<CandleKey>,
    symbol: Symbol,
    timeframe: Timeframe,
    window: HistoryWindow,
) -> Seq<bool> {
    Seq::new(keys.len(), |i: int| first_in_window(keys, symbol, timeframe, window, i))
}

/// The closed candles of the window, as positions into `keys`: for each
/// open time the first candle that has it, in ascending open-time order.
pub open spec fn window_selection(
    keys: Seq<CandleKey>,
    symbol: Symbol,
    timeframe: Timeframe,
    window: HistoryWindow,
) -> Seq<usize> {
    sorted_selection(open_times(keys), window_firsts(keys, symbol, timeframe, window))
}

fn in_window_exec(k: &CandleKey, symbol: Symbol, timeframe: Timeframe, window: HistoryWindow) -> (b: bool)
    ensures
        b == in_window(*k, symbol, timeframe, window),
{
    k.symbol == symbol && k.timeframe == timeframe && k.closed && k.open_time >= window.start_open_time
        && k.open_time <= window.end_open_time
}

fn window_firsts_of(keys: &Vec<CandleKey>, symbol: Symbol, timeframe: Timeframe, window: HistoryWindow) -> (v: Vec<bool>)
    ensures
        v@ == window_firsts(keys@, symbol, timeframe, window),
{
    let n = keys.len();
    let mut v: Vec<bool> = Vec::new();
    let mut i: usize = 0;
    while i < n
        invariant
            n == keys@.len(),
            i <= n,
            v@ == window_firsts(keys@, symbol, timeframe, window).subrange(0, i as int),
        decreases n - i,
    {
        let mut first = in_window_exec(&keys[i], symbol, timeframe, window);
        let mut j: usize = 0;
        while j < i && first
            invariant
                n == keys@.len(),
                j <= i < n,
                first ==> in_window(keys@[i as int], symbol, timeframe, window),
                first ==> forall|m: int|
                    0 <= m < j && in_window(#[trigger] keys@[m], symbol, timeframe, window) ==> keys@[m].open_time
                        != keys@[i as int].open_time,
                !first ==> !first_in_window(keys@, symbol, timeframe, window, i as int),
            decreases i - j,
        {
            if in_window_exec(&keys[j], symbol, timeframe, window) && keys[j].open_time == keys[i].open_time {
                first = false;
            }
            j = j + 1;
        }
        v.push(first);
        assert(v@ =~= window_firsts(keys@, symbol, timeframe, window).subrange(0, i + 1));
        i = i + 1;
    }
    assert(v@ =~= window_firsts(keys@, symbol, timeframe, window));
    v
}

/// The closed candles of `symbol` and `timeframe` inside the window, as
/// positions into `candles`: sorted by open time, and of candles that share
/// an open time only the first.
pub fn select_closed_window(
    candles: &Vec<CandleKey>,
    symbol: Symbol,
    timeframe: Timeframe,
    window: HistoryWindow,
) -> (s: Vec<usize>)
    ensures
        s@ == window_selection(candles@, symbol, timeframe, window),
        sorted_cover(open_times(candles@), window_firsts(candles@, symbol, timeframe, window), s@),
{
    let ots = open_times_of(candles);
    let firsts = window_firsts_of(candles, symbol, timeframe, window);
    proof {
        assert forall|i: int, j: int|
            0 <= i < ots@.len() && 0 <= j < ots@.len() && i != j && firsts@[i] && firsts@[j] implies ots@[i]
            != ots@[j] by {
            if i < j {
                assert(in_window(candles@[i], symbol, timeframe, window));
            } else {
                assert(in_window(candles@[j], symbol, timeframe, window));
            }
        }
    }
    sort_eligible(&ots, &firsts)
}

/// The open time that the `k`-th candle of the window must have.
pub open spec fn expected_open(window: HistoryWindow, timeframe: Timeframe, k: int) -> int {
    window.start_open_time + k * timeframe.millis()
}

/// The first position from `k` on whose candle is unfinished or opens at
/// another time than the window asks for.
pub open spec fn first_gap(keys: Seq<CandleKey>, window: HistoryWindow, timeframe: Timeframe, k: int) -> Option<int>
    decreases keys.len() - k,
{
    if k >= keys.len() {
        None
    } else if !keys[k].closed || keys[k].open_time != expected_open(window, timeframe, k) {
        Some(k)
    } else {
        first_gap(keys, window, timeframe, k + 1)
    }
}

/// What is wrong with `keys` as the window's closed candles, if anything:
/// the wrong number of candles; else the first candle that is unfinished or
/// breaks the run of open times; else a run that does not end at the
/// window's end.
pub open spec fn window_problem(timeframe: Timeframe, window: HistoryWindow, keys: Seq<CandleKey>) -> Option<
    Seq<char>,
> {
    if keys.len() != window.expected_closed_candles {
        Some(
            "expected "@ + nat_decimal(window.expected_closed_candles as nat) + " closed candles but found "@
                + nat_decimal(keys.len()),
        )
    } else {
        match first_gap(keys, window, timeframe, 0) {
            Some(k) => if !keys[k].closed {
                Some(
                    "found unfinished candle at open_time "@ + int_decimal(keys[k].open_time as int)
                        + " inside required history window"@,
                )
            } else {
                Some("history window is not contiguous at open_time "@ + int_decimal(expected_open(window, timeframe, k)))
            },
            None => if expected_open(window, timeframe, keys.len() as int) != window.end_open_time + timeframe.millis() {
                Some(
                    "history window did not finish at expected end_open_time "@ + int_decimal(
                        window.end_open_time as int,
                    ),
                )
            } else {
                None
            },
        }
    }
}

/// Whether every candle, and the window's end, can be followed by the next
/// open time without leaving the range of `i64`.
pub open spec fn steps_fit(timeframe: Timeframe, window: HistoryWindow, keys: Seq<CandleKey>) -> bool {
    &&& window.end_open_time + timeframe.millis() <= i64::MAX
    &&& forall|k: int| 0 <= k < keys.len() ==> #[trigger] keys[k].open_time + timeframe.millis() <= i64::MAX
}

/// Whether every step the window check takes stays in the range of `i64`:
/// where the count is right, each candle that passes is followed by the
/// next open time, and, where all pass, so is the window's end. Candles
/// after the first one that fails are never stepped over.
pub open spec fn stepped_fit(timeframe: Timeframe, window: HistoryWindow, keys: Seq<CandleKey>) -> bool {
    keys.len() == window.expected_closed_candles ==> match first_gap(keys, window, timeframe, 0) {
        Some(g) => forall|k: int|
            0 <= k < g ==> #[trigger] expected_open(window, timeframe, k) + timeframe.millis() <= i64::MAX,
        None => {
            &&& forall|k: int|
                0 <= k < keys.len() ==> #[trigger] expected_open(window, timeframe, k) + timeframe.millis()
                    <= i64::MAX
            &&& window.end_open_time + timeframe.millis() <= i64::MAX
        },
    }
}

/// The first failing candle from `k` on is at `k` or later, and every
/// candle before it from `k` on passes.
proof fn lemma_first_gap_bounds(keys: Seq<CandleKey>, window: HistoryWindow, timeframe: Timeframe, k: int)
    requires
        0 <= k,
    ensures
        first_gap(keys, window, timeframe, k) matches Some(g) ==> k <= g < keys.len(),
        forall|j: int|
            k <= j < (match first_gap(keys, window, timeframe, k) {
                Some(g) => g,
                None => keys.len() as int,
            }) ==> (#[trigger] keys[j]).closed && keys[j].open_time == expected_open(window, timeframe, j),
    decreases keys.len() - k,
{
    if k < keys.len() && keys[k].closed && keys[k].open_time == expected_open(window, timeframe, k) {
        lemma_first_gap_bounds(keys, window, timeframe, k + 1);
    }
}

/// Where every candle can be followed by the next open time, so can every
/// candle the window check steps over.
proof fn lemma_steps_fit_is_stepped_fit(timeframe: Timeframe, window: HistoryWindow, keys: Seq<CandleKey>)
    requires
        steps_fit(timeframe, window, keys),
    ensures
        stepped_fit(timeframe, window, keys),
{
    lemma_first_gap_bounds(keys, window, timeframe, 0);
    let end = match first_gap(keys, window, timeframe, 0) {
        Some(g) => g,
        None => keys.len() as int,
    };
    assert forall|k: int| 0 <= k < end implies #[trigger] expected_open(window, timeframe, k) + timeframe.millis()
        <= i64::MAX by {
        assert(keys[k].open_time == expected_open(window, timeframe, k));
    }
}

fn message_with_number(prefix: &str, n: i64) -> (s: String)
    ensures
        s@ == prefix@ + int_decimal(n as int),
{
    let mut s = String::from_str(prefix);
    let d = i64_decimal(n);
    append_str(&mut s, d.as_str());
    s
}

/// Checks that `candles` are exactly the window's closed candles: as many
/// as it expects, all closed, their open times running from its start one
/// duration apart and ending at its end. The error says what is wrong.
pub fn validate_closed_window(timeframe: Timeframe, window: HistoryWindow, candles: &Vec<CandleKey>) -> (r: Result<
    (),
    String,
>)
    requires
        stepped_fit(timeframe, window, candles@),
    ensures
        match window_problem(timeframe, window, candles@) {
            None => r is Ok,
            Some(m) => r is Err && r->Err_0@ == m,
        },
{
    let n = candles.len();
    if n != window.expected_closed_candles {
        let mut s = String::from_str("expected ");
        let e = u64_decimal(window.expected_closed_candles as u64);
        append_str(&mut s, e.as_str());
        append_str(&mut s, " closed candles but found ");
        let f = u64_decimal(n as u64);
        append_str(&mut s, f.as_str());
        return Err(s);
    }
    let mut expected: i64 = window.start_open_time;
    let mut k: usize = 0;
    while k < n
        invariant
            n == candles@.len(),
            n == window.expected_closed_candles,
            stepped_fit(timeframe, window, candles@),
            k <= n,
            expected == expected_open(window, timeframe, k as int),
            first_gap(candles@, window, timeframe, 0) == first_gap(candles@, window, timeframe, k as int),
        decreases n - k,
    {
        let c = candles[k];
        if !c.closed {
            let mut s = message_with_number("found unfinished candle at open_time ", c.open_time);
            append_str(&mut s, " inside required history window");
            return Err(s);
        }
        if c.open_time != expected {
            return Err(message_with_number("history window is not contiguous at open_time ", expected));
        }
        proof {
            lemma_first_gap_bounds(candles@, window, timeframe, k + 1);
            assert(first_gap(candles@, window, timeframe, k as int) == first_gap(candles@, window, timeframe, k + 1));
            assert(expected_open(window, timeframe, k as int) + timeframe.millis() <= i64::MAX);
        }
        expected = timeframe.next_open_time(expected);
        assert(expected_open(window, timeframe, k + 1) == expected_open(window, timeframe, k as int)
            + timeframe.millis()) by (nonlinear_arith);
        k = k + 1;
    }
    if expected != timeframe.next_open_time(window.end_open_time) {
        return Err(
            message_with_number("history window did not finish at expected end_open_time ", window.end_open_time),
        );
    }
    Ok(())
}

/// Whether `candles` are exactly the window's closed candles.
pub fn is_contiguous_closed_window(timeframe: Timeframe, window: HistoryWindow, candles: &Vec<CandleKey>) -> (b: bool)
    requires
        stepped_fit(timeframe, window, candles@),
    ensures
        b == (window_problem(timeframe, window, candles@) is None),
{
    validate_closed_window(timeframe, window, candles).is_ok()
}

/// The open time of the last closed candle at `now`: the candle that opens
/// one duration before the one in progress.
pub open spec fn latest_closed(timeframe: Timeframe, now_ms: int) -> int {
    timeframe.aligned(now_ms - timeframe.millis())
}

/// The open time of the last closed candle at `now_ms`.
pub fn latest_closed_open_time(timeframe: Timeframe, now_ms: i64) -> (t: i64)
    requires
        now_ms - timeframe.millis() >= i64::MIN,
        latest_closed(timeframe, now_ms as int) >= i64::MIN,
    ensures
        t == latest_closed(timeframe, now_ms as int),
{
    timeframe.align_open_time(now_ms - timeframe.duration_ms())
}

/// The window of `max(expected, 1)` closed candles that ends with the
/// candle opening at `end_open_time`.
pub open spec fn window_ending_at(timeframe: Timeframe, end_open_time: int, expected: int) -> (int, int, int) {
    let count = if expected < 1 { 1 } else { expected };
    (end_open_time - (count - 1) * timeframe.millis(), end_open_time, count)
}

/// Whether the window of `expected` candles ending at `end_open_time` has
/// its start within the range of `i64`.
pub open spec fn window_fits(timeframe: Timeframe, end_open_time: int, expected: int) -> bool {
    let count = if expected < 1 { 1 } else { expected };
    &&& (count - 1) * timeframe.millis() <= i64::MAX
    &&& end_open_time - (count - 1) * timeframe.millis() >= i64::MIN
}

/// The window of `max(expected_closed_candles, 1)` closed candles that
/// ends with the candle opening at `end_open_time`.
pub fn history_window_ending_at(timeframe: Timeframe, end_open_time: i64, expected_closed_candles: usize) -> (w:
    HistoryWindow)
    requires
        window_fits(timeframe, end_open_time as int, expected_closed_candles as int),
    ensures
        (w.start_open_time as int, w.end_open_time as int, w.expected_closed_candles as int) == window_ending_at(
            timeframe,
            end_open_time as int,
            expected_closed_candles as int,
        ),
{
    let count: usize = if expected_closed_candles < 1 { 1 } else { expected_closed_candles };
    let d = timeframe.duration_ms();
    assert((count - 1) * d >= 0) by (nonlinear_arith)
        requires count >= 1, d > 0;
    assert(count - 1 <= (count - 1) * d) by (nonlinear_arith)
        requires count >= 1, d > 0;
    let back: i64 = (count as i64 - 1) * d;
    HistoryWindow { start_open_time: end_open_time - back, end_open_time, expected_closed_candles: count }
}

/// A ranged kline request: the candles of a symbol and timeframe whose open
/// times lie from the start to the end, both included.
#[derive(Debug, Clone, Copy, PartialEq, Eq, Structural)]
pub struct KlineRangeRequest {
    pub symbol: Symbol,
    pub timeframe: Timeframe,
    pub start_open_time: i64,
    pub end_open_time: i64,
}

/// How much closed history a chart needs, what of it is stored, and
/// whether the rest must be fetched.
#[derive(Debug, Clone, Copy, PartialEq, Eq, Structural)]
pub struct HistoryLoadPlan {
    pub symbol: Symbol,
    pub timeframe: Timeframe,
    pub chart_seed_closed_candles: usize,
    pub warmup_closed_candles: usize,
    pub recompute_tail_closed_candles: usize,
    pub requested_closed_candles: usize,
    pub latest_closed_open_time: i64,
    pub window: HistoryWindow,
    pub local_closed_candles: usize,
    pub local_contiguous: bool,
    pub remote_backfill_required: bool,
}

impl HistoryLoadPlan {
    /// The request that fetches the plan's whole window.
    pub fn range_request(self) -> (r: KlineRangeRequest)
        ensures
            r == (KlineRangeRequest {
                symbol: self.symbol,
                timeframe: self.timeframe,
                start_open_time: self.window.start_open_time,
                end_open_time: self.window.end_open_time,
            }),
    {
        KlineRangeRequest {
            symbol: self.symbol,
            timeframe: self.timeframe,
            start_open_time: self.window.start_open_time,
            end_open_time: self.window.end_open_time,
        }
    }
}

/// The larger of two integers.
pub open spec fn max_int(a: int, b: int) -> int {
    if a < b { b } else { a }
}

/// How many closed candles a plan asks for: the chart's seed (at least one)
/// or the oscillator's warm-up (at least one), whichever is larger.
pub open spec fn requested_candles(history_limit: int, aso_length: int, aso_mode: AsoMode) -> int {
    max_int(max_int(history_limit, 1), max_int(warmup_candles(aso_length, aso_mode), 1))
}

/// The candles at the positions `sel` of `keys`.
pub open spec fn keys_at(keys: Seq<CandleKey>, sel: Seq<usize>) -> Seq<CandleKey> {
    Seq::new(sel.len(), |a: int| keys[sel[a] as int])
}

fn keys_at_exec(keys: &Vec<CandleKey>, sel: &Vec<usize>) -> (v: Vec<CandleKey>)
    requires
        forall|a: int| 0 <= a < sel@.len() ==> #[trigger] sel@[a] < keys@.len(),
    ensures
        v@ == keys_at(keys@, sel@),
{
    let mut v: Vec<CandleKey> = Vec::new();
    let mut a: usize = 0;
    while a < sel.len()
        invariant
            a <= sel@.len(),
            forall|b: int| 0 <= b < sel@.len() ==> #[trigger] sel@[b] < keys@.len(),
            v@ == keys_at(keys@, sel@).subrange(0, a as int),
        decreases sel@.len() - a,
    {
        v.push(keys[sel[a]]);
        assert(v@ =~= keys_at(keys@, sel@).subrange(0, a + 1));
        a = a + 1;
    }
    assert(v@ =~= keys_at(keys@, sel@));
    v
}

/// Plans the history a chart of `symbol` and `timeframe` needs at
/// `now_ms`: the larger of the chart's seed and the oscillator's warm-up,
/// in the window that ends with the last closed candle; which stored
/// candles fall in it; and whether they cover it, or the window must be
/// fetched.
pub fn build_history_load_plan(
    symbol: Symbol,
    timeframe: Timeframe,
    aso_length: usize,
    aso_mode: AsoMode,
    history_limit: usize,
    now_ms: i64,
    local_candles: &Vec<CandleKey>,
) -> (p: HistoryLoadPlan)
    requires
        aso_mode != AsoMode::Intrabar ==> 2 * aso_length <= usize::MAX,
        now_ms - timeframe.millis() >= i64::MIN,
        latest_closed(timeframe, now_ms as int) >= i64::MIN,
        window_fits(
            timeframe,
            latest_closed(timeframe, now_ms as int),
            requested_candles(history_limit as int, aso_length as int, aso_mode),
        ),
    ensures
        ({
            let warmup = max_int(warmup_candles(aso_length as int, aso_mode), 1);
            let requested = requested_candles(history_limit as int, aso_length as int, aso_mode);
            let latest = latest_closed(timeframe, now_ms as int);
            let sel = window_selection(local_candles@, symbol, timeframe, p.window);
            &&& p.symbol == symbol
            &&& p.timeframe == timeframe
            &&& p.chart_seed_closed_candles == max_int(history_limit as int, 1)
            &&& p.warmup_closed_candles == warmup
            &&& p.recompute_tail_closed_candles == max_int(warmup - 1, 1)
            &&& p.requested_closed_candles == requested
            &&& p.latest_closed_open_time == latest
            &&& (p.window.start_open_time as int, p.window.end_open_time as int, p.window.expected_closed_candles as int)
                == window_ending_at(timeframe, latest, requested)
            &&& p.local_closed_candles == sel.len()
            &&& p.local_contiguous == (window_problem(timeframe, p.window, keys_at(local_candles@, sel)) is None)
            &&& p.remote_backfill_required == !(p.local_contiguous && p.local_closed_candles == requested)
        }),
        p.warmup_closed_candles == (if aso_mode == AsoMode::Intrabar {
            max_int(aso_length as int, 1)
        } else {
            max_int(2 * aso_length - 1, 1)
        }),
        p.requested_closed_candles == max_int(max_int(history_limit as int, 1), p.warmup_closed_candles as int),
        p.window.expected_closed_candles == p.requested_closed_candles,
{
    proof {
        crate::market::lemma_warmup_by_mode(aso_length as int);
    }
    let chart_seed: usize = if history_limit < 1 { 1 } else { history_limit };
    let w = warmup_candles_required(aso_length, aso_mode);
    let warmup: usize = if w < 1 { 1 } else { w };
    let recompute_tail: usize = if warmup - 1 < 1 { 1 } else { warmup - 1 };
    let requested: usize = if chart_seed < warmup { warmup } else { chart_seed };
    let latest = latest_closed_open_time(timeframe, now_ms);
    let window = history_window_ending_at(timeframe, latest, requested);
    let sel = select_closed_window(local_candles, symbol, timeframe, window);
    let ghost firsts = window_firsts(local_candles@, symbol, timeframe, window);
    let selected = keys_at_exec(local_candles, &sel);
    proof {
        assert forall|k: int| 0 <= k < selected@.len() implies #[trigger] selected@[k].open_time + timeframe.millis()
            <= i64::MAX by {
            assert(firsts[sel@[k] as int]);
            assert(in_window(local_candles@[sel@[k] as int], symbol, timeframe, window));
        }
    }
    proof {
        lemma_steps_fit_is_stepped_fit(timeframe, window, selected@);
    }
    let contiguous = is_contiguous_closed_window(timeframe, window, &selected);
    HistoryLoadPlan {
        symbol,
        timeframe,
        chart_seed_closed_candles: chart_seed,
        warmup_closed_candles: warmup,
        recompute_tail_closed_candles: recompute_tail,
        requested_closed_candles: requested,
        latest_closed_open_time: latest,
        window,
        local_closed_candles: sel.len(),
        local_contiguous: contiguous,
        remote_backfill_required: !(contiguous && sel.len() == requested),
    }
}

/// For each position of `ots`, whether no later position has its open
/// time.
pub open spec fn last_occurrences(ots: Seq<i64>) -> Seq<bool> {
    Seq::new(ots.len(), |i: int| forall|j: int| i < j < ots.len() ==> ots[j] != ots[i])
}

/// The merge of a stored series with fresh candles, as positions into the
/// stored candles followed by the fresh ones: for each open time the last
/// candle that has it, so that a fresh candle replaces a stored one, in
/// ascending open-time order, and of those only the latest `limit`.
pub open spec fn merge_selection(existing: Seq<CandleKey>, incoming: Seq<CandleKey>, limit: int) -> Seq<usize> {
    let ots = open_times(existing + incoming);
    let all = sorted_selection(ots, last_occurrences(ots));
    if all.len() > limit {
        all.subrange(all.len() - limit, all.len() as int)
    } else {
        all
    }
}

fn last_occurrences_of(ots: &Vec<i64>) -> (v: Vec<bool>)
    ensures
        v@ == last_occurrences(ots@),
{
    let n = ots.len();
    let mut v: Vec<bool> = Vec::new();
    let mut i: usize = 0;
    while i < n
        invariant
            n == ots@.len(),
            i <= n,
            v@ == last_occurrences(ots@).subrange(0, i as int),
        decreases n - i,
    {
        let mut last = true;
        let mut j: usize = i + 1;
        while j < n && last
            invariant
                n == ots@.len(),
                i < j <= n || (j == i + 1 && i < n),
                last ==> forall|m: int| i < m < j ==> ots@[m] != ots@[i as int],
                !last ==> exists|m: int| i < m < n && ots@[m] == ots@[i as int],
            decreases n - j,
        {
            if ots[j] == ots[i] {
                last = false;
            }
            j = j + 1;
        }
        v.push(last);
        assert(v@ =~= last_occurrences(ots@).subrange(0, i + 1));
        i = i + 1;
    }
    assert(v@ =~= last_occurrences(ots@));
    v
}

fn concat_keys(a: &Vec<CandleKey>, b: &Vec<CandleKey>) -> (v: Vec<CandleKey>)
    ensures
        v@ == a@ + b@,
{
    let mut v: Vec<CandleKey> = Vec::new();
    let mut i: usize = 0;
    while i < a.len()
        invariant
            i <= a@.len(),
            v@ == a@.subrange(0, i as int),
        decreases a@.len() - i,
    {
        v.push(a[i]);
        assert(v@ =~= a@.subrange(0, i + 1));
        i = i + 1;
    }
    let mut j: usize = 0;
    while j < b.len()
        invariant
            j <= b@.len(),
            v@ == a@ + b@.subrange(0, j as int),
        decreases b@.len() - j,
    {
        v.push(b[j]);
        assert(v@ =~= a@ + b@.subrange(0, j + 1));
        j = j + 1;
    }
    assert(a@.subrange(0, a@.len() as int) =~= a@);
    assert(v@ =~= a@ + b@);
    v
}

/// Merges a stored series with fresh candles by open time, a fresh candle
/// replacing a stored one with the same open time, sorted by open time, and
/// keeps the latest `limit`. The result lists positions into `existing`
/// followed by `incoming`: a position below `existing.len()` is a stored
/// candle, the others are fresh ones at the position less that length.
pub fn merge_candles(existing: &Vec<CandleKey>, incoming: &Vec<CandleKey>, limit: usize) -> (m: Vec<usize>)
    ensures
        m@ == merge_selection(existing@, incoming@, limit as int),
        m@.len() <= limit,
        ascending_by(open_times(existing@ + incoming@), m@),
        forall|a: int| 0 <= a < m@.len() ==> #[trigger] last_occurrences(open_times(existing@ + incoming@))[m@[a] as int],
{
    let all_keys = concat_keys(existing, incoming);
    let ots = open_times_of(&all_keys);
    let lasts = last_occurrences_of(&ots);
    proof {
        assert forall|i: int, j: int|
            0 <= i < ots@.len() && 0 <= j < ots@.len() && i != j && lasts@[i] && lasts@[j] implies ots@[i]
            != ots@[j] by {
            if i < j {
                assert(lasts@[i]);
            } else {
                assert(lasts@[j]);
            }
        }
    }
    let all = sort_eligible(&ots, &lasts);
    if all.len() > limit {
        let start = all.len() - limit;
        let mut out: Vec<usize> = Vec::new();
        let mut k: usize = start;
        while k < all.len()
            invariant
                start <= k <= all@.len(),
                out@ == all@.subrange(start as int, k as int),
            decreases all@.len() - k,
        {
            out.push(all[k]);
            assert(out@ =~= all@.subrange(start as int, k + 1));
            k = k + 1;
        }
        out
    } else {
        all
    }
}

/// Whether every candle from position `k` on is closed and opens where the
/// window asks.
pub open spec fn run_matches_from(keys: Seq<CandleKey>, window: HistoryWindow, timeframe: Timeframe, k: int) -> bool {
    forall|m: int| k <= m < keys.len() ==> #[trigger] candle_as_expected(keys, window, timeframe, m)
}

/// Whether the `m`-th candle is closed and opens where the window asks.
pub open spec fn candle_as_expected(keys: Seq<CandleKey>, window: HistoryWindow, timeframe: Timeframe, m: int) -> bool {
    keys[m].closed && keys[m].open_time == expected_open(window, timeframe, m)
}

proof fn lemma_first_gap_none(keys: Seq<CandleKey>, window: HistoryWindow, timeframe: Timeframe, k: int)
    requires
        0 <= k,
    ensures
        first_gap(keys, window, timeframe, k) is None <==> run_matches_from(keys, window, timeframe, k),
    decreases keys.len() - k,
{
    if k < keys.len() {
        lemma_first_gap_none(keys, window, timeframe, k + 1);
        if candle_as_expected(keys, window, timeframe, k) {
            assert(first_gap(keys, window, timeframe, k) == first_gap(keys, window, timeframe, k + 1));
            if run_matches_from(keys, window, timeframe, k + 1) {
                assert forall|m: int| k <= m < keys.len() implies #[trigger] candle_as_expected(
                    keys,
                    window,
                    timeframe,
                    m,
                ) by {
                    if m > k {
                        assert(candle_as_expected(keys, window, timeframe, m));
                    }
                }
            }
        } else {
            assert(first_gap(keys, window, timeframe, k) == Some(k));
        }
    }
}

/// A list of candles passes the window check exactly when it holds as many
/// candles as the window expects, every one closed, the `k`-th opening `k`
/// durations after the window's start, and the run ending with the candle
/// that opens at the window's end.
pub proof fn lemma_window_check_exact(timeframe: Timeframe, window: HistoryWindow, keys: Seq<CandleKey>)
    ensures
        window_problem(timeframe, window, keys) is None <==> {
            &&& keys.len() == window.expected_closed_candles
            &&& forall|k: int| 0 <= k < keys.len() ==> #[trigger] candle_as_expected(keys, window, timeframe, k)
            &&& expected_open(window, timeframe, keys.len() as int) == window.end_open_time + timeframe.millis()
        },
{
    lemma_first_gap_none(keys, window, timeframe, 0);
}

/// A window of `n` closed candles built to end at an open time runs, one
/// duration a candle, exactly to that open time: its `n`-th candle after
/// the start would open one duration after the end.
pub proof fn lemma_window_ends_where_asked(timeframe: Timeframe, end_open_time: int, expected: int)
    ensures
        ({
            let (start, end, count) = window_ending_at(timeframe, end_open_time, expected);
            &&& count >= 1
            &&& end == end_open_time
            &&& start + count * timeframe.millis() == end_open_time + timeframe.millis()
        }),
{
    let (start, end, count) = window_ending_at(timeframe, end_open_time, expected);
    assert(start + count * timeframe.millis() == end_open_time + timeframe.millis()) by (nonlinear_arith)
        requires
            start == end_open_time - (count - 1) * timeframe.millis(),
    ;
}

/// The bounded refetch that closes a reconnect gap: the range of closed
/// candles between the last stored one and the first candle of the new
/// stream, and what the decision rested on.
#[derive(Debug, Clone, Copy, PartialEq, Eq, Structural)]
pub struct RecoveryPlan {
    pub fetch_request: KlineRangeRequest,
    pub last_persisted_closed_open_time: i64,
    pub first_stream_open_time: i64,
    pub gap_closed_candles: usize,
    pub required_context_closed: usize,
    pub available_context_closed: usize,
}

/// The closed candles of oscillator context a recovery needs: one less than
/// the warm-up, never below zero.
pub open spec fn recovery_context(aso_length: int, aso_mode: AsoMode) -> int {
    let w = warmup_candles(aso_length, aso_mode);
    if w >= 1 { w - 1 } else { 0 }
}

/// The closed candles of oscillator context a recovery needs.
pub fn recovery_context_required(aso_length: usize, aso_mode: AsoMode) -> (n: usize)
    requires
        aso_mode != AsoMode::Intrabar ==> 2 * aso_length <= usize::MAX,
    ensures
        n == recovery_context(aso_length as int, aso_mode),
        n == (if aso_mode == AsoMode::Intrabar {
            max_int(aso_length as int - 1, 0)
        } else {
            max_int(2 * aso_length - 2, 0)
        }),
{
    proof {
        crate::market::lemma_warmup_by_mode(aso_length as int);
    }
    let w = warmup_candles_required(aso_length, aso_mode);
    if w >= 1 { w - 1 } else { 0 }
}

/// The open time of the candle the stream should deliver next after the
/// last candle seen: the next one after a closed candle, the aligned open
/// time of an unfinished one, or the next one after the stored anchor.
pub open spec fn expected_live_open(timeframe: Timeframe, last_seen: Option<(i64, bool)>, anchor: i64) -> int {
    match last_seen {
        Some((t, closed)) => if closed { t + timeframe.millis() } else { timeframe.aligned(t as int) },
        None => anchor + timeframe.millis(),
    }
}

/// The anchor of a recovery: the last stored closed candle, else the last
/// candle seen where it closed.
pub open spec fn recovery_anchor(stored_last: Option<i64>, last_seen: Option<(i64, bool)>) -> Option<i64> {
    match stored_last {
        Some(t) => Some(t),
        None => match last_seen {
            Some((t, closed)) => if closed { Some(t) } else { None },
            None => None,
        },
    }
}

/// Whether the open times a recovery computes stay within the range of
/// `i64`.
pub open spec fn recovery_fits(
    timeframe: Timeframe,
    last_seen: Option<(i64, bool)>,
    stored_last: Option<i64>,
    first_event_open_time: i64,
) -> bool {
    &&& timeframe.aligned(first_event_open_time as int) - timeframe.millis() >= i64::MIN
    &&& (match last_seen {
        Some((t, closed)) => if closed { t + timeframe.millis() <= i64::MAX } else { timeframe.aligned(t as int) >= i64::MIN },
        None => true,
    })
    &&& (match recovery_anchor(stored_last, last_seen) {
        Some(a) => a + timeframe.millis() <= i64::MAX && (timeframe.aligned(first_event_open_time as int)
            - timeframe.millis()) - (a + timeframe.millis()) <= i64::MAX,
        None => true,
    })
}

/// What a reconnect needs: nothing on the first connection or when the new
/// stream starts no later than expected; an error without a stored anchor,
/// without enough oscillator context, or for a gap beyond the recovery
/// limit; else the plan that refetches the gap.
pub open spec fn recovery_decision(
    symbol: Symbol,
    timeframe: Timeframe,
    reconnect_attempts: u64,
    last_seen: Option<(i64, bool)>,
    stored_last: Option<i64>,
    required_context_closed: usize,
    available_context_closed: usize,
    first_event_open_time: i64,
    recovery_limit: usize,
) -> Result<Option<(int, int, int)>, Seq<char>> {
    if reconnect_attempts == 0 {
        Ok(None)
    } else {
        match recovery_anchor(stored_last, last_seen) {
            None => Err("missing persisted candle anchor during reconnect"@),
            Some(anchor) => {
                let first = timeframe.aligned(first_event_open_time as int);
                if first <= expected_live_open(timeframe, last_seen, anchor) {
                    Ok(None)
                } else if available_context_closed < required_context_closed {
                    Err(
                        "insufficient indicator context before reconnect gap: have "@ + nat_decimal(
                            available_context_closed as nat,
                        ) + ", need "@ + nat_decimal(required_context_closed as nat),
                    )
                } else {
                    let start = anchor + timeframe.millis();
                    let end = first - timeframe.millis();
                    let gap = timeframe.open_times_between(start, end) as usize;
                    if gap > recovery_limit {
                        Err(
                            "gap requires "@ + nat_decimal(gap as nat) + " closed candles but recovery limit is "@
                                + nat_decimal(recovery_limit as nat),
                        )
                    } else {
                        Ok(Some((start, end, gap as int)))
                    }
                }
            },
        }
    }
}

fn number_text(n: usize) -> (s: String)
    ensures
        s@ == nat_decimal(n as nat),
{
    u64_decimal(n as u64)
}

/// Decides whether a reconnect needs a bounded refetch, and plans it.
pub fn plan_recovery(
    symbol: Symbol,
    timeframe: Timeframe,
    reconnect_attempts: u64,
    last_seen: Option<(i64, bool)>,
    stored_last: Option<i64>,
    required_context_closed: usize,
    available_context_closed: usize,
    first_event_open_time: i64,
    recovery_limit: usize,
) -> (r: Result<Option<RecoveryPlan>, String>)
    requires
        recovery_fits(timeframe, last_seen, stored_last, first_event_open_time),
    ensures
        match recovery_decision(
            symbol,
            timeframe,
            reconnect_attempts,
            last_seen,
            stored_last,
            required_context_closed,
            available_context_closed,
            first_event_open_time,
            recovery_limit,
        ) {
            Ok(None) => r matches Ok(None),
            Ok(Some((start, end, gap))) => r matches Ok(Some(p)) && p.fetch_request == (KlineRangeRequest {
                symbol,
                timeframe,
                start_open_time: start as i64,
                end_open_time: end as i64,
            }) && p.fetch_request.start_open_time == start && p.fetch_request.end_open_time == end
                && p.last_persisted_closed_open_time == recovery_anchor(stored_last, last_seen)->0
                && p.first_stream_open_time == timeframe.aligned(first_event_open_time as int)
                && p.gap_closed_candles == gap && p.required_context_closed == required_context_closed
                && p.available_context_closed == available_context_closed,
            Err(m) => r matches Err(e) && e@ == m,
        },
{
    if reconnect_attempts == 0 {
        return Ok(None);
    }
    let anchor = match stored_last {
        Some(t) => t,
        None => match last_seen {
            Some((t, closed)) => {
                if closed {
                    t
                } else {
                    return Err(String::from_str("missing persisted candle anchor during reconnect"));
                }
            },
            None => return Err(String::from_str("missing persisted candle anchor during reconnect")),
        },
    };
    let first = timeframe.align_open_time(first_event_open_time);
    let expected = match last_seen {
        Some((t, closed)) => if closed {
            timeframe.next_open_time(t)
        } else {
            timeframe.align_open_time(t)
        },
        None => timeframe.next_open_time(anchor),
    };
    if first <= expected {
        return Ok(None);
    }
    if available_context_closed < required_context_closed {
        let mut m = String::from_str("insufficient indicator context before reconnect gap: have ");
        let a = number_text(available_context_closed);
        append_str(&mut m, a.as_str());
        append_str(&mut m, ", need ");
        let b = number_text(required_context_closed);
        append_str(&mut m, b.as_str());
        return Err(m);
    }
    let start = timeframe.next_open_time(anchor);
    let end = first - timeframe.duration_ms();
    let gap = timeframe.count_open_times_between(start, end);
    if gap > recovery_limit {
        let mut m = String::from_str("gap requires ");
        let g = number_text(gap);
        append_str(&mut m, g.as_str());
        append_str(&mut m, " closed candles but recovery limit is ");
        let l = number_text(recovery_limit);
        append_str(&mut m, l.as_str());
        return Err(m);
    }
    Ok(
        Some(
            RecoveryPlan {
                fetch_request: KlineRangeRequest { symbol, timeframe, start_open_time: start, end_open_time: end },
                last_persisted_closed_open_time: anchor,
                first_stream_open_time: first,
                gap_closed_candles: gap,
                required_context_closed,
                available_context_closed,
            },
        ),
    )
}

/// A reconnect recovery is bounded: the first connection fetches nothing;
/// a planned refetch never exceeds the recovery limit and covers the range
/// from one duration after the anchor to one duration before the new
/// stream's first candle; without an anchor the reconnect fails.
pub proof fn lemma_recovery_is_bounded(
    symbol: Symbol,
    timeframe: Timeframe,
    reconnect_attempts: u64,
    last_seen: Option<(i64, bool)>,
    stored_last: Option<i64>,
    required_context_closed: usize,
    available_context_closed: usize,
    first_event_open_time: i64,
    recovery_limit: usize,
)
    ensures
        ({
            let d = recovery_decision(
                symbol,
                timeframe,
                reconnect_attempts,
                last_seen,
                stored_last,
                required_context_closed,
                available_context_closed,
                first_event_open_time,
                recovery_limit,
            );
            &&& reconnect_attempts == 0 ==> d == Ok::<Option<(int, int, int)>, Seq<char>>(None)
            &&& reconnect_attempts > 0 && recovery_anchor(stored_last, last_seen) is None ==> d is Err
            &&& d matches Ok(Some((start, end, gap))) ==> {
                &&& gap <= recovery_limit
                &&& available_context_closed >= required_context_closed
                &&& start == recovery_anchor(stored_last, last_seen)->0 + timeframe.millis()
                &&& end == timeframe.aligned(first_event_open_time as int) - timeframe.millis()
            }
        }),
{
}


/// The candles a rebuild merges: the stored ones, followed by the fetched
/// ones where a backfill ran.
pub open spec fn rebuild_keys(local: Seq<CandleKey>, fetched: Seq<CandleKey>, backfill: bool) -> Seq<CandleKey> {
    if backfill {
        local + fetched
    } else {
        local
    }
}

/// The merged series of a rebuild, as positions into its candles: the
/// merge of stored and fetched candles kept to the requested count where a
/// backfill ran, else the stored candles as they are.
pub open spec fn rebuild_merge(
    local: Seq<CandleKey>,
    fetched: Seq<CandleKey>,
    backfill: bool,
    requested: int,
) -> Seq<usize> {
    if backfill {
        merge_selection(local, fetched, requested)
    } else {
        Seq::new(local.len(), |i: int| i as usize)
    }
}

/// The closed window a rebuild computes the oscillator from, as positions
/// into its candles; or the window check's message where the merged series
/// does not hold the plan's exact window.
pub open spec fn rebuild_history(
    local: Seq<CandleKey>,
    fetched: Seq<CandleKey>,
    backfill: bool,
    plan: HistoryLoadPlan,
) -> Result<Seq<usize>, Seq<char>> {
    let mp = rebuild_merge(local, fetched, backfill, plan.requested_closed_candles as int);
    let merged = keys_at(rebuild_keys(local, fetched, backfill), mp);
    let sel = window_selection(merged, plan.symbol, plan.timeframe, plan.window);
    match window_problem(plan.timeframe, plan.window, keys_at(merged, sel)) {
        None => Ok(Seq::new(sel.len(), |k: int| mp[sel[k] as int])),
        Some(m) => Err(m),
    }
}

/// Whether `keys` are exactly the plan's window: as many candles as the
/// window expects, each of the plan's symbol and timeframe, closed, the
/// `k`-th opening `k` durations after the window's start, the last at the
/// window's end.
pub open spec fn window_exact(keys: Seq<CandleKey>, plan: HistoryLoadPlan) -> bool {
    &&& keys.len() == plan.window.expected_closed_candles
    &&& forall|k: int|
        0 <= k < keys.len() ==> {
            &&& (#[trigger] keys[k]).closed
            &&& keys[k].symbol == plan.symbol
            &&& keys[k].timeframe == plan.timeframe
            &&& keys[k].open_time == expected_open(plan.window, plan.timeframe, k)
        }
    &&& expected_open(plan.window, plan.timeframe, keys.len() as int) == plan.window.end_open_time
        + plan.timeframe.millis()
}

/// Assembles the closed window of a rebuild from the stored candles and,
/// where the plan asked for a backfill, the fetched ones: merged, selected
/// for the plan's window, and checked to be exactly that window; a failed
/// check is a history error.
pub fn assemble_history(
    local: &Vec<CandleKey>,
    fetched: &Vec<CandleKey>,
    backfill: bool,
    plan: &HistoryLoadPlan,
) -> (r: Result<Vec<usize>, AppError>)
    requires
        plan.window.end_open_time + plan.timeframe.millis() <= i64::MAX,
    ensures
        match rebuild_history(local@, fetched@, backfill, *plan) {
            Ok(s) => r is Ok && r->Ok_0@ == s,
            Err(m) => r is Err && r->Err_0 is History && r->Err_0->History_0@ == m,
        },
        r matches Ok(s) ==> window_exact(keys_at(rebuild_keys(local@, fetched@, backfill), s@), *plan),
{
    let ghost all_spec = rebuild_keys(local@, fetched@, backfill);
    let ghost mp_spec = rebuild_merge(local@, fetched@, backfill, plan.requested_closed_candles as int);
    let (merged, mp) = if backfill {
        let all = concat_keys(local, fetched);
        let m = merge_candles(local, fetched, plan.requested_closed_candles);
        (keys_at_exec(&all, &m), m)
    } else {
        let mut ident: Vec<usize> = Vec::new();
        let mut i: usize = 0;
        while i < local.len()
            invariant
                i <= local@.len(),
                ident@ == Seq::new(i as nat, |j: int| j as usize),
            decreases local@.len() - i,
        {
            ident.push(i);
            assert(ident@ =~= Seq::new((i + 1) as nat, |j: int| j as usize));
            i = i + 1;
        }
        assert(ident@ =~= Seq::new(local@.len(), |j: int| j as usize));
        (keys_at_exec(local, &ident), ident)
    };
    assert(mp@ == mp_spec);
    assert(merged@ == keys_at(all_spec, mp_spec));
    let sel = select_closed_window(&merged, plan.symbol, plan.timeframe, plan.window);
    let ghost firsts = window_firsts(merged@, plan.symbol, plan.timeframe, plan.window);
    let selected = keys_at_exec(&merged, &sel);
    proof {
        assert forall|k: int| 0 <= k < selected@.len() implies #[trigger] selected@[k].open_time
            + plan.timeframe.millis() <= i64::MAX by {
            assert(firsts[sel@[k] as int]);
            assert(in_window(merged@[sel@[k] as int], plan.symbol, plan.timeframe, plan.window));
        }
    }
    proof {
        lemma_steps_fit_is_stepped_fit(plan.timeframe, plan.window, selected@);
    }
    match validate_closed_window(plan.timeframe, plan.window, &selected) {
        Err(m) => Err(AppError::History(m)),
        Ok(()) => {
            let mut out: Vec<usize> = Vec::new();
            let mut k: usize = 0;
            while k < sel.len()
                invariant
                    k <= sel@.len(),
                    forall|a: int| 0 <= a < sel@.len() ==> #[trigger] sel@[a] < mp@.len(),
                    out@ == Seq::new(k as nat, |j: int| mp@[sel@[j] as int]),
                decreases sel@.len() - k,
            {
                out.push(mp[sel[k]]);
                assert(out@ =~= Seq::new((k + 1) as nat, |j: int| mp@[sel@[j] as int]));
                k = k + 1;
            }
            assert(out@ =~= Seq::new(sel@.len(), |j: int| mp@[sel@[j] as int]));
            proof {
                lemma_window_check_exact(plan.timeframe, plan.window, selected@);
                let keys = keys_at(all_spec, out@);
                assert forall|j: int| 0 <= j < keys.len() implies #[trigger] keys[j] == selected@[j] by {
                    assert(sel@[j] < merged@.len());
                }
                assert(keys =~= selected@);
                assert forall|j: int| 0 <= j < selected@.len() implies (#[trigger] selected@[j]).symbol == plan.symbol
                    && selected@[j].timeframe == plan.timeframe by {
                    assert(firsts[sel@[j] as int]);
                    assert(in_window(merged@[sel@[j] as int], plan.symbol, plan.timeframe, plan.window));
                }
                assert forall|j: int| 0 <= j < selected@.len() implies (#[trigger] selected@[j]).closed
                    && selected@[j].open_time == expected_open(plan.window, plan.timeframe, j) by {
                    assert(candle_as_expected(selected@, plan.window, plan.timeframe, j));
                }
            }
            Ok(out)
        },
    }
}


/// Whether a fetched candle can fill the recovery range: closed, and
/// opening within the range.
pub open spec fn in_recovery_range(k: CandleKey, request: KlineRangeRequest) -> bool {
    k.closed && request.start_open_time <= k.open_time <= request.end_open_time
}

/// For each fetched candle, whether it fills the range and no earlier one
/// that fills it has its open time.
pub open spec fn recovery_firsts(keys: Seq<CandleKey>, request: KlineRangeRequest) -> Seq<bool> {
    Seq::new(
        keys.len(),
        |i: int|
            in_recovery_range(keys[i], request) && forall|j: int|
                0 <= j < i && in_recovery_range(#[trigger] keys[j], request) ==> keys[j].open_time
                    != keys[i].open_time,
    )
}

/// The range of a recovery plan as a window of the gap's candles.
pub open spec fn recovery_window(plan: RecoveryPlan) -> HistoryWindow {
    HistoryWindow {
        start_open_time: plan.fetch_request.start_open_time,
        end_open_time: plan.fetch_request.end_open_time,
        expected_closed_candles: plan.gap_closed_candles,
    }
}

/// What is wrong with the recovered candles, if anything: another count
/// than the gap; else the first that does not open where the run from the
/// range's start asks.
pub open spec fn recovery_problem(timeframe: Timeframe, plan: RecoveryPlan, keys: Seq<CandleKey>) -> Option<Seq<char>> {
    if keys.len() != plan.gap_closed_candles {
        Some(
            "recovery window returned "@ + nat_decimal(keys.len()) + " candles but "@ + nat_decimal(
                plan.gap_closed_candles as nat,
            ) + " were required"@,
        )
    } else {
        match first_gap(keys, recovery_window(plan), timeframe, 0) {
            Some(k) => Some(
                "recovery window does not bridge gap at open_time "@ + int_decimal(
                    expected_open(recovery_window(plan), timeframe, k),
                ),
            ),
            None => None,
        }
    }
}

/// The recovered candles of a plan, as positions into the fetched ones:
/// those that fill the range, sorted by open time, the first of each open
/// time; or the problem that forces a hard resync.
pub open spec fn recovered_selection(timeframe: Timeframe, plan: RecoveryPlan, keys: Seq<CandleKey>) -> Result<
    Seq<usize>,
    Seq<char>,
> {
    let sel = sorted_selection(open_times(keys), recovery_firsts(keys, plan.fetch_request));
    match recovery_problem(timeframe, plan, keys_at(keys, sel)) {
        None => Ok(sel),
        Some(m) => Err(m),
    }
}

fn recovery_firsts_of(keys: &Vec<CandleKey>, request: KlineRangeRequest) -> (v: Vec<bool>)
    ensures
        v@ == recovery_firsts(keys@, request),
{
    let n = keys.len();
    let mut v: Vec<bool> = Vec::new();
    let mut i: usize = 0;
    while i < n
        invariant
            n == keys@.len(),
            i <= n,
            v@ == recovery_firsts(keys@, request).subrange(0, i as int),
        decreases n - i,
    {
        let k = keys[i];
        let mut first = k.closed && k.open_time >= request.start_open_time && k.open_time <= request.end_open_time;
        let mut j: usize = 0;
        while j < i && first
            invariant
                n == keys@.len(),
                j <= i < n,
                k == keys@[i as int],
                first ==> in_recovery_range(k, request),
                first ==> forall|m: int|
                    0 <= m < j && in_recovery_range(#[trigger] keys@[m], request) ==> keys@[m].open_time
                        != k.open_time,
                !first ==> !recovery_firsts(keys@, request)[i as int],
            decreases i - j,
        {
            let o = keys[j];
            if o.closed && o.open_time >= request.start_open_time && o.open_time <= request.end_open_time
                && o.open_time == k.open_time {
                first = false;
            }
            j = j + 1;
        }
        v.push(first);
        assert(v@ =~= recovery_firsts(keys@, request).subrange(0, i + 1));
        i = i + 1;
    }
    assert(v@ =~= recovery_firsts(keys@, request));
    v
}

/// Checks the candles fetched for a recovery plan: those that fill the
/// range, sorted by open time and of each open time the first, must be
/// exactly the gap's candles, one duration apart from the range's start.
pub fn check_recovered_candles(timeframe: Timeframe, plan: &RecoveryPlan, candles: &Vec<CandleKey>) -> (r: Result<
    Vec<usize>,
    String,
>)
    requires
        plan.fetch_request.end_open_time + timeframe.millis() <= i64::MAX,
    ensures
        match recovered_selection(timeframe, *plan, candles@) {
            Ok(s) => r is Ok && r->Ok_0@ == s,
            Err(m) => r is Err && r->Err_0@ == m,
        },
{
    let request = plan.fetch_request;
    let ots = open_times_of(candles);
    let firsts = recovery_firsts_of(candles, request);
    proof {
        assert forall|i: int, j: int|
            0 <= i < ots@.len() && 0 <= j < ots@.len() && i != j && firsts@[i] && firsts@[j] implies ots@[i]
            != ots@[j] by {
            if i < j {
                assert(in_recovery_range(candles@[i], request));
            } else {
                assert(in_recovery_range(candles@[j], request));
            }
        }
    }
    let sel = sort_eligible(&ots, &firsts);
    let selected = keys_at_exec(candles, &sel);
    let ghost w = recovery_window(*plan);
    if selected.len() != plan.gap_closed_candles {
        let mut m = String::from_str("recovery window returned ");
        let a = number_text(selected.len());
        append_str(&mut m, a.as_str());
        append_str(&mut m, " candles but ");
        let b = number_text(plan.gap_closed_candles);
        append_str(&mut m, b.as_str());
        append_str(&mut m, " were required");
        return Err(m);
    }
    let mut expected = request.start_open_time;
    let mut k: usize = 0;
    while k < selected.len()
        invariant
            k <= selected@.len(),
            w == recovery_window(*plan),
            request == plan.fetch_request,
            selected@ == keys_at(candles@, sel@),
            sel@ == sorted_selection(open_times(candles@), recovery_firsts(candles@, request)),
            selected@.len() == plan.gap_closed_candles,
            w.start_open_time == request.start_open_time,
            w.end_open_time == request.end_open_time,
            request.end_open_time + timeframe.millis() <= i64::MAX,
            expected == expected_open(w, timeframe, k as int),
            forall|a: int| 0 <= a < selected@.len() ==> (#[trigger] selected@[a]).closed
                && selected@[a].open_time <= request.end_open_time,
            first_gap(selected@, w, timeframe, 0) == first_gap(selected@, w, timeframe, k as int),
        decreases selected@.len() - k,
    {
        if selected[k].open_time != expected {
            assert(first_gap(selected@, w, timeframe, k as int) == Some(k as int));
            return Err(message_with_number("recovery window does not bridge gap at open_time ", expected));
        }
        assert(expected_open(w, timeframe, k + 1) == expected_open(w, timeframe, k as int) + timeframe.millis())
            by (nonlinear_arith);
        expected = timeframe.next_open_time(expected);
        k = k + 1;
    }
    Ok(sel)
}

/// The connection detail while a recovery plan is fetched:
/// `recovering <gap> closed candle(s) through <end>`.
pub fn recovery_progress_detail(plan: &RecoveryPlan) -> (s: String)
    ensures
        s@ == "recovering "@ + nat_decimal(plan.gap_closed_candles as nat) + " closed candle(s) through "@
            + int_decimal(plan.fetch_request.end_open_time as int),
{
    let mut s = String::from_str("recovering ");
    let g = number_text(plan.gap_closed_candles);
    append_str(&mut s, g.as_str());
    append_str(&mut s, " closed candle(s) through ");
    let e = i64_decimal(plan.fetch_request.end_open_time);
    append_str(&mut s, e.as_str());
    s
}

/// A reconnect after an unfinished candle refetches from its anchor: the
/// stream should resume at that candle's own aligned open time, so where
/// it resumes at a later candle, with enough context and a gap within the
/// limit, the plan fetches every closed candle from one duration after the
/// anchor to one duration before the stream's first candle.
pub proof fn lemma_unfinished_last_candle_is_refetched(
    symbol: Symbol,
    timeframe: Timeframe,
    reconnect_attempts: u64,
    last_open: i64,
    anchor: i64,
    required_context_closed: usize,
    available_context_closed: usize,
    first_event_open_time: i64,
    recovery_limit: usize,
)
    requires
        reconnect_attempts > 0,
        timeframe.aligned(first_event_open_time as int) > timeframe.aligned(last_open as int),
        available_context_closed >= required_context_closed,
        timeframe.open_times_between(
            anchor + timeframe.millis(),
            timeframe.aligned(first_event_open_time as int) - timeframe.millis(),
        ) <= recovery_limit,
    ensures
        recovery_decision(
            symbol,
            timeframe,
            reconnect_attempts,
            Some((last_open, false)),
            Some(anchor),
            required_context_closed,
            available_context_closed,
            first_event_open_time,
            recovery_limit,
        ) matches Ok(Some((start, end, gap))) && start == anchor + timeframe.millis() && end == timeframe.aligned(
            first_event_open_time as int,
        ) - timeframe.millis() && gap == timeframe.open_times_between(
            anchor + timeframe.millis(),
            timeframe.aligned(first_event_open_time as int) - timeframe.millis(),
        ),
{
    let n = timeframe.open_times_between(
        anchor + timeframe.millis(),
        timeframe.aligned(first_event_open_time as int) - timeframe.millis(),
    );
    assert(n >= 0) by (nonlinear_arith)
        requires
            n == timeframe.open_times_between(
                anchor + timeframe.millis(),
                timeframe.aligned(first_event_open_time as int) - timeframe.millis(),
            ),
            timeframe.millis() > 0,
    {
        let s = anchor + timeframe.millis();
        let e = timeframe.aligned(first_event_open_time as int) - timeframe.millis();
        if e >= s {
            assert((e - s) / timeframe.millis() >= 0);
        }
    }
}


/// A reconnect after a closed candle, with no stored anchor, takes that
/// candle as its anchor: a stream that resumes at the next candle or
/// earlier needs nothing; one that resumes later, with enough context and
/// a gap within the limit, refetches every closed candle in between.
pub proof fn lemma_closed_last_candle_anchors_recovery(
    symbol: Symbol,
    timeframe: Timeframe,
    reconnect_attempts: u64,
    last_open: i64,
    required_context_closed: usize,
    available_context_closed: usize,
    first_event_open_time: i64,
    recovery_limit: usize,
)
    requires
        reconnect_attempts > 0,
    ensures
        ({
            let d = recovery_decision(
                symbol,
                timeframe,
                reconnect_attempts,
                Some((last_open, true)),
                None,
                required_context_closed,
                available_context_closed,
                first_event_open_time,
                recovery_limit,
            );
            let first = timeframe.aligned(first_event_open_time as int);
            let start = last_open + timeframe.millis();
            let end = first - timeframe.millis();
            &&& first <= last_open + timeframe.millis() ==> d == Ok::<Option<(int, int, int)>, Seq<char>>(None)
            &&& (first > last_open + timeframe.millis() && available_context_closed >= required_context_closed
                && timeframe.open_times_between(start, end) <= recovery_limit) ==> d == Ok::<
                Option<(int, int, int)>,
                Seq<char>,
            >(Some((start, end, timeframe.open_times_between(start, end))))
        }),
{
    let start = last_open + timeframe.millis();
    let end = timeframe.aligned(first_event_open_time as int) - timeframe.millis();
    if end >= start {
        assert((end - start) / timeframe.millis() >= 0) by (nonlinear_arith)
            requires
                end >= start,
                timeframe.millis() > 0,
        ;
    }
}

} // verus!
