//! The reference price that mainnet limit orders are judged against: taken
//! from the last market candle while it is fresh, else fetched from the
//! exchange, and marked stale or failed when neither can be trusted.

use vstd::prelude::*;

use crate::decimal::{
    decimal_to_exchange_string, exchange_text, lemma_positive_iff_mantissa, parse_decimal_or_zero, parts_or_zero,
};
use crate::execution::{clone_opt_string, sat_sub, saturating_sub_i64};
use crate::live::{LiveBlockingReason, LiveEnvironment};
use crate::market::{ConnectionStatus, Symbol, Timeframe};
use crate::orders::LiveReferencePriceSnapshot;
use crate::text::concat_str;

verus! {

/// A reference price and the snapshot it came from; the reason is set where
/// the price must not be used.
#[derive(Debug, PartialEq, Eq)]
pub struct ReferencePriceResolution {
    pub price: (i128, u32),
    pub snapshot: Option<LiveReferencePriceSnapshot>,
    pub blocking_reason: Option<LiveBlockingReason>,
}

/// `a + b`, clamped to the range of `i64` (`i64::saturating_add`).
pub open spec fn sat_add(a: i64, b: i64) -> int {
    let s = a + b;
    if s > i64::MAX {
        i64::MAX as int
    } else if s < i64::MIN {
        i64::MIN as int
    } else {
        s
    }
}

fn saturating_add_i64(a: i64, b: i64) -> (r: i64)
    ensures
        r == sat_add(a, b),
{
    let s = a as i128 + b as i128;
    if s > i64::MAX as i128 {
        i64::MAX
    } else if s < i64::MIN as i128 {
        i64::MIN
    } else {
        s as i64
    }
}

/// The price a snapshot holds: its text read as a decimal, zero where it is
/// absent or refused.
pub open spec fn snapshot_price(s: LiveReferencePriceSnapshot) -> (i128, u32) {
    match s.price {
        Some(p) => parts_or_zero(p@),
        None => (0i128, 0u32),
    }
}

fn snapshot_price_of(s: &LiveReferencePriceSnapshot) -> (p: (i128, u32))
    ensures
        p == snapshot_price(*s),
{
    match &s.price {
        Some(t) => parse_decimal_or_zero(t.as_str()),
        None => (0, 0),
    }
}

/// Whether the candle's price is fresh: above zero, and either a stream
/// message arrived within the time-to-live or the candle closed less than
/// two durations ago.
pub open spec fn candle_price_fresh(
    price: (i128, u32),
    close_time: i64,
    last_message_time: Option<i64>,
    timeframe: Timeframe,
    ttl_ms: i64,
    now_ms: i64,
) -> bool {
    let observed = match last_message_time {
        Some(t) => t,
        None => close_time,
    };
    &&& price.0 > 0
    &&& (last_message_time is Some && sat_sub(now_ms, observed) <= ttl_ms) || now_ms <= sat_add(
        close_time,
        (2 * timeframe.millis()) as i64,
    )
}

/// Whether `s` is the snapshot of the last market candle: its close price
/// (text), observed at the last stream message or else at the candle's
/// close, stale unless fresh.
pub open spec fn internal_snapshot_holds(
    s: LiveReferencePriceSnapshot,
    environment: LiveEnvironment,
    symbol: Symbol,
    close_text: Seq<char>,
    close_time: i64,
    last_message_time: Option<i64>,
    timeframe: Timeframe,
    ttl_ms: i64,
    now_ms: i64,
) -> bool {
    let price = parts_or_zero(close_text);
    let observed = match last_message_time {
        Some(t) => t,
        None => close_time,
    };
    let fresh = candle_price_fresh(price, close_time, last_message_time, timeframe, ttl_ms, now_ms);
    &&& s.environment == environment
    &&& s.symbol == symbol
    &&& (if price.0 > 0 { s.price is Some && s.price->0@ == exchange_text(price) } else { s.price is None })
    &&& s.source is Some && s.source->0@ == "internal_market_candle"@
    &&& s.observed_at == Some(observed)
    &&& s.fetched_at == Some(observed)
    &&& s.age_ms == Some(sat_sub(now_ms, observed) as i64)
    &&& s.stale == !fresh
    &&& (if fresh { s.failure_reason is None } else { s.failure_reason is Some && s.failure_reason->0@
        == "reference_price_stale"@ })
    &&& s.blocking_reason == if fresh { None } else { Some(LiveBlockingReason::ReferencePriceStale) }
}

/// The reference snapshot of the last market candle of the active symbol,
/// whose close price the caller hands in as text.
pub fn internal_reference_snapshot(
    environment: LiveEnvironment,
    symbol: Symbol,
    close_text: &str,
    close_time: i64,
    last_message_time: Option<i64>,
    timeframe: Timeframe,
    ttl_ms: i64,
    now_ms: i64,
) -> (s: LiveReferencePriceSnapshot)
    ensures
        internal_snapshot_holds(
            s,
            environment,
            symbol,
            close_text@,
            close_time,
            last_message_time,
            timeframe,
            ttl_ms,
            now_ms,
        ),
{
    let price = parse_decimal_or_zero(close_text);
    proof {
        lemma_positive_iff_mantissa(price);
    }
    let positive = price.0 > 0;
    let observed = match last_message_time {
        Some(t) => t,
        None => close_time,
    };
    let age = saturating_sub_i64(now_ms, observed);
    let fresh_by_stream = last_message_time.is_some() && age <= ttl_ms;
    let window = timeframe.duration_ms() * 2;
    let fresh_by_candle = positive && now_ms <= saturating_add_i64(close_time, window);
    let fresh = positive && (fresh_by_stream || fresh_by_candle);
    LiveReferencePriceSnapshot {
        environment,
        symbol,
        price: if positive { Some(decimal_to_exchange_string(price)) } else { None },
        source: Some(String::from_str("internal_market_candle")),
        observed_at: Some(observed),
        fetched_at: Some(observed),
        age_ms: Some(age),
        stale: !fresh,
        failure_reason: if fresh { None } else { Some(String::from_str("reference_price_stale")) },
        blocking_reason: if fresh { None } else { Some(LiveBlockingReason::ReferencePriceStale) },
    }
}

fn clone_snapshot(s: &LiveReferencePriceSnapshot) -> (c: LiveReferencePriceSnapshot)
    ensures
        c == *s,
{
    LiveReferencePriceSnapshot {
        environment: s.environment,
        symbol: s.symbol,
        price: clone_opt_string(&s.price),
        source: clone_opt_string(&s.source),
        observed_at: s.observed_at,
        fetched_at: s.fetched_at,
        age_ms: s.age_ms,
        stale: s.stale,
        failure_reason: clone_opt_string(&s.failure_reason),
        blocking_reason: s.blocking_reason,
    }
}

/// The resolution from the candle's snapshot, where no refresh is forced
/// and the snapshot is fresh: its price, with nothing blocking.
pub fn reuse_internal_reference(internal: &Option<LiveReferencePriceSnapshot>, force_refresh: bool) -> (r: Option<
    ReferencePriceResolution,
>)
    ensures
        r is Some <==> (!force_refresh && internal is Some && !internal->0.stale),
        r matches Some(res) ==> res.price == snapshot_price(internal->0) && res.snapshot == *internal
            && res.blocking_reason is None,
{
    if force_refresh {
        return None;
    }
    match internal {
        Some(s) => {
            if s.stale {
                None
            } else {
                Some(
                    ReferencePriceResolution {
                        price: snapshot_price_of(s),
                        snapshot: Some(clone_snapshot(s)),
                        blocking_reason: None,
                    },
                )
            }
        },
        None => None,
    }
}

/// Whether `r` settles the snapshot the exchange returned: the environment
/// and symbol asked for, fetched now where the exchange gave no time,
/// observed when fetched where it gave none, stale where its price is not
/// above zero or older than the time-to-live.
pub open spec fn fetched_resolution_holds(
    r: ReferencePriceResolution,
    fetched: LiveReferencePriceSnapshot,
    environment: LiveEnvironment,
    symbol: Symbol,
    ttl_ms: i64,
    now_ms: i64,
) -> bool {
    let fetched_at = match fetched.fetched_at {
        Some(t) => t,
        None => now_ms,
    };
    let observed_at = match fetched.observed_at {
        Some(t) => t,
        None => fetched_at,
    };
    let age = sat_sub(now_ms, observed_at);
    let price = snapshot_price(fetched);
    let stale = price.0 <= 0 || age > ttl_ms;
    &&& r.price == price
    &&& r.snapshot == Some(
        LiveReferencePriceSnapshot {
            environment,
            symbol,
            fetched_at: Some(fetched_at),
            observed_at: Some(observed_at),
            age_ms: Some(age as i64),
            stale,
            failure_reason: r.snapshot->0.failure_reason,
            blocking_reason: r.blocking_reason,
            ..fetched
        },
    )
    &&& (if stale {
        &&& r.snapshot->0.failure_reason is Some
        &&& r.snapshot->0.failure_reason->0@ == "reference_price_stale"@
        &&& r.blocking_reason == Some(LiveBlockingReason::ReferencePriceStale)
    } else {
        r.snapshot->0.failure_reason is None && r.blocking_reason is None
    })
}

/// Settles the snapshot the exchange returned for `environment` and
/// `symbol`: fills in the times it lacks, its age, and whether it is stale.
pub fn settle_fetched_reference(
    fetched: LiveReferencePriceSnapshot,
    environment: LiveEnvironment,
    symbol: Symbol,
    ttl_ms: i64,
    now_ms: i64,
) -> (r: ReferencePriceResolution)
    ensures
        fetched_resolution_holds(r, fetched, environment, symbol, ttl_ms, now_ms),
{
    let mut snapshot = fetched;
    let fetched_at = match snapshot.fetched_at {
        Some(t) => t,
        None => now_ms,
    };
    let observed_at = match snapshot.observed_at {
        Some(t) => t,
        None => fetched_at,
    };
    let age = saturating_sub_i64(now_ms, observed_at);
    let price = snapshot_price_of(&snapshot);
    proof {
        lemma_positive_iff_mantissa(price);
    }
    let stale = price.0 <= 0 || age > ttl_ms;
    snapshot.environment = environment;
    snapshot.symbol = symbol;
    snapshot.fetched_at = Some(fetched_at);
    snapshot.observed_at = Some(observed_at);
    snapshot.age_ms = Some(age);
    snapshot.stale = stale;
    if stale {
        snapshot.failure_reason = Some(String::from_str("reference_price_stale"));
        snapshot.blocking_reason = Some(LiveBlockingReason::ReferencePriceStale);
    } else {
        snapshot.failure_reason = None;
        snapshot.blocking_reason = None;
    }
    let blocking_reason = snapshot.blocking_reason;
    ReferencePriceResolution { price, blocking_reason, snapshot: Some(snapshot) }
}

/// Whether `r` answers a failed fetch: the candle's snapshot where there is
/// one, else an empty one from the mark-price source fetched now; marked
/// stale with `reference_price_source_failed: <error>`, blocked as a failed
/// source where it holds a price and as unavailable where it does not.
pub open spec fn failed_resolution_holds(
    r: ReferencePriceResolution,
    internal: Option<LiveReferencePriceSnapshot>,
    environment: LiveEnvironment,
    symbol: Symbol,
    error: Seq<char>,
    now_ms: i64,
) -> bool {
    let base = match internal {
        Some(s) => s,
        None => LiveReferencePriceSnapshot {
            environment,
            symbol,
            price: None,
            source: r.snapshot->0.source,
            observed_at: None,
            fetched_at: Some(now_ms),
            age_ms: None,
            stale: true,
            failure_reason: None,
            blocking_reason: None,
        },
    };
    let reason = if base.price is Some {
        LiveBlockingReason::ReferencePriceSourceFailed
    } else {
        LiveBlockingReason::ReferencePriceUnavailable
    };
    &&& internal is None ==> r.snapshot->0.source is Some && r.snapshot->0.source->0@ == "rest_mark_price"@
    &&& r.snapshot == Some(
        LiveReferencePriceSnapshot {
            stale: true,
            failure_reason: r.snapshot->0.failure_reason,
            blocking_reason: Some(reason),
            ..base
        },
    )
    &&& r.snapshot->0.failure_reason is Some
    &&& r.snapshot->0.failure_reason->0@ == "reference_price_source_failed: "@ + error
    &&& r.blocking_reason == Some(reason)
    &&& r.price == snapshot_price(base)
}

/// The resolution when fetching the reference price failed with `error`.
pub fn reference_fetch_failed(
    internal: Option<LiveReferencePriceSnapshot>,
    environment: LiveEnvironment,
    symbol: Symbol,
    error: &str,
    now_ms: i64,
) -> (r: ReferencePriceResolution)
    ensures
        failed_resolution_holds(r, internal, environment, symbol, error@, now_ms),
{
    let mut snapshot = match internal {
        Some(s) => s,
        None => LiveReferencePriceSnapshot {
            environment,
            symbol,
            price: None,
            source: Some(String::from_str("rest_mark_price")),
            observed_at: None,
            fetched_at: Some(now_ms),
            age_ms: None,
            stale: true,
            failure_reason: Some(String::from_str("reference_price_unavailable")),
            blocking_reason: Some(LiveBlockingReason::ReferencePriceUnavailable),
        },
    };
    let reason = if snapshot.price.is_some() {
        LiveBlockingReason::ReferencePriceSourceFailed
    } else {
        LiveBlockingReason::ReferencePriceUnavailable
    };
    let price = snapshot_price_of(&snapshot);
    snapshot.stale = true;
    snapshot.failure_reason = Some(concat_str("reference_price_source_failed: ", error));
    snapshot.blocking_reason = Some(reason);
    ReferencePriceResolution { price, snapshot: Some(snapshot), blocking_reason: Some(reason) }
}


/// When the reference price was last observed for `symbol`: at the last
/// stream message, else at the close of the last candle, where the last
/// candle is of that symbol.
pub open spec fn observed_at_for(last_candle: Option<(Symbol, i64)>, symbol: Symbol, last_message_time: Option<i64>) -> Option<
    i64,
> {
    match last_candle {
        Some((s, close_time)) => if s == symbol {
            Some(
                match last_message_time {
                    Some(t) => t,
                    None => close_time,
                },
            )
        } else {
            None
        },
        None => None,
    }
}

/// Whether a mainnet preview must fetch a fresh reference price: the kill
/// switch was released, or the stream is reconnecting, stale or resynced
/// since, no later than the price was observed (or no price was).
pub open spec fn refresh_needed(
    environment: LiveEnvironment,
    observed_at: Option<i64>,
    released_at: Option<i64>,
    status: ConnectionStatus,
    status_since: Option<i64>,
) -> bool {
    let after = |t: i64| match observed_at {
        Some(o) => t >= o,
        None => true,
    };
    let released_after = match released_at {
        Some(r) => after(r),
        None => false,
    };
    let reconnect_after = (status == ConnectionStatus::Reconnecting || status == ConnectionStatus::Stale || status
        == ConnectionStatus::Resynced) && match status_since {
        Some(t) => after(t),
        None => false,
    };
    environment == LiveEnvironment::Mainnet && (released_after || reconnect_after)
}

/// Decides whether a preview's reference price must be fetched afresh.
pub fn preview_needs_refresh(
    environment: LiveEnvironment,
    last_candle: Option<(Symbol, i64)>,
    symbol: Symbol,
    last_message_time: Option<i64>,
    released_at: Option<i64>,
    status: ConnectionStatus,
    status_since: Option<i64>,
) -> (b: bool)
    ensures
        b == refresh_needed(
            environment,
            observed_at_for(last_candle, symbol, last_message_time),
            released_at,
            status,
            status_since,
        ),
{
    if environment != LiveEnvironment::Mainnet {
        return false;
    }
    let observed = match last_candle {
        Some((s, close_time)) => if s == symbol {
            Some(
                match last_message_time {
                    Some(t) => t,
                    None => close_time,
                },
            )
        } else {
            None
        },
        None => None,
    };
    let released_after = match released_at {
        Some(r) => match observed {
            Some(o) => r >= o,
            None => true,
        },
        None => false,
    };
    let reconnecting = status == ConnectionStatus::Reconnecting || status == ConnectionStatus::Stale || status
        == ConnectionStatus::Resynced;
    let reconnect_after = reconnecting && match status_since {
        Some(t) => match observed {
            Some(o) => t >= o,
            None => true,
        },
        None => false,
    };
    released_after || reconnect_after
}
/// Whether a resolved reference price counts as fresh for a preview:
/// nothing blocks it, and its snapshot has a price and is not stale.
pub fn resolution_is_fresh(r: &ReferencePriceResolution) -> (b: bool)
    ensures
        b == (r.blocking_reason is None && match r.snapshot {
            Some(s) => !s.stale && s.price is Some,
            None => false,
        }),
{
    if r.blocking_reason.is_some() {
        return false;
    }
    match &r.snapshot {
        Some(s) => !s.stale && s.price.is_some(),
        None => false,
    }
}

} // verus!
