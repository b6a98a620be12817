//! Market identifiers: quote assets, symbols, timeframes and the small
//! enums and records of the paper runtime.

use vstd::prelude::*;

use crate::text::{chars_eq_str, chars_of, concat_str};

verus! {

/// The quote asset of a supported symbol.
#[derive(Debug, Clone, Copy, PartialEq, Eq, Structural, PartialOrd, Ord, Hash)]
pub enum QuoteAsset {
    Usdt,
    Usdc,
}

impl QuoteAsset {
    /// The exchange code of the asset.
    pub open spec fn text(self) -> Seq<char> {
        match self {
            QuoteAsset::Usdt => "USDT"@,
            QuoteAsset::Usdc => "USDC"@,
        }
    }

    /// The exchange code of the asset.
    pub fn as_str(self) -> (s: &'static str)
        ensures
            s@ == self.text(),
    {
        match self {
            QuoteAsset::Usdt => "USDT",
            QuoteAsset::Usdc => "USDC",
        }
    }

    /// The value that the text `s` names, if any.
    pub open spec fn from_text(s: Seq<char>) -> Option<QuoteAsset> {
        let t = s;
        if t == "USDT"@ {
            Some(QuoteAsset::Usdt)
        } else if t == "USDC"@ {
            Some(QuoteAsset::Usdc)
        } else {
            None
        }
    }

    /// Parses the text form of the value.
    pub fn parse(value: &str) -> (r: Result<QuoteAsset, String>)
        ensures
            match QuoteAsset::from_text(value@) {
                Some(x) => r == Ok::<QuoteAsset, String>(x),
                None => r is Err && r->Err_0@ == "unsupported quote asset: "@ + value@,
            },
    {
        let v = chars_of(value);
        if chars_eq_str(&v, "USDT") {
            Ok(QuoteAsset::Usdt)
        } else if chars_eq_str(&v, "USDC") {
            Ok(QuoteAsset::Usdc)
        } else {
            Err(concat_str("unsupported quote asset: ", value))
        }
    }
}

impl std::str::FromStr for QuoteAsset {
    type Err = String;

    fn from_str(value: &str) -> (r: Result<QuoteAsset, String>)
        ensures
            match QuoteAsset::from_text(value@) {
                Some(x) => r == Ok::<QuoteAsset, String>(x),
                None => r is Err && r->Err_0@ == "unsupported quote asset: "@ + value@,
            },
    {
        QuoteAsset::parse(value)
    }
}

/// A futures symbol that the dashboard trades.
#[derive(Debug, Clone, Copy, PartialEq, Eq, Structural, PartialOrd, Ord, Hash)]
pub enum Symbol {
    BtcUsdt,
    BtcUsdc,
}

impl Symbol {
    /// The exchange code of the symbol.
    pub open spec fn text(self) -> Seq<char> {
        match self {
            Symbol::BtcUsdt => "BTCUSDT"@,
            Symbol::BtcUsdc => "BTCUSDC"@,
        }
    }

    /// The exchange code of the symbol.
    pub fn as_str(self) -> (s: &'static str)
        ensures
            s@ == self.text(),
    {
        match self {
            Symbol::BtcUsdt => "BTCUSDT",
            Symbol::BtcUsdc => "BTCUSDC",
        }
    }

    /// The value that the text `s` names, if any.
    pub open spec fn from_text(s: Seq<char>) -> Option<Symbol> {
        let t = s;
        if t == "BTCUSDT"@ {
            Some(Symbol::BtcUsdt)
        } else if t == "BTCUSDC"@ {
            Some(Symbol::BtcUsdc)
        } else {
            None
        }
    }

    /// Parses the text form of the value.
    pub fn parse(value: &str) -> (r: Result<Symbol, String>)
        ensures
            match Symbol::from_text(value@) {
                Some(x) => r == Ok::<Symbol, String>(x),
                None => r is Err && r->Err_0@ == "unsupported symbol: "@ + value@,
            },
    {
        let v = chars_of(value);
        if chars_eq_str(&v, "BTCUSDT") {
            Ok(Symbol::BtcUsdt)
        } else if chars_eq_str(&v, "BTCUSDC") {
            Ok(Symbol::BtcUsdc)
        } else {
            Err(concat_str("unsupported symbol: ", value))
        }
    }
}

impl std::str::FromStr for Symbol {
    type Err = String;

    fn from_str(value: &str) -> (r: Result<Symbol, String>)
        ensures
            match Symbol::from_text(value@) {
                Some(x) => r == Ok::<Symbol, String>(x),
                None => r is Err && r->Err_0@ == "unsupported symbol: "@ + value@,
            },
    {
        Symbol::parse(value)
    }
}


/// The symbols that may be configured.
pub const ALLOWED_SYMBOLS: [Symbol; 2] = [Symbol::BtcUsdt, Symbol::BtcUsdc];

impl Symbol {
    /// The quote asset in which the symbol settles.
    pub open spec fn quote(self) -> QuoteAsset {
        match self {
            Symbol::BtcUsdt => QuoteAsset::Usdt,
            Symbol::BtcUsdc => QuoteAsset::Usdc,
        }
    }

    /// The quote asset in which the symbol settles.
    pub fn quote_asset(self) -> (q: QuoteAsset)
        ensures
            q == self.quote(),
    {
        match self {
            Symbol::BtcUsdt => QuoteAsset::Usdt,
            Symbol::BtcUsdc => QuoteAsset::Usdc,
        }
    }
}

/// A candle interval.
#[derive(Debug, Clone, Copy, PartialEq, Eq, Structural)]
pub enum Timeframe {
    M1,
    M5,
    M15,
    H1,
}

impl Timeframe {
    /// The interval code used by the exchange.
    pub open spec fn text(self) -> Seq<char> {
        match self {
            Timeframe::M1 => "1m"@,
            Timeframe::M5 => "5m"@,
            Timeframe::M15 => "15m"@,
            Timeframe::H1 => "1h"@,
        }
    }

    /// The interval code used by the exchange.
    pub fn as_str(self) -> (s: &'static str)
        ensures
            s@ == self.text(),
    {
        match self {
            Timeframe::M1 => "1m",
            Timeframe::M5 => "5m",
            Timeframe::M15 => "15m",
            Timeframe::H1 => "1h",
        }
    }

    /// The value that the text `s` names, if any.
    pub open spec fn from_text(s: Seq<char>) -> Option<Timeframe> {
        let t = s;
        if t == "1m"@ {
            Some(Timeframe::M1)
        } else if t == "5m"@ {
            Some(Timeframe::M5)
        } else if t == "15m"@ {
            Some(Timeframe::M15)
        } else if t == "1h"@ {
            Some(Timeframe::H1)
        } else {
            None
        }
    }

    /// Parses the text form of the value.
    pub fn parse(value: &str) -> (r: Result<Timeframe, String>)
        ensures
            match Timeframe::from_text(value@) {
                Some(x) => r == Ok::<Timeframe, String>(x),
                None => r is Err && r->Err_0@ == "unsupported timeframe: "@ + value@,
            },
    {
        let v = chars_of(value);
        if chars_eq_str(&v, "1m") {
            Ok(Timeframe::M1)
        } else if chars_eq_str(&v, "5m") {
            Ok(Timeframe::M5)
        } else if chars_eq_str(&v, "15m") {
            Ok(Timeframe::M15)
        } else if chars_eq_str(&v, "1h") {
            Ok(Timeframe::H1)
        } else {
            Err(concat_str("unsupported timeframe: ", value))
        }
    }
}

impl std::str::FromStr for Timeframe {
    type Err = String;

    fn from_str(value: &str) -> (r: Result<Timeframe, String>)
        ensures
            match Timeframe::from_text(value@) {
                Some(x) => r == Ok::<Timeframe, String>(x),
                None => r is Err && r->Err_0@ == "unsupported timeframe: "@ + value@,
            },
    {
        Timeframe::parse(value)
    }
}


impl Timeframe {
    /// The length of one candle in milliseconds.
    pub open spec fn millis(self) -> int {
        match self {
            Timeframe::M1 => 60_000,
            Timeframe::M5 => 300_000,
            Timeframe::M15 => 900_000,
            Timeframe::H1 => 3_600_000,
        }
    }

    /// The length of one candle in milliseconds.
    pub fn duration_ms(self) -> (d: i64)
        ensures
            d == self.millis(),
            d > 0,
    {
        match self {
            Timeframe::M1 => 60_000,
            Timeframe::M5 => 300_000,
            Timeframe::M15 => 900_000,
            Timeframe::H1 => 3_600_000,
        }
    }

    /// The open time of the candle that contains `timestamp`: the greatest
    /// multiple of the duration that is not after it.
    pub open spec fn aligned(self, timestamp: int) -> int {
        timestamp - timestamp % self.millis()
    }

    /// The open time of the candle that contains `timestamp`.
    #[verifier::rlimit(60)]
    pub fn align_open_time(self, timestamp: i64) -> (t: i64)
        requires
            self.aligned(timestamp as int) >= i64::MIN,
        ensures
            t == self.aligned(timestamp as int),
            (t as int) % self.millis() == 0,
            t <= timestamp < t + self.millis(),
    {
        let duration = self.duration_ms();
        let rem = if timestamp >= 0 {
            timestamp % duration
        } else {
            let a = -(timestamp + 1);
            let m = a % duration;
            proof {
                let d = duration as int;
                let q = a as int / d;
                assert(a as int == q * d + m) by (nonlinear_arith)
                    requires d > 0, q == a as int / d, m == a as int % d, a >= 0;
                assert(timestamp as int == (-(q + 1)) * d + (d - 1 - m)) by (nonlinear_arith)
                    requires a as int == q * d + m, timestamp as int == -(a as int) - 1;
                assert((timestamp as int) % d == d - 1 - m) by {
                    vstd::arithmetic::div_mod::lemma_fundamental_div_mod_converse(
                        timestamp as int, d, -(q + 1), d - 1 - m);
                }
            }
            duration - 1 - m
        };
        timestamp - rem
    }

    /// The last millisecond of the candle that opens at `open_time`.
    pub fn close_time_for_open(self, open_time: i64) -> (t: i64)
        requires
            open_time + self.millis() <= i64::MAX,
        ensures
            t == open_time + self.millis() - 1,
    {
        open_time + self.duration_ms() - 1
    }

    /// The open time of the candle after the one that opens at `open_time`.
    pub fn next_open_time(self, open_time: i64) -> (t: i64)
        requires
            open_time + self.millis() <= i64::MAX,
        ensures
            t == open_time + self.millis(),
    {
        open_time + self.duration_ms()
    }

    /// How many candle open times lie from `start` to `end`, both counted,
    /// stepping by the duration; zero when `end` is before `start`.
    pub open spec fn open_times_between(self, start: int, end: int) -> int {
        if end < start {
            0
        } else {
            (end - start) / self.millis() + 1
        }
    }

    /// How many candle open times lie from `start_open_time` to
    /// `end_open_time`, both counted.
    pub fn count_open_times_between(self, start_open_time: i64, end_open_time: i64) -> (n: usize)
        requires
            end_open_time - start_open_time <= i64::MAX,
        ensures
            n == self.open_times_between(start_open_time as int, end_open_time as int) as usize,
    {
        if end_open_time < start_open_time {
            return 0;
        }
        let d = self.duration_ms();
        let q = (end_open_time - start_open_time) / d;
        (q + 1) as usize
    }
}

/// How the Average Sentiment Oscillator combines intrabar and group readings.
#[derive(Debug, Clone, Copy, PartialEq, Eq, Structural)]
pub enum AsoMode {
    Intrabar,
    Group,
    Both,
}

impl AsoMode {
    /// The wire code of the value.
    pub open spec fn text(self) -> Seq<char> {
        match self {
            AsoMode::Intrabar => "intrabar"@,
            AsoMode::Group => "group"@,
            AsoMode::Both => "both"@,
        }
    }

    /// The wire code of the value.
    pub fn as_str(self) -> (s: &'static str)
        ensures
            s@ == self.text(),
    {
        match self {
            AsoMode::Intrabar => "intrabar",
            AsoMode::Group => "group",
            AsoMode::Both => "both",
        }
    }
}


/// How many closed candles the oscillator needs before it produces a value:
/// `length` in intrabar mode, `2 * length - 1` (never below zero) otherwise.
pub open spec fn warmup_candles(length: int, mode: AsoMode) -> int {
    match mode {
        AsoMode::Intrabar => length,
        _ => if 2 * length >= 1 { 2 * length - 1 } else { 0 },
    }
}

/// How many closed candles the oscillator needs before it produces a value.
pub fn warmup_candles_required(length: usize, mode: AsoMode) -> (n: usize)
    requires
        mode != AsoMode::Intrabar ==> 2 * length <= usize::MAX,
    ensures
        n == warmup_candles(length as int, mode),
{
    match mode {
        AsoMode::Intrabar => length,
        _ => if length == 0 { 0 } else { length * 2 - 1 },
    }
}

/// The direction of a crossover signal.
#[derive(Debug, Clone, Copy, PartialEq, Eq, Structural)]
pub enum SignalSide {
    Buy,
    Sell,
}

impl SignalSide {
    /// The wire code of the value.
    pub open spec fn text(self) -> Seq<char> {
        match self {
            SignalSide::Buy => "buy"@,
            SignalSide::Sell => "sell"@,
        }
    }

    /// The wire code of the value.
    pub fn as_str(self) -> (s: &'static str)
        ensures
            s@ == self.text(),
    {
        match self {
            SignalSide::Buy => "buy",
            SignalSide::Sell => "sell",
        }
    }
}

/// The direction of a paper position.
#[derive(Debug, Clone, Copy, PartialEq, Eq, Structural)]
pub enum PositionSide {
    Long,
    Short,
}

impl PositionSide {
    /// The wire code of the value.
    pub open spec fn text(self) -> Seq<char> {
        match self {
            PositionSide::Long => "long"@,
            PositionSide::Short => "short"@,
        }
    }

    /// The wire code of the value.
    pub fn as_str(self) -> (s: &'static str)
        ensures
            s@ == self.text(),
    {
        match self {
            PositionSide::Long => "long",
            PositionSide::Short => "short",
        }
    }
}

/// What a paper trade did to the position.
#[derive(Debug, Clone, Copy, PartialEq, Eq, Structural)]
pub enum TradeAction {
    Open,
    Close,
    Reverse,
}

impl TradeAction {
    /// The wire code of the value.
    pub open spec fn text(self) -> Seq<char> {
        match self {
            TradeAction::Open => "open"@,
            TradeAction::Close => "close"@,
            TradeAction::Reverse => "reverse"@,
        }
    }

    /// The wire code of the value.
    pub fn as_str(self) -> (s: &'static str)
        ensures
            s@ == self.text(),
    {
        match self {
            TradeAction::Open => "open",
            TradeAction::Close => "close",
            TradeAction::Reverse => "reverse",
        }
    }
}

/// What caused a paper trade.
#[derive(Debug, Clone, Copy, PartialEq, Eq, Structural)]
pub enum TradeSource {
    Signal,
    Manual,
}

impl TradeSource {
    /// The wire code of the value.
    pub open spec fn text(self) -> Seq<char> {
        match self {
            TradeSource::Signal => "signal"@,
            TradeSource::Manual => "manual"@,
        }
    }

    /// The wire code of the value.
    pub fn as_str(self) -> (s: &'static str)
        ensures
            s@ == self.text(),
    {
        match self {
            TradeSource::Signal => "signal",
            TradeSource::Manual => "manual",
        }
    }
}

/// How paper positions are sized.
#[derive(Debug, Clone, Copy, PartialEq, Eq, Structural)]
pub enum SizingMode {
    FixedNotional,
}

impl SizingMode {
    /// The wire code of the value.
    pub open spec fn text(self) -> Seq<char> {
        match self {
            SizingMode::FixedNotional => "fixed_notional"@,
        }
    }

    /// The wire code of the value.
    pub fn as_str(self) -> (s: &'static str)
        ensures
            s@ == self.text(),
    {
        match self {
            SizingMode::FixedNotional => "fixed_notional",
        }
    }
}

/// Whether the runtime trades on paper or is locked for live use.
#[derive(Debug, Clone, Copy, PartialEq, Eq, Structural)]
pub enum ExecutionMode {
    Paper,
    LiveLocked,
}

impl ExecutionMode {
    /// The wire code of the value.
    pub open spec fn text(self) -> Seq<char> {
        match self {
            ExecutionMode::Paper => "paper"@,
            ExecutionMode::LiveLocked => "live_locked"@,
        }
    }

    /// The wire code of the value.
    pub fn as_str(self) -> (s: &'static str)
        ensures
            s@ == self.text(),
    {
        match self {
            ExecutionMode::Paper => "paper",
            ExecutionMode::LiveLocked => "live_locked",
        }
    }
}

/// Background work the runtime is doing.
#[derive(Debug, Clone, Copy, PartialEq, Eq, Structural)]
pub enum RuntimeActivity {
    HistorySync,
    Rebuilding,
}

impl RuntimeActivity {
    /// The wire code of the value.
    pub open spec fn text(self) -> Seq<char> {
        match self {
            RuntimeActivity::HistorySync => "history_sync"@,
            RuntimeActivity::Rebuilding => "rebuilding"@,
        }
    }

    /// The wire code of the value.
    pub fn as_str(self) -> (s: &'static str)
        ensures
            s@ == self.text(),
    {
        match self {
            RuntimeActivity::HistorySync => "history_sync",
            RuntimeActivity::Rebuilding => "rebuilding",
        }
    }
}

/// The state of the market-data connection.
#[derive(Debug, Clone, Copy, PartialEq, Eq, Structural)]
pub enum ConnectionStatus {
    Reconnecting,
    Stale,
    Resynced,
    Connected,
    Disconnected,
}

impl ConnectionStatus {
    /// The wire code of the value.
    pub open spec fn text(self) -> Seq<char> {
        match self {
            ConnectionStatus::Reconnecting => "reconnecting"@,
            ConnectionStatus::Stale => "stale"@,
            ConnectionStatus::Resynced => "resynced"@,
            ConnectionStatus::Connected => "connected"@,
            ConnectionStatus::Disconnected => "disconnected"@,
        }
    }

    /// The wire code of the value.
    pub fn as_str(self) -> (s: &'static str)
        ensures
            s@ == self.text(),
    {
        match self {
            ConnectionStatus::Reconnecting => "reconnecting",
            ConnectionStatus::Stale => "stale",
            ConnectionStatus::Resynced => "resynced",
            ConnectionStatus::Connected => "connected",
            ConnectionStatus::Disconnected => "disconnected",
        }
    }
}


/// What the runtime is doing.
#[derive(Debug, Clone, PartialEq, Eq)]
pub struct RuntimeStatus {
    pub running: bool,
    pub execution_mode: ExecutionMode,
    pub active_symbol: Symbol,
    pub timeframe: Timeframe,
    pub activity: Option<RuntimeActivity>,
    pub last_error: Option<String>,
    pub started_at: Option<i64>,
}

/// The market-data connection and its recovery state.
#[derive(Debug, Clone, PartialEq, Eq)]
pub struct ConnectionState {
    pub status: ConnectionStatus,
    pub status_since: Option<i64>,
    pub last_message_time: Option<i64>,
    pub reconnect_attempts: u64,
    pub resync_required: bool,
    pub detail: Option<String>,
}

/// One entry of the operator log.
#[derive(Debug, Clone, PartialEq, Eq)]
pub struct LogEvent {
    pub id: String,
    pub timestamp: i64,
    pub level: String,
    pub target: String,
    pub message: String,
}

/// Parsing the code of a quote asset, a symbol or a timeframe gives back
/// that value.
pub proof fn lemma_market_codes_round_trip(q: QuoteAsset, s: Symbol, t: Timeframe)
    ensures
        QuoteAsset::from_text(q.text()) == Some(q),
        Symbol::from_text(s.text()) == Some(s),
        Timeframe::from_text(t.text()) == Some(t),
{
    reveal_strlit("USDT");
    reveal_strlit("USDC");
    reveal_strlit("BTCUSDT");
    reveal_strlit("BTCUSDC");
    reveal_strlit("1m");
    reveal_strlit("5m");
    reveal_strlit("15m");
    reveal_strlit("1h");
    assert("USDC"@[3] != "USDT"@[3]);
    assert("BTCUSDC"@[6] != "BTCUSDT"@[6]);
    assert("5m"@[0] != "1m"@[0]);
    assert("15m"@.len() != "1m"@.len() && "15m"@.len() != "5m"@.len());
    assert("1h"@[1] != "1m"@[1] && "1h"@[0] != "5m"@[0]);
}


/// The oscillator's warm-up by mode: its length of closed candles in
/// intrabar mode; in group and in both mode, where the bull and bear parts
/// are averaged over a second full length, one less than twice what
/// intrabar mode needs (and nothing for a zero length).
pub proof fn lemma_warmup_by_mode(length: int)
    requires
        length >= 0,
    ensures
        warmup_candles(length, AsoMode::Intrabar) == length,
        length >= 1 ==> warmup_candles(length, AsoMode::Group) + 1 == 2 * warmup_candles(length, AsoMode::Intrabar),
        warmup_candles(length, AsoMode::Both) == warmup_candles(length, AsoMode::Group),
        length == 0 ==> warmup_candles(length, AsoMode::Group) == 0,
        warmup_candles(length, AsoMode::Group) >= warmup_candles(length, AsoMode::Intrabar),
{
}

/// A symbol settles in the asset its code names after the base asset: the
/// symbol's code is `BTC` followed by the code of its quote asset.
pub proof fn lemma_symbol_code_names_its_quote(s: Symbol)
    ensures
        s.text() == "BTC"@ + s.quote().text(),
        s.quote().text() == s.text().subrange(3, s.text().len() as int),
{
    reveal_strlit("BTCUSDT");
    reveal_strlit("BTCUSDC");
    reveal_strlit("USDT");
    reveal_strlit("USDC");
    reveal_strlit("BTC");
    assert("BTCUSDT"@ =~= "BTC"@ + "USDT"@);
    assert("BTCUSDC"@ =~= "BTC"@ + "USDC"@);
    assert(("BTC"@ + s.quote().text()).subrange(3, s.text().len() as int) =~= s.quote().text());
}

} // verus!
