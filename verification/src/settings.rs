//! The parts of the operator's settings that decide the chart series: the
//! symbols offered, the active symbol, the timeframe and the oscillator's
//! length and mode. Their checks and repairs stand here; the monetary
//! settings are figures this library does not read.

use vstd::prelude::*;

use crate::error::AppError;
use crate::market::{AsoMode, Symbol, Timeframe, ALLOWED_SYMBOLS};
use crate::text::{append_str, concat_str};

verus! {

/// What the chart series is computed for.
#[derive(Debug, Clone, Copy, PartialEq, Eq, Structural)]
pub struct SeriesSettings {
    pub active_symbol: Symbol,
    pub timeframe: Timeframe,
    pub aso_length: usize,
    pub aso_mode: AsoMode,
}

/// Whether new settings change what the series is computed for, so that it
/// must be rebuilt: another symbol, timeframe, length or mode.
pub fn settings_requires_rebuild(current: &SeriesSettings, candidate: &SeriesSettings) -> (b: bool)
    ensures
        b == (current.active_symbol != candidate.active_symbol || current.timeframe != candidate.timeframe
            || current.aso_length != candidate.aso_length || current.aso_mode != candidate.aso_mode),
{
    current.active_symbol != candidate.active_symbol || current.timeframe != candidate.timeframe
        || current.aso_length != candidate.aso_length || current.aso_mode != candidate.aso_mode
}

/// Whether a symbol is one the dashboard allows.
pub open spec fn allowed_symbol(s: Symbol) -> bool {
    s == Symbol::BtcUsdt || s == Symbol::BtcUsdc
}

/// The first problem of the series settings, if any: no symbol offered, a
/// symbol that is not allowed, an active symbol that is not offered, a
/// length below two.
pub open spec fn series_problem(available: Seq<Symbol>, active: Symbol, aso_length: usize) -> Option<Seq<char>> {
    if available.len() == 0 {
        Some("at least one symbol must be available"@)
    } else if exists|i: int| 0 <= i < available.len() && !allowed_symbol(#[trigger] available[i]) {
        let i = choose|i: int| 0 <= i < available.len() && !allowed_symbol(#[trigger] available[i]);
        Some("symbol "@ + available[i].text() + " is not allowed in v1"@)
    } else if !available.contains(active) {
        Some("active symbol must be part of available_symbols"@)
    } else if aso_length < 2 {
        Some("aso_length must be >= 2"@)
    } else {
        None
    }
}

/// Checks the series settings; the monetary settings are checked after
/// these.
pub fn validate_series_settings(available: &Vec<Symbol>, active: Symbol, aso_length: usize) -> (r: Result<(), String>)
    ensures
        match series_problem(available@, active, aso_length) {
            None => r is Ok,
            Some(m) => r is Err && r->Err_0@ == m,
        },
{
    if available.len() == 0 {
        return Err(String::from_str("at least one symbol must be available"));
    }
    let mut i: usize = 0;
    while i < available.len()
        invariant
            i <= available@.len(),
            forall|j: int| 0 <= j < i ==> allowed_symbol(#[trigger] available@[j]),
        decreases available@.len() - i,
    {
        let s = available[i];
        if !(s == ALLOWED_SYMBOLS[0] || s == ALLOWED_SYMBOLS[1]) {
            let mut m = concat_str("symbol ", s.as_str());
            append_str(&mut m, " is not allowed in v1");
            return Err(m);
        }
        i = i + 1;
    }
    let mut found = false;
    let mut k: usize = 0;
    while k < available.len()
        invariant
            k <= available@.len(),
            found <==> exists|j: int| 0 <= j < k && available@[j] == active,
        decreases available@.len() - k,
    {
        if available[k] == active {
            found = true;
        }
        k = k + 1;
    }
    if !found {
        return Err(String::from_str("active symbol must be part of available_symbols"));
    }
    if aso_length < 2 {
        return Err(String::from_str("aso_length must be >= 2"));
    }
    Ok(())
}

/// The offered symbols kept to the allowed ones, or all allowed symbols
/// where none is left.
pub open spec fn repaired_symbols(available: Seq<Symbol>) -> Seq<Symbol> {
    let kept = available.filter(|s: Symbol| allowed_symbol(s));
    if kept.len() == 0 { seq![Symbol::BtcUsdt, Symbol::BtcUsdc] } else { kept }
}

/// The active symbol where the repaired symbols offer it, else the first
/// of them.
pub open spec fn repaired_active(available: Seq<Symbol>, active: Symbol) -> Symbol {
    let repaired = repaired_symbols(available);
    if repaired.contains(active) { active } else { repaired[0] }
}

/// The offered symbols kept to the allowed ones (all of them where none
/// is left), and the active symbol moved to the first of them where it is
/// not offered.
pub fn repair_settings(available: &mut Vec<Symbol>, active: &mut Symbol)
    ensures
        final(available)@ == repaired_symbols(old(available)@),
        *final(active) == repaired_active(old(available)@, *old(active)),
{
    let ghost before = available@;
    let mut kept: Vec<Symbol> = Vec::new();
    let mut i: usize = 0;
    while i < available.len()
        invariant
            available@ == before,
            i <= before.len(),
            kept@ == before.subrange(0, i as int).filter(|s: Symbol| allowed_symbol(s)),
        decreases before.len() - i,
    {
        proof {
            reveal(Seq::filter);
            assert(before.subrange(0, i + 1).drop_last() =~= before.subrange(0, i as int));
        }
        if available[i] == Symbol::BtcUsdt || available[i] == Symbol::BtcUsdc {
            kept.push(available[i]);
        }
        i = i + 1;
    }
    assert(before.subrange(0, before.len() as int) =~= before);
    if kept.len() == 0 {
        kept = vec![Symbol::BtcUsdt, Symbol::BtcUsdc];
    }
    let mut found = false;
    let mut k: usize = 0;
    while k < kept.len()
        invariant
            k <= kept@.len(),
            found <==> exists|j: int| 0 <= j < k && kept@[j] == *active,
        decreases kept@.len() - k,
    {
        if kept[k] == *active {
            found = true;
        }
        k = k + 1;
    }
    if !found {
        *active = kept[0];
    }
    *available = kept;
}


/// Repaired settings pass the series check whenever the oscillator length
/// does.
pub proof fn lemma_repaired_settings_are_valid(available: Seq<Symbol>, active: Symbol, aso_length: usize)
    requires
        aso_length >= 2,
    ensures
        series_problem(repaired_symbols(available), repaired_active(available, active), aso_length) is None,
{
    let repaired = repaired_symbols(available);
    assert(repaired.len() > 0);
    assert(repaired.contains(repaired[0]));
}


/// The plan for applying new settings: refused while a position is open
/// and the active symbol would change; otherwise whether the running
/// runtime must stop for a rebuild (it runs and the series changes).
pub fn plan_settings_change(
    position_open: bool,
    running: bool,
    current: &SeriesSettings,
    candidate: &SeriesSettings,
) -> (r: Result<bool, AppError>)
    ensures
        position_open && current.active_symbol != candidate.active_symbol ==> r is Err && r->Err_0 is Conflict
            && r->Err_0->Conflict_0@ == "cannot change active symbol while a position is open"@,
        !(position_open && current.active_symbol != candidate.active_symbol) ==> r == Ok::<bool, AppError>(
            running && (current.active_symbol != candidate.active_symbol || current.timeframe != candidate.timeframe
                || current.aso_length != candidate.aso_length || current.aso_mode != candidate.aso_mode),
        ),
{
    if position_open && current.active_symbol != candidate.active_symbol {
        return Err(AppError::Conflict(String::from_str("cannot change active symbol while a position is open")));
    }
    Ok(running && settings_requires_rebuild(current, candidate))
}

/// Whether the runtime starts again after a settings rebuild: only where
/// it was stopped for the rebuild, and then after a failed rebuild always,
/// after a successful one where the settings ask for it.
pub fn restart_after_rebuild(stopped_for_rebuild: bool, rebuild_ok: bool, auto_restart_on_apply: bool) -> (b: bool)
    ensures
        b == (stopped_for_rebuild && (!rebuild_ok || auto_restart_on_apply)),
{
    stopped_for_rebuild && (!rebuild_ok || auto_restart_on_apply)
}
} // verus!
