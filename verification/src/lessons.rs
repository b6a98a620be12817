//! The lesson report of a mainnet-auto dry-run session: what the recorded
//! decisions of the session show, and what to do next. The report is
//! analysis only; it changes no setting.

use vstd::prelude::*;

use crate::mainnet_auto::{AsoPositionPolicy, MainnetAutoDecisionOutcome, MainnetAutoLessonReport, MainnetAutoRunMode};
use crate::evidence::{prefixed_hex, prefixed_uuid};
use crate::order_flow::{empty_payload, payload_insert, text_map};
use crate::text::{
    append_str, concat_str, i64_decimal, int_decimal, nat_decimal, occurs_in, sorted_unique, sorted_unique_of,
    str_contains, str_eq, texts_of, u64_decimal,
};

verus! {

/// What the lesson report reads of a recorded decision.
#[derive(Debug, Clone, PartialEq, Eq)]
pub struct DecisionSummary {
    pub session_id: String,
    /// Whether the decision was made for a signal.
    pub has_signal: bool,
    pub would_submit: bool,
    pub blocking_reasons: Vec<String>,
    pub outcome: MainnetAutoDecisionOutcome,
    pub reference_price_age_ms: Option<i64>,
}

/// How many decisions of the session satisfy `p`.
pub open spec fn count_in_session(
    ds: Seq<DecisionSummary>,
    session: Seq<char>,
    p: spec_fn(DecisionSummary) -> bool,
) -> nat
    decreases ds.len(),
{
    if ds.len() == 0 {
        0
    } else {
        count_in_session(ds.drop_last(), session, p) + if ds.last().session_id@ == session && p(ds.last()) {
            1nat
        } else {
            0nat
        }
    }
}

/// The blockers of the session's decisions, in order, with repeats.
pub open spec fn session_blockers(ds: Seq<DecisionSummary>, session: Seq<char>) -> Seq<Seq<char>>
    decreases ds.len(),
{
    if ds.len() == 0 {
        Seq::empty()
    } else {
        session_blockers(ds.drop_last(), session) + if ds.last().session_id@ == session {
            texts_of(ds.last().blocking_reasons@)
        } else {
            Seq::empty()
        }
    }
}

/// The session's last decision, if any.
pub open spec fn last_in_session(ds: Seq<DecisionSummary>, session: Seq<char>) -> Option<DecisionSummary>
    decreases ds.len(),
{
    if ds.len() == 0 {
        None
    } else if ds.last().session_id@ == session {
        Some(ds.last())
    } else {
        last_in_session(ds.drop_last(), session)
    }
}

/// Whether a blocker names a stale or degraded state.
pub open spec fn stale_or_degraded(b: Seq<char>) -> bool {
    occurs_in("stale"@, b) || occurs_in("degraded"@, b)
}

/// The recommendation: ready for an explicit live trial when a decision
/// would have submitted; safe to repeat the dry run when nothing blocked;
/// else a fix is needed first.
pub open spec fn recommendation_text(would_submit: nat, blockers: nat) -> Seq<char> {
    if would_submit > 0 {
        "ready_for_explicit_live_trial"@
    } else if blockers == 0 {
        "safe_to_repeat_dry_run"@
    } else {
        "needs_fix_before_live"@
    }
}

/// The report's explanation text.
pub open spec fn explanation_text(signals: nat, blocked: nat, would_submit: nat, recommendation: Seq<char>) -> Seq<
    char,
> {
    "# Mainnet Auto Lessons\n\nMode: dry_run\n\nLive orders submitted: no\n\nSignals observed: "@ + nat_decimal(signals)
        + "\n\nBlocked decisions: "@ + nat_decimal(blocked) + "\n\nWould-submit decisions: "@ + nat_decimal(
        would_submit,
    ) + "\n\nRecommendation: "@ + recommendation
        + "\n\nThis report is analysis only. It did not change strategy, risk settings, or live enablement.\n"@
}

/// Whether `r` is the lesson report of `session` over the recorded
/// decisions, made at `now`.
pub open spec fn lesson_report_holds(
    r: MainnetAutoLessonReport,
    ds: Seq<DecisionSummary>,
    session: Seq<char>,
    now: i64,
) -> bool {
    let signals = count_in_session(ds, session, |d: DecisionSummary| d.has_signal);
    let would = count_in_session(ds, session, |d: DecisionSummary| d.would_submit);
    let blocked = count_in_session(ds, session, |d: DecisionSummary| d.blocking_reasons@.len() > 0);
    let dups = count_in_session(
        ds,
        session,
        |d: DecisionSummary| d.outcome == MainnetAutoDecisionOutcome::SkippedDuplicate,
    );
    let blockers = session_blockers(ds, session);
    let top = texts_of(r.top_blockers@);
    let rec = recommendation_text(would, top.len());
    &&& prefixed_hex(r.id@, "mnauto_lesson_"@)
    &&& r.session_id@ == session
    &&& r.mode == MainnetAutoRunMode::DryRun
    &&& !r.live_order_submitted
    &&& r.position_policy == AsoPositionPolicy::CrossoverOnly
    &&& r.signals_observed == signals
    &&& r.desired_side_evaluations == 0
    &&& r.enter_decisions == 0
    &&& r.hold_decisions == 0
    &&& r.reverse_decisions == 0
    &&& r.no_trade_decisions == 0
    &&& r.margin_type_block_count == 0
    &&& r.decisions_blocked == blocked
    &&& r.would_submit_decisions == would
    &&& r.duplicate_suppression_count == dups
    &&& sorted_unique_of(top, blockers)
    &&& r.watchdog_stop_reason is None
    &&& text_map(r.risk_budget_utilization@) == map![
        "orders_used"@ => "0"@,
        "fills_used"@ => "0"@,
        "live_orders_submitted"@ => "0"@,
    ]
    &&& r.reference_price_freshness_summary@ == match last_in_session(ds, session) {
        Some(d) => match d.reference_price_age_ms {
            Some(age) => "latest reference age "@ + int_decimal(age as int) + " ms"@,
            None => "no reference price used"@,
        },
        None => "no reference price used"@,
    }
    &&& r.aso_signal_summary@ == nat_decimal(signals) + " closed-candle signal(s) observed"@
    &&& texts_of(r.stale_or_degraded_state@) == blockers.filter(|b: Seq<char>| stale_or_degraded(b))
    &&& texts_of(r.next_checks@) == seq![
        "review dry-run blockers"@,
        "confirm mainnet auto remains disabled by server config"@,
        "run another dry-run before any explicit live trial"@,
    ]
    &&& r.recommendation@ == rec
    &&& r.explanation@ == explanation_text(signals, blocked, would, rec)
    &&& r.lessons_path is None
    &&& r.created_at == now
}

proof fn count_step(
    ds: Seq<DecisionSummary>,
    session: Seq<char>,
    p: spec_fn(DecisionSummary) -> bool,
    i: int,
)
    requires
        0 <= i < ds.len(),
    ensures
        count_in_session(ds.subrange(0, i + 1), session, p) == count_in_session(ds.subrange(0, i), session, p)
            + if ds[i].session_id@ == session && p(ds[i]) {
            1nat
        } else {
            0nat
        },
{
    assert(ds.subrange(0, i + 1).drop_last() =~= ds.subrange(0, i));
}

proof fn lemma_last_in_session_step(ds: Seq<DecisionSummary>, session: Seq<char>, i: int)
    requires
        0 <= i < ds.len(),
    ensures
        last_in_session(ds.subrange(0, i + 1), session) == if ds[i].session_id@ == session {
            Some(ds[i])
        } else {
            last_in_session(ds.subrange(0, i), session)
        },
{
    assert(ds.subrange(0, i + 1).drop_last() =~= ds.subrange(0, i));
}

fn number(n: u64) -> (s: String)
    ensures
        s@ == nat_decimal(n as nat),
{
    u64_decimal(n)
}

/// Builds the lesson report of `session_id` from the recorded decisions,
/// at `now_ms`, under a fresh random identifier.
pub fn build_lesson_report(decisions: &Vec<DecisionSummary>, session_id: &str, now_ms: i64) -> (r:
    MainnetAutoLessonReport)
    requires
        decisions@.len() <= u64::MAX,
    ensures
        lesson_report_holds(r, decisions@, session_id@, now_ms),
{
    let ghost ds = decisions@;
    let ghost session = session_id@;
    let ghost p_signal = |d: DecisionSummary| d.has_signal;
    let ghost p_would = |d: DecisionSummary| d.would_submit;
    let ghost p_blocked = |d: DecisionSummary| d.blocking_reasons@.len() > 0;
    let ghost p_dup = |d: DecisionSummary| d.outcome == MainnetAutoDecisionOutcome::SkippedDuplicate;
    let mut signals: u64 = 0;
    let mut would: u64 = 0;
    let mut blocked: u64 = 0;
    let mut dups: u64 = 0;
    let mut all_blockers: Vec<String> = Vec::new();
    let mut last_age: Option<Option<i64>> = None;
    let mut i: usize = 0;
    while i < decisions.len()
        invariant
            ds == decisions@,
            session == session_id@,
            ds.len() <= u64::MAX,
            i <= ds.len(),
            p_signal == (|d: DecisionSummary| d.has_signal),
            p_would == (|d: DecisionSummary| d.would_submit),
            p_blocked == (|d: DecisionSummary| d.blocking_reasons@.len() > 0),
            p_dup == (|d: DecisionSummary| d.outcome == MainnetAutoDecisionOutcome::SkippedDuplicate),
            signals == count_in_session(ds.subrange(0, i as int), session, p_signal),
            would == count_in_session(ds.subrange(0, i as int), session, p_would),
            blocked == count_in_session(ds.subrange(0, i as int), session, p_blocked),
            dups == count_in_session(ds.subrange(0, i as int), session, p_dup),
            signals <= i && would <= i && blocked <= i && dups <= i,
            texts_of(all_blockers@) == session_blockers(ds.subrange(0, i as int), session),
            last_age == match last_in_session(ds.subrange(0, i as int), session) {
                Some(d) => Some(d.reference_price_age_ms),
                None => None,
            },
        decreases ds.len() - i,
    {
        proof {
            count_step(ds, session, p_signal, i as int);
            count_step(ds, session, p_would, i as int);
            count_step(ds, session, p_blocked, i as int);
            count_step(ds, session, p_dup, i as int);
            lemma_last_in_session_step(ds, session, i as int);
            assert(ds.subrange(0, i + 1).drop_last() =~= ds.subrange(0, i as int));
        }
        let d = &decisions[i];
        if str_eq(d.session_id.as_str(), session_id) {
            if d.has_signal {
                signals = signals + 1;
            }
            if d.would_submit {
                would = would + 1;
            }
            if d.blocking_reasons.len() > 0 {
                blocked = blocked + 1;
            }
            if d.outcome == MainnetAutoDecisionOutcome::SkippedDuplicate {
                dups = dups + 1;
            }
            let ghost before = all_blockers@;
            let mut k: usize = 0;
            while k < d.blocking_reasons.len()
                invariant
                    k <= d.blocking_reasons@.len(),
                    texts_of(all_blockers@) == texts_of(before) + texts_of(d.blocking_reasons@).subrange(0, k as int),
                decreases d.blocking_reasons@.len() - k,
            {
                let ghost prev = all_blockers@;
                let item = d.blocking_reasons[k].clone();
                all_blockers.push(item);
                assert(texts_of(all_blockers@) =~= texts_of(prev).push(d.blocking_reasons@[k as int]@));
                assert(texts_of(d.blocking_reasons@).subrange(0, k + 1) =~= texts_of(d.blocking_reasons@).subrange(
                    0,
                    k as int,
                ).push(d.blocking_reasons@[k as int]@));
                assert(texts_of(all_blockers@) =~= texts_of(before) + texts_of(d.blocking_reasons@).subrange(
                    0,
                    k + 1,
                ));
                k = k + 1;
            }
            assert(texts_of(d.blocking_reasons@).subrange(0, d.blocking_reasons@.len() as int) =~= texts_of(
                d.blocking_reasons@,
            ));
            last_age = Some(d.reference_price_age_ms);
        } else {
            assert(session_blockers(ds.subrange(0, i + 1), session) =~= session_blockers(
                ds.subrange(0, i as int),
                session,
            ));
        }
        i = i + 1;
    }
    assert(ds.subrange(0, ds.len() as int) =~= ds);
    let top = sorted_unique(&all_blockers);
    let recommendation = if would > 0 {
        "ready_for_explicit_live_trial"
    } else if top.len() == 0 {
        "safe_to_repeat_dry_run"
    } else {
        "needs_fix_before_live"
    };
    proof {
        if top@.len() == 0 {
            assert(texts_of(top@).len() == 0);
        }
    }
    let mut utilization = empty_payload();
    payload_insert(&mut utilization, "orders_used", String::from_str("0"));
    payload_insert(&mut utilization, "fills_used", String::from_str("0"));
    payload_insert(&mut utilization, "live_orders_submitted", String::from_str("0"));
    proof {
        assert(text_map(utilization@) =~= map![
            "orders_used"@ => "0"@,
            "fills_used"@ => "0"@,
            "live_orders_submitted"@ => "0"@,
        ]);
    }
    let signals_text = number(signals);
    let mut explanation = String::from_str(
        "# Mainnet Auto Lessons\n\nMode: dry_run\n\nLive orders submitted: no\n\nSignals observed: ",
    );
    append_str(&mut explanation, signals_text.as_str());
    append_str(&mut explanation, "\n\nBlocked decisions: ");
    let blocked_text = number(blocked);
    append_str(&mut explanation, blocked_text.as_str());
    append_str(&mut explanation, "\n\nWould-submit decisions: ");
    let would_text = number(would);
    append_str(&mut explanation, would_text.as_str());
    append_str(&mut explanation, "\n\nRecommendation: ");
    append_str(&mut explanation, recommendation);
    append_str(
        &mut explanation,
        "\n\nThis report is analysis only. It did not change strategy, risk settings, or live enablement.\n",
    );
    let freshness = match last_age {
        Some(Some(age)) => {
            let mut s = String::from_str("latest reference age ");
            let a = i64_decimal(age);
            append_str(&mut s, a.as_str());
            append_str(&mut s, " ms");
            s
        },
        _ => String::from_str("no reference price used"),
    };
    let summary = concat_str(signals_text.as_str(), " closed-candle signal(s) observed");
    let mut stale: Vec<String> = Vec::new();
    let ghost bl = texts_of(all_blockers@);
    let mut k: usize = 0;
    while k < all_blockers.len()
        invariant
            k <= all_blockers@.len(),
            bl == texts_of(all_blockers@),
            texts_of(stale@) == bl.subrange(0, k as int).filter(|b: Seq<char>| stale_or_degraded(b)),
        decreases all_blockers@.len() - k,
    {
        proof {
            reveal(Seq::filter);
            assert(bl.subrange(0, k + 1).drop_last() =~= bl.subrange(0, k as int));
        }
        let b = &all_blockers[k];
        if str_contains(b.as_str(), "stale") || str_contains(b.as_str(), "degraded") {
            stale.push(b.clone());
            proof {
                assert(texts_of(stale@) =~= bl.subrange(0, k as int).filter(|b: Seq<char>| stale_or_degraded(b)).push(
                    b@,
                ));
            }
        } else {
            proof {
                assert(texts_of(stale@) =~= bl.subrange(0, k as int).filter(|b: Seq<char>| stale_or_degraded(b)));
            }
        }
        k = k + 1;
    }
    assert(bl.subrange(0, bl.len() as int) =~= bl);
    let next_checks = vec![
        String::from_str("review dry-run blockers"),
        String::from_str("confirm mainnet auto remains disabled by server config"),
        String::from_str("run another dry-run before any explicit live trial"),
    ];
    proof {
        assert(texts_of(next_checks@) =~= seq![
            "review dry-run blockers"@,
            "confirm mainnet auto remains disabled by server config"@,
            "run another dry-run before any explicit live trial"@,
        ]);
    }
    let id = prefixed_uuid("mnauto_lesson_");
    MainnetAutoLessonReport {
        id,
        session_id: String::from_str(session_id),
        mode: MainnetAutoRunMode::DryRun,
        live_order_submitted: false,
        position_policy: AsoPositionPolicy::CrossoverOnly,
        signals_observed: signals,
        desired_side_evaluations: 0,
        enter_decisions: 0,
        hold_decisions: 0,
        reverse_decisions: 0,
        no_trade_decisions: 0,
        margin_type_block_count: 0,
        decisions_blocked: blocked,
        would_submit_decisions: would,
        duplicate_suppression_count: dups,
        top_blockers: top,
        watchdog_stop_reason: None,
        risk_budget_utilization: utilization,
        reference_price_freshness_summary: freshness,
        aso_signal_summary: summary,
        stale_or_degraded_state: stale,
        next_checks,
        recommendation: String::from_str(recommendation),
        explanation,
        lessons_path: None,
        created_at: now_ms,
    }
}

} // verus!
