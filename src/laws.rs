//! Facts that hold across calls: how thresholds order, what a filtered
//! record does to the sink, how successive lines add up, and that a slot
//! takes one logger only.

use vstd::prelude::*;

use crate::clock::Timestamp;
use crate::level::{Level, LevelFilter, filter_rank, level_rank, passes};
use crate::line::{Record, all_lines, clock_text, decimal, digit, line_bytes, padded};
use crate::logger::{LoggerSlot, after_log, install_step};

verus! {

/// Raising the threshold never disables a level, and a level that passes
/// also lets every more severe level pass.
pub proof fn lemma_threshold_monotone(l1: Level, l2: Level, f1: LevelFilter, f2: LevelFilter)
    ensures
        filter_rank(f1) <= filter_rank(f2) && passes(l1, f1) ==> passes(l1, f2),
        level_rank(l2) <= level_rank(l1) && passes(l1, f1) ==> passes(l2, f1),
        !passes(l1, LevelFilter::Off),
        passes(l1, LevelFilter::Trace),
{
}

/// A record below the threshold leaves the sink exactly as it was.
pub proof fn lemma_filtered_is_noop(sink: Seq<u8>, f: LevelFilter, rec: Record, t: Timestamp)
    requires
        !passes(rec.level, f),
    ensures
        after_log(sink, f, rec, t) == sink,
{
}

/// What the sink holds after the records `recs` are offered one after
/// another, the i-th stamped at `ts[i]`.
pub open spec fn after_all(
    sink: Seq<u8>,
    f: LevelFilter,
    recs: Seq<Record>,
    ts: Seq<Timestamp>,
) -> Seq<u8>
    decreases recs.len(),
{
    if recs.len() == 0 || ts.len() == 0 {
        sink
    } else {
        after_log(after_all(sink, f, recs.drop_last(), ts.drop_last()), f, recs.last(), ts.last())
    }
}

/// The sum of the lengths of the lines of `recs`.
pub open spec fn total_len(recs: Seq<Record>, ts: Seq<Timestamp>) -> nat
    decreases recs.len(),
{
    if recs.len() == 0 || ts.len() == 0 {
        0
    } else {
        total_len(recs.drop_last(), ts.drop_last()) + line_bytes(recs.last(), ts.last()).len()
    }
}

/// Each field of a time stamp takes two digits, a single digit getting a
/// leading zero, so a valid time of day always reads as eight characters.
pub proof fn lemma_zero_padding(n: nat, t: Timestamp)
    ensures
        n < 10 ==> padded(n) == seq![48u8, (48 + n) as u8],
        10 <= n < 100 ==> padded(n) == seq![digit(n / 10), digit(n % 10)],
        t.wf() ==> clock_text(t).len() == 8,
{
    reveal_with_fuel(decimal, 3);
    assert(10 <= n < 100 ==> decimal(n / 10) == seq![digit(n / 10)]);
    if n < 10 {
        assert(padded(n) =~= seq![48u8, (48 + n) as u8]);
    }
    if 10 <= n < 100 {
        assert(padded(n) =~= seq![digit(n / 10), digit(n % 10)]);
    }
}

/// Every line is terminated by a newline.
pub proof fn lemma_line_ends_with_newline(rec: Record, t: Timestamp)
    ensures
        line_bytes(rec, t).len() > 0,
        line_bytes(rec, t).last() == 10u8,
{
}

/// Offering enabled records one after another, in whatever order the
/// callers take their turns, leaves in the sink each of their complete
/// lines, one after the other in that order, and adds exactly the sum of
/// the lines' lengths to it.
pub proof fn lemma_lines_accumulate(
    sink: Seq<u8>,
    f: LevelFilter,
    recs: Seq<Record>,
    ts: Seq<Timestamp>,
)
    requires
        recs.len() == ts.len(),
        forall|i: int| 0 <= i < recs.len() ==> passes(#[trigger] recs[i].level, f),
    ensures
        after_all(sink, f, recs, ts) == sink + all_lines(recs, ts),
        after_all(sink, f, recs, ts).len() == sink.len() + total_len(recs, ts),
    decreases recs.len(),
{
    if recs.len() > 0 {
        let rs = recs.drop_last();
        let tt = ts.drop_last();
        assert forall|i: int| 0 <= i < rs.len() implies passes(#[trigger] rs[i].level, f) by {
            assert(rs[i] == recs[i]);
        }
        lemma_lines_accumulate(sink, f, rs, tt);
        assert(passes(recs[recs.len() - 1].level, f));
        assert(after_all(sink, f, recs, ts) =~= sink + all_lines(recs, ts));
    }
}

/// The lines of several records laid end to end are exactly as long as
/// the sum of the lines' lengths, and, when there is at least one, end in a newline.
pub proof fn lemma_all_lines_len(recs: Seq<Record>, ts: Seq<Timestamp>)
    ensures
        all_lines(recs, ts).len() == total_len(recs, ts),
        recs.len() > 0 && ts.len() > 0 ==> all_lines(recs, ts).last() == 10u8,
    decreases recs.len(),
{
    if recs.len() > 0 && ts.len() > 0 {
        lemma_all_lines_len(recs.drop_last(), ts.drop_last());
        lemma_line_ends_with_newline(recs.last(), ts.last());
    }
}

/// An empty slot takes the first logger offered to it; the second attempt,
/// whatever its arguments, fails and leaves the first logger in place.
pub proof fn lemma_install_once<W>(
    s0: LoggerSlot<W>,
    l1: LevelFilter,
    w1: W,
    ok1: bool,
    s1: LoggerSlot<W>,
    l2: LevelFilter,
    w2: W,
    ok2: bool,
    s2: LoggerSlot<W>,
)
    requires
        s0.current() is None,
        install_step(s0, l1, w1, ok1, s1),
        install_step(s1, l2, w2, ok2, s2),
    ensures
        ok1,
        !ok2,
        s2 == s1,
        s2.current() matches Some(l) && l.threshold() == l1 && l.sink() == w1,
        s2.ceiling() == l1,
{
}

/// Once a slot holds a logger, every further attempt fails and changes nothing.
pub proof fn lemma_installed_stays<W>(
    s: LoggerSlot<W>,
    l: LevelFilter,
    w: W,
    ok: bool,
    s2: LoggerSlot<W>,
)
    requires
        s.current() is Some,
        install_step(s, l, w, ok, s2),
    ensures
        !ok,
        s2 == s,
        s2.current() is Some,
{
}

} // verus!
