//! What a debounced line reports over a whole sequence of samples.

use vstd::prelude::*;
use crate::buttons::{DebounceState, PinState, DEBOUNCE_THRESHOLD};

verus! {

/// `n` polls in a row that report nothing.
pub open spec fn quiet(n: nat) -> Seq<PinState> {
    Seq::new(n, |i: int| PinState::Nothing)
}

/// How many samples at the front of `samples` equal `value`: the length of
/// the maximal run of `value` that `samples` starts with.
pub open spec fn leading_run(samples: Seq<bool>, value: bool) -> nat
    decreases samples.len(),
{
    if samples.len() == 0 || samples[0] != value {
        0
    } else {
        1 + leading_run(samples.skip(1), value)
    }
}

/// The leading run lies inside the sequence, holds nothing but `value`, and
/// is maximal: the sample behind it, if there is one, differs from `value`.
pub proof fn lemma_leading_run(samples: Seq<bool>, value: bool)
    ensures
        leading_run(samples, value) <= samples.len(),
        forall|i: int| 0 <= i < leading_run(samples, value) ==> samples[i] == value,
        leading_run(samples, value) < samples.len() ==> samples[leading_run(samples, value) as int]
            != value,
    decreases samples.len(),
{
    if samples.len() == 0 || samples[0] != value {
    } else {
        let rest = samples.skip(1);
        lemma_leading_run(rest, value);
        assert forall|i: int| 0 <= i < leading_run(samples, value) implies samples[i] == value by {
            if i > 0 {
                assert(samples[i] == rest[i - 1]);
            }
        }
        if leading_run(samples, value) < samples.len() {
            assert(samples[leading_run(samples, value) as int] == rest[leading_run(rest, value) as int]);
        }
    }
}

/// The state as it is once the level `high` has settled: nothing pending.
pub open spec fn settled(high: bool) -> DebounceState {
    DebounceState { high, counter: 0 }
}

/// The reports of a line in state `state`, read off the runs of `samples`.
///
/// The samples are taken run by run. A leading run of samples opposite to
/// the settled level that, together with what the counter already holds,
/// reaches the threshold is a settle: the sample that reaches the
/// threshold reports the edge, every other sample of the run reports
/// nothing, and the line goes on settled at the opposite level. A shorter
/// run is a bounce: it reports nothing, nor does the sample at the settled
/// level that ends it, and the line goes on settled where it was.
pub open spec fn settled_reports(state: DebounceState, samples: Seq<bool>) -> Seq<PinState>
    decreases samples.len(),
{
    let run = leading_run(samples, !state.high);
    if samples.len() == 0 {
        Seq::empty()
    } else if state.counter + run >= DEBOUNCE_THRESHOLD && run > 0 {
        proof {
            lemma_leading_run(samples, !state.high);
        }
        let before = (DEBOUNCE_THRESHOLD - 1 - state.counter) as nat;
        quiet(before) + seq![state.edge()] + quiet((run - before - 1) as nat) + settled_reports(
            settled(!state.high),
            samples.skip(run as int),
        )
    } else if run == samples.len() {
        quiet(run)
    } else {
        proof {
            lemma_leading_run(samples, !state.high);
        }
        quiet(run + 1) + settled_reports(settled(state.high), samples.skip(run as int + 1))
    }
}

/// How many settles the runs of `samples` hold for a line in state
/// `state`: the number of maximal runs of samples opposite to the level
/// settled before them that reach the threshold.
pub open spec fn settle_count(state: DebounceState, samples: Seq<bool>) -> nat
    decreases samples.len(),
{
    let run = leading_run(samples, !state.high);
    if samples.len() == 0 {
        0
    } else if state.counter + run >= DEBOUNCE_THRESHOLD && run > 0 {
        proof {
            lemma_leading_run(samples, !state.high);
        }
        1 + settle_count(settled(!state.high), samples.skip(run as int))
    } else if run == samples.len() {
        0
    } else {
        proof {
            lemma_leading_run(samples, !state.high);
        }
        settle_count(settled(state.high), samples.skip(run as int + 1))
    }
}

/// How many entries of `reports` are edges.
pub open spec fn edge_count(reports: Seq<PinState>) -> nat
    decreases reports.len(),
{
    if reports.len() == 0 {
        0
    } else if reports.last() == PinState::Nothing {
        edge_count(reports.drop_last())
    } else {
        1 + edge_count(reports.drop_last())
    }
}

/// Polling one sequence after another is polling their concatenation.
pub proof fn lemma_run_concat(state: DebounceState, first: Seq<bool>, second: Seq<bool>)
    ensures
        state.run(first + second) == state.run(first).run(second),
        state.reports(first + second) == state.reports(first) + state.run(first).reports(second),
{
    lemma_run_of_concat(state, first, second);
    let whole = first + second;
    assert forall|i: int| 0 <= i < whole.len() implies state.reports(whole)[i] == (
    state.reports(first) + state.run(first).reports(second))[i] by {
        if i < first.len() {
            assert(whole.take(i) =~= first.take(i));
        } else {
            let j = i - first.len();
            assert(whole.take(i) =~= first + second.take(j));
            lemma_run_of_concat(state, first, second.take(j));
        }
    }
    assert(state.reports(whole) =~= state.reports(first) + state.run(first).reports(second));
}

proof fn lemma_run_of_concat(state: DebounceState, first: Seq<bool>, second: Seq<bool>)
    ensures
        state.run(first + second) == state.run(first).run(second),
    decreases second.len(),
{
    if second.len() == 0 {
        assert(first + second =~= first);
    } else {
        assert((first + second).drop_last() =~= first + second.drop_last());
        lemma_run_of_concat(state, first, second.drop_last());
    }
}

/// One poll is one step.
pub proof fn lemma_run_one(state: DebounceState, sample: bool)
    ensures
        state.run(seq![sample]) == state.step(sample),
        state.reports(seq![sample]) == seq![state.report(sample)],
{
    let one = seq![sample];
    assert(one.drop_last() =~= Seq::<bool>::empty());
    assert(state.run(one.drop_last()) == state);
    assert(one.take(0) =~= Seq::<bool>::empty());
    assert(state.reports(one) =~= seq![state.report(sample)]);
}

/// A bounce is rejected: samples opposite to the settled level that do not
/// bring the counter up to the threshold are counted and report nothing.
pub proof fn lemma_bounce_is_quiet(state: DebounceState, samples: Seq<bool>)
    requires
        forall|i: int| 0 <= i < samples.len() ==> samples[i] != state.high,
        state.counter + samples.len() < DEBOUNCE_THRESHOLD,
    ensures
        state.run(samples) == (DebounceState { high: state.high, counter: state.counter + samples.len() }),
        state.reports(samples) == quiet(samples.len()),
{
    lemma_bounce_is_counted(state, samples);
    assert forall|i: int| 0 <= i < samples.len() implies state.reports(samples)[i]
        == PinState::Nothing by {
        lemma_bounce_is_counted(state, samples.take(i));
    }
    assert(state.reports(samples) =~= quiet(samples.len()));
}

proof fn lemma_bounce_is_counted(state: DebounceState, samples: Seq<bool>)
    requires
        forall|i: int| 0 <= i < samples.len() ==> samples[i] != state.high,
        state.counter + samples.len() < DEBOUNCE_THRESHOLD,
    ensures
        state.run(samples) == (DebounceState { high: state.high, counter: state.counter + samples.len() }),
    decreases samples.len(),
{
    if samples.len() > 0 {
        lemma_bounce_is_counted(state, samples.drop_last());
    }
}

/// Feeding the settled level never produces an edge: samples that all
/// agree with the settled level report nothing and leave the level as it
/// is, with nothing pending.
pub proof fn lemma_settled_level_is_quiet(state: DebounceState, samples: Seq<bool>)
    requires
        forall|i: int| 0 <= i < samples.len() ==> samples[i] == state.high,
    ensures
        state.reports(samples) == quiet(samples.len()),
        edge_count(state.reports(samples)) == 0,
        state.run(samples).high == state.high,
        samples.len() > 0 ==> state.run(samples) == settled(state.high),
{
    lemma_settled_level_is_kept(state, samples);
    assert forall|i: int| 0 <= i < samples.len() implies state.reports(samples)[i]
        == PinState::Nothing by {
        lemma_settled_level_is_kept(state, samples.take(i));
    }
    assert(state.reports(samples) =~= quiet(samples.len()));
    lemma_quiet_has_no_edge(samples.len());
}

proof fn lemma_settled_level_is_kept(state: DebounceState, samples: Seq<bool>)
    requires
        forall|i: int| 0 <= i < samples.len() ==> samples[i] == state.high,
    ensures
        state.run(samples).high == state.high,
        samples.len() > 0 ==> state.run(samples) == settled(state.high),
    decreases samples.len(),
{
    if samples.len() > 0 {
        lemma_settled_level_is_kept(state, samples.drop_last());
    }
}

/// Quiet polls hold no edge.
pub proof fn lemma_quiet_has_no_edge(n: nat)
    ensures
        edge_count(quiet(n)) == 0,
    decreases n,
{
    if n > 0 {
        assert(quiet(n).drop_last() =~= quiet((n - 1) as nat));
        lemma_quiet_has_no_edge((n - 1) as nat);
    }
}

/// The edges of a concatenation are those of its parts.
pub proof fn lemma_edge_count_concat(first: Seq<PinState>, second: Seq<PinState>)
    ensures
        edge_count(first + second) == edge_count(first) + edge_count(second),
    decreases second.len(),
{
    if second.len() == 0 {
        assert(first + second =~= first);
    } else {
        assert((first + second).drop_last() =~= first + second.drop_last());
        lemma_edge_count_concat(first, second.drop_last());
    }
}

/// A run that reaches the threshold settles the line: of a run of samples
/// opposite to the settled level that, with what the counter already holds, reaches the
/// threshold, the sample that reaches it reports the edge and no other
/// sample reports anything; the line is then settled at the opposite level.
pub proof fn lemma_settle(state: DebounceState, samples: Seq<bool>)
    requires
        state.wf(),
        forall|i: int| 0 <= i < samples.len() ==> samples[i] != state.high,
        state.counter + samples.len() >= DEBOUNCE_THRESHOLD,
    ensures
        state.reports(samples) == quiet((DEBOUNCE_THRESHOLD - 1 - state.counter) as nat)
            + seq![state.edge()] + quiet((samples.len() - (DEBOUNCE_THRESHOLD - state.counter)) as nat),
        edge_count(state.reports(samples)) == 1,
        state.run(samples) == settled(!state.high),
{
    let before = (DEBOUNCE_THRESHOLD - 1 - state.counter) as nat;
    let after = (samples.len() - before - 1) as nat;
    let head = samples.take(before as int);
    let tip = seq![samples[before as int]];
    let tail = samples.skip(before as int + 1);
    assert(samples =~= head + tip + tail);
    lemma_bounce_is_quiet(state, head);
    let armed = state.run(head);
    lemma_run_one(armed, samples[before as int]);
    lemma_run_concat(state, head, tip);
    let flipped = state.run(head + tip);
    assert(flipped == settled(!state.high));
    lemma_settled_level_is_quiet(flipped, tail);
    lemma_run_concat(state, head + tip, tail);
    assert(state.reports(samples) == quiet(before) + seq![state.edge()] + quiet(after));
    lemma_edge_count_concat(quiet(before) + seq![state.edge()], quiet(after));
    lemma_edge_count_concat(quiet(before), seq![state.edge()]);
    lemma_quiet_has_no_edge(before);
    lemma_quiet_has_no_edge(after);
    assert(seq![state.edge()].drop_last() =~= Seq::<PinState>::empty());
    assert(edge_count(Seq::<PinState>::empty()) == 0);
    assert(edge_count(seq![state.edge()]) == 1);
}

/// The classifier reports what the runs of the samples say: exactly one
/// edge for each maximal run that reaches the threshold against the level
/// settled before it, at the sample that reaches it, and nothing anywhere
/// else, whatever bounces shorter than the threshold lie between.
pub proof fn lemma_reports_follow_runs(state: DebounceState, samples: Seq<bool>)
    requires
        state.wf(),
    ensures
        state.reports(samples) == settled_reports(state, samples),
        edge_count(state.reports(samples)) == settle_count(state, samples),
    decreases samples.len(),
{
    let run = leading_run(samples, !state.high);
    lemma_leading_run(samples, !state.high);
    if samples.len() == 0 {
        assert(state.reports(samples) =~= Seq::<PinState>::empty());
    } else if state.counter + run >= DEBOUNCE_THRESHOLD && run > 0 {
        let head = samples.take(run as int);
        let tail = samples.skip(run as int);
        assert(samples =~= head + tail);
        lemma_settle(state, head);
        lemma_run_concat(state, head, tail);
        lemma_reports_follow_runs(settled(!state.high), tail);
        lemma_edge_count_concat(state.reports(head), settled(!state.high).reports(tail));
    } else if run == samples.len() {
        lemma_bounce_is_quiet(state, samples);
        lemma_quiet_has_no_edge(run);
    } else {
        let head = samples.take(run as int);
        let tip = seq![samples[run as int]];
        let tail = samples.skip(run as int + 1);
        assert(samples =~= head + tip + tail);
        lemma_bounce_is_quiet(state, head);
        lemma_run_one(state.run(head), samples[run as int]);
        lemma_run_concat(state, head, tip);
        assert(state.run(head + tip) == settled(state.high));
        assert(state.reports(head + tip) =~= quiet(run + 1));
        lemma_run_concat(state, head + tip, tail);
        lemma_reports_follow_runs(settled(state.high), tail);
        lemma_quiet_has_no_edge(run + 1);
        lemma_edge_count_concat(quiet(run + 1), settled(state.high).reports(tail));
    }
}

/// `n` samples in a row at the level `value`.
pub open spec fn steady(value: bool, n: nat) -> Seq<bool> {
    Seq::new(n, |i: int| value)
}

/// A press and a release, each held long enough, are reported once each:
/// a line that stays high for any time, then low for at least the
/// threshold, then high for at least the threshold reports the press at the
/// poll that sees it low for the threshold's count, the release at the
/// poll that sees it high again for that count, and nothing else.
pub proof fn lemma_press_and_release(idle: nat, held: nat, released: nat)
    requires
        held >= DEBOUNCE_THRESHOLD,
        released >= DEBOUNCE_THRESHOLD,
    ensures
        settled(true).reports(steady(true, idle) + steady(false, held) + steady(true, released))
            == quiet((idle + DEBOUNCE_THRESHOLD - 1) as nat) + seq![PinState::PinUp] + quiet(
            (held - 1) as nat,
        ) + seq![PinState::PinDown] + quiet((released - DEBOUNCE_THRESHOLD) as nat),
        edge_count(
            settled(true).reports(steady(true, idle) + steady(false, held) + steady(true, released)),
        ) == 2,
        settled(true).run(steady(true, idle) + steady(false, held) + steady(true, released))
            == settled(true),
{
    let up = settled(true);
    let down = settled(false);
    let first = steady(true, idle);
    let second = steady(false, held);
    let third = steady(true, released);
    lemma_settled_level_is_quiet(up, first);
    assert(up.run(first) == up);
    lemma_settle(up, second);
    lemma_settle(down, third);
    lemma_run_concat(up, first, second);
    lemma_run_concat(up, first + second, third);
    let threshold = DEBOUNCE_THRESHOLD as nat;
    let press = quiet((threshold - 1) as nat) + seq![PinState::PinUp] + quiet((held - threshold) as nat);
    let release = quiet((threshold - 1) as nat) + seq![PinState::PinDown] + quiet(
        (released - threshold) as nat,
    );
    assert(up.reports(first + second + third) == quiet(idle) + press + release);
    assert(quiet(idle) + press + release =~= quiet((idle + threshold - 1) as nat)
        + seq![PinState::PinUp] + quiet((held - 1) as nat) + seq![PinState::PinDown] + quiet(
        (released - threshold) as nat,
    ));
    lemma_edge_count_concat(quiet(idle) + press, release);
    lemma_edge_count_concat(quiet(idle), press);
    lemma_quiet_has_no_edge(idle);
}

} // verus!
