//! What holds of every run: the laws of counting, of triggering and of
//! exhaustion, stated over the models that the contracts of the library use
//! and proved once and for all.

use crate::codepath_state::CodePathResult;
use crate::exhaust::{armed_for, exhausted, fails_at, may_end, Pass};
use crate::failpoint_state::{unexpected_message, Mode, Snapshot, State, Verbosity};
use crate::location::Location;
use vstd::prelude::*;

verus! {

/// One visit to a failpoint on a run of a code path.
pub struct Probe<T, E> {
    /// The result of the operation that the failpoint guards.
    pub res: Result<T, E>,
    /// The candidate errors of the failpoint, in declaration order.
    pub candidates: Seq<E>,
    /// Where the failpoint stands.
    pub loc: Location,
    /// The rendering of the error that the visit reports, if it reports one.
    pub error_text: Seq<char>,
}

/// The state after the failpoints of `probes` were visited in turn, from
/// `start`.
pub open spec fn after_visits<T, E, L>(start: Snapshot<L>, probes: Seq<Probe<T, E>>) -> Snapshot<L>
    decreases probes.len(),
{
    if probes.len() == 0 {
        start
    } else {
        let probe = probes.last();
        after_visits(start, probes.drop_last()).visit(
            probe.candidates.len() as int,
            probe.res is Ok,
            probe.loc,
            probe.error_text,
        )
    }
}

/// The ordinals that the failpoints of `probes` take: one for each candidate
/// error.
pub open spec fn ordinals<T, E>(probes: Seq<Probe<T, E>>) -> int
    decreases probes.len(),
{
    if probes.len() == 0 {
        0
    } else {
        ordinals(probes.drop_last()) + probes.last().candidates.len()
    }
}

/// The result that the failpoint at index `i` of `probes` hands back on a run
/// that visits the failpoints of `probes` in turn, from `start`.
pub open spec fn result_at<T, E, L>(start: Snapshot<L>, probes: Seq<Probe<T, E>>, i: int) -> Result<
    T,
    E,
> {
    after_visits(start, probes.take(i)).outcome(probes[i].res, probes[i].candidates)
}

/// The locations of the failpoints of `probes`, in visit order.
pub open spec fn locs_of<T, E>(probes: Seq<Probe<T, E>>) -> Seq<Location> {
    Seq::new(probes.len(), |i: int| probes[i].loc)
}

proof fn lemma_prefix_step<T, E>(probes: Seq<Probe<T, E>>, i: int)
    requires
        0 <= i < probes.len(),
    ensures
        probes.take(i + 1).drop_last() == probes.take(i),
        probes.take(i + 1).last() == probes[i],
        probes.take(probes.len() as int) == probes,
{
}

proof fn lemma_ordinals_grow<T, E>(probes: Seq<Probe<T, E>>, i: int, j: int)
    requires
        0 <= i <= j <= probes.len(),
    ensures
        0 <= ordinals(probes.take(i)) <= ordinals(probes.take(j)),
    decreases j,
{
    if j > 0 {
        lemma_prefix_step(probes, j - 1);
        if i == j {
            lemma_ordinals_grow(probes, i - 1, j - 1);
        } else {
            lemma_ordinals_grow(probes, i, j - 1);
        }
    }
}

proof fn lemma_counting<T, E, L>(start: Snapshot<L>, probes: Seq<Probe<T, E>>)
    ensures
        ({
            let end = after_visits(start.start_counter(), probes);
            &&& end.mode == Mode::Count
            &&& end.verbosity == start.verbosity
            &&& end.counter == ordinals(probes)
            &&& end.trigger == start.trigger
            &&& end.triggered_locs == Seq::<Location>::empty()
            &&& end.counted_locs == if start.verbosity == Verbosity::Extreme {
                locs_of(probes)
            } else {
                Seq::empty()
            }
        }),
    decreases probes.len(),
{
    if probes.len() > 0 {
        lemma_counting(start, probes.drop_last());
    }
}

/// Discovery: on a run in count mode every failpoint hands back the result
/// it was given, and at the end the counter holds one ordinal for each
/// candidate error of each failpoint visited. A run over k failpoints of one
/// candidate each therefore counts k.
///
/// The history of counted failpoints then holds the location of every visit,
/// in visit order, at the highest verbosity, and nothing below it.
pub proof fn law_discovery_counts_every_ordinal<T, E, L>(
    start: Snapshot<L>,
    probes: Seq<Probe<T, E>>,
)
    ensures
        after_visits(start.start_counter(), probes).counter == ordinals(probes),
        (forall|i: int| 0 <= i < probes.len() ==> (#[trigger] probes[i]).candidates.len() == 1)
            ==> after_visits(start.start_counter(), probes).counter == probes.len(),
        forall|i: int|
            0 <= i < probes.len() ==> #[trigger] result_at(start.start_counter(), probes, i)
                == probes[i].res,
        after_visits(start.start_counter(), probes).counted_locs == if start.verbosity
            == Verbosity::Extreme {
            locs_of(probes)
        } else {
            Seq::empty()
        },
{
    lemma_counting(start, probes);
    if forall|i: int| 0 <= i < probes.len() ==> (#[trigger] probes[i]).candidates.len() == 1 {
        lemma_single_candidates(probes);
    }
    assert forall|i: int| 0 <= i < probes.len() implies #[trigger] result_at(
        start.start_counter(),
        probes,
        i,
    ) == probes[i].res by {
        lemma_counting(start, probes.take(i));
    }
}

proof fn lemma_single_candidates<T, E>(probes: Seq<Probe<T, E>>)
    requires
        forall|i: int| 0 <= i < probes.len() ==> (#[trigger] probes[i]).candidates.len() == 1,
    ensures
        ordinals(probes) == probes.len(),
    decreases probes.len(),
{
    if probes.len() > 0 {
        lemma_single_candidates(probes.drop_last());
    }
}

proof fn lemma_countdown<T, E, L>(start: Snapshot<L>, probes: Seq<Probe<T, E>>, ordinal: int)
    ensures
        ({
            let end = after_visits(start.start_trigger(ordinal), probes);
            &&& end.mode == Mode::Trigger
            &&& ordinals(probes) >= 0
            &&& if ordinals(probes) < ordinal {
                end.trigger == ordinal - ordinals(probes)
            } else {
                end.trigger <= 0
            }
        }),
    decreases probes.len(),
{
    if probes.len() > 0 {
        lemma_countdown(start, probes.drop_last(), ordinal);
    }
}

/// Triggering by ordinal: on a run in trigger mode for `ordinal`, the
/// failpoint whose candidates take that ordinal selects the candidate at it,
/// and no other failpoint selects any.
///
/// The candidates of the failpoint at index `i` take the ordinals that
/// follow those of the failpoints before it.
pub proof fn law_trigger_selects_by_ordinal<T, E, L>(
    start: Snapshot<L>,
    probes: Seq<Probe<T, E>>,
    ordinal: int,
    i: int,
)
    requires
        0 <= i < probes.len(),
    ensures
        ({
            let before = ordinals(probes.take(i));
            let probe = probes[i];
            after_visits(start.start_trigger(ordinal), probes.take(i)).chosen(probe.candidates)
                == if before < ordinal <= before + probe.candidates.len() {
                Some(probe.candidates[ordinal - before - 1])
            } else {
                None
            }
        }),
{
    lemma_countdown(start, probes.take(i), ordinal);
}

/// Triggering one failpoint: on a run in trigger mode for `ordinal` over
/// failpoints of one candidate each, the failpoint at visit position
/// `ordinal` hands back its candidate as an error, if the operation it
/// guards succeeded, and every other failpoint hands back the result it was
/// given.
pub proof fn law_trigger_fires_the_chosen_probe<T, E, L>(
    start: Snapshot<L>,
    probes: Seq<Probe<T, E>>,
    ordinal: int,
    i: int,
)
    requires
        forall|j: int| 0 <= j < probes.len() ==> (#[trigger] probes[j]).candidates.len() == 1,
        0 <= i < probes.len(),
    ensures
        result_at(start.start_trigger(ordinal), probes, i) == if i + 1 == ordinal
            && probes[i].res is Ok {
            Err(probes[i].candidates[0])
        } else {
            probes[i].res
        },
{
    law_trigger_selects_by_ordinal(start, probes, ordinal, i);
    lemma_single_candidates(probes.take(i));
}

/// At most one failpoint selects a candidate on a run in trigger mode,
/// whatever the ordinal: once the countdown has reached zero it goes on
/// below zero and never comes back.
pub proof fn law_at_most_one_probe_fires<T, E, L>(
    start: Snapshot<L>,
    probes: Seq<Probe<T, E>>,
    ordinal: int,
    i: int,
    j: int,
)
    requires
        0 <= i < j < probes.len(),
    ensures
        !({
            &&& after_visits(start.start_trigger(ordinal), probes.take(i)).chosen(
                probes[i].candidates,
            ) is Some
            &&& after_visits(start.start_trigger(ordinal), probes.take(j)).chosen(
                probes[j].candidates,
            ) is Some
        }),
{
    law_trigger_selects_by_ordinal(start, probes, ordinal, i);
    law_trigger_selects_by_ordinal(start, probes, ordinal, j);
    lemma_ordinals_grow(probes, i + 1, j);
    lemma_prefix_step(probes, i);
}

/// Starting the counter twice in a row is starting it once: the counter
/// reads zero both times, and the second call changes nothing.
pub proof fn law_start_counter_is_idempotent<L>(s: Snapshot<L>)
    ensures
        s.start_counter().counter == 0,
        s.start_counter().start_counter() == s.start_counter(),
{
}

/// Masking: a failpoint never replaces a failure. When the failpoint that
/// was chosen to fire guards an operation that has already failed, the
/// original error is handed back, the visit is reported as an unexpected
/// failure, and nothing is added to the history of triggered failpoints.
pub proof fn law_failure_is_never_replaced<T, E, L>(
    s: Snapshot<L>,
    original: E,
    candidates: Seq<E>,
    loc: Location,
    error_text: Seq<char>,
)
    ensures
        s.outcome(Err::<T, E>(original), candidates) == Err::<T, E>(original),
        s.selected(candidates.len() as int) is Some ==> ({
            let next = s.visit(candidates.len() as int, false, loc, error_text);
            &&& next.triggered_locs == s.triggered_locs
            &&& next.log == s.log_if_verbose(
                Verbosity::Moderate,
                unexpected_message(loc, error_text),
            ).log
        }),
        candidates.len() >= 1 ==> s.start_trigger(1).selected(candidates.len() as int) == Some(
            0int,
        ),
{
}

/// A run of the exhauster succeeds exactly when no pass deviated.
pub proof fn law_success_means_no_deviation<T, E>(result: CodePathResult<T, E>)
    requires
        result.is_exhaustion_outcome(),
    ensures
        result.trigger_count == result.expected_trigger_count <==> result.unexpected_result
            is None,
{
}

/// Ordinal exhaustiveness: over a code path with `k` failpoint errors, an
/// exhaustion run ends with `k` errors triggered and no unexpected result if
/// and only if the code path succeeds while nothing is triggered and fails
/// for every ordinal from one to `k` that is triggered.
///
/// `result` is what the exhauster returned for `codepath`. The code path has
/// `k` failpoint errors: every discovery pass that succeeds leaves `k` on the
/// counter. How a pass ends is a matter of the code path alone:
/// `discovery_fails` says whether it fails while nothing is triggered, and
/// `fails_when_forced` for which ordinals it fails when that ordinal is
/// triggered.
pub proof fn law_exhaustion_is_exhaustive<T, E, L, const ENABLED: bool, C>(
    codepath: C,
    result: CodePathResult<T, E>,
    k: int,
    discovery_fails: bool,
    fails_when_forced: spec_fn(i64) -> bool,
) where L: Fn(String), C: FnMut(&mut State<L, ENABLED>) -> Result<T, E>
    requires
        exhausted(codepath, result),
        !(result.unexpected_result matches Some(Err(_))) ==> exists|
            s: &mut State<L, ENABLED>,
            value: T,
        |
            armed_for(*s, Pass::Count) && #[trigger] call_ensures(
                codepath,
                (s,),
                Ok::<T, E>(value),
            ) && final(s).inner@.counter == result.expected_trigger_count,
        forall|s: &mut State<L, ENABLED>, value: T|
            armed_for(*s, Pass::Count) && #[trigger] call_ensures(
                codepath,
                (s,),
                Ok::<T, E>(value),
            ) ==> final(s).inner@.counter == k,
        forall|res: Result<T, E>| #[trigger]
            may_end(codepath, Pass::Count, res) ==> (res is Err) == discovery_fails,
        forall|ordinal: i64, res: Result<T, E>| #[trigger]
            may_end(codepath, Pass::Trigger(ordinal), res) ==> (res is Err) == fails_when_forced(
                ordinal,
            ),
    ensures
        (result.trigger_count == k && result.unexpected_result is None) <==> (!discovery_fails
            && forall|ordinal: i64| 1 <= ordinal <= k ==> #[trigger] fails_when_forced(ordinal)),
{
    if !(result.unexpected_result matches Some(Err(_))) {
        let (s, value) = choose|s: &mut State<L, ENABLED>, value: T|
            armed_for(*s, Pass::Count) && #[trigger] call_ensures(
                codepath,
                (s,),
                Ok::<T, E>(value),
            ) && final(s).inner@.counter == result.expected_trigger_count;
        assert(may_end(codepath, Pass::Count, Ok::<T, E>(value)));
        if result.unexpected_result is None {
            assert forall|ordinal: i64| 1 <= ordinal <= k implies #[trigger] fails_when_forced(
                ordinal,
            ) by {
                assert(fails_at(codepath, ordinal));
            }
        }
    }
}

} // verus!
