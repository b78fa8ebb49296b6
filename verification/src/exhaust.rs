//! The codepath exhauster: it discovers how many failpoint errors one run of
//! a code path meets, then triggers them one at a time and checks that each
//! makes the code path fail.

use crate::codepath_state::CodePathResult;
use crate::failpoint_state::{
    get_count, is_enabled, log_if_verbose, start_counter, start_trigger, Mode, Snapshot, State,
    Verbosity,
};
use crate::text::{push_signed_decimal, signed_decimal};
use vstd::prelude::*;
use vstd::string::StringExecFns;

verus! {

/// What the state is armed for before a run of the code path.
#[derive(Debug, Clone, Copy, PartialEq, Eq, Structural)]
pub enum Pass {
    /// The discovery pass: failpoints count themselves.
    Count,
    /// A verification pass: the failpoint error at this ordinal is triggered.
    Trigger(i64),
}

/// The progress of one exhaustion run.
///
/// A run starts in count mode with the discovery pass, which is expected to
/// succeed. It then goes through the ordinals from one to the count that was
/// discovered, and expects each pass to fail. The first pass that ends
/// otherwise stops the run.
pub struct Exhauster {
    /// `Mode::Count` until the discovery pass has succeeded.
    pub mode: Mode,
    /// The passes in trigger mode that failed as expected so far.
    pub trigger_count: i64,
    /// The count found by the discovery pass; `i64::MAX` until then.
    pub expected_trigger_count: i64,
}

impl Exhauster {
    /// The values that a run can go through.
    pub open spec fn wf(self) -> bool {
        match self.mode {
            Mode::Count => self.trigger_count == 0 && self.expected_trigger_count == i64::MAX,
            Mode::Trigger => 0 <= self.trigger_count <= self.expected_trigger_count,
        }
    }

    /// The pass that is due, if the run is not complete.
    pub open spec fn pending(self) -> Option<Pass> {
        match self.mode {
            Mode::Count => Some(Pass::Count),
            Mode::Trigger => if self.trigger_count < self.expected_trigger_count {
                Some(Pass::Trigger((self.trigger_count + 1) as i64))
            } else {
                None
            },
        }
    }

    /// Whether a pass that ended in failure (`failed`) or in success did not
    /// end as the run expects of the pass that is due.
    pub open spec fn deviates(self, failed: bool) -> bool {
        match self.mode {
            Mode::Count => failed,
            Mode::Trigger => !failed,
        }
    }

    /// The run after the pass that was due ended in failure (`failed`) or in
    /// success, with `count` on the failpoint counter. A pass that deviates
    /// leaves the run as it is.
    pub open spec fn after(self, failed: bool, count: i64) -> Exhauster {
        if self.deviates(failed) {
            self
        } else {
            match self.mode {
                Mode::Count => Exhauster {
                    mode: Mode::Trigger,
                    trigger_count: 0,
                    expected_trigger_count: count,
                },
                Mode::Trigger => Exhauster {
                    trigger_count: (self.trigger_count + 1) as i64,
                    ..self
                },
            }
        }
    }

    /// A run of which no pass was made yet.
    pub fn new() -> (run: Exhauster)
        ensures
            run.wf(),
            run.mode == Mode::Count,
            run.trigger_count == 0,
            run.expected_trigger_count == i64::MAX,
    {
        Exhauster { mode: Mode::Count, trigger_count: 0, expected_trigger_count: i64::MAX }
    }

    /// The pass to make next, or `None` when every ordinal was triggered.
    pub fn next_pass(&self) -> (pass: Option<Pass>)
        ensures
            pass == self.pending(),
    {
        match self.mode {
            Mode::Count => Some(Pass::Count),
            Mode::Trigger => if self.trigger_count < self.expected_trigger_count {
                Some(Pass::Trigger(self.trigger_count + 1))
            } else {
                None
            },
        }
    }

    /// Takes note of how the pass that was due ended: in failure (`failed`)
    /// or in success, with `count` on the failpoint counter. Returns whether
    /// the pass deviated from what the run expects, which ends the run.
    ///
    /// A pass must be due. A run that was well-formed stays so, given a count
    /// that is not negative.
    pub fn record(&mut self, failed: bool, count: i64) -> (deviation: bool)
        requires
            old(self).pending() is Some,
        ensures
            deviation == old(self).deviates(failed),
            *final(self) == old(self).after(failed, count),
            old(self).wf() && count >= 0 ==> final(self).wf(),
    {
        match self.mode {
            Mode::Count => {
                if failed {
                    return true;
                }
                self.mode = Mode::Trigger;
                self.trigger_count = 0;
                self.expected_trigger_count = count;
                false
            },
            Mode::Trigger => {
                if !failed {
                    return true;
                }
                self.trigger_count = self.trigger_count + 1;
                false
            },
        }
    }

    /// The result of the run, given the result of the pass that deviated, if
    /// one did.
    pub fn finish<T, E>(self, unexpected_result: Option<Result<T, E>>) -> (result: CodePathResult<
        T,
        E,
    >)
        ensures
            result.expected_trigger_count == self.expected_trigger_count,
            result.trigger_count == self.trigger_count,
            result.unexpected_result == unexpected_result,
    {
        CodePathResult {
            expected_trigger_count: self.expected_trigger_count,
            trigger_count: self.trigger_count,
            unexpected_result,
        }
    }
}

/// Whether `state` is armed for `pass`: just reset for counting, or set to
/// trigger the ordinal of the pass.
pub open spec fn armed_for<L: Fn(String), const ENABLED: bool>(
    state: State<L, ENABLED>,
    pass: Pass,
) -> bool {
    match pass {
        Pass::Count => {
            &&& state.inner@.mode == Mode::Count
            &&& state.inner@.counter == 0
            &&& state.inner@.counted_locs.len() == 0
            &&& state.inner@.triggered_locs.len() == 0
        },
        Pass::Trigger(ordinal) => {
            &&& state.inner@.mode == Mode::Trigger
            &&& state.inner@.trigger == ordinal
        },
    }
}

/// Whether `state` is as the exhauster hands it to a run of the code path:
/// armed for counting, or armed to trigger an ordinal from one up. Where
/// fault injection is compiled out, the state is handed over as it is.
pub open spec fn ready_for_pass<L: Fn(String), const ENABLED: bool>(
    state: State<L, ENABLED>,
) -> bool {
    ||| !ENABLED
    ||| armed_for(state, Pass::Count)
    ||| state.inner@.mode == Mode::Trigger && state.inner@.trigger >= 1
}

/// Whether a run of `codepath` on a state armed for `pass` can end in `res`.
pub open spec fn may_end<T, E, L, const ENABLED: bool, C>(
    codepath: C,
    pass: Pass,
    res: Result<T, E>,
) -> bool where L: Fn(String), C: FnMut(&mut State<L, ENABLED>) -> Result<T, E> {
    exists|s: &mut State<L, ENABLED>|
        armed_for(*s, pass) && #[trigger] call_ensures(codepath, (s,), res)
}

/// Whether `codepath` can fail when the failpoint error at `ordinal` is
/// triggered.
pub open spec fn fails_at<T, E, L, const ENABLED: bool, C>(codepath: C, ordinal: i64) -> bool where
    L: Fn(String),
    C: FnMut(&mut State<L, ENABLED>) -> Result<T, E>,
 {
    exists|error: E| #[trigger] may_end(codepath, Pass::Trigger(ordinal), Err::<T, E>(error))
}

/// What an exhaustion run over `codepath` with the result `result` has
/// shown.
///
/// An unexpected result is one that the pass it is charged to can end in,
/// and every ordinal up to the trigger count made the code path fail when it
/// was triggered.
pub open spec fn exhausted<T, E, L, const ENABLED: bool, C>(
    codepath: C,
    result: CodePathResult<T, E>,
) -> bool where L: Fn(String), C: FnMut(&mut State<L, ENABLED>) -> Result<T, E> {
    &&& result.is_exhaustion_outcome()
    &&& match result.unexpected_result {
        Some(Err(error)) => may_end(codepath, Pass::Count, Err::<T, E>(error)),
        Some(Ok(value)) => may_end(
            codepath,
            Pass::Trigger((result.trigger_count + 1) as i64),
            Ok::<T, E>(value),
        ),
        None => true,
    }
    &&& forall|ordinal: i64|
        1 <= ordinal <= result.trigger_count ==> #[trigger] fails_at(codepath, ordinal)
}

/// The message that tells which pass is about to run.
pub open spec fn arming_message(pass: Pass) -> Seq<char> {
    match pass {
        Pass::Count => "Running codepath in COUNT mode"@,
        Pass::Trigger(ordinal) => "Running codepath in TRIGGER mode, will trigger error "@
            + signed_decimal(ordinal as int),
    }
}

/// The message that tells that the pass `pass` did not end as expected.
pub open spec fn deviation_message(pass: Pass) -> Seq<char> {
    match pass {
        Pass::Count => "Error returned by codepath in count mode. Expected codepath to succeed."@,
        Pass::Trigger(ordinal) => "Codepath did not fail in trigger mode for error "@
            + signed_decimal(ordinal as int) + ".  Expected codepath to fail."@,
    }
}

/// The message that sums up a run in which `triggered` of `expected` errors
/// were triggered.
pub open spec fn summary_message(triggered: int, expected: int) -> Seq<char> {
    "Triggered "@ + signed_decimal(triggered) + " of "@ + signed_decimal(expected) + " errors"@
}

/// The pass that a run made last, given how many errors it has triggered so
/// far: the discovery pass, or the pass for the last ordinal triggered.
pub open spec fn pass_after(triggered: i64) -> Pass {
    if triggered == 0 {
        Pass::Count
    } else {
        Pass::Trigger(triggered)
    }
}

/// The pass that an exhaustion run with the result `result` made last: the
/// pass that deviated, or else the pass for the last ordinal.
pub open spec fn last_pass<T, E>(result: CodePathResult<T, E>) -> Pass {
    match result.unexpected_result {
        Some(Err(_)) => Pass::Count,
        Some(Ok(_)) => Pass::Trigger((result.trigger_count + 1) as i64),
        None => pass_after(result.trigger_count),
    }
}

/// The state in which an exhaustion run with the result `result` leaves the
/// injection state, given the state `s` in which its last pass left it: what
/// follows the pass is logged, and then the summary.
pub open spec fn wrapped_up<T, E, L>(s: Snapshot<L>, result: CodePathResult<T, E>) -> Snapshot<
    L,
> {
    if result.unexpected_result is Some {
        s.log_if_verbose(Verbosity::Silent, deviation_message(last_pass(result)))
    } else {
        s.log_if_verbose(Verbosity::Moderate, "Running after block"@)
    }.log_if_verbose(
        Verbosity::Moderate,
        summary_message(result.trigger_count as int, result.expected_trigger_count as int),
    )
}

/// The state after the pass `pass` was announced.
pub open spec fn announced<L>(s: Snapshot<L>, pass: Pass) -> Snapshot<L> {
    s.log_if_verbose(
        Verbosity::Extreme,
        "\n------------------------------------------------------------"@,
    ).log_if_verbose(
        Verbosity::Extreme,
        match pass {
            Pass::Count => "Testing codepath in COUNT mode"@,
            Pass::Trigger(_) => "Testing codepath in TRIGGER mode"@,
        },
    ).log_if_verbose(Verbosity::Extreme, "Running before block"@)
}

/// The state after it was armed for the pass `pass`.
pub open spec fn armed<L>(s: Snapshot<L>, pass: Pass) -> Snapshot<L> {
    match pass {
        Pass::Count => s.start_counter(),
        Pass::Trigger(ordinal) => s.start_trigger(ordinal as int),
    }.log_if_verbose(Verbosity::Extreme, arming_message(pass))
}

/// Logs that the pass `pass` begins. This comes ahead of the setup step.
pub fn announce_pass<L: Fn(String), const ENABLED: bool>(state: &mut State<L, ENABLED>, pass: Pass)
    ensures
        final(state).inner@ == old(state).when_enabled(announced(old(state).inner@, pass)),
{
    log_if_verbose(
        state,
        Verbosity::Extreme,
        String::from_str("\n------------------------------------------------------------"),
    );
    let heading = match pass {
        Pass::Count => "Testing codepath in COUNT mode",
        Pass::Trigger(_) => "Testing codepath in TRIGGER mode",
    };
    log_if_verbose(state, Verbosity::Extreme, String::from_str(heading));
    log_if_verbose(state, Verbosity::Extreme, String::from_str("Running before block"));
}

/// Arms `state` for the pass `pass`, and logs which pass is about to run.
/// This comes between the setup step and the run of the code path.
pub fn arm<L: Fn(String), const ENABLED: bool>(state: &mut State<L, ENABLED>, pass: Pass)
    ensures
        final(state).inner@ == old(state).when_enabled(armed(old(state).inner@, pass)),
        ENABLED ==> armed_for(*final(state), pass),
{
    match pass {
        Pass::Count => {
            start_counter(state);
            log_if_verbose(
                state,
                Verbosity::Extreme,
                String::from_str("Running codepath in COUNT mode"),
            );
        },
        Pass::Trigger(ordinal) => {
            start_trigger(state, ordinal);
            let mut msg = String::from_str("Running codepath in TRIGGER mode, will trigger error ");
            push_signed_decimal(&mut msg, ordinal);
            log_if_verbose(state, Verbosity::Extreme, msg);
        },
    }
}

/// Logs, at every verbosity, that the pass `pass` did not end as expected.
pub fn report_deviation<L: Fn(String), const ENABLED: bool>(
    state: &mut State<L, ENABLED>,
    pass: Pass,
)
    ensures
        final(state).inner@ == old(state).when_enabled(
            old(state).inner@.log_if_verbose(Verbosity::Silent, deviation_message(pass)),
        ),
{
    match pass {
        Pass::Count => {
            log_if_verbose(
                state,
                Verbosity::Silent,
                String::from_str(
                    "Error returned by codepath in count mode. Expected codepath to succeed.",
                ),
            );
        },
        Pass::Trigger(ordinal) => {
            let mut msg = String::from_str("Codepath did not fail in trigger mode for error ");
            push_signed_decimal(&mut msg, ordinal);
            msg.append(".  Expected codepath to fail.");
            log_if_verbose(state, Verbosity::Silent, msg);
        },
    }
}

/// Logs that the teardown step is about to run, after a pass that ended as
/// expected.
pub fn announce_teardown<L: Fn(String), const ENABLED: bool>(state: &mut State<L, ENABLED>)
    ensures
        final(state).inner@ == old(state).when_enabled(
            old(state).inner@.log_if_verbose(Verbosity::Moderate, "Running after block"@),
        ),
{
    log_if_verbose(state, Verbosity::Moderate, String::from_str("Running after block"));
}

/// Logs how many of the expected errors the run `run` triggered.
pub fn sum_up<L: Fn(String), const ENABLED: bool>(state: &mut State<L, ENABLED>, run: &Exhauster)
    ensures
        final(state).inner@ == old(state).when_enabled(
            old(state).inner@.log_if_verbose(
                Verbosity::Moderate,
                summary_message(run.trigger_count as int, run.expected_trigger_count as int),
            ),
        ),
{
    let mut msg = String::from_str("Triggered ");
    push_signed_decimal(&mut msg, run.trigger_count);
    msg.append(" of ");
    push_signed_decimal(&mut msg, run.expected_trigger_count);
    msg.append(" errors");
    log_if_verbose(state, Verbosity::Moderate, msg);
}

/// Tests a code path by triggering every failpoint error on it.
///
/// The code path is first run in count mode, to discover how many failpoint
/// errors it meets, and is expected to succeed. It is then run once for each
/// ordinal from one to that count, in trigger mode, and is expected to fail
/// each time. `before` runs ahead of every pass and `after` follows every
/// pass that ended as expected. The first pass that ends otherwise stops the
/// run, and its result is handed back as the unexpected result.
///
/// Where fault injection is compiled out the code path is run once, between
/// `before` and `after`, and its result is handed back as the unexpected
/// result of a run that found no failpoint.
///
/// The contract speaks of the code path through what its runs can end in. An
/// unexpected result is one that the pass it is charged to returned. Unless
/// the discovery pass failed, the expected count is what a discovery pass
/// that succeeded left on the counter. Every ordinal up to the trigger count
/// made the code path fail when it was triggered. The injection state is left
/// as the last pass left it, with what the exhauster logs after that pass.
pub fn test_codepath<T, E, L, const ENABLED: bool, B, C, A>(
    state: &mut State<L, ENABLED>,
    mut before: B,
    mut codepath: C,
    mut after: A,
) -> (result: CodePathResult<T, E>) where
    L: Fn(String),
    B: FnMut(),
    C: FnMut(&mut State<L, ENABLED>) -> Result<T, E>,
    A: FnMut(),

    requires
        call_requires(before, ()),
        call_requires(after, ()),
        forall|s: &mut State<L, ENABLED>| ready_for_pass(*s) ==> call_requires(codepath, (s,)),
    ensures
        ENABLED ==> exhausted(codepath, result),
        ENABLED && !(result.unexpected_result matches Some(Err(_))) ==> exists|
            s: &mut State<L, ENABLED>,
            value: T,
        |
            armed_for(*s, Pass::Count) && #[trigger] call_ensures(
                codepath,
                (s,),
                Ok::<T, E>(value),
            ) && final(s).inner@.counter == result.expected_trigger_count,
        ENABLED ==> exists|s: &mut State<L, ENABLED>, res: Result<T, E>|
            armed_for(*s, last_pass(result)) && #[trigger] call_ensures(codepath, (s,), res)
                && (result.unexpected_result matches Some(unexpected) ==> res == unexpected)
                && final(state).inner@ == wrapped_up(final(s).inner@, result),
        !ENABLED ==> {
            &&& result.expected_trigger_count == 0
            &&& result.trigger_count == 0
            &&& result.unexpected_result matches Some(res)
            &&& exists|s: &mut State<L, ENABLED>|
                *s == *old(state) && #[trigger] call_ensures(codepath, (s,), res)
                    && *final(s) == *final(state)
        },
{
    if !is_enabled(state) {
        before();
        assert(ready_for_pass(*state));
        let res = codepath(state);
        after();
        return CodePathResult {
            expected_trigger_count: 0,
            trigger_count: 0,
            unexpected_result: Some(res),
        };
    }
    let mut run = Exhauster::new();
    let mut unexpected_result: Option<Result<T, E>> = None;
    let ghost path = codepath;
    loop
        invariant_except_break
            unexpected_result is None,
            run.mode == Mode::Trigger ==> exists|s: &mut State<L, ENABLED>, res: Result<T, E>|
                armed_for(*s, pass_after(run.trigger_count)) && #[trigger] call_ensures(
                    codepath,
                    (s,),
                    res,
                ) && state.inner@ == final(s).inner@.log_if_verbose(
                    Verbosity::Moderate,
                    "Running after block"@,
                ),
        invariant
            ENABLED,
            codepath == path,
            run.wf(),
            call_requires(before, ()),
            call_requires(after, ()),
            forall|s: &mut State<L, ENABLED>| ready_for_pass(*s) ==> call_requires(codepath, (s,)),
            run.mode == Mode::Trigger ==> exists|s: &mut State<L, ENABLED>, value: T|
                armed_for(*s, Pass::Count) && #[trigger] call_ensures(
                    codepath,
                    (s,),
                    Ok::<T, E>(value),
                ) && final(s).inner@.counter == run.expected_trigger_count,
            forall|ordinal: i64|
                1 <= ordinal <= run.trigger_count ==> #[trigger] fails_at(codepath, ordinal),
        ensures
            match unexpected_result {
                None => {
                    &&& run.pending() is None
                    &&& exists|s: &mut State<L, ENABLED>, res: Result<T, E>|
                        armed_for(*s, pass_after(run.trigger_count)) && #[trigger] call_ensures(
                            codepath,
                            (s,),
                            res,
                        ) && state.inner@ == final(s).inner@.log_if_verbose(
                            Verbosity::Moderate,
                            "Running after block"@,
                        )
                },
                Some(unexpected) => {
                    &&& run.pending() matches Some(pass)
                    &&& unexpected is Err <==> pass == Pass::Count
                    &&& may_end(codepath, pass, unexpected)
                    &&& exists|s: &mut State<L, ENABLED>|
                        armed_for(*s, pass) && #[trigger] call_ensures(codepath, (s,), unexpected)
                            && state.inner@ == final(s).inner@.log_if_verbose(
                            Verbosity::Silent,
                            deviation_message(pass),
                        )
                },
            },
        decreases
            (if run.mode == Mode::Count {
                1int
            } else {
                0int
            }),
            run.expected_trigger_count - run.trigger_count,
    {
        let pending = run.next_pass();
        if pending.is_none() {
            break ;
        }
        let pass = pending.unwrap();
        announce_pass(state, pass);
        before();
        arm(state, pass);
        assert(ready_for_pass(*state));
        let res = codepath(state);
        let count = get_count(state);
        let deviation = run.record(res.is_err(), count);
        if deviation {
            report_deviation(state, pass);
            unexpected_result = Some(res);
            break ;
        }
        proof {
            match pass {
                Pass::Count => {
                    assert(res == Ok::<T, E>(res->Ok_0));
                },
                Pass::Trigger(ordinal) => {
                    assert(may_end(codepath, Pass::Trigger(ordinal), Err::<T, E>(res->Err_0)));
                },
            }
        }
        announce_teardown(state);
        after();
    }
    sum_up(state, &run);
    run.finish(unexpected_result)
}

} // verus!
