//! Failpoints: the places where the result of an operation may be replaced by
//! a synthetic error.
//!
//! A failpoint is handed the result of the operation it guards, already
//! computed, and one to three candidate errors. Each candidate takes one
//! ordinal of the code path, in declaration order.

use crate::failpoint_state::State;
use crate::location::Location;
use core::fmt::Debug;
use vstd::prelude::*;

verus! {

/// The result that a failpoint with the given candidates hands back when it
/// is visited in `state` and guards an operation that ended in `res`. Where
/// fault injection is compiled out, that is `res`.
pub open spec fn probe_outcome<T, E, L: Fn(String), const ENABLED: bool>(
    state: State<L, ENABLED>,
    res: Result<T, E>,
    candidates: Seq<E>,
) -> Result<T, E> {
    if ENABLED {
        state.inner@.outcome(res, candidates)
    } else {
        res
    }
}

/// Whether the counters of `state` have room for a visit to a failpoint with
/// `candidates` candidate errors. They always have where fault injection is
/// compiled out.
pub open spec fn has_room_for<L: Fn(String), const ENABLED: bool>(
    state: State<L, ENABLED>,
    candidates: int,
) -> bool {
    ENABLED ==> state.inner@.can_visit(candidates)
}

/// Whether the counters of `state` have room for a visit to a failpoint with
/// `candidates` candidate errors.
pub fn has_room<L: Fn(String), const ENABLED: bool>(
    state: &State<L, ENABLED>,
    candidates: u8,
) -> (b: bool)
    ensures
        b == has_room_for(*state, candidates as int),
{
    if ENABLED {
        state.inner.has_room(candidates)
    } else {
        true
    }
}

/// A failpoint with one candidate error.
///
/// In count mode it counts one ordinal and hands `res` back. In trigger mode
/// it takes one ordinal from the countdown; if that brings the countdown to
/// zero and `res` is a success, it hands back `Err(err)` in its place. A
/// failure is never replaced.
pub fn failpoint<T, E: Debug, L: Fn(String), const ENABLED: bool>(
    state: &mut State<L, ENABLED>,
    res: Result<T, E>,
    err: E,
    loc: &Location,
) -> (out: Result<T, E>)
    requires
        has_room_for(*old(state), 1),
    ensures
        out == probe_outcome(*old(state), res, seq![err]),
        exists|error_text: Seq<char>|
            final(state).inner@ == old(state).when_enabled(
                #[trigger] old(state).inner@.visit(1, res is Ok, *loc, error_text),
            ),
{
    if !ENABLED {
        assert(state.inner@ == old(state).when_enabled(
            old(state).inner@.visit(1, res is Ok, *loc, Seq::empty()),
        ));
        return res;
    }
    let chosen = match state.inner.arrive(1, loc) {
        Some(_) => Some(err),
        None => None,
    };
    let ghost arrived = state.inner@;
    let out = state.inner.settle(res, chosen, loc);
    proof {
        let text = choose|text: Seq<char>|
            state.inner@ == #[trigger] arrived.settle(chosen is Some, res is Ok, *loc, text);
        assert(state.inner@ == old(state).inner@.visit(1, res is Ok, *loc, text));
    }
    out
}

/// A failpoint with two candidate errors, which take two ordinals in
/// declaration order.
pub fn failpoint2<T, E: Debug, L: Fn(String), const ENABLED: bool>(
    state: &mut State<L, ENABLED>,
    res: Result<T, E>,
    err1: E,
    err2: E,
    loc: &Location,
) -> (out: Result<T, E>)
    requires
        has_room_for(*old(state), 2),
    ensures
        out == probe_outcome(*old(state), res, seq![err1, err2]),
        exists|error_text: Seq<char>|
            final(state).inner@ == old(state).when_enabled(
                #[trigger] old(state).inner@.visit(2, res is Ok, *loc, error_text),
            ),
{
    if !ENABLED {
        assert(state.inner@ == old(state).when_enabled(
            old(state).inner@.visit(2, res is Ok, *loc, Seq::empty()),
        ));
        return res;
    }
    let chosen = match state.inner.arrive(2, loc) {
        Some(j) => if j == 0 {
            Some(err1)
        } else {
            Some(err2)
        },
        None => None,
    };
    let ghost arrived = state.inner@;
    let out = state.inner.settle(res, chosen, loc);
    proof {
        let text = choose|text: Seq<char>|
            state.inner@ == #[trigger] arrived.settle(chosen is Some, res is Ok, *loc, text);
        assert(state.inner@ == old(state).inner@.visit(2, res is Ok, *loc, text));
    }
    out
}

/// A failpoint with three candidate errors, which take three ordinals in
/// declaration order.
pub fn failpoint3<T, E: Debug, L: Fn(String), const ENABLED: bool>(
    state: &mut State<L, ENABLED>,
    res: Result<T, E>,
    err1: E,
    err2: E,
    err3: E,
    loc: &Location,
) -> (out: Result<T, E>)
    requires
        has_room_for(*old(state), 3),
    ensures
        out == probe_outcome(*old(state), res, seq![err1, err2, err3]),
        exists|error_text: Seq<char>|
            final(state).inner@ == old(state).when_enabled(
                #[trigger] old(state).inner@.visit(3, res is Ok, *loc, error_text),
            ),
{
    if !ENABLED {
        assert(state.inner@ == old(state).when_enabled(
            old(state).inner@.visit(3, res is Ok, *loc, Seq::empty()),
        ));
        return res;
    }
    let chosen = match state.inner.arrive(3, loc) {
        Some(j) => if j == 0 {
            Some(err1)
        } else if j == 1 {
            Some(err2)
        } else {
            Some(err3)
        },
        None => None,
    };
    let ghost arrived = state.inner@;
    let out = state.inner.settle(res, chosen, loc);
    proof {
        let text = choose|text: Seq<char>|
            state.inner@ == #[trigger] arrived.settle(chosen is Some, res is Ok, *loc, text);
        assert(state.inner@ == old(state).inner@.visit(3, res is Ok, *loc, text));
    }
    out
}

} // verus!
