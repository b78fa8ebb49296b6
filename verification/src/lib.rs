//! Deterministic fault injection for exhaustive error-path testing.
//!
//! Code under test marks the places where the result of an operation may be
//! replaced by a synthetic error. A harness first counts those places on one
//! run of a code path, then runs the path once per place, forcing exactly that
//! one to fail, and checks that every forced failure is reported.
//!
//! The pieces, from the leaves up:
//!
//! - [`location`]: where a failpoint stands, and how it is shown in messages;
//! - [`failpoint_state`]: the injection state, with its two modes, its
//!   counters, its logger and its histories, and the model of it that every
//!   contract speaks of;
//! - [`probe`]: the failpoints themselves, with one to three candidate errors;
//! - [`exhaust`] and [`codepath_state`]: the exhauster, which drives a code
//!   path through all of its failpoints, and the result and report of a run;
//! - [`laws`]: what holds of every run, proved over the same model.
//!
//! The injection state is a value that the caller owns and hands to each
//! operation. Nothing here is shared behind the caller's back: exclusive
//! access to the state is what a lock would otherwise have to give.

pub mod codepath_state;
pub mod exhaust;
pub mod failpoint_state;
pub mod laws;
pub mod location;
pub mod probe;
pub mod text;

pub use codepath_state::CodePathResult;
pub use exhaust::{
    announce_pass, announce_teardown, arm, report_deviation, sum_up, test_codepath, Exhauster, Pass,
};
pub use failpoint_state::{
    get_count, get_counted_locs, get_triggered_locs, is_enabled, log_if_verbose, set_logger,
    set_verbosity, start_counter, start_trigger, Inner, Logger, Mode, Snapshot, State, Verbosity,
};
pub use location::Location;
pub use probe::{failpoint, failpoint2, failpoint3, has_room};
