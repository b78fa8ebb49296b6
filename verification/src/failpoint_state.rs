//! The injection state: the mode, the counters, the logging configuration and
//! the histories that govern what every failpoint does.

use crate::location::Location;
use crate::text::debug_text;
use core::fmt::Debug;
use vstd::prelude::*;
use vstd::string::StringExecFns;

verus! {

/// What failpoints do when they are visited.
#[derive(Debug, Clone, Copy, PartialEq, Eq, Structural)]
pub enum Mode {
    /// Failpoints count themselves and change nothing.
    Count,
    /// One failpoint, chosen by its ordinal, is forced to fail.
    Trigger,
}

/// How much is logged and recorded.
#[derive(Debug, Clone, Copy, PartialEq, Eq, PartialOrd, Structural)]
pub enum Verbosity {
    /// Nothing is logged but what is asked for at this level itself.
    Silent,
    /// Events are logged.
    Moderate,
    /// Events are logged and the visited failpoints are recorded.
    Extreme,
}

impl Verbosity {
    /// The position of a level in the order `Silent < Moderate < Extreme`.
    pub open spec fn rank(self) -> int {
        match self {
            Verbosity::Silent => 0,
            Verbosity::Moderate => 1,
            Verbosity::Extreme => 2,
        }
    }

    /// Whether this level is `level` or a more verbose one.
    pub fn at_least(self, level: Verbosity) -> (b: bool)
        ensures
            b == (self.rank() >= level.rank()),
    {
        match level {
            Verbosity::Silent => true,
            Verbosity::Moderate => match self {
                Verbosity::Silent => false,
                _ => true,
            },
            Verbosity::Extreme => match self {
                Verbosity::Extreme => true,
                _ => false,
            },
        }
    }
}

/// The message logged when a failpoint is counted.
pub open spec fn found_message(loc: Location) -> Seq<char> {
    "Found "@ + loc.text()
}

/// The message logged when a failpoint injects an error.
pub open spec fn triggered_message(loc: Location, error_text: Seq<char>) -> Seq<char> {
    "Triggered "@ + loc.text() + " injecting Err("@ + error_text + ")"@
}

/// The message logged when the chosen failpoint finds that the operation it
/// guards has already failed.
pub open spec fn unexpected_message(loc: Location, error_text: Seq<char>) -> Seq<char> {
    "Unexpected error in "@ + loc.text() + " got Err("@ + error_text + ")"@
}

/// The injection state as a mathematical value.
pub struct Snapshot<L> {
    /// What failpoints do when they are visited.
    pub mode: Mode,
    /// Ordinals counted since counting was last started.
    pub counter: int,
    /// Ordinals left until the chosen failpoint; it fires on reaching zero.
    pub trigger: int,
    /// How much is logged and recorded.
    pub verbosity: Verbosity,
    /// The logger, if one is set.
    pub logger: Option<L>,
    /// The failpoints counted, in visit order.
    pub counted_locs: Seq<Location>,
    /// The failpoints that injected an error, in visit order.
    pub triggered_locs: Seq<Location>,
    /// Every message handed to a logger so far, oldest first.
    pub log: Seq<Seq<char>>,
}

impl<L> Snapshot<L> {
    /// The state before anything was configured.
    pub open spec fn initial() -> Snapshot<L> {
        Snapshot {
            mode: Mode::Count,
            counter: 0,
            trigger: i64::MAX as int,
            verbosity: Verbosity::Silent,
            logger: None,
            counted_locs: Seq::empty(),
            triggered_locs: Seq::empty(),
            log: Seq::empty(),
        }
    }

    /// Count mode, with the counter at zero and both histories empty.
    pub open spec fn start_counter(self) -> Snapshot<L> {
        Snapshot {
            mode: Mode::Count,
            counter: 0,
            counted_locs: Seq::empty(),
            triggered_locs: Seq::empty(),
            ..self
        }
    }

    /// Trigger mode, with the countdown at `trigger_after`. The counter and
    /// the histories stay as they are.
    pub open spec fn start_trigger(self, trigger_after: int) -> Snapshot<L> {
        Snapshot { mode: Mode::Trigger, trigger: trigger_after, ..self }
    }

    /// The same state at the verbosity `v`.
    pub open spec fn set_verbosity(self, v: Verbosity) -> Snapshot<L> {
        Snapshot { verbosity: v, ..self }
    }

    /// The same state with the logger `l`, or with none.
    pub open spec fn set_logger(self, l: Option<L>) -> Snapshot<L> {
        Snapshot { logger: l, ..self }
    }

    /// Hands `msg` to the logger, if there is one.
    pub open spec fn emit(self, msg: Seq<char>) -> Snapshot<L> {
        if self.logger is Some {
            Snapshot { log: self.log.push(msg), ..self }
        } else {
            self
        }
    }

    /// Logs `msg` if the verbosity is `level` or above.
    pub open spec fn log_if_verbose(self, level: Verbosity, msg: Seq<char>) -> Snapshot<L> {
        if self.verbosity.rank() >= level.rank() {
            self.emit(msg)
        } else {
            self
        }
    }

    /// Logs each line of `lines` in turn, each at its own level.
    pub open spec fn log_lines(self, lines: Seq<(Verbosity, Seq<char>)>) -> Snapshot<L>
        decreases lines.len(),
    {
        if lines.len() == 0 {
            self
        } else {
            self.log_lines(lines.drop_last()).log_if_verbose(lines.last().0, lines.last().1)
        }
    }

    /// Records `loc` among the counted failpoints, if the verbosity asks for it.
    pub open spec fn report_count(self, loc: Location) -> Snapshot<L> {
        let logged = self.log_if_verbose(Verbosity::Moderate, found_message(loc));
        if self.verbosity == Verbosity::Extreme {
            Snapshot { counted_locs: self.counted_locs.push(loc), ..logged }
        } else {
            logged
        }
    }

    /// Records that the failpoint at `loc` injected an error.
    pub open spec fn report_trigger(self, loc: Location, error_text: Seq<char>) -> Snapshot<L> {
        let logged = self.log_if_verbose(Verbosity::Moderate, triggered_message(loc, error_text));
        if self.verbosity == Verbosity::Extreme {
            Snapshot { triggered_locs: self.triggered_locs.push(loc), ..logged }
        } else {
            logged
        }
    }

    /// Records that the chosen failpoint at `loc` met an operation that had
    /// already failed.
    pub open spec fn report_unexpected_failure(
        self,
        loc: Location,
        error_text: Seq<char>,
    ) -> Snapshot<L> {
        self.log_if_verbose(Verbosity::Moderate, unexpected_message(loc, error_text))
    }

    /// The candidate that a failpoint with `candidates` candidate errors
    /// selects when it is visited in this state, counted from zero.
    ///
    /// Each candidate takes one ordinal, in declaration order: the countdown
    /// is decremented once per candidate, and the candidate whose decrement
    /// brings it to zero is selected.
    pub open spec fn selected(self, candidates: int) -> Option<int> {
        if self.mode == Mode::Trigger && 1 <= self.trigger <= candidates {
            Some(self.trigger - 1)
        } else {
            None
        }
    }

    /// The candidate error that a failpoint with the given candidates selects
    /// when it is visited in this state, if it selects one.
    pub open spec fn chosen<E>(self, candidates: Seq<E>) -> Option<E> {
        match self.selected(candidates.len() as int) {
            Some(j) => Some(candidates[j]),
            None => None,
        }
    }

    /// The result that a failpoint with the given candidates hands back when
    /// it is visited in this state and guards an operation that ended in
    /// `res`.
    pub open spec fn outcome<T, E>(self, res: Result<T, E>, candidates: Seq<E>) -> Result<T, E> {
        settled(res, self.chosen(candidates))
    }

    /// Whether the counters have room for a visit to a failpoint with
    /// `candidates` candidate errors.
    pub open spec fn can_visit(self, candidates: int) -> bool {
        match self.mode {
            Mode::Count => self.counter + candidates <= i64::MAX,
            Mode::Trigger => self.trigger - candidates >= i64::MIN,
        }
    }

    /// The first half of a visit: counting, or counting down.
    pub open spec fn arrive(self, candidates: int, loc: Location) -> Snapshot<L> {
        match self.mode {
            Mode::Count => (Snapshot { counter: self.counter + candidates, ..self }).report_count(
                loc,
            ),
            Mode::Trigger => Snapshot {
                trigger: if self.selected(candidates) is Some {
                    0
                } else {
                    self.trigger - candidates
                },
                ..self
            },
        }
    }

    /// The second half of a visit: what is reported when a candidate was
    /// selected.
    pub open spec fn settle(
        self,
        fired: bool,
        original_ok: bool,
        loc: Location,
        error_text: Seq<char>,
    ) -> Snapshot<L> {
        if !fired {
            self
        } else if original_ok {
            self.report_trigger(loc, error_text)
        } else {
            self.report_unexpected_failure(loc, error_text)
        }
    }

    /// The state after a visit to the failpoint at `loc`, which has
    /// `candidates` candidate errors and guards an operation that succeeded
    /// (`original_ok`) or failed. `error_text` is the rendering of the error
    /// that the visit reports, if it reports one.
    pub open spec fn visit(
        self,
        candidates: int,
        original_ok: bool,
        loc: Location,
        error_text: Seq<char>,
    ) -> Snapshot<L> {
        self.arrive(candidates, loc).settle(
            self.selected(candidates) is Some,
            original_ok,
            loc,
            error_text,
        )
    }
}

/// A logger that can be shared between threads, as a state that lives behind
/// a lock needs it.
pub type Logger = Box<dyn Fn(String) + Send + Sync>;

/// Whether a logger can be handed any message.
pub open spec fn accepts_every_message<L: Fn(String)>(logger: L) -> bool {
    forall|msg: String| call_requires(logger, (msg,))
}

/// The result that a failpoint hands back: the chosen candidate as an error
/// when one was chosen and the guarded operation succeeded, else the result of
/// the guarded operation, untouched.
pub open spec fn settled<T, E>(res: Result<T, E>, chosen: Option<E>) -> Result<T, E> {
    match chosen {
        Some(err) => if res is Ok {
            Err(err)
        } else {
            res
        },
        None => res,
    }
}

/// The injection state. `L` is the type of the logger, a callback that takes
/// each message as a `String`.
///
/// The counter never goes below zero, and the logger, when there is one,
/// accepts every message.
pub struct Inner<L: Fn(String)> {
    mode: Mode,
    counter: i64,
    logger: Option<L>,
    verbosity: Verbosity,
    trigger: i64,
    counted_locs: Vec<Location>,
    triggered_locs: Vec<Location>,
    log: Ghost<Seq<Seq<char>>>,
}

impl<L: Fn(String)> View for Inner<L> {
    type V = Snapshot<L>;

    closed spec fn view(&self) -> Snapshot<L> {
        Snapshot {
            mode: self.mode,
            counter: self.counter as int,
            trigger: self.trigger as int,
            verbosity: self.verbosity,
            logger: self.logger,
            counted_locs: self.counted_locs@,
            triggered_locs: self.triggered_locs@,
            log: self.log@,
        }
    }
}

impl<L: Fn(String)> Default for Inner<L> {
    fn default() -> (r: Self)
        ensures
            r@ == Snapshot::<L>::initial(),
    {
        Inner {
            mode: Mode::Count,
            counter: 0,
            logger: None,
            verbosity: Verbosity::Silent,
            trigger: i64::MAX,
            counted_locs: Vec::new(),
            triggered_locs: Vec::new(),
            log: Ghost(Seq::empty()),
        }
    }
}

fn copy_locs(locs: &Vec<Location>) -> (copy: Vec<Location>)
    ensures
        copy@ == locs@,
{
    let mut copy: Vec<Location> = Vec::new();
    let mut i: usize = 0;
    while i < locs.len()
        invariant
            i <= locs.len(),
            copy@ == locs@.take(i as int),
        decreases locs.len() - i,
    {
        copy.push(locs[i]);
        i = i + 1;
    }
    copy
}

fn found_text(loc: &Location) -> (msg: String)
    ensures
        msg@ == found_message(*loc),
{
    let mut msg = String::from_str("Found ");
    msg.append(loc.format().as_str());
    msg
}

fn triggered_text(loc: &Location, error_text: &str) -> (msg: String)
    ensures
        msg@ == triggered_message(*loc, error_text@),
{
    let mut msg = String::from_str("Triggered ");
    msg.append(loc.format().as_str());
    msg.append(" injecting Err(");
    msg.append(error_text);
    msg.append(")");
    msg
}

fn unexpected_text(loc: &Location, error_text: &str) -> (msg: String)
    ensures
        msg@ == unexpected_message(*loc, error_text@),
{
    let mut msg = String::from_str("Unexpected error in ");
    msg.append(loc.format().as_str());
    msg.append(" got Err(");
    msg.append(error_text);
    msg.append(")");
    msg
}

impl<L: Fn(String)> Inner<L> {
    #[verifier::type_invariant]
    spec fn well_formed(self) -> bool {
        &&& self.counter >= 0
        &&& self.logger matches Some(logger) ==> accepts_every_message(logger)
    }

    /// Enters count mode, sets the counter to zero and clears both histories.
    pub fn start_counter(&mut self)
        ensures
            final(self)@ == old(self)@.start_counter(),
    {
        proof {
            use_type_invariant(&*self);
        }
        self.mode = Mode::Count;
        self.counter = 0;
        self.counted_locs = Vec::new();
        self.triggered_locs = Vec::new();
    }

    /// Enters trigger mode; the failpoint at ordinal `trigger_after` will fire.
    pub fn start_trigger(&mut self, trigger_after: i64)
        ensures
            final(self)@ == old(self)@.start_trigger(trigger_after as int),
    {
        proof {
            use_type_invariant(&*self);
        }
        self.mode = Mode::Trigger;
        self.trigger = trigger_after;
    }

    /// The ordinals counted since counting was last started.
    pub fn get_count(&self) -> (count: i64)
        ensures
            count == self@.counter,
            count >= 0,
    {
        proof {
            use_type_invariant(self);
        }
        self.counter
    }

    /// The mode that the state is in.
    pub fn get_mode(&self) -> (mode: Mode)
        ensures
            mode == self@.mode,
    {
        self.mode
    }

    /// The ordinals left until the chosen failpoint.
    pub fn get_trigger(&self) -> (trigger: i64)
        ensures
            trigger == self@.trigger,
    {
        self.trigger
    }

    /// The verbosity that is set.
    pub fn get_verbosity(&self) -> (v: Verbosity)
        ensures
            v == self@.verbosity,
    {
        self.verbosity
    }

    /// A copy of the history of counted failpoints.
    pub fn get_counted_locs(&self) -> (locs: Vec<Location>)
        ensures
            locs@ == self@.counted_locs,
    {
        copy_locs(&self.counted_locs)
    }

    /// A copy of the history of failpoints that injected an error.
    pub fn get_triggered_locs(&self) -> (locs: Vec<Location>)
        ensures
            locs@ == self@.triggered_locs,
    {
        copy_locs(&self.triggered_locs)
    }

    /// Sets how much is logged and recorded from now on.
    pub fn set_verbosity(&mut self, v: Verbosity)
        ensures
            final(self)@ == old(self)@.set_verbosity(v),
    {
        proof {
            use_type_invariant(&*self);
        }
        self.verbosity = v;
    }

    /// Sets the logger, or removes it.
    pub fn set_logger(&mut self, l: Option<L>)
        requires
            l matches Some(logger) ==> accepts_every_message(logger),
        ensures
            final(self)@ == old(self)@.set_logger(l),
    {
        proof {
            use_type_invariant(&*self);
        }
        self.logger = l;
    }

    fn emit(&mut self, msg: String)
        ensures
            final(self)@ == old(self)@.emit(msg@),
    {
        proof {
            use_type_invariant(&*self);
        }
        let ghost text = msg@;
        match &self.logger {
            Some(logger) => {
                logger(msg);
                self.log = Ghost(self.log@.push(text));
            },
            None => {},
        }
    }

    /// Hands `msg` to the logger if there is one and the verbosity is `level`
    /// or above.
    pub fn log_if_verbose(&mut self, level: Verbosity, msg: String)
        ensures
            final(self)@ == old(self)@.log_if_verbose(level, msg@),
    {
        if self.verbosity.at_least(level) {
            self.emit(msg);
        }
    }

    /// Whether a message at `level` would reach a logger.
    pub fn logs_at(&self, level: Verbosity) -> (b: bool)
        ensures
            b == (self@.logger is Some && self@.verbosity.rank() >= level.rank()),
    {
        self.logger.is_some() && self.verbosity.at_least(level)
    }

    /// Logs that the failpoint at `loc` was counted, and records it.
    pub fn report_count(&mut self, loc: &Location)
        ensures
            final(self)@ == old(self)@.report_count(*loc),
    {
        if self.logs_at(Verbosity::Moderate) {
            self.emit(found_text(loc));
        }
        if self.verbosity.at_least(Verbosity::Extreme) {
            proof {
                use_type_invariant(&*self);
            }
            // The history is taken out, extended and put back: a push where it
            // stands could leave the state half changed if it failed.
            let mut locs: Vec<Location> = Vec::new();
            core::mem::swap(&mut self.counted_locs, &mut locs);
            locs.push(*loc);
            self.counted_locs = locs;
        }
    }

    /// Logs that the failpoint at `loc` injected an error, whose rendering is
    /// `error_text`, and records the failpoint.
    pub fn record_trigger(&mut self, loc: &Location, error_text: &str)
        ensures
            final(self)@ == old(self)@.report_trigger(*loc, error_text@),
    {
        if self.logs_at(Verbosity::Moderate) {
            self.emit(triggered_text(loc, error_text));
        }
        if self.verbosity.at_least(Verbosity::Extreme) {
            proof {
                use_type_invariant(&*self);
            }
            let mut locs: Vec<Location> = Vec::new();
            core::mem::swap(&mut self.triggered_locs, &mut locs);
            locs.push(*loc);
            self.triggered_locs = locs;
        }
    }

    /// Logs that the chosen failpoint at `loc` met an operation that had
    /// already failed with an error whose rendering is `error_text`.
    pub fn record_unexpected_failure(&mut self, loc: &Location, error_text: &str)
        ensures
            final(self)@ == old(self)@.report_unexpected_failure(*loc, error_text@),
    {
        if self.logs_at(Verbosity::Moderate) {
            self.emit(unexpected_text(loc, error_text));
        }
    }

    /// Logs that the failpoint at `loc` injected `error`, and records the
    /// failpoint. The error is rendered only when the message is logged.
    pub fn report_trigger(&mut self, loc: &Location, error: &dyn Debug)
        ensures
            exists|error_text: Seq<char>|
                final(self)@ == old(self)@.report_trigger(*loc, error_text),
    {
        if self.logs_at(Verbosity::Moderate) {
            let rendered = debug_text(error);
            self.record_trigger(loc, rendered.as_str());
        } else {
            self.record_trigger(loc, "");
        }
    }

    /// Logs that the chosen failpoint at `loc` met an operation that had
    /// already failed with `error`. The error is rendered only when the
    /// message is logged.
    pub fn report_unexpected_failure(&mut self, loc: &Location, error: &dyn Debug)
        ensures
            exists|error_text: Seq<char>|
                final(self)@ == old(self)@.report_unexpected_failure(*loc, error_text),
    {
        if self.logs_at(Verbosity::Moderate) {
            let rendered = debug_text(error);
            self.record_unexpected_failure(loc, rendered.as_str());
        } else {
            self.record_unexpected_failure(loc, "");
        }
    }

    /// Whether the counters have room for a visit to a failpoint with
    /// `candidates` candidate errors.
    pub fn has_room(&self, candidates: u8) -> (b: bool)
        ensures
            b == self@.can_visit(candidates as int),
    {
        match self.mode {
            Mode::Count => self.counter <= i64::MAX - candidates as i64,
            Mode::Trigger => self.trigger >= i64::MIN + candidates as i64,
        }
    }

    /// The first half of a visit to the failpoint at `loc`, which has
    /// `candidates` candidate errors. In count mode the candidates are counted
    /// and the failpoint is reported. In trigger mode the countdown is
    /// decremented once for each candidate in turn, and stops at the
    /// candidate that brings it to zero: that candidate is selected.
    pub fn arrive(&mut self, candidates: u8, loc: &Location) -> (selected: Option<u8>)
        requires
            old(self)@.can_visit(candidates as int),
        ensures
            final(self)@ == old(self)@.arrive(candidates as int, *loc),
            match selected {
                Some(j) => old(self)@.selected(candidates as int) == Some(j as int),
                None => old(self)@.selected(candidates as int) is None,
            },
    {
        proof {
            use_type_invariant(&*self);
        }
        match self.mode {
            Mode::Count => {
                self.counter = self.counter + candidates as i64;
                self.report_count(loc);
                None
            },
            Mode::Trigger => {
                let mut reached: u8 = 0;
                while reached < candidates
                    invariant
                        reached <= candidates,
                        old(self)@.can_visit(candidates as int),
                        old(self)@.mode == Mode::Trigger,
                        self@ == (Snapshot {
                            trigger: old(self)@.trigger - reached,
                            ..old(self)@
                        }),
                        !(1 <= old(self)@.trigger <= reached),
                    decreases candidates - reached,
                {
                    proof {
                        use_type_invariant(&*self);
                    }
                    self.trigger = self.trigger - 1;
                    if self.trigger == 0 {
                        return Some(reached);
                    }
                    reached = reached + 1;
                }
                None
            },
        }
    }

    /// The second half of a visit: hands back the result of the failpoint at
    /// `loc`, given the result `res` of the operation it guards and the
    /// candidate error that the visit selected, if it selected one.
    ///
    /// A selected candidate replaces a success, and the injection is
    /// reported. It does not replace a failure: the original error is kept,
    /// and an unexpected failure is reported instead.
    pub fn settle<T, E: Debug>(
        &mut self,
        res: Result<T, E>,
        chosen: Option<E>,
        loc: &Location,
    ) -> (out: Result<T, E>)
        ensures
            out == settled(res, chosen),
            exists|error_text: Seq<char>|
                final(self)@ == #[trigger] old(self)@.settle(
                    chosen is Some,
                    res is Ok,
                    *loc,
                    error_text,
                ),
    {
        match chosen {
            None => {
                assert(self@ == old(self)@.settle(false, res is Ok, *loc, Seq::empty()));
                res
            },
            Some(err) => match res {
                Ok(_) => {
                    self.report_trigger(loc, &err);
                    proof {
                        let text = choose|text: Seq<char>|
                            self@ == old(self)@.report_trigger(*loc, text);
                        assert(self@ == old(self)@.settle(true, true, *loc, text));
                    }
                    Err(err)
                },
                Err(original) => {
                    self.report_unexpected_failure(loc, &original);
                    proof {
                        let text = choose|text: Seq<char>|
                            self@ == old(self)@.report_unexpected_failure(*loc, text);
                        assert(self@ == old(self)@.settle(true, false, *loc, text));
                    }
                    Err(original)
                },
            },
        }
    }
}

/// The injection state of a build with fault injection compiled in
/// (`ENABLED`) or out.
///
/// In a build without fault injection every operation leaves the state
/// alone, every query answers as if nothing had been counted, and every
/// failpoint hands back the result it was given.
pub struct State<L: Fn(String), const ENABLED: bool> {
    pub inner: Inner<L>,
}

impl<L: Fn(String), const ENABLED: bool> State<L, ENABLED> {
    /// A state in which nothing was configured yet.
    pub fn new() -> (state: Self)
        ensures
            state.inner@ == Snapshot::<L>::initial(),
    {
        State { inner: Inner::default() }
    }

    /// The inner state after an operation that leads to `next` where fault
    /// injection is compiled in, and does nothing where it is not.
    pub open spec fn when_enabled(&self, next: Snapshot<L>) -> Snapshot<L> {
        if ENABLED {
            next
        } else {
            self.inner@
        }
    }
}

impl<L: Fn(String), const ENABLED: bool> Default for State<L, ENABLED> {
    fn default() -> (state: Self)
        ensures
            state.inner@ == Snapshot::<L>::initial(),
    {
        State::new()
    }
}

/// Whether fault injection is compiled in.
pub fn is_enabled<L: Fn(String), const ENABLED: bool>(state: &State<L, ENABLED>) -> (b: bool)
    ensures
        b == ENABLED,
{
    ENABLED
}

/// Enters count mode and resets the failpoint counter to zero.
///
/// In count mode, failpoints count how many times they are encountered
/// without triggering any errors. This discovers how many failpoints exist on
/// a code path.
pub fn start_counter<L: Fn(String), const ENABLED: bool>(state: &mut State<L, ENABLED>)
    ensures
        final(state).inner@ == old(state).when_enabled(old(state).inner@.start_counter()),
{
    if ENABLED {
        state.inner.start_counter();
    }
}

/// Enters trigger mode and sets which failpoint should trigger an error.
///
/// `trigger_after` is the ordinal, counted from one, of the failpoint to
/// trigger among those encountered from now on.
pub fn start_trigger<L: Fn(String), const ENABLED: bool>(
    state: &mut State<L, ENABLED>,
    trigger_after: i64,
)
    ensures
        final(state).inner@ == old(state).when_enabled(
            old(state).inner@.start_trigger(trigger_after as int),
        ),
{
    if ENABLED {
        state.inner.start_trigger(trigger_after);
    }
}

/// The number of failpoint errors counted since the last call of
/// [`start_counter`]; zero where fault injection is compiled out.
pub fn get_count<L: Fn(String), const ENABLED: bool>(state: &State<L, ENABLED>) -> (count: i64)
    ensures
        count == (if ENABLED {
            state.inner@.counter
        } else {
            0
        }),
        count >= 0,
{
    if ENABLED {
        state.inner.get_count()
    } else {
        0
    }
}

/// The locations of the failpoints counted since the last call of
/// [`start_counter`], in the order they were counted.
pub fn get_counted_locs<L: Fn(String), const ENABLED: bool>(
    state: &State<L, ENABLED>,
) -> (locs: Vec<Location>)
    ensures
        locs@ == (if ENABLED {
            state.inner@.counted_locs
        } else {
            Seq::empty()
        }),
{
    if ENABLED {
        state.inner.get_counted_locs()
    } else {
        Vec::new()
    }
}

/// The locations of the failpoints triggered since the last call of
/// [`start_counter`], in the order they were triggered.
pub fn get_triggered_locs<L: Fn(String), const ENABLED: bool>(
    state: &State<L, ENABLED>,
) -> (locs: Vec<Location>)
    ensures
        locs@ == (if ENABLED {
            state.inner@.triggered_locs
        } else {
            Seq::empty()
        }),
{
    if ENABLED {
        state.inner.get_triggered_locs()
    } else {
        Vec::new()
    }
}

/// Sets the verbosity level for logging and recording.
pub fn set_verbosity<L: Fn(String), const ENABLED: bool>(
    state: &mut State<L, ENABLED>,
    v: Verbosity,
)
    ensures
        final(state).inner@ == old(state).when_enabled(old(state).inner@.set_verbosity(v)),
{
    if ENABLED {
        state.inner.set_verbosity(v);
    }
}

/// Sets the logger that receives the messages, or removes it with `None`.
pub fn set_logger<L: Fn(String), const ENABLED: bool>(state: &mut State<L, ENABLED>, l: Option<L>)
    requires
        l matches Some(logger) ==> accepts_every_message(logger),
    ensures
        final(state).inner@ == old(state).when_enabled(old(state).inner@.set_logger(l)),
{
    if ENABLED {
        state.inner.set_logger(l);
    }
}

/// Hands `msg` to the logger if there is one and the verbosity is `level` or
/// above.
pub fn log_if_verbose<L: Fn(String), const ENABLED: bool>(
    state: &mut State<L, ENABLED>,
    level: Verbosity,
    msg: String,
)
    ensures
        final(state).inner@ == old(state).when_enabled(
            old(state).inner@.log_if_verbose(level, msg@),
        ),
{
    if ENABLED {
        state.inner.log_if_verbose(level, msg);
    }
}

} // verus!
