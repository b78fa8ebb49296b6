//! The outcome of driving a code path through all of its failpoints.

use crate::failpoint_state::{
    get_counted_locs, get_triggered_locs, log_if_verbose, State, Verbosity,
};
use crate::location::Location;
use crate::text::{
    debug_text, decimal, pad_left, push_decimal_width3, push_signed_decimal, signed_decimal,
};
use core::fmt::Debug;
use vstd::prelude::*;
use vstd::string::StringExecFns;

verus! {

/// What one exhaustion run found.
pub struct CodePathResult<T, E> {
    /// The failpoint errors discovered by the counting pass.
    pub expected_trigger_count: i64,
    /// The failpoint errors that were triggered, one by one, and made the
    /// code path fail.
    pub trigger_count: i64,
    /// The result of the pass that did not end as expected, if there was one.
    pub unexpected_result: Option<Result<T, E>>,
}

/// The line of asterisks that opens and closes a report.
pub open spec fn rule_text() -> Seq<char> {
    "************************************************************************"@
}

/// The line of a report that lists `loc` at position `index`, counted from
/// zero: the position counted from one, right-aligned in three characters,
/// and the location.
pub open spec fn list_line(index: int, loc: Location) -> Seq<char> {
    "*   "@ + pad_left(decimal((index + 1) as nat), 3) + "| "@ + loc.text()
}

/// The lines of a report that list `locs`, all at the highest verbosity.
pub open spec fn list_lines(locs: Seq<Location>) -> Seq<(Verbosity, Seq<char>)> {
    Seq::new(locs.len(), |i: int| (Verbosity::Extreme, list_line(i, locs[i])))
}

/// The levels and texts of the lines held in `lines`.
pub open spec fn lines_view(lines: Seq<(Verbosity, String)>) -> Seq<(Verbosity, Seq<char>)> {
    Seq::new(lines.len(), |i: int| (lines[i].0, lines[i].1@))
}

fn push_line(lines: &mut Vec<(Verbosity, String)>, level: Verbosity, text: String)
    ensures
        lines_view(final(lines)@) == lines_view(old(lines)@).push((level, text@)),
{
    lines.push((level, text));
}

fn push_str_line(lines: &mut Vec<(Verbosity, String)>, level: Verbosity, text: &str)
    ensures
        lines_view(final(lines)@) == lines_view(old(lines)@).push((level, text@)),
{
    push_line(lines, level, String::from_str(text));
}

fn push_list_lines(lines: &mut Vec<(Verbosity, String)>, locs: &Vec<Location>)
    ensures
        lines_view(final(lines)@) == lines_view(old(lines)@) + list_lines(locs@),
{
    let mut i: usize = 0;
    while i < locs.len()
        invariant
            i <= locs.len(),
            lines_view(lines@) == lines_view(old(lines)@) + list_lines(locs@).take(i as int),
        decreases locs.len() - i,
    {
        let mut text = String::from_str("*   ");
        push_decimal_width3(&mut text, (i + 1) as u64);
        text.append("| ");
        text.append(locs[i].format().as_str());
        push_line(lines, Verbosity::Extreme, text);
        i = i + 1;
    }
}

/// Logs each of `lines` in turn, each at its own level.
fn log_all<L: Fn(String), const ENABLED: bool>(
    state: &mut State<L, ENABLED>,
    lines: &Vec<(Verbosity, String)>,
)
    ensures
        final(state).inner@ == old(state).when_enabled(
            old(state).inner@.log_lines(lines_view(lines@)),
        ),
{
    let mut i: usize = 0;
    while i < lines.len()
        invariant
            i <= lines.len(),
            state.inner@ == old(state).when_enabled(
                old(state).inner@.log_lines(lines_view(lines@).take(i as int)),
            ),
        decreases lines.len() - i,
    {
        let level = lines[i].0;
        let text = lines[i].1.clone();
        log_if_verbose(state, level, text);
        assert(lines_view(lines@).take(i + 1).drop_last() =~= lines_view(lines@).take(i as int));
        i = i + 1;
    }
    assert(lines_view(lines@).take(lines.len() as int) =~= lines_view(lines@));
}

impl<T, E> CodePathResult<T, E> {
    /// Whether every failpoint error that was discovered was also triggered.
    pub fn success(&self) -> (b: bool)
        ensures
            b == (self.trigger_count == self.expected_trigger_count),
    {
        self.trigger_count == self.expected_trigger_count
    }

    /// The shapes that the result of an exhaustion run can have.
    ///
    /// Without an unexpected result every discovered ordinal was triggered.
    /// An unexpected failure is that of the discovery pass: nothing was
    /// triggered, and the expected count stands at `i64::MAX`, for want of a
    /// count. An unexpected success is that of a pass in trigger mode: the
    /// ordinals before it were triggered, and it was not.
    pub open spec fn is_exhaustion_outcome(self) -> bool {
        match self.unexpected_result {
            None => 0 <= self.trigger_count == self.expected_trigger_count,
            Some(Err(_)) => self.trigger_count == 0 && self.expected_trigger_count == i64::MAX,
            Some(Ok(_)) => 0 <= self.trigger_count < self.expected_trigger_count,
        }
    }

    /// The rendering of the unexpected result as a report shows it: `text`
    /// when there is an unexpected result, nothing when there is none.
    pub open spec fn shown_unexpected(self, text: Seq<char>) -> Option<Seq<char>> {
        if self.unexpected_result is Some {
            Some(text)
        } else {
            None
        }
    }

    /// The lines of the report on the code path `name`, each with the
    /// verbosity from which it is logged.
    ///
    /// `counted` and `triggered` are the recorded histories, and
    /// `unexpected_text` is the rendering of the unexpected result, if there
    /// is one to show.
    pub open spec fn report_text(
        self,
        name: Seq<char>,
        counted: Seq<Location>,
        triggered: Seq<Location>,
        unexpected_text: Option<Seq<char>>,
    ) -> Seq<(Verbosity, Seq<char>)> {
        let totals = seq![
            (Verbosity::Moderate, rule_text()),
            (Verbosity::Moderate, "* Codepath:   "@ + name),
            (Verbosity::Moderate, "*"@),
            (
                Verbosity::Moderate,
                "* Counted:    "@ + signed_decimal(self.expected_trigger_count as int),
            ),
            (Verbosity::Moderate, "* Triggered:  "@ + signed_decimal(self.trigger_count as int)),
        ];
        let unexpected = match unexpected_text {
            Some(text) => seq![(Verbosity::Moderate, "* Unexpected: "@ + text)],
            None => Seq::empty(),
        };
        let verdict = if self.trigger_count == self.expected_trigger_count {
            "SUCCESS"@
        } else {
            "FAILED"@
        };
        totals + unexpected
            + seq![(Verbosity::Extreme, "*"@), (Verbosity::Extreme, "* Counted Failpoints: "@)]
            + list_lines(counted)
            + seq![(Verbosity::Extreme, "*"@), (Verbosity::Extreme, "* Triggered Failpoints:"@)]
            + list_lines(triggered)
            + seq![
                (Verbosity::Extreme, "*"@),
                (Verbosity::Moderate, "* Result:     "@ + verdict),
                (Verbosity::Moderate, rule_text()),
            ]
    }

    /// Builds the lines of the report on the code path `name`.
    pub fn report_lines(
        &self,
        name: &str,
        counted: &Vec<Location>,
        triggered: &Vec<Location>,
        unexpected_text: Option<&str>,
    ) -> (lines: Vec<(Verbosity, String)>)
        ensures
            lines_view(lines@) == self.report_text(
                name@,
                counted@,
                triggered@,
                match unexpected_text {
                    Some(text) => Some(text@),
                    None => None,
                },
            ),
    {
        let mut lines: Vec<(Verbosity, String)> = Vec::new();
        push_str_line(
            &mut lines,
            Verbosity::Moderate,
            "************************************************************************",
        );
        let mut text = String::from_str("* Codepath:   ");
        text.append(name);
        push_line(&mut lines, Verbosity::Moderate, text);
        push_str_line(&mut lines, Verbosity::Moderate, "*");
        let mut text = String::from_str("* Counted:    ");
        push_signed_decimal(&mut text, self.expected_trigger_count);
        push_line(&mut lines, Verbosity::Moderate, text);
        let mut text = String::from_str("* Triggered:  ");
        push_signed_decimal(&mut text, self.trigger_count);
        push_line(&mut lines, Verbosity::Moderate, text);
        match unexpected_text {
            Some(shown) => {
                let mut text = String::from_str("* Unexpected: ");
                text.append(shown);
                push_line(&mut lines, Verbosity::Moderate, text);
            },
            None => {},
        }
        push_str_line(&mut lines, Verbosity::Extreme, "*");
        push_str_line(&mut lines, Verbosity::Extreme, "* Counted Failpoints: ");
        push_list_lines(&mut lines, counted);
        push_str_line(&mut lines, Verbosity::Extreme, "*");
        push_str_line(&mut lines, Verbosity::Extreme, "* Triggered Failpoints:");
        push_list_lines(&mut lines, triggered);
        push_str_line(&mut lines, Verbosity::Extreme, "*");
        let mut text = String::from_str("* Result:     ");
        if self.success() {
            text.append("SUCCESS");
        } else {
            text.append("FAILED");
        }
        push_line(&mut lines, Verbosity::Moderate, text);
        push_str_line(
            &mut lines,
            Verbosity::Moderate,
            "************************************************************************",
        );
        assert(lines_view(lines@) =~= self.report_text(
            name@,
            counted@,
            triggered@,
            match unexpected_text {
                Some(text) => Some(text@),
                None => None,
            },
        ));
        lines
    }
}

impl<T: Debug, E: Debug> CodePathResult<T, E> {
    /// Writes a report on the code path `name` to the logger of `state`.
    ///
    /// The totals and the verdict are logged from `Verbosity::Moderate`, and
    /// the failpoints, in the order they were counted and in the order they
    /// were triggered, at `Verbosity::Extreme`. The unexpected result is
    /// shown as its `Debug` implementation renders it.
    pub fn report<L: Fn(String), const ENABLED: bool>(
        &self,
        state: &mut State<L, ENABLED>,
        name: &str,
    )
        ensures
            exists|unexpected_text: Seq<char>|
                final(state).inner@ == old(state).when_enabled(
                    old(state).inner@.log_lines(
                        #[trigger] self.report_text(
                            name@,
                            old(state).inner@.counted_locs,
                            old(state).inner@.triggered_locs,
                            self.shown_unexpected(unexpected_text),
                        ),
                    ),
                ),
    {
        let counted = get_counted_locs(state);
        let triggered = get_triggered_locs(state);
        let rendered = match &self.unexpected_result {
            Some(unexpected) => debug_text(unexpected),
            None => String::new(),
        };
        let shown = if self.unexpected_result.is_some() {
            Some(rendered.as_str())
        } else {
            None
        };
        let lines = self.report_lines(name, &counted, &triggered, shown);
        log_all(state, &lines);
        assert(state.inner@ == old(state).when_enabled(
            old(state).inner@.log_lines(
                self.report_text(
                    name@,
                    old(state).inner@.counted_locs,
                    old(state).inner@.triggered_locs,
                    self.shown_unexpected(rendered@),
                ),
            ),
        ));
    }
}

} // verus!
