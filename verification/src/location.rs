//! Where a failpoint stands in the source, and how it is shown in messages.

use crate::text::{decimal, push_decimal};
use vstd::prelude::*;
use vstd::string::StringExecFns;

verus! {

/// A location where a failpoint is counted or triggered.
///
/// A location only identifies a failpoint in messages and in the recorded
/// histories; it never decides what a failpoint does.
#[derive(Debug, Clone, Copy)]
pub struct Location {
    /// The crate that holds the failpoint, where it is known.
    pub crate_name: Option<&'static str>,
    /// The source file that holds the failpoint.
    pub file_name: &'static str,
    /// The line of the failpoint in that file.
    pub line_no: u32,
    /// What the failpoint stands for, in the words of its author.
    pub desc: Option<&'static str>,
}

impl Location {
    /// The file reference of this location: `file:line`, followed by the crate
    /// when it is known.
    pub open spec fn file_ref_text(&self) -> Seq<char> {
        match self.crate_name {
            Some(c) => self.file_name@ + ":"@ + decimal(self.line_no as nat) + " in crate "@ + c@,
            None => self.file_name@ + ":"@ + decimal(self.line_no as nat),
        }
    }

    /// The text that names this location in a message.
    pub open spec fn text(&self) -> Seq<char> {
        match self.desc {
            Some(d) => "Failpoint \""@ + d@ + "\" at "@ + self.file_ref_text(),
            None => "Failpoint at "@ + self.file_ref_text(),
        }
    }

    /// Renders this location for a message.
    pub fn format(&self) -> (s: String)
        ensures
            s@ == self.text(),
    {
        let file_ref = self.format_file_ref();
        let mut out = String::new();
        match self.desc {
            Some(d) => {
                out.append("Failpoint \"");
                out.append(d);
                out.append("\" at ");
            },
            None => {
                out.append("Failpoint at ");
            },
        }
        out.append(file_ref.as_str());
        out
    }

    /// Renders the file reference of this location.
    pub fn format_file_ref(&self) -> (s: String)
        ensures
            s@ == self.file_ref_text(),
    {
        let mut out = String::from_str(self.file_name);
        out.append(":");
        push_decimal(&mut out, self.line_no as u64);
        match self.crate_name {
            Some(c) => {
                out.append(" in crate ");
                out.append(c);
            },
            None => {},
        }
        out
    }
}

} // verus!
