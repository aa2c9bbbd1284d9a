//! The user-visible message log: entries with a severity, and the numbered
//! text the front end shows, newest first.

use vstd::prelude::*;
use vstd::string::*;
use crate::state::Note;
use crate::text::{decimal, decimal_string};

verus! {

#[derive(Clone, Copy, Debug, PartialEq, Eq, Structural)]
pub enum Severity {
    INFO,
    ERROR,
}

impl Severity {
    /// The severity's name as shown to the user.
    pub fn label(&self) -> (r: &'static str)
        ensures
            *self == Severity::INFO ==> r@ == "INFO"@,
            *self == Severity::ERROR ==> r@ == "ERROR"@,
    {
        match self {
            Severity::INFO => "INFO",
            Severity::ERROR => "ERROR",
        }
    }
}

/// A log entry as text.
#[derive(Clone, Debug, PartialEq, Eq)]
pub struct TextMessage {
    pub msg: String,
    pub severity: Severity,
}

impl TextMessage {
    pub fn info(msg: String) -> (r: TextMessage)
        ensures
            r.msg == msg,
            r.severity == Severity::INFO,
    {
        TextMessage { msg, severity: Severity::INFO }
    }

    pub fn error(msg: String) -> (r: TextMessage)
        ensures
            r.msg == msg,
            r.severity == Severity::ERROR,
    {
        TextMessage { msg, severity: Severity::ERROR }
    }
}

impl Note {
    /// Failures are errors; everything else is information.
    pub fn severity(&self) -> (r: Severity)
        ensures
            r == (if *self is Failed {
                Severity::ERROR
            } else {
                Severity::INFO
            }),
    {
        match self {
            Note::Failed(_) => Severity::ERROR,
            _ => Severity::INFO,
        }
    }
}

/// Line `i` of the log text: its number, a colon, a space, and the entry.
pub open spec fn numbered(i: nat, line: Seq<char>) -> Seq<char> {
    decimal(i) + ": "@ + line
}

/// The log text: each entry numbered from zero in the order logged, shown
/// newest first, one per line.
pub open spec fn log_text(lines: Seq<Seq<char>>) -> Seq<char>
    decreases lines.len(),
{
    if lines.len() == 0 {
        Seq::empty()
    } else if lines.len() == 1 {
        numbered(0, lines[0])
    } else {
        numbered((lines.len() - 1) as nat, lines.last()) + "\n"@ + log_text(lines.drop_last())
    }
}

/// The log text of these entries.
pub fn get_messages(lines: &Vec<String>) -> (r: String)
    ensures
        r@ == log_text(lines@.map_values(|s: String| s@)),
{
    let ghost views = lines@.map_values(|s: String| s@);
    let mut text = String::new();
    let mut i: usize = 0;
    while i < lines.len()
        invariant
            i <= lines@.len(),
            views == lines@.map_values(|s: String| s@),
            text@ == log_text(views.take(i as int)),
        decreases lines@.len() - i,
    {
        let mut line = decimal_string(i);
        line.append(": ");
        line.append(lines[i].as_str());
        if i > 0 {
            line.append("\n");
            line.append(text.as_str());
        }
        proof {
            let prefix = views.take(i as int + 1);
            assert(prefix.drop_last() =~= views.take(i as int));
            assert(prefix.last() == lines@[i as int]@);
            if i == 0 {
                assert(line@ =~= numbered(0, prefix[0]));
            } else {
                assert(line@ =~= numbered(i as nat, prefix.last()) + "\n"@ + log_text(prefix.drop_last()));
            }
        }
        text = line;
        i = i + 1;
    }
    proof {
        assert(views.take(i as int) =~= views);
    }
    text
}

} // verus!
