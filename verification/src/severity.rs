//! Severities, the threshold they are compared with, and the textual
//! configuration of that threshold.

use vstd::prelude::*;
use vstd::string::StrSliceExecFns;
use crate::paint::Color;

verus! {

/// Importance of a log event, from the most urgent (`Error`) to the least
/// urgent (`Trace`).
#[derive(Clone, Copy, Debug, PartialEq, Eq, Structural)]
pub enum Severity {
    Error,
    Warn,
    Info,
    Debug,
    Trace,
}

impl Severity {
    /// Position in the total order: 1 for `Error`, rising to 5 for `Trace`.
    /// A smaller rank is more urgent.
    pub open spec fn rank(self) -> int {
        match self {
            Severity::Error => 1,
            Severity::Warn => 2,
            Severity::Info => 3,
            Severity::Debug => 4,
            Severity::Trace => 5,
        }
    }

    /// The upper-case name that stands in an output line.
    pub open spec fn label_text(self) -> Seq<char> {
        match self {
            Severity::Error => seq!['E', 'R', 'R', 'O', 'R'],
            Severity::Warn => seq!['W', 'A', 'R', 'N'],
            Severity::Info => seq!['I', 'N', 'F', 'O'],
            Severity::Debug => seq!['D', 'E', 'B', 'U', 'G'],
            Severity::Trace => seq!['T', 'R', 'A', 'C', 'E'],
        }
    }

    /// The colour in which an event of this severity is shown.
    pub open spec fn tint(self) -> Color {
        match self {
            Severity::Error => Color::Red,
            Severity::Warn => Color::Yellow,
            Severity::Info => Color::Green,
            Severity::Debug => Color::Cyan,
            Severity::Trace => Color::White,
        }
    }

    /// The rank as a machine integer.
    pub fn urgency(self) -> (r: u8)
        ensures
            r == self.rank(),
    {
        match self {
            Severity::Error => 1,
            Severity::Warn => 2,
            Severity::Info => 3,
            Severity::Debug => 4,
            Severity::Trace => 5,
        }
    }

    /// Whether `self` is at least as urgent as `other`.
    pub fn at_least_as_severe_as(self, other: Severity) -> (r: bool)
        ensures
            r == (self.rank() <= other.rank()),
    {
        self.urgency() <= other.urgency()
    }

    /// The colour in which an event of this severity is shown.
    pub fn color(self) -> (r: Color)
        ensures
            r == self.tint(),
    {
        match self {
            Severity::Error => Color::Red,
            Severity::Warn => Color::Yellow,
            Severity::Info => Color::Green,
            Severity::Debug => Color::Cyan,
            Severity::Trace => Color::White,
        }
    }

    /// The name shown in an output line.
    pub fn label(self) -> (r: &'static str)
        ensures
            r@ == self.label_text(),
    {
        proof {
            reveal_strlit("ERROR");
            reveal_strlit("WARN");
            reveal_strlit("INFO");
            reveal_strlit("DEBUG");
            reveal_strlit("TRACE");
        }
        match self {
            Severity::Error => "ERROR",
            Severity::Warn => "WARN",
            Severity::Info => "INFO",
            Severity::Debug => "DEBUG",
            Severity::Trace => "TRACE",
        }
    }
}

/// The least urgent severity that is still let through, or `Off` for none.
#[derive(Clone, Copy, Debug, PartialEq, Eq, Structural)]
pub enum Threshold {
    Off,
    Error,
    Warn,
    Info,
    Debug,
    Trace,
}

/// The code point of `c`, with the upper-case ASCII letters moved onto the
/// lower-case ones.
pub open spec fn fold_ascii_case(c: char) -> u32 {
    if 'A' <= c && c <= 'Z' {
        (c as u32 + 32) as u32
    } else {
        c as u32
    }
}

/// Equality of two texts up to the case of ASCII letters.
pub open spec fn same_ignoring_ascii_case(a: Seq<char>, b: Seq<char>) -> bool {
    &&& a.len() == b.len()
    &&& forall|i: int| 0 <= i < a.len() ==> fold_ascii_case(#[trigger] a[i]) == fold_ascii_case(b[i])
}

impl Threshold {
    /// Position on the scale of `Severity::rank`, with 0 for `Off`.
    pub open spec fn rank(self) -> int {
        match self {
            Threshold::Off => 0,
            Threshold::Error => 1,
            Threshold::Warn => 2,
            Threshold::Info => 3,
            Threshold::Debug => 4,
            Threshold::Trace => 5,
        }
    }

    /// A severity passes when it is at least as urgent as the threshold.
    pub open spec fn lets_through(self, severity: Severity) -> bool {
        severity.rank() <= self.rank()
    }

    /// The word that selects this threshold in a configuration text.
    pub open spec fn keyword(self) -> Seq<char> {
        match self {
            Threshold::Off => seq!['o', 'f', 'f'],
            Threshold::Error => seq!['e', 'r', 'r', 'o', 'r'],
            Threshold::Warn => seq!['w', 'a', 'r', 'n'],
            Threshold::Info => seq!['i', 'n', 'f', 'o'],
            Threshold::Debug => seq!['d', 'e', 'b', 'u', 'g'],
            Threshold::Trace => seq!['t', 'r', 'a', 'c', 'e'],
        }
    }

    /// What a configuration text selects: the threshold whose keyword it is,
    /// whatever the case of its letters.
    pub open spec fn parsed(text: Seq<char>) -> Option<Threshold> {
        if same_ignoring_ascii_case(text, Threshold::Trace.keyword()) {
            Some(Threshold::Trace)
        } else if same_ignoring_ascii_case(text, Threshold::Debug.keyword()) {
            Some(Threshold::Debug)
        } else if same_ignoring_ascii_case(text, Threshold::Info.keyword()) {
            Some(Threshold::Info)
        } else if same_ignoring_ascii_case(text, Threshold::Warn.keyword()) {
            Some(Threshold::Warn)
        } else if same_ignoring_ascii_case(text, Threshold::Error.keyword()) {
            Some(Threshold::Error)
        } else if same_ignoring_ascii_case(text, Threshold::Off.keyword()) {
            Some(Threshold::Off)
        } else {
            None
        }
    }

    /// The threshold used when the configuration names none: everything in a
    /// permissive build, `Info` otherwise.
    pub open spec fn fallback(permissive: bool) -> Threshold {
        if permissive {
            Threshold::Trace
        } else {
            Threshold::Info
        }
    }

    /// The rank as a machine integer.
    pub fn level(self) -> (r: u8)
        ensures
            r == self.rank(),
    {
        match self {
            Threshold::Off => 0,
            Threshold::Error => 1,
            Threshold::Warn => 2,
            Threshold::Info => 3,
            Threshold::Debug => 4,
            Threshold::Trace => 5,
        }
    }

    /// The threshold that lets `severity` through and nothing less urgent.
    pub fn at(severity: Severity) -> (r: Threshold)
        ensures
            r.rank() == severity.rank(),
    {
        match severity {
            Severity::Error => Threshold::Error,
            Severity::Warn => Threshold::Warn,
            Severity::Info => Threshold::Info,
            Severity::Debug => Threshold::Debug,
            Severity::Trace => Threshold::Trace,
        }
    }

    /// Whether an event of the given severity passes this threshold.
    pub fn admits(self, severity: Severity) -> (r: bool)
        ensures
            r == self.lets_through(severity),
    {
        severity.urgency() <= self.level()
    }

    /// Reads a threshold from a configuration text, ignoring the case of
    /// ASCII letters. `None` for any text that is not one of the six keywords.
    pub fn parse(text: &str) -> (r: Option<Threshold>)
        ensures
            r == Threshold::parsed(text@),
    {
        proof {
            reveal_strlit("trace");
            reveal_strlit("debug");
            reveal_strlit("info");
            reveal_strlit("warn");
            reveal_strlit("error");
            reveal_strlit("off");
        }
        if is_word(text, "trace") {
            Some(Threshold::Trace)
        } else if is_word(text, "debug") {
            Some(Threshold::Debug)
        } else if is_word(text, "info") {
            Some(Threshold::Info)
        } else if is_word(text, "warn") {
            Some(Threshold::Warn)
        } else if is_word(text, "error") {
            Some(Threshold::Error)
        } else if is_word(text, "off") {
            Some(Threshold::Off)
        } else {
            None
        }
    }

    /// The threshold that a configuration text selects, or the fallback when
    /// the text is not a keyword (an unset variable reads as the empty text).
    pub fn resolve(text: &str, permissive: bool) -> (r: Threshold)
        ensures
            r == match Threshold::parsed(text@) {
                Some(t) => t,
                None => Threshold::fallback(permissive),
            },
    {
        match Threshold::parse(text) {
            Some(t) => t,
            None => if permissive {
                Threshold::Trace
            } else {
                Threshold::Info
            },
        }
    }
}

/// The code point of `c` with upper-case ASCII letters folded onto lower case.
fn folded(c: char) -> (r: u32)
    ensures
        r == fold_ascii_case(c),
{
    let u: u32 = c as u32;
    if 'A' <= c && c <= 'Z' {
        u + 32
    } else {
        u
    }
}

/// Whether `text` is `word` up to the case of ASCII letters.
fn is_word(text: &str, word: &str) -> (r: bool)
    ensures
        r == same_ignoring_ascii_case(text@, word@),
{
    let n: usize = word.unicode_len();
    if text.unicode_len() != n {
        return false;
    }
    let mut i: usize = 0;
    while i < n
        invariant
            i <= n,
            n == word@.len(),
            n == text@.len(),
            forall|j: int| 0 <= j < i ==> fold_ascii_case(#[trigger] text@[j]) == fold_ascii_case(word@[j]),
        decreases n - i,
    {
        if folded(text.get_char(i)) != folded(word.get_char(i)) {
            return false;
        }
        i = i + 1;
    }
    true
}

} // verus!
