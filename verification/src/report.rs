//! The reporter's vocabulary: a status line is a severity and a message.

use vstd::prelude::*;
use vstd::string::*;

verus! {

/// The five kinds of status line.
#[derive(Debug, Clone, Copy, PartialEq, Eq, Structural)]
pub enum Severity {
    Success,
    Warning,
    Error,
    Info,
    Modified,
}

/// The colours that the status lines use.
#[derive(Debug, Clone, Copy, PartialEq, Eq, Structural)]
pub enum Colour {
    Green,
    Yellow,
    Red,
    Blue,
    Magenta,
}

/// One status line.
#[derive(Debug)]
pub struct Report {
    pub severity: Severity,
    pub message: String,
}

impl Severity {
    /// The glyph in front of a line of this severity: a check, a warning
    /// sign, a cross, an `i`, an arrow.
    pub open spec fn spec_glyph(&self) -> Seq<char> {
        match self {
            Severity::Success => "\u{2713}"@,
            Severity::Warning => "\u{26a0}"@,
            Severity::Error => "\u{2717}"@,
            Severity::Info => "\u{2139}"@,
            Severity::Modified => "\u{2192}"@,
        }
    }

    /// The colour of the glyph.
    pub open spec fn spec_colour(&self) -> Colour {
        match self {
            Severity::Success => Colour::Green,
            Severity::Warning => Colour::Yellow,
            Severity::Error => Colour::Red,
            Severity::Info => Colour::Blue,
            Severity::Modified => Colour::Magenta,
        }
    }

    /// The glyph in front of a line of this severity.
    pub fn glyph(&self) -> (r: &'static str)
        ensures
            r@ == self.spec_glyph(),
    {
        match self {
            Severity::Success => "\u{2713}",
            Severity::Warning => "\u{26a0}",
            Severity::Error => "\u{2717}",
            Severity::Info => "\u{2139}",
            Severity::Modified => "\u{2192}",
        }
    }

    /// The colour of the glyph.
    pub fn colour(&self) -> (r: Colour)
        ensures
            r == self.spec_colour(),
    {
        match self {
            Severity::Success => Colour::Green,
            Severity::Warning => Colour::Yellow,
            Severity::Error => Colour::Red,
            Severity::Info => Colour::Blue,
            Severity::Modified => Colour::Magenta,
        }
    }
}

impl Report {
    /// Whether this is the line of `severity` that reads `prefix` followed
    /// by `subject`.
    pub open spec fn says(&self, severity: Severity, prefix: Seq<char>, subject: Seq<char>) -> bool {
        self.severity == severity && self.message@ == prefix + subject
    }

    /// The line of `severity` that reads `prefix` followed by `subject`.
    pub fn line(severity: Severity, prefix: &str, subject: &str) -> (r: Report)
        ensures
            r.says(severity, prefix@, subject@),
    {
        Report { severity, message: prefix.to_owned().concat(subject) }
    }
}

} // verus!
