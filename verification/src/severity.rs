//! Severities and the policy that maps a requested severity to the one
//! used for routing and display.

use vstd::prelude::*;

verus! {

/// How urgent a record is, from least (`Trace`) to most (`Error`).
#[derive(Clone, Copy, Debug, PartialEq, Eq, Structural, Hash)]
pub enum Severity {
    Trace,
    Debug,
    Info,
    Warn,
    Error,
}

impl Severity {
    /// Position in the ascending order of urgency.
    pub open spec fn rank(self) -> nat {
        match self {
            Severity::Trace => 0,
            Severity::Debug => 1,
            Severity::Info => 2,
            Severity::Warn => 3,
            Severity::Error => 4,
        }
    }

    /// The upper-case name, as it appears in log file names.
    pub open spec fn name_text(self) -> Seq<char> {
        match self {
            Severity::Trace => seq!['T', 'R', 'A', 'C', 'E'],
            Severity::Debug => seq!['D', 'E', 'B', 'U', 'G'],
            Severity::Info => seq!['I', 'N', 'F', 'O'],
            Severity::Warn => seq!['W', 'A', 'R', 'N'],
            Severity::Error => seq!['E', 'R', 'R', 'O', 'R'],
        }
    }

    /// The single letter that opens a rendered line.
    pub open spec fn letter_text(self) -> Seq<char> {
        seq![self.name_text()[0]]
    }

    /// `self` is at least as urgent as `floor`.
    pub open spec fn at_least(self, floor: Severity) -> bool {
        self.rank() >= floor.rank()
    }

    /// The severity that stands for `self` when only four letters are in
    /// use: `Trace` and `Debug` become `Info`.
    pub open spec fn collapsed(self) -> Severity {
        match self {
            Severity::Trace | Severity::Debug => Severity::Info,
            other => other,
        }
    }

    /// The severity used for routing and display.
    pub open spec fn effective_spec(self, four_severities: bool) -> Severity {
        if four_severities {
            self.collapsed()
        } else {
            self
        }
    }

    /// All severities, least urgent first.
    pub open spec fn all() -> Seq<Severity> {
        seq![Severity::Trace, Severity::Debug, Severity::Info, Severity::Warn, Severity::Error]
    }

    pub fn index(self) -> (r: u8)
        ensures
            r as nat == self.rank(),
    {
        match self {
            Severity::Trace => 0,
            Severity::Debug => 1,
            Severity::Info => 2,
            Severity::Warn => 3,
            Severity::Error => 4,
        }
    }

    pub fn is_at_least(self, floor: Severity) -> (r: bool)
        ensures
            r == self.at_least(floor),
    {
        self.index() >= floor.index()
    }

    pub fn effective(self, four_severities: bool) -> (r: Severity)
        ensures
            r == self.effective_spec(four_severities),
    {
        if four_severities {
            match self {
                Severity::Trace => Severity::Info,
                Severity::Debug => Severity::Info,
                other => other,
            }
        } else {
            self
        }
    }

    pub fn name(self) -> (r: &'static str)
        ensures
            r@ == self.name_text(),
    {
        proof {
            reveal_strlit("TRACE");
            reveal_strlit("DEBUG");
            reveal_strlit("INFO");
            reveal_strlit("WARN");
            reveal_strlit("ERROR");
        }
        let r = match self {
            Severity::Trace => "TRACE",
            Severity::Debug => "DEBUG",
            Severity::Info => "INFO",
            Severity::Warn => "WARN",
            Severity::Error => "ERROR",
        };
        assert(r@ =~= self.name_text());
        r
    }

    pub fn letter(self) -> (r: &'static str)
        ensures
            r@ == self.letter_text(),
    {
        proof {
            reveal_strlit("T");
            reveal_strlit("D");
            reveal_strlit("I");
            reveal_strlit("W");
            reveal_strlit("E");
        }
        let r = match self {
            Severity::Trace => "T",
            Severity::Debug => "D",
            Severity::Info => "I",
            Severity::Warn => "W",
            Severity::Error => "E",
        };
        assert(r@ =~= self.letter_text());
        r
    }
}

/// The order of severities is total: of two severities, one is at least as
/// urgent as the other, and two that are each at least as urgent as the
/// other are the same.
pub proof fn severity_order_is_total(a: Severity, b: Severity)
    ensures
        a.at_least(b) || b.at_least(a),
        a.at_least(b) && b.at_least(a) ==> a == b,
{
}

/// With four severities in use, the effective severity is never `Trace`
/// nor `Debug`, and it is `Info` exactly for `Trace`, `Debug` and `Info`.
/// Otherwise every severity stands for itself.
pub proof fn effective_severity_law(level: Severity)
    ensures
        level.effective_spec(true) != Severity::Trace,
        level.effective_spec(true) != Severity::Debug,
        level.effective_spec(true) == Severity::Info <==> level.rank() <= 2,
        level.rank() >= 2 ==> level.effective_spec(true) == level,
        level.effective_spec(false) == level,
{
}

/// Collapsing never lowers urgency, and applying it twice changes nothing.
pub proof fn effective_severity_is_stable(level: Severity, four_severities: bool)
    ensures
        level.effective_spec(four_severities).at_least(level),
        level.effective_spec(four_severities).effective_spec(four_severities)
            == level.effective_spec(four_severities),
{
}

} // verus!
