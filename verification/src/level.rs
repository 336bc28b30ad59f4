//! Severity levels and their total order.

use vstd::prelude::*;

verus! {

/// Urgency of an event, from least to most severe.
#[derive(Clone, Copy, Debug, PartialEq, Eq, Structural)]
pub enum Level {
    Debug,
    Info,
    Warning,
    Error,
    Critical,
}

impl Level {
    /// Position of the level in the order `Debug < Info < Warning < Error < Critical`.
    pub open spec fn rank(self) -> nat {
        match self {
            Level::Debug => 0,
            Level::Info => 1,
            Level::Warning => 2,
            Level::Error => 3,
            Level::Critical => 4,
        }
    }

    /// Whether `self` is strictly less severe than `other`.
    pub open spec fn below(self, other: Level) -> bool {
        self.rank() < other.rank()
    }

    /// Decides [`Level::below`].
    pub fn is_below(self, other: Level) -> (b: bool)
        ensures
            b == self.below(other),
    {
        self.ordinal() < other.ordinal()
    }

    /// The name of the level on the wire.
    pub open spec fn wire_name(self) -> Seq<char> {
        match self {
            Level::Debug => "debug"@,
            Level::Info => "info"@,
            Level::Warning => "warning"@,
            Level::Error => "error"@,
            Level::Critical => "critical"@,
        }
    }

    /// Returns [`Level::wire_name`].
    pub fn as_str(self) -> (name: &'static str)
        ensures
            name@ == self.wire_name(),
    {
        match self {
            Level::Debug => "debug",
            Level::Info => "info",
            Level::Warning => "warning",
            Level::Error => "error",
            Level::Critical => "critical",
        }
    }

    /// Executable counterpart of [`Level::rank`].
    pub fn ordinal(self) -> (r: u8)
        ensures
            r as nat == self.rank(),
    {
        match self {
            Level::Debug => 0,
            Level::Info => 1,
            Level::Warning => 2,
            Level::Error => 3,
            Level::Critical => 4,
        }
    }
}

/// The order on levels is total: of two levels exactly one of "below",
/// "equal" and "above" holds.
pub proof fn lemma_level_order_total(a: Level, b: Level)
    ensures
        a.below(b) || a == b || b.below(a),
        !(a.below(b) && b.below(a)),
        a.below(b) ==> a != b,
{
}

/// The order on levels is transitive.
pub proof fn lemma_level_order_transitive(a: Level, b: Level, c: Level)
    requires
        a.below(b),
        b.below(c),
    ensures
        a.below(c),
{
}

/// Distinct levels have distinct wire names.
pub proof fn lemma_wire_names_distinct(a: Level, b: Level)
    requires
        a.wire_name() == b.wire_name(),
    ensures
        a == b,
{
    reveal_strlit("debug");
    reveal_strlit("info");
    reveal_strlit("warning");
    reveal_strlit("error");
    reveal_strlit("critical");
    assert("debug"@.len() == 5 && "debug"@[0] == 'd');
    assert("info"@.len() == 4);
    assert("warning"@.len() == 7);
    assert("error"@.len() == 5 && "error"@[0] == 'e');
    assert("critical"@.len() == 8);
}

} // verus!
