//! Severity levels of records and the threshold that filters them.

use vstd::prelude::*;

verus! {

/// The severity of one record. `Error` is the most severe, `Trace` the most verbose.
#[derive(Clone, Copy, Debug, PartialEq, Eq, Structural)]
pub enum Level {
    Error,
    Warn,
    Info,
    Debug,
    Trace,
}

/// The minimum severity a logger lets through. `Off` lets nothing through.
#[derive(Clone, Copy, Debug, PartialEq, Eq, Structural)]
pub enum LevelFilter {
    Off,
    Error,
    Warn,
    Info,
    Debug,
    Trace,
}

/// Position of a level in the verbosity order: 1 for `Error` up to 5 for `Trace`.
pub open spec fn level_rank(l: Level) -> nat {
    match l {
        Level::Error => 1,
        Level::Warn => 2,
        Level::Info => 3,
        Level::Debug => 4,
        Level::Trace => 5,
    }
}

/// Position of a threshold in the same order: 0 for `Off` up to 5 for `Trace`.
pub open spec fn filter_rank(f: LevelFilter) -> nat {
    match f {
        LevelFilter::Off => 0,
        LevelFilter::Error => 1,
        LevelFilter::Warn => 2,
        LevelFilter::Info => 3,
        LevelFilter::Debug => 4,
        LevelFilter::Trace => 5,
    }
}

/// A record passes a threshold when it is at least as severe as the threshold.
pub open spec fn passes(l: Level, f: LevelFilter) -> bool {
    level_rank(l) <= filter_rank(f)
}

/// The ASCII bytes of the upper-case name a level is printed under:
/// "ERROR", "WARN", "INFO", "DEBUG" or "TRACE".
pub open spec fn level_name_bytes(l: Level) -> Seq<u8> {
    match l {
        Level::Error => seq![69u8, 82, 82, 79, 82],
        Level::Warn => seq![87u8, 65, 82, 78],
        Level::Info => seq![73u8, 78, 70, 79],
        Level::Debug => seq![68u8, 69, 66, 85, 71],
        Level::Trace => seq![84u8, 82, 65, 67, 69],
    }
}

impl Level {
    /// Position of this level in the verbosity order (1 to 5).
    pub fn rank(self) -> (r: u8)
        ensures
            r as nat == level_rank(self),
    {
        match self {
            Level::Error => 1,
            Level::Warn => 2,
            Level::Info => 3,
            Level::Debug => 4,
            Level::Trace => 5,
        }
    }

    /// The ASCII bytes of this level's upper-case name.
    pub fn name_bytes(self) -> (r: Vec<u8>)
        ensures
            r@ == level_name_bytes(self),
    {
        let r = match self {
            Level::Error => vec![69u8, 82, 82, 79, 82],
            Level::Warn => vec![87u8, 65, 82, 78],
            Level::Info => vec![73u8, 78, 70, 79],
            Level::Debug => vec![68u8, 69, 66, 85, 71],
            Level::Trace => vec![84u8, 82, 65, 67, 69],
        };
        assert(r@ =~= level_name_bytes(self));
        r
    }
}

impl LevelFilter {
    /// Position of this threshold in the verbosity order (0 to 5).
    pub fn rank(self) -> (r: u8)
        ensures
            r as nat == filter_rank(self),
    {
        match self {
            LevelFilter::Off => 0,
            LevelFilter::Error => 1,
            LevelFilter::Warn => 2,
            LevelFilter::Info => 3,
            LevelFilter::Debug => 4,
            LevelFilter::Trace => 5,
        }
    }

    /// Whether a record of level `l` passes this threshold.
    pub fn allows(self, l: Level) -> (r: bool)
        ensures
            r == passes(l, self),
    {
        l.rank() <= self.rank()
    }
}

} // verus!
