use vstd::prelude::*;

verus! {

/// Severity of a record, from the most urgent to the most verbose.
#[derive(Clone, Copy, Debug, PartialEq, Eq, Structural)]
pub enum Level {
    Error,
    Warn,
    Info,
    Debug,
    Trace,
}

/// Minimum severity that a node lets through; `Off` lets nothing through.
#[derive(Clone, Copy, Debug, PartialEq, Eq, Structural)]
pub enum LevelFilter {
    Off,
    Error,
    Warn,
    Info,
    Debug,
    Trace,
}

/// Rank of a level: the more verbose, the higher.
pub open spec fn level_rank(l: Level) -> nat {
    match l {
        Level::Error => 1,
        Level::Warn => 2,
        Level::Info => 3,
        Level::Debug => 4,
        Level::Trace => 5,
    }
}

/// Rank of a filter: the most verbose level it lets through, 0 for `Off`.
pub open spec fn filter_rank(f: LevelFilter) -> nat {
    match f {
        LevelFilter::Off => 0,
        LevelFilter::Error => 1,
        LevelFilter::Warn => 2,
        LevelFilter::Info => 3,
        LevelFilter::Debug => 4,
        LevelFilter::Trace => 5,
    }
}

/// A filter lets a level through when the level is at least as urgent.
pub open spec fn allows(f: LevelFilter, l: Level) -> bool {
    level_rank(l) <= filter_rank(f)
}

/// The upper-case name of a level.
pub open spec fn level_name(l: Level) -> Seq<char> {
    match l {
        Level::Error => "ERROR"@,
        Level::Warn => "WARN"@,
        Level::Info => "INFO"@,
        Level::Debug => "DEBUG"@,
        Level::Trace => "TRACE"@,
    }
}

impl Level {
    /// Rank of this level: `Error` is 1, `Trace` is 5.
    pub fn rank(&self) -> (r: u8)
        ensures
            r as nat == level_rank(*self),
    {
        match self {
            Level::Error => 1,
            Level::Warn => 2,
            Level::Info => 3,
            Level::Debug => 4,
            Level::Trace => 5,
        }
    }

    /// The upper-case name of this level.
    pub fn as_str(&self) -> (r: &'static str)
        ensures
            r@ == level_name(*self),
    {
        match self {
            Level::Error => "ERROR",
            Level::Warn => "WARN",
            Level::Info => "INFO",
            Level::Debug => "DEBUG",
            Level::Trace => "TRACE",
        }
    }
}

impl LevelFilter {
    /// Rank of this filter: `Off` is 0, `Trace` is 5.
    pub fn rank(&self) -> (r: u8)
        ensures
            r as nat == filter_rank(*self),
    {
        match self {
            LevelFilter::Off => 0,
            LevelFilter::Error => 1,
            LevelFilter::Warn => 2,
            LevelFilter::Info => 3,
            LevelFilter::Debug => 4,
            LevelFilter::Trace => 5,
        }
    }

    /// Whether this filter lets a record of level `l` through.
    pub fn allows(&self, l: Level) -> (r: bool)
        ensures
            r == allows(*self, l),
    {
        l.rank() <= self.rank()
    }
}

} // verus!
