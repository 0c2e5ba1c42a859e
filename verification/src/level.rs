//! Severity levels and the rendering mode of error payloads.

use std::cmp::Ordering;
use vstd::prelude::*;
use vstd::std_specs::cmp::PartialOrdSpecImpl;

verus! {

/// A severity, ordered by verbosity: `Off < Error < Warn < Info < Debug < Trace`.
///
/// As a threshold, a level admits every message that is at most as verbose
/// as itself, so `Off` admits no message of any of the five severities.
/// `Off` is meant as a threshold only; a message that carries it all the
/// same passes every threshold.
#[derive(Clone, Copy, Debug, PartialEq, Eq, Ord, Hash, Structural)]
pub enum LevelFilter {
    /// The threshold that admits no message.
    Off,
    /// Failures.
    Error,
    /// Hazards.
    Warn,
    /// Progress.
    Info,
    /// Diagnostics.
    Debug,
    /// Everything.
    Trace,
}

impl LevelFilter {
    /// The position of the level in the verbosity order, `Off` being 0.
    pub open spec fn rank(self) -> nat {
        match self {
            LevelFilter::Off => 0,
            LevelFilter::Error => 1,
            LevelFilter::Warn => 2,
            LevelFilter::Info => 3,
            LevelFilter::Debug => 4,
            LevelFilter::Trace => 5,
        }
    }

    /// Whether a message of level `level` passes this threshold.
    pub open spec fn admits(self, level: LevelFilter) -> bool {
        level.rank() <= self.rank()
    }

    /// The upper-case name of the level.
    pub open spec fn name(self) -> Seq<char> {
        match self {
            LevelFilter::Off => "OFF"@,
            LevelFilter::Error => "ERROR"@,
            LevelFilter::Warn => "WARN"@,
            LevelFilter::Info => "INFO"@,
            LevelFilter::Debug => "DEBUG"@,
            LevelFilter::Trace => "TRACE"@,
        }
    }

    /// The position of the level in the verbosity order.
    pub fn verbosity(&self) -> (r: u8)
        ensures
            r == self.rank(),
    {
        match self {
            LevelFilter::Off => 0,
            LevelFilter::Error => 1,
            LevelFilter::Warn => 2,
            LevelFilter::Info => 3,
            LevelFilter::Debug => 4,
            LevelFilter::Trace => 5,
        }
    }

    /// The upper-case name of the level.
    pub fn as_str(&self) -> (r: &'static str)
        ensures
            r@ == self.name(),
    {
        match self {
            LevelFilter::Off => "OFF",
            LevelFilter::Error => "ERROR",
            LevelFilter::Warn => "WARN",
            LevelFilter::Info => "INFO",
            LevelFilter::Debug => "DEBUG",
            LevelFilter::Trace => "TRACE",
        }
    }
}

impl PartialOrd for LevelFilter {
    fn partial_cmp(&self, other: &Self) -> (r: Option<Ordering>) {
        let a: u8 = self.verbosity();
        let b: u8 = other.verbosity();
        if a < b {
            Some(Ordering::Less)
        } else if a == b {
            Some(Ordering::Equal)
        } else {
            Some(Ordering::Greater)
        }
    }
}

impl PartialOrdSpecImpl for LevelFilter {
    open spec fn obeys_partial_cmp_spec() -> bool {
        true
    }

    open spec fn partial_cmp_spec(&self, other: &Self) -> Option<Ordering> {
        if self.rank() < other.rank() {
            Some(Ordering::Less)
        } else if self.rank() == other.rank() {
            Some(Ordering::Equal)
        } else {
            Some(Ordering::Greater)
        }
    }
}

/// How an error payload is turned into text.
#[derive(Clone, Copy, Debug, PartialEq, Eq, PartialOrd, Ord, Hash, Structural)]
pub enum FormatMode {
    /// The payload's plain display form.
    Normal,
    /// The payload's single-line debug form.
    Debug,
    /// The payload's multi-line debug form.
    PrettyDebug,
}

impl Default for FormatMode {
    fn default() -> (r: Self)
        ensures
            r == FormatMode::Normal,
    {
        FormatMode::Normal
    }
}

} // verus!
