//! Errors of the cell's own logic.

use vstd::prelude::*;

verus! {

/// The kinds of error the core reports.
#[derive(Clone, Copy, Debug, PartialEq, Eq, Structural)]
pub enum CoreError {
    CommandError,
    PatternError,
}

/// What the pattern engine can refuse.
#[derive(Clone, Copy, Debug, PartialEq, Eq, Structural)]
pub enum PatternError {
    /// No pattern is stored under the index.
    InvalidPatternError,
    /// The pattern already holds as many elements as it can.
    PatternSizeError,
    /// The engine already stores as many patterns as it can.
    PatternCountError,
    /// No cursor has the index.
    InvalidCursorError,
}

/// What the scheduler can refuse.
#[derive(Clone, Copy, Debug, PartialEq, Eq, Structural)]
pub enum SchedulerError {
    /// Every task slot is taken.
    CapacityExceeded,
}

} // verus!
