use vstd::prelude::*;

pub mod input;
pub mod output;
pub mod subcommand;

verus! {

/// Errors raised while building or reading reports.
#[derive(Clone, Copy, Debug, PartialEq, Eq, Structural, PartialOrd, Ord, Hash)]
pub enum ReportError {
    /// Invalid value range has been entered.
    InvalidRange,
    /// The given data is too short; raised by constructors.
    TooShort,
    /// The given data is malformed; raised by constructors.
    Malformed,
    /// Accessing or processing data out of the supported bounds.
    OutOfBounds,
    /// There is no data for a value within a range.
    NoDataAvailable,
    /// An invariant was violated.
    Invariant,
}

} // verus!
