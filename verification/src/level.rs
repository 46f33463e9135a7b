//! Severity levels.

use vstd::prelude::*;

verus! {

/// The severity channel a record is sent to, from the least important to the
/// most important.
#[derive(Clone, Copy, Debug, PartialEq, Eq, Structural, PartialOrd, Ord, Hash)]
pub enum Level {
    /// Very fine-grained diagnostics.
    Trace,
    /// Diagnostics for developers.
    Debug,
    /// Ordinary events.
    Info,
    /// Something unexpected that the program can live with.
    Warn,
    /// A failure.
    Error,
}

} // verus!
