//! The policy a reader applies to a malformed frame.

use vstd::prelude::*;

verus! {

/// What a reader does when a frame cannot be decoded.
#[derive(Clone, Copy, Debug, PartialEq, Eq, Structural)]
pub enum PyCorruptionStrategy {
    /// The first malformed frame ends the stream with a fatal error.
    Error,
    /// A malformed frame is skipped and reading goes on behind it.
    Recover,
}

impl PyCorruptionStrategy {
    /// The strategy in force for an optional choice: `Error` unless the
    /// caller asked for `Recover`.
    pub open spec fn chosen(choice: Option<PyCorruptionStrategy>) -> PyCorruptionStrategy {
        match choice {
            Some(PyCorruptionStrategy::Recover) => PyCorruptionStrategy::Recover,
            _ => PyCorruptionStrategy::Error,
        }
    }

    /// Resolves an optional choice to the strategy in force.
    pub fn resolve(choice: Option<PyCorruptionStrategy>) -> (strategy: PyCorruptionStrategy)
        ensures
            strategy == Self::chosen(choice),
    {
        match choice {
            Some(PyCorruptionStrategy::Recover) => PyCorruptionStrategy::Recover,
            _ => PyCorruptionStrategy::Error,
        }
    }

    /// Whether malformed frames are skipped under this strategy.
    pub fn recovers(&self) -> (skips: bool)
        ensures
            skips == (*self == PyCorruptionStrategy::Recover),
    {
        match self {
            PyCorruptionStrategy::Recover => true,
            PyCorruptionStrategy::Error => false,
        }
    }
}

} // verus!
