//! The error taxonomy of the engine.

use vstd::prelude::*;

verus! {

/// Why the engine refused a command or aborted.
///
/// `IllegalAction`, `ShapeMismatch` and `RoleViolation` are returned
/// synchronously to the caller and leave shared state unchanged.
/// `ConfigurationError` and `ChannelClosed` are fatal to a driver loop and
/// are equivalent to "no winner determined".
#[derive(PartialEq, Eq, Structural, Clone, Copy, Debug)]
pub enum GameError {
    /// The wrong actor acted for the phase.
    IllegalAction,
    /// A team or a batch of the wrong size.
    ShapeMismatch,
    /// A good-aligned player cast a Fail mission vote.
    RoleViolation,
    /// The counterpart task is gone.
    ChannelClosed,
    /// Unsupported player count or mission index.
    ConfigurationError,
}

} // verus!
