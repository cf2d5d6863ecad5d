//! The errors that an interaction with the automated program can surface.
use vstd::prelude::*;

verus! {

/// Failures reported to the calling test; none of them is retried as a whole.
#[derive(Clone, Copy, Debug, PartialEq, Eq, Structural)]
pub enum HarnessError {
    /// The program could not be started, or no pseudo-terminal could be had.
    Spawn,
    /// Reading from or writing to the program failed (usually: it died).
    Io,
    /// No output at all arrived before the hard time bound.
    Timeout,
    /// The program has exited since the previous interaction.
    ProcessExited,
    /// The program exited at once, or printed nothing before the startup bound.
    Startup,
    /// The registry was used after teardown, or configured with a bad total.
    RegistryMisuse,
    /// An earlier holder of the session failed in the middle of its work.
    LockPoisoned,
}

} // verus!
