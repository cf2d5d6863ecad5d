//! The session driver's rules: what is written for a command, when an
//! interaction may go ahead, how startup is judged, and the steps of an
//! idempotent shutdown. The process and terminal themselves are driven by the
//! caller, which reports what it observed and performs the step decided here.
use vstd::prelude::*;

use vstd::string::StringSliceAdditionalSpecFns;

use crate::error::HarnessError;

verus! {

/// The byte that ends a command line.
pub const LINE_END: u8 = 10;

/// The command that asks the program to exit.
pub const QUIT_COMMAND: &'static str = "/quit";

/// Graceful exit requests made before the process is killed.
pub const GRACEFUL_ATTEMPTS: u64 = 2;

/// The bytes written for a command: its UTF-8 text and a line end.
pub fn command_bytes(text: &str) -> (r: Vec<u8>)
    ensures
        r@ == text.spec_bytes().push(LINE_END),
{
    let b = text.as_bytes();
    let mut out: Vec<u8> = Vec::new();
    let mut i: usize = 0;
    while i < b.len()
        invariant
            i <= b@.len(),
            b@ == text.spec_bytes(),
            out@ == b@.subrange(0, i as int),
        decreases b@.len() - i,
    {
        out.push(b[i]);
        i = i + 1;
        assert(out@ =~= b@.subrange(0, i as int));
    }
    assert(b@.subrange(0, b@.len() as int) =~= b@);
    out.push(LINE_END);
    out
}

/// What a shutdown asks of the caller next.
#[derive(Clone, Copy, Debug, PartialEq, Eq, Structural)]
pub enum ShutdownStep {
    /// Write the quit command and wait, within a bound, for the exit.
    SendQuit,
    /// Kill the process and reap it.
    ForceKill,
    /// Nothing is left to do: the process is gone.
    Done,
}

/// What the driver knows of its process.
#[derive(Clone, Copy, Debug, PartialEq, Eq, Structural)]
pub struct SessionState {
    /// The process is known to be gone.
    pub exited: bool,
    pub quit_commands_sent: u64,
    pub kills_sent: u64,
}

/// A kill is only ever sent once, and only to a process that is then gone.
pub open spec fn session_wf(s: SessionState) -> bool {
    &&& s.kills_sent <= 1
    &&& s.kills_sent == 1 ==> s.exited
    &&& s.quit_commands_sent <= GRACEFUL_ATTEMPTS
}

/// One shutdown step, given whether the process was seen alive.
pub open spec fn shutdown_transition(s: SessionState, alive: bool) -> (SessionState, ShutdownStep) {
    if s.exited || !alive {
        (SessionState { exited: true, ..s }, ShutdownStep::Done)
    } else if s.quit_commands_sent < GRACEFUL_ATTEMPTS {
        (SessionState { quit_commands_sent: (s.quit_commands_sent + 1) as u64, ..s }, ShutdownStep::SendQuit)
    } else {
        (SessionState { exited: true, kills_sent: (s.kills_sent + 1) as u64, ..s }, ShutdownStep::ForceKill)
    }
}

/// The state after shutdown steps with the given observations, in order.
pub open spec fn shutdown_run(s: SessionState, seen_alive: Seq<bool>) -> SessionState
    decreases seen_alive.len(),
{
    if seen_alive.len() == 0 {
        s
    } else {
        shutdown_run(
            shutdown_transition(s, seen_alive[0]).0,
            seen_alive.subrange(1, seen_alive.len() as int),
        )
    }
}

impl SessionState {
    pub fn new() -> (r: SessionState)
        ensures
            r == (SessionState { exited: false, quit_commands_sent: 0, kills_sent: 0 }),
            session_wf(r),
    {
        SessionState { exited: false, quit_commands_sent: 0, kills_sent: 0 }
    }

    /// Checks, before an interaction, that the process is still there.
    pub fn begin_interaction(&mut self, child_alive: bool) -> (r: Result<(), HarnessError>)
        ensures
            *final(self) == (SessionState { exited: old(self).exited || !child_alive, ..*old(self) }),
            r is Ok <==> !final(self).exited,
            r is Err ==> r == Err::<(), HarnessError>(HarnessError::ProcessExited),
    {
        if !child_alive {
            self.exited = true;
        }
        if self.exited {
            Err(HarnessError::ProcessExited)
        } else {
            Ok(())
        }
    }

    /// Decides the next shutdown step. Once the process is gone every further
    /// call answers `Done`, so a repeated shutdown is harmless.
    pub fn next_shutdown_step(&mut self, child_alive: bool) -> (r: ShutdownStep)
        requires
            session_wf(*old(self)),
        ensures
            (*final(self), r) == shutdown_transition(*old(self), child_alive),
            session_wf(*final(self)),
    {
        if self.exited || !child_alive {
            self.exited = true;
            ShutdownStep::Done
        } else if self.quit_commands_sent < GRACEFUL_ATTEMPTS {
            self.quit_commands_sent = self.quit_commands_sent + 1;
            ShutdownStep::SendQuit
        } else {
            self.exited = true;
            self.kills_sent = self.kills_sent + 1;
            ShutdownStep::ForceKill
        }
    }
}

/// How startup is judged from the first read: an exit, or no output before
/// the startup bound, is a startup failure; other errors pass through.
pub fn startup_outcome(first_read: Result<String, HarnessError>, child_alive: bool) -> (r: Result<
    String,
    HarnessError,
>)
    ensures
        !child_alive ==> r == Err::<String, HarnessError>(HarnessError::Startup),
        child_alive && first_read == Err::<String, HarnessError>(HarnessError::Timeout) ==> r
            == Err::<String, HarnessError>(HarnessError::Startup),
        child_alive && first_read != Err::<String, HarnessError>(HarnessError::Timeout) ==> r
            == first_read,
{
    if !child_alive {
        Err(HarnessError::Startup)
    } else {
        match first_read {
            Err(HarnessError::Timeout) => Err(HarnessError::Startup),
            other => other,
        }
    }
}

proof fn lemma_transition_wf(s: SessionState, alive: bool)
    requires
        session_wf(s),
    ensures
        session_wf(shutdown_transition(s, alive).0),
        shutdown_transition(s, alive).0.kills_sent >= s.kills_sent,
{
}

/// Shutting down a session whose process is gone does nothing: the step is
/// `Done` and the state is unchanged, whatever is observed.
pub proof fn lemma_shutdown_idempotent(s: SessionState, alive: bool)
    requires
        s.exited,
    ensures
        shutdown_transition(s, alive) == (s, ShutdownStep::Done),
{
}

/// However many shutdown steps are taken, in one shutdown or several, and
/// whatever is observed, at most one kill is ever sent, and none after the
/// process is known to be gone.
pub proof fn lemma_at_most_one_kill(s: SessionState, seen_alive: Seq<bool>)
    requires
        session_wf(s),
    ensures
        session_wf(shutdown_run(s, seen_alive)),
        shutdown_run(s, seen_alive).kills_sent <= 1,
        s.exited ==> shutdown_run(s, seen_alive) == s,
    decreases seen_alive.len(),
{
    if seen_alive.len() > 0 {
        let next = shutdown_transition(s, seen_alive[0]).0;
        lemma_transition_wf(s, seen_alive[0]);
        lemma_at_most_one_kill(next, seen_alive.subrange(1, seen_alive.len() as int));
    }
}

} // verus!
