//! The registry that shares one session among many tests.
//!
//! It is built once, handed out under one lock, and torn down exactly once,
//! by the completion that brings the count of finished tests to the expected
//! total. Every method takes `&mut self`: the caller holds the registry
//! under a lock, so concurrent calls reach it one at a time, in some order,
//! and what is shown here for sequences of calls holds for every
//! interleaving.
use vstd::prelude::*;

use crate::error::HarnessError;

verus! {

#[derive(Clone, Copy, Debug, PartialEq, Eq, Structural)]
pub enum RegistryPhase {
    /// No session has been asked for yet.
    Uninitialized,
    /// One caller is building the session.
    Constructing,
    /// The session is built and can be used.
    Ready,
    /// Building the session failed; every later caller sees that failure.
    Failed,
    /// All expected tests finished and the session was shut down.
    TornDown,
}

/// What the caller of `begin_acquire` is to do.
#[derive(Clone, Copy, Debug, PartialEq, Eq, Structural)]
pub enum Acquire {
    /// Build the session, then report with `finish_construct`.
    Construct,
    /// Use the session that exists.
    Use,
}

#[derive(Clone, Copy, Debug, PartialEq, Eq, Structural)]
pub struct SessionRegistry {
    pub phase: RegistryPhase,
    /// The failure that building the session ended in, once `Failed`.
    pub failure: HarnessError,
    pub completed: u64,
    pub expected: u64,
}

/// The count never passes the total, and teardown is the phase exactly when
/// the count has reached it.
pub open spec fn registry_wf(r: SessionRegistry) -> bool {
    &&& r.expected > 0
    &&& r.completed <= r.expected
    &&& (r.phase == RegistryPhase::TornDown <==> r.completed == r.expected)
}

pub open spec fn acquire_transition(r: SessionRegistry) -> (SessionRegistry, Result<Acquire, HarnessError>) {
    match r.phase {
        RegistryPhase::Uninitialized => (
            SessionRegistry { phase: RegistryPhase::Constructing, ..r },
            Ok(Acquire::Construct),
        ),
        RegistryPhase::Constructing => (r, Err(HarnessError::LockPoisoned)),
        RegistryPhase::Ready => (r, Ok(Acquire::Use)),
        RegistryPhase::Failed => (r, Err(r.failure)),
        RegistryPhase::TornDown => (r, Err(HarnessError::RegistryMisuse)),
    }
}

/// One completion: counted while the total is not reached, and the one that
/// reaches it tears down (`Ok(true)`); any further one is a misuse.
pub open spec fn complete_transition(r: SessionRegistry) -> (SessionRegistry, Result<bool, HarnessError>) {
    if r.completed >= r.expected {
        (r, Err(HarnessError::RegistryMisuse))
    } else if r.completed + 1 == r.expected {
        (
            SessionRegistry { completed: (r.completed + 1) as u64, phase: RegistryPhase::TornDown, ..r },
            Ok(true),
        )
    } else {
        (SessionRegistry { completed: (r.completed + 1) as u64, ..r }, Ok(false))
    }
}

/// The registry after `k` completions, and how many of them tore down.
pub open spec fn complete_many(r: SessionRegistry, k: nat) -> (SessionRegistry, nat)
    decreases k,
{
    if k == 0 {
        (r, 0)
    } else {
        let (next, res) = complete_transition(r);
        let (last, n) = complete_many(next, (k - 1) as nat);
        (last, if res == Ok::<bool, HarnessError>(true) {
            n + 1
        } else {
            n
        })
    }
}

impl SessionRegistry {
    /// A registry for `expected` tests; a total of zero is a misconfiguration.
    pub fn new(expected: u64) -> (r: Result<SessionRegistry, HarnessError>)
        ensures
            expected == 0 ==> r == Err::<SessionRegistry, HarnessError>(
                HarnessError::RegistryMisuse,
            ),
            expected > 0 ==> r == Ok::<SessionRegistry, HarnessError>(
                SessionRegistry {
                    phase: RegistryPhase::Uninitialized,
                    failure: HarnessError::Spawn,
                    completed: 0,
                    expected,
                },
            ),
            r is Ok ==> registry_wf(r->Ok_0),
    {
        if expected == 0 {
            Err(HarnessError::RegistryMisuse)
        } else {
            Ok(
                SessionRegistry {
                    phase: RegistryPhase::Uninitialized,
                    failure: HarnessError::Spawn,
                    completed: 0,
                    expected,
                },
            )
        }
    }

    /// Checks the configured total against the number of tests that will
    /// report completion.
    pub fn check_total(&self, registered: u64) -> (r: Result<(), HarnessError>)
        ensures
            r is Ok <==> registered == self.expected,
            r is Err ==> r == Err::<(), HarnessError>(HarnessError::RegistryMisuse),
    {
        if registered == self.expected {
            Ok(())
        } else {
            Err(HarnessError::RegistryMisuse)
        }
    }

    /// Asks for the session. Only the first caller is told to build it.
    pub fn begin_acquire(&mut self) -> (r: Result<Acquire, HarnessError>)
        requires
            registry_wf(*old(self)),
        ensures
            (*final(self), r) == acquire_transition(*old(self)),
            registry_wf(*final(self)),
    {
        match self.phase {
            RegistryPhase::Uninitialized => {
                self.phase = RegistryPhase::Constructing;
                Ok(Acquire::Construct)
            },
            RegistryPhase::Constructing => Err(HarnessError::LockPoisoned),
            RegistryPhase::Ready => Ok(Acquire::Use),
            RegistryPhase::Failed => Err(self.failure),
            RegistryPhase::TornDown => Err(HarnessError::RegistryMisuse),
        }
    }

    /// Records how building the session went.
    pub fn finish_construct(&mut self, built: Result<(), HarnessError>)
        requires
            registry_wf(*old(self)),
            old(self).phase == RegistryPhase::Constructing,
        ensures
            built is Ok ==> *final(self) == (SessionRegistry {
                phase: RegistryPhase::Ready,
                ..*old(self)
            }),
            built is Err ==> *final(self) == (SessionRegistry {
                phase: RegistryPhase::Failed,
                failure: built->Err_0,
                ..*old(self)
            }),
            registry_wf(*final(self)),
    {
        match built {
            Ok(()) => {
                self.phase = RegistryPhase::Ready;
            },
            Err(e) => {
                self.phase = RegistryPhase::Failed;
                self.failure = e;
            },
        }
    }

    /// Records that one test finished. `Ok(true)` tells the caller to shut
    /// the session down, still holding the lock.
    pub fn mark_test_complete(&mut self) -> (r: Result<bool, HarnessError>)
        requires
            registry_wf(*old(self)),
        ensures
            (*final(self), r) == complete_transition(*old(self)),
            registry_wf(*final(self)),
    {
        if self.completed >= self.expected {
            Err(HarnessError::RegistryMisuse)
        } else if self.completed + 1 == self.expected {
            self.completed = self.completed + 1;
            self.phase = RegistryPhase::TornDown;
            Ok(true)
        } else {
            self.completed = self.completed + 1;
            Ok(false)
        }
    }
}

proof fn lemma_complete_many(r: SessionRegistry, k: nat)
    requires
        registry_wf(r),
    ensures
        registry_wf(complete_many(r, k).0),
        complete_many(r, k).0.expected == r.expected,
        complete_many(r, k).0.completed == (if r.completed + k >= r.expected {
            r.expected as int
        } else {
            r.completed + k
        }),
        complete_many(r, k).1 == (if r.completed < r.expected && r.completed + k >= r.expected {
            1nat
        } else {
            0nat
        }),
    decreases k,
{
    if k > 0 {
        let (next, _) = complete_transition(r);
        lemma_complete_many(next, (k - 1) as nat);
    }
}

/// With a total of `n` and `n` completions, in whatever order the callers
/// arrive, exactly one of them tears the session down; any completions past
/// the total tear down nothing more.
pub proof fn lemma_exactly_once_teardown(r: SessionRegistry, k: nat)
    requires
        registry_wf(r),
        r.completed == 0,
        k >= r.expected,
    ensures
        complete_many(r, k).1 == 1,
        complete_many(r, k).0.phase == RegistryPhase::TornDown,
{
    lemma_complete_many(r, k);
}

} // verus!
