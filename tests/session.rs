use pty_session::driver::{command_bytes, startup_outcome, SessionState, ShutdownStep, QUIT_COMMAND};
use pty_session::error::HarnessError;
use pty_session::registry::{Acquire, RegistryPhase, SessionRegistry};

#[test]
fn command_gets_a_line_end() {
    assert_eq!(command_bytes("echo A"), b"echo A\n".to_vec());
    assert_eq!(command_bytes(QUIT_COMMAND), b"/quit\n".to_vec());
    assert_eq!(command_bytes("→"), "→\n".as_bytes().to_vec());
}

#[test]
fn shutdown_escalates_then_is_idempotent() {
    let mut s = SessionState::new();
    assert_eq!(s.next_shutdown_step(true), ShutdownStep::SendQuit);
    assert_eq!(s.next_shutdown_step(true), ShutdownStep::SendQuit);
    assert_eq!(s.next_shutdown_step(true), ShutdownStep::ForceKill);
    assert_eq!(s.kills_sent, 1);
    assert_eq!(s.next_shutdown_step(true), ShutdownStep::Done);
    assert_eq!(s.next_shutdown_step(false), ShutdownStep::Done);
    assert_eq!(s.kills_sent, 1);
}

#[test]
fn shutdown_twice_after_graceful_exit_never_kills() {
    let mut s = SessionState::new();
    assert_eq!(s.next_shutdown_step(true), ShutdownStep::SendQuit);
    assert_eq!(s.next_shutdown_step(false), ShutdownStep::Done);
    assert_eq!(s.next_shutdown_step(true), ShutdownStep::Done);
    assert_eq!(s.kills_sent, 0);
    assert_eq!(s.quit_commands_sent, 1);
}

#[test]
fn interaction_after_exit_is_refused() {
    let mut s = SessionState::new();
    assert_eq!(s.begin_interaction(true), Ok(()));
    assert_eq!(s.begin_interaction(false), Err(HarnessError::ProcessExited));
    assert_eq!(s.begin_interaction(true), Err(HarnessError::ProcessExited));
}

#[test]
fn startup_judgement() {
    assert_eq!(startup_outcome(Ok("banner".to_string()), true), Ok("banner".to_string()));
    assert_eq!(startup_outcome(Err(HarnessError::Timeout), true), Err(HarnessError::Startup));
    assert_eq!(startup_outcome(Ok("banner".to_string()), false), Err(HarnessError::Startup));
    assert_eq!(startup_outcome(Err(HarnessError::Io), true), Err(HarnessError::Io));
}

#[test]
fn teardown_fires_once_for_n_completions() {
    let mut r = SessionRegistry::new(3).unwrap();
    assert_eq!(r.begin_acquire(), Ok(Acquire::Construct));
    r.finish_construct(Ok(()));
    let fired: Vec<bool> = (0..3).map(|_| r.mark_test_complete().unwrap()).collect();
    assert_eq!(fired, vec![false, false, true]);
    assert_eq!(fired.iter().filter(|f| **f).count(), 1);
    assert_eq!(r.phase, RegistryPhase::TornDown);
    assert_eq!(r.mark_test_complete(), Err(HarnessError::RegistryMisuse));
    assert_eq!(r.completed, 3);
}

#[test]
fn registry_builds_once_and_refuses_after_teardown() {
    let mut r = SessionRegistry::new(1).unwrap();
    assert_eq!(r.begin_acquire(), Ok(Acquire::Construct));
    assert_eq!(r.begin_acquire(), Err(HarnessError::LockPoisoned));
    r.finish_construct(Ok(()));
    assert_eq!(r.begin_acquire(), Ok(Acquire::Use));
    assert_eq!(r.begin_acquire(), Ok(Acquire::Use));
    assert_eq!(r.mark_test_complete(), Ok(true));
    assert_eq!(r.begin_acquire(), Err(HarnessError::RegistryMisuse));
}

#[test]
fn construction_failure_is_seen_by_everyone() {
    let mut r = SessionRegistry::new(2).unwrap();
    assert_eq!(r.begin_acquire(), Ok(Acquire::Construct));
    r.finish_construct(Err(HarnessError::Spawn));
    assert_eq!(r.phase, RegistryPhase::Failed);
    assert_eq!(r.begin_acquire(), Err(HarnessError::Spawn));
    assert_eq!(r.begin_acquire(), Err(HarnessError::Spawn));
}

#[test]
fn misconfigured_totals() {
    assert_eq!(SessionRegistry::new(0), Err(HarnessError::RegistryMisuse));
    let r = SessionRegistry::new(4).unwrap();
    assert_eq!(r.check_total(4), Ok(()));
    assert_eq!(r.check_total(5), Err(HarnessError::RegistryMisuse));
}
