use pty_session::error::HarnessError;
use pty_session::reader::{contains_bytes, pending_tail_len, Progress, QuiescenceReader, ReadPolicy};
use pty_session::source::{Poll, ScriptedSource};

fn poll(bytes: &[u8], elapsed_ms: u64) -> Poll {
    Poll { bytes: bytes.to_vec(), elapsed_ms }
}

#[test]
fn pause_past_quiet_threshold_splits_responses() {
    let policy = ReadPolicy::key_input();
    let mut src = ScriptedSource::new(vec![
        poll(b"abc", 10),
        poll(b"", 300),
        poll(b"", 300),
        poll(b"def", 10),
        poll(b"", 600),
    ]);
    assert_eq!(src.read_to_quiescence(policy, &Vec::new()), Ok("abc".to_string()));
    assert_eq!(src.next, 3);
    assert_eq!(src.read_to_quiescence(policy, &Vec::new()), Ok("def".to_string()));
    assert_eq!(src.next, 5);
}

#[test]
fn second_response_holds_nothing_of_the_first() {
    let policy = ReadPolicy::command();
    let mut src = ScriptedSource::new(vec![
        poll(b"echo A\r\nA\r\n", 20),
        poll(b"", 2500),
        poll(b"echo B\r\nB\r\n", 20),
        poll(b"", 2500),
    ]);
    let a = src.read_to_quiescence(policy, &Vec::new()).unwrap();
    let b = src.read_to_quiescence(policy, &Vec::new()).unwrap();
    assert!(a.contains('A'));
    assert!(!b.contains('A'));
    assert_eq!(b, "echo B\r\nB\r\n");
}

#[test]
fn silent_source_times_out() {
    let policy = ReadPolicy::key_input();
    let mut src = ScriptedSource::new(vec![poll(b"", 50), poll(b"", 50)]);
    assert_eq!(src.read_to_quiescence(policy, &Vec::new()), Err(HarnessError::Timeout));
    let mut empty = ScriptedSource::new(Vec::new());
    assert_eq!(empty.read_to_quiescence(policy, &Vec::new()), Err(HarnessError::Timeout));
}

#[test]
fn silent_polls_time_out_at_the_hard_bound() {
    let policy = ReadPolicy { poll_interval_ms: 10, quiet_ms: 20, hard_timeout_ms: 100 };
    let mut r = QuiescenceReader::new(policy, Vec::new());
    let mut polls = 0;
    while r.observe(&[], 10) == Progress::Waiting {
        polls += 1;
    }
    assert_eq!(polls, 9);
    assert_eq!(r.total_ms, 100);
    assert_eq!(r.outcome(), Err(HarnessError::Timeout));
}

#[test]
fn terminator_settles_before_quiet() {
    let policy = ReadPolicy::command();
    let mut src = ScriptedSource::new(vec![poll(b"working", 10), poll(b"... done\n> ", 10), poll(b"late", 10)]);
    assert_eq!(src.read_to_quiescence(policy, &b"> ".to_vec()), Ok("working... done\n> ".to_string()));
    assert_eq!(src.next, 2);
}

#[test]
fn split_multibyte_character_is_kept_whole() {
    let policy = ReadPolicy::key_input();
    // "é" is 0xC3 0xA9; the second byte comes after a quiet spell.
    let mut src = ScriptedSource::new(vec![poll(b"caf\xc3", 10), poll(b"", 600), poll(b"\xa9", 10), poll(b"", 600)]);
    assert_eq!(src.read_to_quiescence(policy, &Vec::new()), Ok("café".to_string()));
    assert_eq!(src.next, 4);
}

#[test]
fn output_is_settled_at_hard_bound_when_never_quiet() {
    let policy = ReadPolicy { poll_interval_ms: 10, quiet_ms: 50, hard_timeout_ms: 100 };
    let mut r = QuiescenceReader::new(policy, Vec::new());
    let mut progress = Progress::Waiting;
    let mut n = 0;
    while progress == Progress::Waiting {
        progress = r.observe(b"x", 20);
        n += 1;
    }
    assert_eq!(progress, Progress::Settled);
    assert_eq!(n, 5);
    assert_eq!(r.outcome(), Ok("xxxxx".to_string()));
}

#[test]
fn invalid_bytes_decode_with_replacement() {
    let mut r = QuiescenceReader::new(ReadPolicy::key_input(), Vec::new());
    r.observe(b"a\xffb", 10);
    assert_eq!(r.text(), "a\u{fffd}b");
}

#[test]
fn pending_tail_lengths() {
    assert_eq!(pending_tail_len(&b"abc".to_vec()), 0);
    assert_eq!(pending_tail_len(&b"a\xc3".to_vec()), 1);
    assert_eq!(pending_tail_len(&b"a\xe2\x86".to_vec()), 2);
    assert_eq!(pending_tail_len(&b"\xf0\x9f\x98".to_vec()), 3);
    assert_eq!(pending_tail_len(&"a→".as_bytes().to_vec()), 0);
    assert_eq!(pending_tail_len(&Vec::new()), 0);
}

#[test]
fn byte_search() {
    assert!(contains_bytes(b"hello world", b"o w"));
    assert!(contains_bytes(b"abc", b""));
    assert!(!contains_bytes(b"abc", b"abcd"));
    assert!(!contains_bytes(b"abcab", b"ba"));
    assert!(contains_bytes(b"abcab", b"cab"));
}

#[test]
fn policies_scale() {
    assert!(ReadPolicy::command().quiet_ms > ReadPolicy::key_input().quiet_ms);
    assert_eq!(ReadPolicy::startup().hard_timeout_ms, 30000);
}
