use pty_session::ansi::{span_end_at, strip, strip_chars};

#[test]
fn strip_removes_color_codes() {
    assert_eq!(strip("\x1b[31mHELLO\x1b[0m").as_str(), "HELLO");
}

#[test]
fn strip_keeps_plain_text() {
    let text = "plain text, with unicode: héllo → ✓ and a cursor marker ❯";
    assert_eq!(strip(text).as_str(), text);
    assert_eq!(strip("").as_str(), "");
}

#[test]
fn strip_removes_cursor_and_osc_sequences() {
    assert_eq!(strip("a\x1b[2Kb\x1b[1;32Hc").as_str(), "abc");
    assert_eq!(strip("\x1b]0;window title\x07prompt> ").as_str(), "prompt> ");
    assert_eq!(strip("\x1b]8;;http://x\x1b\\link").as_str(), "link");
    assert_eq!(strip("\x1b(Btext\x1b7more\x1b8").as_str(), "textmore");
}

#[test]
fn strip_keeps_malformed_fragments() {
    assert_eq!(strip("abc\x1b[31").as_str(), "abc\x1b[31");
    assert_eq!(strip("abc\x1b").as_str(), "abc\x1b");
    assert_eq!(strip("\x1b]unterminated").as_str(), "\x1b]unterminated");
}

#[test]
fn strip_keeps_selection_marker_next_to_codes() {
    assert_eq!(strip("\x1b[1m❯ model-a\x1b[0m\n  model-b").as_str(), "❯ model-a\n  model-b");
}

#[test]
fn span_end_reports_sequence_lengths() {
    let v: Vec<char> = "\x1b[0mx".chars().collect();
    assert_eq!(span_end_at(&v, 0), 4);
    assert_eq!(span_end_at(&v, 4), -1);
    let w: Vec<char> = "x\x1b[".chars().collect();
    assert_eq!(span_end_at(&w, 1), -1);
    assert_eq!(strip_chars(&w), w);
}
