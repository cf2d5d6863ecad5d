//! Removal of terminal control sequences from captured text.
//!
//! Recognised spans, each introduced by ESC:
//! - CSI: `ESC [`, parameter and intermediate characters (0x20..=0x3F), one
//!   final character (0x40..=0x7E);
//! - OSC: `ESC ]`, any characters, ended by BEL or by `ESC \`;
//! - other escapes: `ESC`, intermediate characters (0x20..=0x2F), one final
//!   character (0x30..=0x7E).
//! An ESC that does not open a complete span is kept, as is everything after
//! it: malformed or truncated fragments are never dropped.
use vstd::prelude::*;

use crate::text::{chars_of, string_from_chars};

verus! {

pub open spec fn is_esc(c: char) -> bool {
    c == '\x1b'
}

pub open spec fn in_range(c: char, lo: u32, hi: u32) -> bool {
    lo <= (c as u32) && (c as u32) <= hi
}

/// End (exclusive) of a CSI span whose body starts at `j`, or -1.
pub open spec fn csi_end(s: Seq<char>, j: int) -> int
    decreases s.len() - j,
{
    if j < 0 || j >= s.len() {
        -1
    } else if in_range(s[j], 0x20, 0x3f) {
        csi_end(s, j + 1)
    } else if in_range(s[j], 0x40, 0x7e) {
        j + 1
    } else {
        -1
    }
}

/// End (exclusive) of an OSC span whose body starts at `j`, or -1.
pub open spec fn osc_end(s: Seq<char>, j: int) -> int
    decreases s.len() - j,
{
    if j < 0 || j >= s.len() {
        -1
    } else if s[j] == '\x07' {
        j + 1
    } else if is_esc(s[j]) && j + 1 < s.len() && s[j + 1] == '\\' {
        j + 2
    } else {
        osc_end(s, j + 1)
    }
}

/// End (exclusive) of a plain escape whose body starts at `j`, or -1.
pub open spec fn esc_end(s: Seq<char>, j: int) -> int
    decreases s.len() - j,
{
    if j < 0 || j >= s.len() {
        -1
    } else if in_range(s[j], 0x20, 0x2f) {
        esc_end(s, j + 1)
    } else if in_range(s[j], 0x30, 0x7e) {
        j + 1
    } else {
        -1
    }
}

/// End (exclusive) of the span that opens at `i`, or -1 when none does.
pub open spec fn span_end(s: Seq<char>, i: int) -> int {
    if 0 <= i && i + 1 < s.len() && is_esc(s[i]) {
        if s[i + 1] == '[' {
            csi_end(s, i + 2)
        } else if s[i + 1] == ']' {
            osc_end(s, i + 2)
        } else {
            esc_end(s, i + 1)
        }
    } else {
        -1
    }
}

/// The text from `i` on with every recognised span removed.
pub open spec fn stripped_from(s: Seq<char>, i: int) -> Seq<char>
    decreases s.len() - i,
{
    if i < 0 || i >= s.len() {
        Seq::empty()
    } else if i < span_end(s, i) <= s.len() {
        stripped_from(s, span_end(s, i))
    } else {
        seq![s[i]] + stripped_from(s, i + 1)
    }
}

pub open spec fn stripped(s: Seq<char>) -> Seq<char> {
    stripped_from(s, 0)
}

/// No position of `s` opens a recognised span.
pub open spec fn has_no_spans(s: Seq<char>) -> bool {
    forall|i: int| 0 <= i < s.len() ==> span_end(s, i) < 0
}

proof fn lemma_csi_end_bounds(s: Seq<char>, j: int)
    ensures
        csi_end(s, j) == -1 || (j < csi_end(s, j) <= s.len()),
    decreases s.len() - j,
{
    if 0 <= j < s.len() && in_range(s[j], 0x20, 0x3f) {
        lemma_csi_end_bounds(s, j + 1);
    }
}

proof fn lemma_osc_end_bounds(s: Seq<char>, j: int)
    ensures
        osc_end(s, j) == -1 || (j < osc_end(s, j) <= s.len()),
    decreases s.len() - j,
{
    if 0 <= j < s.len() && s[j] != '\x07' && !(is_esc(s[j]) && j + 1 < s.len() && s[j + 1]
        == '\\') {
        lemma_osc_end_bounds(s, j + 1);
    }
}

proof fn lemma_esc_end_bounds(s: Seq<char>, j: int)
    ensures
        esc_end(s, j) == -1 || (j < esc_end(s, j) <= s.len()),
    decreases s.len() - j,
{
    if 0 <= j < s.len() && in_range(s[j], 0x20, 0x2f) {
        lemma_esc_end_bounds(s, j + 1);
    }
}

proof fn lemma_span_end_bounds(s: Seq<char>, i: int)
    ensures
        span_end(s, i) < 0 || (i < span_end(s, i) <= s.len()),
{
    lemma_csi_end_bounds(s, i + 2);
    lemma_osc_end_bounds(s, i + 2);
    lemma_esc_end_bounds(s, i + 1);
}

fn scan_csi(s: &Vec<char>, start: usize) -> (r: i64)
    requires
        start <= s@.len() <= i64::MAX,
    ensures
        r == csi_end(s@, start as int),
{
    let mut j: usize = start;
    while j < s.len()
        invariant
            start <= j <= s@.len() <= i64::MAX,
            csi_end(s@, start as int) == csi_end(s@, j as int),
        decreases s@.len() - j,
    {
        let c = s[j] as u32;
        if 0x20 <= c && c <= 0x3f {
            j = j + 1;
        } else if 0x40 <= c && c <= 0x7e {
            return (j + 1) as i64;
        } else {
            return -1;
        }
    }
    -1
}

fn scan_osc(s: &Vec<char>, start: usize) -> (r: i64)
    requires
        start <= s@.len() <= i64::MAX,
    ensures
        r == osc_end(s@, start as int),
{
    let mut j: usize = start;
    while j < s.len()
        invariant
            start <= j <= s@.len() <= i64::MAX,
            osc_end(s@, start as int) == osc_end(s@, j as int),
        decreases s@.len() - j,
    {
        if s[j] == '\x07' {
            return (j + 1) as i64;
        } else if s[j] == '\x1b' && j + 1 < s.len() && s[j + 1] == '\\' {
            return (j + 2) as i64;
        }
        j = j + 1;
    }
    -1
}

fn scan_esc(s: &Vec<char>, start: usize) -> (r: i64)
    requires
        start <= s@.len() <= i64::MAX,
    ensures
        r == esc_end(s@, start as int),
{
    let mut j: usize = start;
    while j < s.len()
        invariant
            start <= j <= s@.len() <= i64::MAX,
            esc_end(s@, start as int) == esc_end(s@, j as int),
        decreases s@.len() - j,
    {
        let c = s[j] as u32;
        if 0x20 <= c && c <= 0x2f {
            j = j + 1;
        } else if 0x30 <= c && c <= 0x7e {
            return (j + 1) as i64;
        } else {
            return -1;
        }
    }
    -1
}

/// End (exclusive) of the recognised span opening at `i`, or -1.
pub fn span_end_at(s: &Vec<char>, i: usize) -> (r: i64)
    requires
        i < s@.len() <= i64::MAX,
    ensures
        r == span_end(s@, i as int),
{
    if i < s.len() - 1 && s[i] == '\x1b' {
        if s[i + 1] == '[' {
            scan_csi(s, i + 2)
        } else if s[i + 1] == ']' {
            scan_osc(s, i + 2)
        } else {
            scan_esc(s, i + 1)
        }
    } else {
        -1
    }
}

/// Removes every recognised control-sequence span, keeping all other
/// characters in their order.
pub fn strip_chars(s: &Vec<char>) -> (r: Vec<char>)
    requires
        s@.len() <= i64::MAX,
    ensures
        r@ == stripped(s@),
{
    let mut out: Vec<char> = Vec::new();
    let mut i: usize = 0;
    while i < s.len()
        invariant
            i <= s@.len() <= i64::MAX,
            out@ + stripped_from(s@, i as int) == stripped(s@),
        decreases s@.len() - i,
    {
        let e = span_end_at(s, i);
        proof {
            lemma_span_end_bounds(s@, i as int);
        }
        if e > i as i64 {
            i = e as usize;
        } else {
            let c = s[i];
            proof {
                assert(stripped_from(s@, i as int) == seq![c] + stripped_from(s@, i + 1));
                assert(out@ + stripped_from(s@, i as int) == out@.push(c) + stripped_from(
                    s@,
                    i + 1,
                ));
            }
            out.push(c);
            i = i + 1;
        }
    }
    out
}

/// Removes every recognised control-sequence span from `text`; visible
/// characters, and malformed escape fragments, are kept in order.
pub fn strip(text: &str) -> (r: String)
    requires
        text@.len() <= i64::MAX,
    ensures
        r@ == stripped(text@),
{
    let v = chars_of(text);
    let out = strip_chars(&v);
    string_from_chars(&out)
}

proof fn lemma_stripped_from_identity(s: Seq<char>, i: int)
    requires
        has_no_spans(s),
        0 <= i <= s.len(),
    ensures
        stripped_from(s, i) == s.subrange(i, s.len() as int),
    decreases s.len() - i,
{
    if i < s.len() {
        lemma_stripped_from_identity(s, i + 1);
        assert(s.subrange(i, s.len() as int) == seq![s[i]] + s.subrange(i + 1, s.len() as int));
    }
}

/// Text in which no recognised control sequence opens comes out of the
/// sanitizer unchanged.
pub proof fn lemma_strip_identity(s: Seq<char>)
    requires
        has_no_spans(s),
    ensures
        stripped(s) == s,
{
    lemma_stripped_from_identity(s, 0);
    assert(s.subrange(0, s.len() as int) == s);
}

/// Text without any ESC character holds no recognised control sequence.
pub proof fn lemma_no_esc_has_no_spans(s: Seq<char>)
    requires
        forall|i: int| 0 <= i < s.len() ==> !is_esc(#[trigger] s[i]),
    ensures
        has_no_spans(s),
{
}

} // verus!
