//! Turning an irregular byte stream into one settled response.
//!
//! The reader is fed the result of each poll of the byte source (the bytes
//! that arrived and the time the poll took) and says after each one whether
//! the response is still coming, has settled, or has timed out.
use vstd::prelude::*;
use vstd::utf8::{decode_utf8, valid_utf8};

use crate::error::HarnessError;

verus! {

/// Time bounds of one read, in milliseconds.
#[derive(Clone, Copy, Debug, PartialEq, Eq, Structural)]
pub struct ReadPolicy {
    /// How long one poll of the byte source may wait.
    pub poll_interval_ms: u64,
    /// Idle time after the last byte that marks the response complete.
    pub quiet_ms: u64,
    /// Overall bound of the read.
    pub hard_timeout_ms: u64,
}

impl ReadPolicy {
    pub open spec fn wf(&self) -> bool {
        &&& self.poll_interval_ms > 0
        &&& self.quiet_ms > 0
        &&& self.hard_timeout_ms > 0
    }

    /// Bounds for a command: its processing may take a while.
    pub fn command() -> (r: ReadPolicy)
        ensures
            r.wf(),
            r == (ReadPolicy { poll_interval_ms: 50, quiet_ms: 2000, hard_timeout_ms: 60000 }),
    {
        ReadPolicy { poll_interval_ms: 50, quiet_ms: 2000, hard_timeout_ms: 60000 }
    }

    /// Bounds for raw key input: redraws settle quickly.
    pub fn key_input() -> (r: ReadPolicy)
        ensures
            r.wf(),
            r == (ReadPolicy { poll_interval_ms: 50, quiet_ms: 500, hard_timeout_ms: 15000 }),
    {
        ReadPolicy { poll_interval_ms: 50, quiet_ms: 500, hard_timeout_ms: 15000 }
    }

    /// Bounds for draining the startup banner.
    pub fn startup() -> (r: ReadPolicy)
        ensures
            r.wf(),
            r == (ReadPolicy { poll_interval_ms: 100, quiet_ms: 3000, hard_timeout_ms: 30000 }),
    {
        ReadPolicy { poll_interval_ms: 100, quiet_ms: 3000, hard_timeout_ms: 30000 }
    }
}

/// What the reader concluded after a poll.
#[derive(Clone, Copy, Debug, PartialEq, Eq, Structural)]
pub enum Progress {
    Waiting,
    Settled,
    TimedOut,
}

/// The reader's state as plain values.
pub struct ReaderView {
    pub received: Seq<u8>,
    pub idle_ms: u64,
    pub total_ms: u64,
}

pub open spec fn fresh_view() -> ReaderView {
    ReaderView { received: Seq::empty(), idle_ms: 0, total_ms: 0 }
}

pub open spec fn is_continuation(b: u8) -> bool {
    0x80 <= b && b <= 0xbf
}

/// Number of bytes that the character led by `b` takes (1 for anything that
/// is not a multi-byte lead).
pub open spec fn lead_width(b: u8) -> nat {
    if 0xc0 <= b && b <= 0xdf {
        2
    } else if 0xe0 <= b && b <= 0xef {
        3
    } else if 0xf0 <= b && b <= 0xf7 {
        4
    } else {
        1
    }
}

/// Length of a multi-byte character at the end of `b` whose remaining bytes
/// have not arrived yet (0 when the last character is complete).
pub open spec fn pending_tail(b: Seq<u8>) -> nat {
    let n = b.len();
    if n >= 1 && lead_width(b[n - 1]) > 1 {
        1
    } else if n >= 2 && is_continuation(b[n - 1]) && lead_width(b[n - 2]) > 2 {
        2
    } else if n >= 3 && is_continuation(b[n - 1]) && is_continuation(b[n - 2]) && lead_width(
        b[n - 3],
    ) > 3 {
        3
    } else {
        0
    }
}

/// `needle` occurs in `hay` starting at `i`.
pub open spec fn occurs_at(hay: Seq<u8>, needle: Seq<u8>, i: int) -> bool {
    0 <= i && i + needle.len() <= hay.len() && hay.subrange(i, i + needle.len()) == needle
}

pub open spec fn occurs(hay: Seq<u8>, needle: Seq<u8>) -> bool {
    exists|i: int| occurs_at(hay, needle, i)
}

/// The reader's state after a poll that brought `bytes` and took `elapsed`.
pub open spec fn poll_step(v: ReaderView, bytes: Seq<u8>, elapsed: u64) -> ReaderView {
    ReaderView {
        received: v.received + bytes,
        idle_ms: if bytes.len() > 0 {
            0
        } else {
            v.idle_ms.saturating_add(elapsed)
        },
        total_ms: v.total_ms.saturating_add(elapsed),
    }
}

/// The decision on a state: nothing yet and time left means wait; nothing by
/// the hard bound is a timeout; once output has come, the terminator, an idle
/// spell past the quiet threshold with no character left half-received, or
/// the hard bound settles it.
pub open spec fn progress_of(p: ReadPolicy, terminator: Seq<u8>, v: ReaderView) -> Progress {
    if v.received.len() == 0 {
        if v.total_ms >= p.hard_timeout_ms {
            Progress::TimedOut
        } else {
            Progress::Waiting
        }
    } else if terminator.len() > 0 && occurs(v.received, terminator) {
        Progress::Settled
    } else if v.idle_ms >= p.quiet_ms && pending_tail(v.received) == 0 {
        Progress::Settled
    } else if v.total_ms >= p.hard_timeout_ms {
        Progress::Settled
    } else {
        Progress::Waiting
    }
}

/// The name of what `String::from_utf8_lossy` makes of a byte sequence.
pub uninterp spec fn lossy_utf8(b: Seq<u8>) -> Seq<char>;

/// Relies on `String::from_utf8_lossy`: valid UTF-8 is decoded as it is, and
/// the result depends on the bytes alone.
#[verifier::external_body]
fn decode_lossy(b: &[u8]) -> (r: String)
    ensures
        r@ == lossy_utf8(b@),
        valid_utf8(b@) ==> r@ == decode_utf8(b@),
{
    String::from_utf8_lossy(b).into_owned()
}

/// Length of an unfinished multi-byte character at the end of `b`.
pub fn pending_tail_len(b: &Vec<u8>) -> (r: usize)
    ensures
        r == pending_tail(b@),
{
    let n = b.len();
    if n >= 1 && lead_width_of(b[n - 1]) > 1 {
        1
    } else if n >= 2 && is_continuation_byte(b[n - 1]) && lead_width_of(b[n - 2]) > 2 {
        2
    } else if n >= 3 && is_continuation_byte(b[n - 1]) && is_continuation_byte(b[n - 2])
        && lead_width_of(b[n - 3]) > 3 {
        3
    } else {
        0
    }
}

fn is_continuation_byte(b: u8) -> (r: bool)
    ensures
        r == is_continuation(b),
{
    0x80 <= b && b <= 0xbf
}

fn lead_width_of(b: u8) -> (r: usize)
    ensures
        r == lead_width(b),
{
    if 0xc0 <= b && b <= 0xdf {
        2
    } else if 0xe0 <= b && b <= 0xef {
        3
    } else if 0xf0 <= b && b <= 0xf7 {
        4
    } else {
        1
    }
}

/// Whether `needle` occurs in `hay`.
pub fn contains_bytes(hay: &[u8], needle: &[u8]) -> (r: bool)
    ensures
        r == occurs(hay@, needle@),
{
    if needle.len() > hay.len() {
        assert forall|k: int| !occurs_at(hay@, needle@, k) by {}
        return false;
    }
    let hay_len = hay.len();
    let last = hay_len - needle.len();
    let mut i: usize = 0;
    loop
        invariant
            hay_len == hay@.len(),
            last == hay@.len() - needle@.len(),
            i <= last,
            forall|k: int| 0 <= k < i ==> !occurs_at(hay@, needle@, k),
        decreases last - i,
    {
        let mut j: usize = 0;
        let mut same = true;
        while j < needle.len()
            invariant
                i <= last,
                hay_len == hay@.len(),
                last == hay@.len() - needle@.len(),
                j <= needle@.len(),
                same ==> forall|m: int| 0 <= m < j ==> hay@[i + m] == needle@[m],
                !same ==> !occurs_at(hay@, needle@, i as int),
            decreases needle@.len() - j,
        {
            assert(i + j < hay@.len());
            if hay[i + j] != needle[j] {
                same = false;
                assert(hay@.subrange(i as int, i + needle@.len())[j as int] != needle@[j as int]);
            }
            j = j + 1;
        }
        if same {
            assert(hay@.subrange(i as int, i + needle@.len()) =~= needle@);
            assert(occurs_at(hay@, needle@, i as int));
            return true;
        }
        if i == last {
            assert forall|k: int| !occurs_at(hay@, needle@, k) by {}
            return false;
        }
        i = i + 1;
    }
}

pub(crate) fn append_bytes(v: &mut Vec<u8>, bytes: &[u8])
    ensures
        final(v)@ == old(v)@ + bytes@,
{
    let ghost start = v@;
    let mut k: usize = 0;
    while k < bytes.len()
        invariant
            k <= bytes@.len(),
            v@ == start + bytes@.subrange(0, k as int),
        decreases bytes@.len() - k,
    {
        v.push(bytes[k]);
        k = k + 1;
        assert(v@ =~= start + bytes@.subrange(0, k as int));
    }
    assert(bytes@.subrange(0, bytes@.len() as int) =~= bytes@);
}

/// Settling of one response; see the module's documentation.
pub struct QuiescenceReader {
    pub policy: ReadPolicy,
    pub terminator: Vec<u8>,
    pub received: Vec<u8>,
    pub idle_ms: u64,
    pub total_ms: u64,
}

impl QuiescenceReader {
    pub open spec fn view(&self) -> ReaderView {
        ReaderView { received: self.received@, idle_ms: self.idle_ms, total_ms: self.total_ms }
    }

    pub open spec fn progress(&self) -> Progress {
        progress_of(self.policy, self.terminator@, self.view())
    }

    /// A reader with nothing received; an empty terminator means none.
    pub fn new(policy: ReadPolicy, terminator: Vec<u8>) -> (r: QuiescenceReader)
        ensures
            r.policy == policy,
            r.terminator@ == terminator@,
            r.view() == fresh_view(),
    {
        QuiescenceReader { policy, terminator, received: Vec::new(), idle_ms: 0, total_ms: 0 }
    }

    /// Takes in one poll's bytes and the time it took, and decides.
    pub fn observe(&mut self, bytes: &[u8], elapsed_ms: u64) -> (r: Progress)
        ensures
            final(self).policy == old(self).policy,
            final(self).terminator@ == old(self).terminator@,
            final(self).view() == poll_step(old(self).view(), bytes@, elapsed_ms),
            r == final(self).progress(),
    {
        append_bytes(&mut self.received, bytes);
        if bytes.len() > 0 {
            self.idle_ms = 0;
        } else {
            self.idle_ms = self.idle_ms.saturating_add(elapsed_ms);
        }
        self.total_ms = self.total_ms.saturating_add(elapsed_ms);
        self.decide()
    }

    /// The decision on the current state.
    pub fn decide(&self) -> (r: Progress)
        ensures
            r == self.progress(),
    {
        if self.received.len() == 0 {
            if self.total_ms >= self.policy.hard_timeout_ms {
                Progress::TimedOut
            } else {
                Progress::Waiting
            }
        } else if self.terminator.len() > 0 && contains_bytes(self.received.as_slice(), self.terminator.as_slice()) {
            Progress::Settled
        } else if self.idle_ms >= self.policy.quiet_ms && pending_tail_len(&self.received) == 0 {
            Progress::Settled
        } else if self.total_ms >= self.policy.hard_timeout_ms {
            Progress::Settled
        } else {
            Progress::Waiting
        }
    }

    /// The text received so far.
    pub fn text(&self) -> (r: String)
        ensures
            r@ == lossy_utf8(self.received@),
            valid_utf8(self.received@) ==> r@ == decode_utf8(self.received@),
    {
        decode_lossy(self.received.as_slice())
    }

    /// The outcome of a read that has concluded: its text, or a timeout.
    pub fn outcome(&self) -> (r: Result<String, HarnessError>)
        requires
            self.progress() != Progress::Waiting,
        ensures
            self.progress() == Progress::TimedOut ==> r == Err::<String, HarnessError>(
                HarnessError::Timeout,
            ),
            self.progress() == Progress::Settled ==> r is Ok && r->Ok_0@ == lossy_utf8(
                self.received@,
            ),
    {
        if self.decide() == Progress::TimedOut {
            Err(HarnessError::Timeout)
        } else {
            Ok(self.text())
        }
    }
}

/// A waiting reader has not used up its time: every read is decided within
/// the hard bound plus the length of one poll.
pub proof fn lemma_waiting_within_bound(p: ReadPolicy, terminator: Seq<u8>, v: ReaderView)
    requires
        progress_of(p, terminator, v) == Progress::Waiting,
    ensures
        v.total_ms < p.hard_timeout_ms,
{
}

} // verus!
