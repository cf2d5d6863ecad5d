//! A byte source that replays a fixed script of polls, and the reads made
//! from it.
//!
//! Each poll of the script brings some bytes (possibly none) and takes some
//! time. Once the script is used up the source stays silent: each further
//! poll brings nothing and takes the policy's poll interval.
use vstd::prelude::*;

use crate::error::HarnessError;
use crate::reader::{
    append_bytes, fresh_view, occurs, pending_tail, lemma_waiting_within_bound, lossy_utf8, poll_step, progress_of,
    Progress, QuiescenceReader, ReadPolicy, ReaderView,
};

verus! {

/// One poll of a byte source: what arrived and how long the poll took.
pub struct Poll {
    pub bytes: Vec<u8>,
    pub elapsed_ms: u64,
}

/// A byte source that replays `polls` from `next` on.
pub struct ScriptedSource {
    pub polls: Vec<Poll>,
    pub next: usize,
}

/// Where a read that starts in state `v` at poll `i` ends: the bytes it
/// settled on (`None` for a timeout) and the index of the first poll it left
/// unread.
pub open spec fn run(p: ReadPolicy, t: Seq<u8>, polls: Seq<Poll>, i: int, v: ReaderView) -> (
    Option<Seq<u8>>,
    int,
)
    decreases polls.len() - i,
{
    if i < 0 || i >= polls.len() {
        (if v.received.len() == 0 {
            None
        } else {
            Some(v.received)
        }, i)
    } else {
        let v2 = poll_step(v, polls[i].bytes@, polls[i].elapsed_ms);
        let pr = progress_of(p, t, v2);
        if pr == Progress::Settled {
            (Some(v2.received), i + 1)
        } else if pr == Progress::TimedOut {
            (None, i + 1)
        } else {
            run(p, t, polls, i + 1, v2)
        }
    }
}

/// The outcome of a fresh read starting at poll `i`.
pub open spec fn read_outcome(p: ReadPolicy, t: Seq<u8>, polls: Seq<Poll>, i: int) -> (
    Option<Seq<u8>>,
    int,
) {
    run(p, t, polls, i, fresh_view())
}

/// The bytes that polls `i` up to (not including) `j` delivered, in order.
pub open spec fn joined(polls: Seq<Poll>, i: int, j: int) -> Seq<u8>
    decreases j - i,
{
    if j <= i {
        Seq::empty()
    } else {
        joined(polls, i, j - 1) + polls[j - 1].bytes@
    }
}

impl ScriptedSource {
    pub fn new(polls: Vec<Poll>) -> (r: ScriptedSource)
        ensures
            r.polls@ == polls@,
            r.next == 0,
    {
        ScriptedSource { polls, next: 0 }
    }

    /// Reads one response to quiescence: polls until the reader settles or
    /// times out, then hands back the settled text or `Timeout`.
    pub fn read_to_quiescence(&mut self, policy: ReadPolicy, terminator: &Vec<u8>) -> (r: Result<
        String,
        HarnessError,
    >)
        requires
            policy.wf(),
            old(self).next <= old(self).polls@.len(),
        ensures
            final(self).polls@ == old(self).polls@,
            final(self).next == read_outcome(
                policy,
                terminator@,
                old(self).polls@,
                old(self).next as int,
            ).1,
            read_outcome(policy, terminator@, old(self).polls@, old(self).next as int).0 is None
                ==> r == Err::<String, HarnessError>(HarnessError::Timeout),
            read_outcome(policy, terminator@, old(self).polls@, old(self).next as int).0 is Some
                ==> r is Ok && r->Ok_0@ == lossy_utf8(
                read_outcome(policy, terminator@, old(self).polls@, old(self).next as int).0->Some_0,
            ),
    {
        let mut t: Vec<u8> = Vec::new();
        append_bytes(&mut t, terminator.as_slice());
        assert(t@ =~= terminator@);
        let mut reader = QuiescenceReader::new(policy, t);
        let ghost start = self.next as int;
        let ghost polls = self.polls@;
        while self.next < self.polls.len()
            invariant
                self.polls@ == polls,
                polls == old(self).polls@,
                start == old(self).next,
                self.next <= polls.len(),
                reader.policy == policy,
                reader.terminator@ == terminator@,
                policy.wf(),
                reader.progress() == Progress::Waiting,
                read_outcome(policy, terminator@, polls, start) == run(
                    policy,
                    terminator@,
                    polls,
                    self.next as int,
                    reader.view(),
                ),
            decreases polls.len() - self.next,
        {
            let i = self.next;
            let pr = reader.observe(self.polls[i].bytes.as_slice(), self.polls[i].elapsed_ms);
            self.next = i + 1;
            if pr != Progress::Waiting {
                return reader.outcome();
            }
        }
        let ghost settled_on = reader.received@;
        let silence: Vec<u8> = Vec::new();
        assert(self.next == polls.len());
        loop
            invariant
                reader.policy == policy,
                reader.terminator@ == terminator@,
                policy.wf(),
                reader.received@ == settled_on,
                silence@.len() == 0,
            ensures
                reader.received@ == settled_on,
                reader.progress() != Progress::Waiting,
            decreases u64::MAX - reader.total_ms,
        {
            if reader.decide() != Progress::Waiting {
                break;
            }
            proof {
                lemma_waiting_within_bound(policy, terminator@, reader.view());
            }
            let ghost before = reader.total_ms;
            reader.observe(silence.as_slice(), policy.poll_interval_ms);
            assert(reader.received@ =~= settled_on);
            assert(reader.total_ms > before);
        }
        reader.outcome()
    }
}

proof fn lemma_run_collects(p: ReadPolicy, t: Seq<u8>, polls: Seq<Poll>, i0: int, i: int, v: ReaderView)
    requires
        0 <= i0 <= i <= polls.len(),
        v.received == joined(polls, i0, i),
    ensures
        i <= run(p, t, polls, i, v).1 <= polls.len(),
        run(p, t, polls, i, v).0 is Some ==> run(p, t, polls, i, v).0->Some_0 == joined(
            polls,
            i0,
            run(p, t, polls, i, v).1,
        ),
    decreases polls.len() - i,
{
    if i < polls.len() {
        let v2 = poll_step(v, polls[i].bytes@, polls[i].elapsed_ms);
        assert(v2.received == joined(polls, i0, i + 1));
        lemma_run_collects(p, t, polls, i0, i + 1, v2);
    }
}

/// Two reads one after the other on one source: each settles on exactly the
/// bytes that arrived during its own polls, so the second never holds any
/// part of the first response.
pub proof fn lemma_no_bleed(p: ReadPolicy, t: Seq<u8>, polls: Seq<Poll>, start: int)
    requires
        0 <= start <= polls.len(),
    ensures
        start <= read_outcome(p, t, polls, start).1,
        read_outcome(p, t, polls, start).1 <= read_outcome(
            p,
            t,
            polls,
            read_outcome(p, t, polls, start).1,
        ).1,
        read_outcome(p, t, polls, start).0 is Some ==> read_outcome(p, t, polls, start).0->Some_0
            == joined(polls, start, read_outcome(p, t, polls, start).1),
        read_outcome(p, t, polls, read_outcome(p, t, polls, start).1).0 is Some ==> read_outcome(
            p,
            t,
            polls,
            read_outcome(p, t, polls, start).1,
        ).0->Some_0 == joined(
            polls,
            read_outcome(p, t, polls, start).1,
            read_outcome(p, t, polls, read_outcome(p, t, polls, start).1).1,
        ),
{
    assert(fresh_view().received == joined(polls, start, start));
    lemma_run_collects(p, t, polls, start, start, fresh_view());
    let mid = read_outcome(p, t, polls, start).1;
    assert(fresh_view().received == joined(polls, mid, mid));
    lemma_run_collects(p, t, polls, mid, mid, fresh_view());
}

proof fn lemma_run_silent(p: ReadPolicy, t: Seq<u8>, polls: Seq<Poll>, i: int, v: ReaderView)
    requires
        0 <= i,
        v.received.len() == 0,
        forall|k: int| i <= k < polls.len() ==> (#[trigger] polls[k]).bytes@.len() == 0,
    ensures
        run(p, t, polls, i, v).0 is None,
    decreases polls.len() - i,
{
    if i < polls.len() {
        let v2 = poll_step(v, polls[i].bytes@, polls[i].elapsed_ms);
        assert(v2.received.len() == 0);
        lemma_run_silent(p, t, polls, i + 1, v2);
    }
}

/// A source that never delivers a byte makes the read fail with a timeout.
/// (That the read ends at all is shown by the read loop's termination, and a
/// reader still waiting has always used less than the hard bound.)
pub proof fn lemma_silence_times_out(p: ReadPolicy, t: Seq<u8>, polls: Seq<Poll>, start: int)
    requires
        0 <= start,
        forall|k: int| start <= k < polls.len() ==> (#[trigger] polls[k]).bytes@.len() == 0,
    ensures
        read_outcome(p, t, polls, start).0 is None,
{
    lemma_run_silent(p, t, polls, start, fresh_view());
}

/// Output followed by a pause past the quiet threshold is one whole
/// response: a read that starts at that output settles on exactly its bytes
/// and leaves the source just after the pause, where the next read starts.
pub proof fn lemma_pause_ends_response(p: ReadPolicy, t: Seq<u8>, polls: Seq<Poll>, i: int)
    requires
        p.wf(),
        0 <= i,
        i + 1 < polls.len(),
        polls[i].bytes@.len() > 0,
        pending_tail(polls[i].bytes@) == 0,
        t.len() == 0 || !occurs(polls[i].bytes@, t),
        polls[i].elapsed_ms < p.hard_timeout_ms,
        polls[i + 1].bytes@.len() == 0,
        polls[i + 1].elapsed_ms >= p.quiet_ms,
    ensures
        read_outcome(p, t, polls, i) == (Some(polls[i].bytes@), i + 2),
{
    let a = polls[i].bytes@;
    let v1 = poll_step(fresh_view(), a, polls[i].elapsed_ms);
    assert(v1.received =~= a);
    let v2 = poll_step(v1, polls[i + 1].bytes@, polls[i + 1].elapsed_ms);
    assert(v2.received =~= a);
    assert(progress_of(p, t, v1) == Progress::Waiting);
    assert(progress_of(p, t, v2) == Progress::Settled);
    assert(run(p, t, polls, i, fresh_view()) == run(p, t, polls, i + 1, v1));
    assert(run(p, t, polls, i + 1, v1) == (Some(v2.received), i + 2));
}

} // verus!
