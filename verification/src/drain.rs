//! The buffer drain loop.
//!
//! The drain loop runs inside the engine's callback invocation, on
//! whatever thread the engine chose.  On every drain-triggering reason it
//! repeatedly pulls the next completed chunk out of the engine's internal
//! buffer and appends it, in arrival order, to the job's accumulation
//! buffer, until the engine reports no more data for this cycle.  The
//! engine tracks the read position through its own cursor, so the loop
//! tolerates re-entry across callback firings without losing or
//! duplicating bytes.
//!
//! A simulated engine stands in for the native one here: it delivers a
//! scripted sequence of chunks through the same read-next interface the
//! native engine offers, which lets the loop and everything above it be
//! verified against the whole space of chunk scripts.

use vstd::prelude::*;

use crate::codes::spec_raw_is_success;
use crate::codes::EventReasonCode;
use crate::error::AdapterError;
use crate::error::ProtocolViolationKind;
use crate::job::is_close_reason;
use crate::job::is_drain_reason;
use crate::job::spec_is_close_reason;
use crate::job::spec_is_drain_reason;
use crate::job::spec_state_after_drain;
use crate::job::Job;
use crate::job::JobState;
use crate::LEN_RAW_BUF_MAX_BYTES;
use crate::LEN_TEXT_BUF_MAX;

verus! {

/// Scratch capacity for one text-buffer drain cycle, in bytes: the
/// engine-reported per-job buffer size, capped by the hard maximum.
pub fn text_scratch_capacity(len_text_buf_bytes: u32) -> (r: u32)
    ensures
        r == if len_text_buf_bytes <= LEN_TEXT_BUF_MAX {
            len_text_buf_bytes as int
        } else {
            LEN_TEXT_BUF_MAX as int
        },
{
    if len_text_buf_bytes <= LEN_TEXT_BUF_MAX {
        len_text_buf_bytes
    } else {
        LEN_TEXT_BUF_MAX
    }
}

/// Scratch capacity for one raw-audio drain cycle, in bytes: twice the
/// engine-reported per-job word count, capped by the hard maximum.
pub fn raw_scratch_capacity(len_raw_buf_words: u32) -> (r: u32)
    ensures
        r == if 2 * len_raw_buf_words <= LEN_RAW_BUF_MAX_BYTES {
            2 * len_raw_buf_words
        } else {
            LEN_RAW_BUF_MAX_BYTES as int
        },
{
    let bytes = (len_raw_buf_words as u64) * 2;
    if bytes <= LEN_RAW_BUF_MAX_BYTES as u64 {
        bytes as u32
    } else {
        LEN_RAW_BUF_MAX_BYTES
    }
}

/// Whether one more read follows in a text-buffer drain cycle: the read
/// call succeeded and came back within one byte of the scratch capacity.
/// A shorter read signals the engine's internal buffer is drained for
/// now, and any non-success code ends the cycle.
pub fn text_cycle_continues(code_raw: i32, bytes_read: u32, capacity: u32) -> (r: bool)
    requires
        capacity >= 1,
    ensures
        r == (spec_raw_is_success(code_raw) && bytes_read >= capacity - 1),
{
    code_raw == 0 && bytes_read >= capacity - 1
}

/// Whether one more read follows in a raw-audio drain cycle: the read
/// call succeeded and the words read filled the scratch buffer.  A
/// shorter read signals the engine's internal buffer is drained for now,
/// and any non-success code ends the cycle.
pub fn raw_cycle_continues(code_raw: i32, words_read: u32, capacity_bytes: u32) -> (r: bool)
    ensures
        r == (spec_raw_is_success(code_raw) && 2 * words_read >= capacity_bytes),
{
    code_raw == 0 && (words_read as u64) * 2 >= capacity_bytes as u64
}

/// Concatenation of a sequence of chunks, in order.
pub open spec fn concat_chunks(chunks: Seq<Seq<u8>>) -> Seq<u8>
    decreases chunks.len(),
{
    if chunks.len() == 0 {
        Seq::empty()
    } else {
        concat_chunks(chunks.drop_last()) + chunks.last()
    }
}

/// Concatenating one more chunk appends it whole.
pub proof fn lemma_concat_chunks_step(chunks: Seq<Seq<u8>>, i: int)
    requires
        0 <= i < chunks.len(),
    ensures
        concat_chunks(chunks.take(i + 1)) == concat_chunks(chunks.take(i)) + chunks[i],
{
    assert(chunks.take(i + 1).drop_last() =~= chunks.take(i));
    assert(chunks.take(i + 1).last() == chunks[i]);
}

/// An engine stand-in that delivers a scripted sequence of chunks.  The
/// script is the whole stream this job will emit; the cursor is the
/// engine-side read position.
pub struct SimulatedEngine {
    chunks: Vec<Vec<u8>>,
    cursor: usize,
}

impl SimulatedEngine {
    /// The whole scripted stream, as chunk values.
    pub closed spec fn script(self) -> Seq<Seq<u8>> {
        self.chunks.deep_view()
    }

    /// Engine-side read position: chunks before it were already read.
    pub closed spec fn cursor_at(self) -> int {
        self.cursor as int
    }

    /// The cursor never runs past the script.
    pub open spec fn wf(self) -> bool {
        0 <= self.cursor_at() <= self.script().len()
    }

    /// An engine that will deliver exactly `chunks`, in order.
    pub fn new(chunks: Vec<Vec<u8>>) -> (e: SimulatedEngine)
        ensures
            e.wf(),
            e.script() == chunks.deep_view(),
            e.cursor_at() == 0,
    {
        SimulatedEngine { chunks, cursor: 0 }
    }

    /// Synthesis progress: the engine completes more chunks and they
    /// appear in its internal buffer behind the current read position.
    pub fn refill(&mut self, chunks: &Vec<Vec<u8>>)
        requires
            old(self).wf(),
        ensures
            final(self).wf(),
            final(self).cursor_at() == old(self).cursor_at(),
            final(self).script() == old(self).script() + chunks.deep_view(),
    {
        let ghost old_len = old(self).chunks@.len() as int;
        let mut i: usize = 0;
        while i < chunks.len()
            invariant
                i <= chunks@.len(),
                self.cursor == old(self).cursor,
                old_len == old(self).chunks@.len(),
                self.cursor as int <= old_len,
                self.chunks@.len() == old_len + i,
                forall|k: int| 0 <= k < old_len ==> self.chunks@[k] == old(self).chunks@[k],
                forall|k: int| old_len <= k < old_len + i ==> (#[trigger] self.chunks@[k])@
                    == chunks@[k - old_len]@,
            decreases chunks@.len() - i,
        {
            let c = chunks[i].clone();
            proof {
                assert(c@ =~= chunks@[i as int]@);
            }
            self.chunks.push(c);
            i = i + 1;
        }
        proof {
            assert forall|k: int| old_len <= k < old_len + chunks@.len() implies (
            #[trigger] self.chunks@[k]).deep_view() == chunks@[k - old_len].deep_view() by {
                assert(self.chunks@[k].deep_view() =~= chunks@[k - old_len].deep_view());
            }
            assert(self.script() =~= old(self).script() + chunks.deep_view());
        }
    }

    /// Read the next completed chunk out of the engine's internal buffer;
    /// `None` when the buffer holds no more data for this cycle.
    pub fn read_next(&mut self) -> (r: Option<Vec<u8>>)
        requires
            old(self).wf(),
        ensures
            final(self).wf(),
            final(self).script() == old(self).script(),
            match r {
                Some(c) => {
                    &&& old(self).cursor_at() < old(self).script().len()
                    &&& c@ == old(self).script()[old(self).cursor_at()]
                    &&& final(self).cursor_at() == old(self).cursor_at() + 1
                },
                None => {
                    &&& old(self).cursor_at() == old(self).script().len()
                    &&& final(self).cursor_at() == old(self).cursor_at()
                },
            },
    {
        if self.cursor < self.chunks.len() {
            let c = self.chunks[self.cursor].clone();
            assert(c@ == self.script()[self.cursor as int]);
            self.cursor = self.cursor + 1;
            Some(c)
        } else {
            None
        }
    }
}

/// Pull every chunk the engine currently has into the accumulator, in
/// arrival order: the accumulator grows by exactly the concatenation of
/// the chunks still pending, with no gap and no duplication.
pub fn drain_available(acc: &mut Vec<u8>, engine: &mut SimulatedEngine)
    requires
        old(engine).wf(),
    ensures
        final(engine).wf(),
        final(engine).script() == old(engine).script(),
        final(engine).cursor_at() == old(engine).script().len(),
        final(acc)@ == old(acc)@ + concat_chunks(
            old(engine).script().subrange(old(engine).cursor_at(), old(engine).script().len() as int),
        ),
{
    let ghost base = old(engine).cursor_at();
    let ghost script = old(engine).script();
    loop
        invariant
            engine.wf(),
            engine.script() == script,
            0 <= base <= engine.cursor_at() <= script.len(),
            acc@ == old(acc)@ + concat_chunks(script.subrange(base, engine.cursor_at())),
        ensures
            engine.wf(),
            engine.script() == script,
            engine.cursor_at() == script.len(),
            acc@ == old(acc)@ + concat_chunks(script.subrange(base, script.len() as int)),
        decreases script.len() - engine.cursor_at(),
    {
        let ghost at = engine.cursor_at();
        let next = engine.read_next();
        match next {
            Some(mut c) => {
                proof {
                    let tail = script.subrange(base, script.len() as int);
                    lemma_concat_chunks_step(tail, at - base);
                    assert(tail.take(at - base) =~= script.subrange(base, at));
                    assert(tail.take(at - base + 1) =~= script.subrange(base, at + 1));
                    assert(tail[at - base] == script[at]);
                }
                acc.append(&mut c);
            },
            None => {
                break ;
            },
        }
    }
}

/// Handle one buffer-event callback firing for a live job.
///
/// A reason that does not drive this job's buffer channel is ignored.  A
/// drain-triggering reason on a submitted or draining job drains every
/// pending chunk into the accumulator; the end-of-stream reason then
/// releases the completion gate — exactly once — and completes the job,
/// any other drain reason leaves it draining.  A buffer firing for a job
/// whose stream already completed is a protocol violation.
pub fn on_buffer_event(job: &mut Job, reason: EventReasonCode, engine: &mut SimulatedEngine) -> (r:
    Result<(), AdapterError>)
    requires
        old(job).wf(),
        old(engine).wf(),
    ensures
        final(job).wf(),
        final(engine).wf(),
        final(engine).script() == old(engine).script(),
        final(job).id == old(job).id,
        final(job).kind == old(job).kind,
        final(job).events == old(job).events,
        !spec_is_drain_reason(old(job).kind, reason) ==> r is Ok && *final(job) == *old(job)
            && final(engine).cursor_at() == old(engine).cursor_at(),
        spec_is_drain_reason(old(job).kind, reason) && (old(job).state is Submitted || old(
            job,
        ).state is Draining) ==> {
            &&& r is Ok
            &&& final(job).state == spec_state_after_drain(
                spec_is_close_reason(old(job).kind, reason),
            )
            &&& final(job).accumulated@ == old(job).accumulated@ + concat_chunks(
                old(engine).script().subrange(
                    old(engine).cursor_at(),
                    old(engine).script().len() as int,
                ),
            )
            &&& final(engine).cursor_at() == old(engine).script().len()
            &&& final(job).gate.received() == old(job).gate.received()
        },
        spec_is_drain_reason(old(job).kind, reason) && !(old(job).state is Submitted || old(
            job,
        ).state is Draining) ==> r == Result::<(), AdapterError>::Err(
            AdapterError::Protocol(ProtocolViolationKind::CallbackAfterCompletion),
        ) && *final(job) == *old(job) && final(engine).cursor_at() == old(engine).cursor_at(),
{
    if !is_drain_reason(job.kind, reason) {
        return Ok(());
    }
    match job.state {
        JobState::Submitted | JobState::Draining => {
            drain_available(&mut job.accumulated, engine);
            if is_close_reason(job.kind, reason) {
                job.gate.send();
                job.state = JobState::Completed;
            } else {
                job.state = JobState::Draining;
            }
            Ok(())
        },
        _ => Err(AdapterError::Protocol(ProtocolViolationKind::CallbackAfterCompletion)),
    }
}

} // verus!
