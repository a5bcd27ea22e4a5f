//! The job orchestrator.
//!
//! The orchestrator owns the parameter record and drives one job at a
//! time through its lifecycle: it installs the callbacks a job kind
//! needs, submits, routes each callback firing to the job the engine's
//! id names, waits on the completion gate, and closes the job exactly
//! once before uninstalling the callbacks again — so two jobs never have
//! overlapping callback-installation windows, and the record is mutated
//! only between jobs.

use vstd::prelude::*;

use crate::codes::spec_raw_is_success;
use crate::codes::EventReasonCode;
use crate::drain::concat_chunks;
use crate::drain::SimulatedEngine;
use crate::events::TtsEventView;
use crate::error::AdapterError;
use crate::error::ProtocolViolationKind;
use crate::events::events_view;
use crate::events::spec_collected;
use crate::events::TtsEvent;
use crate::gate::spec_gate_is_fresh;
use crate::gate::spec_gate_wait_succeeds;
use crate::job::spec_is_close_reason;
use crate::job::spec_is_drain_reason;
use crate::job::spec_state_after_drain;
use crate::job::Job;
use crate::job::JobKind;
use crate::param::ParameterRecord;

verus! {

/// A record with the callback-installation flags replaced and everything
/// else kept.
pub open spec fn spec_with_callbacks(
    rec: ParameterRecord,
    text: bool,
    raw: bool,
    event: bool,
) -> ParameterRecord {
    ParameterRecord {
        text_buf_callback: text,
        raw_buf_callback: raw,
        event_callback: event,
        ..rec
    }
}

/// The orchestrator: the shared parameter record and the one job that
/// may be in flight.
pub struct Orchestrator {
    pub record: ParameterRecord,
    pub active: Option<Job>,
}

impl Orchestrator {
    /// Callback installation is serialized with the job windows: exactly
    /// the callbacks of the active job's kind are installed, and none
    /// while no job is active.
    pub open spec fn callbacks_match(self) -> bool {
        match self.active {
            Some(j) => {
                &&& (j.kind is PhoneticConversion ==> self.record.text_buf_callback
                    && !self.record.raw_buf_callback && !self.record.event_callback)
                &&& (j.kind is WaveformSynthesis ==> !self.record.text_buf_callback
                    && self.record.raw_buf_callback && self.record.event_callback)
            },
            None => !self.record.text_buf_callback && !self.record.raw_buf_callback
                && !self.record.event_callback,
        }
    }

    /// The orchestrator invariant.
    pub open spec fn wf(self) -> bool {
        &&& self.record.wf()
        &&& (self.active is Some ==> self.active.unwrap().wf())
        &&& self.callbacks_match()
    }

    /// Whether the orchestrator is tracking a job under this id.
    pub open spec fn spec_tracks(self, job_id: i32) -> bool {
        self.active is Some && self.active.unwrap().id == job_id
    }

    /// An orchestrator around a record with no callbacks installed and no
    /// job in flight.
    pub fn new(record: ParameterRecord) -> (o: Orchestrator)
        requires
            record.wf(),
            !record.text_buf_callback,
            !record.raw_buf_callback,
            !record.event_callback,
        ensures
            o.wf(),
            o.active is None,
            o.record == record,
    {
        Orchestrator { record, active: None }
    }

    /// Install the callbacks of `kind` and submit one job under the
    /// engine-issued `job_id`, with `submit_code` the result code the
    /// submission call returned.  On success the job starts `Submitted`;
    /// a non-success code is passed through as an engine error, the
    /// callbacks are uninstalled again and no job is created — the
    /// engine never allocated one.
    pub fn submit(&mut self, job_id: i32, kind: JobKind, submit_code: i32) -> (r: Result<
        (),
        AdapterError,
    >)
        requires
            old(self).wf(),
            old(self).active is None,
        ensures
            final(self).wf(),
            spec_raw_is_success(submit_code) ==> {
                &&& r is Ok
                &&& final(self).spec_tracks(job_id)
                &&& final(self).active.unwrap().kind == kind
                &&& final(self).active.unwrap().state is Submitted
                &&& final(self).active.unwrap().accumulated@.len() == 0
                &&& final(self).active.unwrap().events@.len() == 0
                &&& spec_gate_is_fresh(final(self).active.unwrap().gate)
                &&& (kind is PhoneticConversion ==> final(self).record == spec_with_callbacks(
                    old(self).record,
                    true,
                    false,
                    false,
                ))
                &&& (kind is WaveformSynthesis ==> final(self).record == spec_with_callbacks(
                    old(self).record,
                    false,
                    true,
                    true,
                ))
            },
            !spec_raw_is_success(submit_code) ==> r == Result::<(), AdapterError>::Err(
                AdapterError::Engine(submit_code),
            ) && *final(self) == *old(self),
    {
        match kind {
            JobKind::PhoneticConversion => {
                self.record.text_buf_callback = true;
            },
            JobKind::WaveformSynthesis => {
                self.record.raw_buf_callback = true;
                self.record.event_callback = true;
            },
        }
        if submit_code == 0 {
            self.active = Some(Job::new(job_id, kind));
            Ok(())
        } else {
            self.record.text_buf_callback = false;
            self.record.raw_buf_callback = false;
            self.record.event_callback = false;
            Err(AdapterError::Engine(submit_code))
        }
    }

    /// Route one buffer-event callback firing.  A firing for a job id the
    /// orchestrator is not tracking is a protocol violation; otherwise
    /// the firing drives the job as the drain loop prescribes.
    pub fn on_buffer_event(
        &mut self,
        job_id: i32,
        reason: EventReasonCode,
        engine: &mut SimulatedEngine,
    ) -> (r: Result<(), AdapterError>)
        requires
            old(self).wf(),
            old(engine).wf(),
        ensures
            final(self).wf(),
            final(engine).wf(),
            final(engine).script() == old(engine).script(),
            final(self).record == old(self).record,
            !old(self).spec_tracks(job_id) ==> r == Result::<(), AdapterError>::Err(
                AdapterError::Protocol(ProtocolViolationKind::UnknownJobId),
            ) && *final(self) == *old(self) && final(engine).cursor_at() == old(engine).cursor_at(),
            old(self).spec_tracks(job_id) ==> {
                let oj = old(self).active.unwrap();
                let nj = final(self).active.unwrap();
                &&& final(self).active is Some
                &&& nj.id == oj.id
                &&& nj.kind == oj.kind
                &&& nj.events == oj.events
                &&& (!spec_is_drain_reason(oj.kind, reason) ==> r is Ok && nj == oj && final(engine).cursor_at() == old(engine).cursor_at())
                &&& (spec_is_drain_reason(oj.kind, reason) && (oj.state is Submitted
                    || oj.state is Draining) ==> {
                    &&& r is Ok
                    &&& nj.state == spec_state_after_drain(
                        spec_is_close_reason(oj.kind, reason),
                    )
                    &&& nj.accumulated@ == oj.accumulated@ + concat_chunks(
                        old(engine).script().subrange(
                            old(engine).cursor_at(),
                            old(engine).script().len() as int,
                        ),
                    )
                    &&& final(engine).cursor_at() == old(engine).script().len()
                    &&& nj.gate.received() == oj.gate.received()
                })
                &&& (spec_is_drain_reason(oj.kind, reason) && !(oj.state is Submitted
                    || oj.state is Draining) ==> r == Result::<(), AdapterError>::Err(
                    AdapterError::Protocol(ProtocolViolationKind::CallbackAfterCompletion),
                ) && nj == oj && final(engine).cursor_at() == old(engine).cursor_at())
            },
    {
        let mut job = match self.active.take() {
            Some(j) => j,
            None => {
                return Err(AdapterError::Protocol(ProtocolViolationKind::UnknownJobId));
            },
        };
        if job.id != job_id {
            self.active = Some(job);
            return Err(AdapterError::Protocol(ProtocolViolationKind::UnknownJobId));
        }
        let r = crate::drain::on_buffer_event(&mut job, reason, engine);
        self.active = Some(job);
        r
    }

    /// Route one synthesis-event callback firing.  A firing for a job id
    /// the orchestrator is not tracking is a protocol violation;
    /// otherwise the annotation goes to the job's event list in arrival
    /// order.
    pub fn on_tts_event(
        &mut self,
        job_id: i32,
        reason: EventReasonCode,
        tick: u64,
        payload: Vec<u8>,
    ) -> (r: Result<(), AdapterError>)
        requires
            old(self).wf(),
        ensures
            final(self).wf(),
            final(self).record == old(self).record,
            !old(self).spec_tracks(job_id) ==> r == Result::<(), AdapterError>::Err(
                AdapterError::Protocol(ProtocolViolationKind::UnknownJobId),
            ) && *final(self) == *old(self),
            old(self).spec_tracks(job_id) ==> {
                let oj = old(self).active.unwrap();
                let nj = final(self).active.unwrap();
                &&& r is Ok
                &&& final(self).active is Some
                &&& nj.id == oj.id
                &&& nj.kind == oj.kind
                &&& nj.state == oj.state
                &&& nj.accumulated == oj.accumulated
                &&& nj.gate == oj.gate
                &&& (oj.kind is WaveformSynthesis ==> match spec_collected(reason, payload@) {
                    Some(e) => events_view(nj.events@) =~= events_view(oj.events@).push(
                        (tick, e),
                    ),
                    None => nj.events@ == oj.events@,
                })
                &&& (oj.kind is PhoneticConversion ==> nj.events@ == oj.events@)
            },
    {
        let mut job = match self.active.take() {
            Some(j) => j,
            None => {
                return Err(AdapterError::Protocol(ProtocolViolationKind::UnknownJobId));
            },
        };
        if job.id != job_id {
            self.active = Some(job);
            return Err(AdapterError::Protocol(ProtocolViolationKind::UnknownJobId));
        }
        job.on_tts_event(reason, tick, payload);
        self.active = Some(job);
        Ok(())
    }

    /// Start the one bounded wait for the job's end-of-stream signal.  An
    /// id the orchestrator is not tracking is a protocol violation; a
    /// gate that was never signaled, or whose signal an earlier wait
    /// already consumed, is a timeout.
    pub fn await_completion(&mut self, job_id: i32) -> (r: Result<(), AdapterError>)
        requires
            old(self).wf(),
        ensures
            final(self).wf(),
            final(self).record == old(self).record,
            !old(self).spec_tracks(job_id) ==> r == Result::<(), AdapterError>::Err(
                AdapterError::Protocol(ProtocolViolationKind::UnknownJobId),
            ) && *final(self) == *old(self),
            old(self).spec_tracks(job_id) ==> {
                let oj = old(self).active.unwrap();
                let nj = final(self).active.unwrap();
                &&& final(self).active is Some
                &&& nj.id == oj.id
                &&& nj.kind == oj.kind
                &&& nj.state == oj.state
                &&& nj.accumulated == oj.accumulated
                &&& nj.events == oj.events
                &&& (r is Ok <==> spec_gate_wait_succeeds(oj.gate))
                &&& (r is Err ==> r == Result::<(), AdapterError>::Err(AdapterError::Timeout))
                &&& nj.gate.sent() == oj.gate.sent()
                &&& nj.gate.received() == (oj.gate.received() || r is Ok)
            },
    {
        let mut job = match self.active.take() {
            Some(j) => j,
            None => {
                return Err(AdapterError::Protocol(ProtocolViolationKind::UnknownJobId));
            },
        };
        if job.id != job_id {
            self.active = Some(job);
            return Err(AdapterError::Protocol(ProtocolViolationKind::UnknownJobId));
        }
        let r = job.await_completion();
        self.active = Some(job);
        r
    }

    /// Close the job under `job_id` and hand its results out.
    ///
    /// Mandatory bookkeeping: the engine reuses job identifiers, so every
    /// completed job is closed exactly once.  Closing an id the
    /// orchestrator is not tracking — including an id that was already
    /// closed — and closing a job that has not completed are protocol
    /// violations, rejected, never silently accepted.  On success the
    /// job's callbacks are uninstalled and the accumulated bytes and
    /// events are returned.
    pub fn close_job(&mut self, job_id: i32) -> (r: Result<
        (Vec<u8>, Vec<(u64, TtsEvent)>),
        AdapterError,
    >)
        requires
            old(self).wf(),
        ensures
            final(self).wf(),
            !old(self).spec_tracks(job_id) ==> r == Result::<
                (Vec<u8>, Vec<(u64, TtsEvent)>),
                AdapterError,
            >::Err(AdapterError::Protocol(ProtocolViolationKind::UnknownJobId)) && *final(self)
                == *old(self),
            old(self).spec_tracks(job_id) && !(old(self).active.unwrap().state is Completed)
                ==> r == Result::<(Vec<u8>, Vec<(u64, TtsEvent)>), AdapterError>::Err(
                AdapterError::Protocol(ProtocolViolationKind::CloseBeforeCompletion),
            ) && *final(self) == *old(self),
            old(self).spec_tracks(job_id) && old(self).active.unwrap().state is Completed ==> {
                let oj = old(self).active.unwrap();
                &&& r is Ok
                &&& r.unwrap().0 == oj.accumulated
                &&& r.unwrap().1 == oj.events
                &&& final(self).active is None
                &&& final(self).record == spec_with_callbacks(
                    old(self).record,
                    false,
                    false,
                    false,
                )
            },
    {
        let mut job = match self.active.take() {
            Some(j) => j,
            None => {
                return Err(AdapterError::Protocol(ProtocolViolationKind::UnknownJobId));
            },
        };
        if job.id != job_id {
            self.active = Some(job);
            return Err(AdapterError::Protocol(ProtocolViolationKind::UnknownJobId));
        }
        match job.close() {
            Ok(()) => {
                self.record.text_buf_callback = false;
                self.record.raw_buf_callback = false;
                self.record.event_callback = false;
                let Job { accumulated, events, .. } = job;
                Ok((accumulated, events))
            },
            Err(e) => {
                self.active = Some(job);
                Err(e)
            },
        }
    }
}

/// One buffer-channel callback firing of a simulated run: the reason the
/// engine fired with, and the chunks its internal buffer completed for
/// this cycle.
pub struct CallbackFiring {
    pub reason: EventReasonCode,
    pub chunks: Vec<Vec<u8>>,
}

/// One synthesis-event callback firing of a simulated run.
pub struct EventFiring {
    pub reason: EventReasonCode,
    pub tick: u64,
    pub payload: Vec<u8>,
}

/// All bytes a firing script delivers: the concatenation of every chunk
/// of every firing, in callback-arrival order.
pub open spec fn spec_firings_bytes(firings: Seq<CallbackFiring>) -> Seq<u8>
    decreases firings.len(),
{
    if firings.len() == 0 {
        Seq::empty()
    } else {
        spec_firings_bytes(firings.drop_last()) + concat_chunks(
            firings.last().chunks.deep_view(),
        )
    }
}

/// One more firing appends its chunks whole.
pub proof fn lemma_firings_bytes_step(firings: Seq<CallbackFiring>, i: int)
    requires
        0 <= i < firings.len(),
    ensures
        spec_firings_bytes(firings.take(i + 1)) == spec_firings_bytes(firings.take(i))
            + concat_chunks(firings[i].chunks.deep_view()),
{
    assert(firings.take(i + 1).drop_last() =~= firings.take(i));
    assert(firings.take(i + 1).last() == firings[i]);
}

/// The shape the engine guarantees a buffer-callback script to have for a
/// job of this kind: every firing carries a drain-triggering reason of
/// the kind, and the end-of-stream reason fires only as the last firing.
pub open spec fn spec_script_shape_ok(kind: JobKind, firings: Seq<CallbackFiring>) -> bool {
    &&& forall|i: int|
        0 <= i < firings.len() ==> spec_is_drain_reason(kind, (#[trigger] firings[i]).reason)
    &&& forall|i: int|
        0 <= i < firings.len() && spec_is_close_reason(kind, (#[trigger] firings[i]).reason)
            ==> i == firings.len() - 1
}

/// Whether the script ends with the end-of-stream reason.
pub open spec fn spec_script_closes(kind: JobKind, firings: Seq<CallbackFiring>) -> bool {
    firings.len() > 0 && spec_is_close_reason(kind, firings.last().reason)
}

/// The event list a sequence of synthesis-event firings leaves behind:
/// each recognized annotation in arrival order.
pub open spec fn spec_collected_events(firings: Seq<EventFiring>) -> Seq<(u64, TtsEventView)>
    decreases firings.len(),
{
    if firings.len() == 0 {
        Seq::empty()
    } else {
        let rest = spec_collected_events(firings.drop_last());
        match spec_collected(firings.last().reason, firings.last().payload@) {
            Some(e) => rest.push((firings.last().tick, e)),
            None => rest,
        }
    }
}

/// One more firing contributes its annotation, if it has one.
pub proof fn lemma_collected_events_step(firings: Seq<EventFiring>, i: int)
    requires
        0 <= i < firings.len(),
    ensures
        spec_collected_events(firings.take(i + 1)) == match spec_collected(
            firings[i].reason,
            firings[i].payload@,
        ) {
            Some(e) => spec_collected_events(firings.take(i)).push((firings[i].tick, e)),
            None => spec_collected_events(firings.take(i)),
        },
{
    assert(firings.take(i + 1).drop_last() =~= firings.take(i));
    assert(firings.take(i + 1).last() == firings[i]);
}

/// Drive a freshly submitted job through a whole buffer-callback script:
/// every firing refills the engine's buffer with its chunks and fires the
/// drain loop.  The job's accumulator ends as exactly the concatenation
/// of every chunk in arrival order — no gaps, no duplication — and the
/// job completes, with its gate signaled, exactly when the script ends
/// with the end-of-stream reason.
pub fn run_buffer_firings(
    orch: &mut Orchestrator,
    engine: &mut SimulatedEngine,
    job_id: i32,
    firings: &Vec<CallbackFiring>,
)
    requires
        old(orch).wf(),
        old(orch).spec_tracks(job_id),
        old(orch).active.unwrap().state is Submitted,
        old(orch).active.unwrap().accumulated@.len() == 0,
        spec_gate_is_fresh(old(orch).active.unwrap().gate),
        spec_script_shape_ok(old(orch).active.unwrap().kind, firings@),
        old(engine).wf(),
        old(engine).cursor_at() == old(engine).script().len(),
    ensures
        final(orch).wf(),
        final(orch).spec_tracks(job_id),
        final(orch).record == old(orch).record,
        final(engine).wf(),
        final(engine).cursor_at() == final(engine).script().len(),
        ({
            let oj = old(orch).active.unwrap();
            let nj = final(orch).active.unwrap();
            &&& nj.kind == oj.kind
            &&& nj.events == oj.events
            &&& nj.accumulated@ == spec_firings_bytes(firings@)
            &&& (spec_script_closes(oj.kind, firings@) ==> nj.state is Completed
                && spec_gate_wait_succeeds(nj.gate))
            &&& (!spec_script_closes(oj.kind, firings@) ==> !nj.gate.sent() && (
            nj.state is Submitted || nj.state is Draining))
        }),
{
    let ghost kind = old(orch).active.unwrap().kind;
    let ghost oj_events = old(orch).active.unwrap().events;
    let mut i: usize = 0;
    while i < firings.len()
        invariant
            orch.wf(),
            orch.spec_tracks(job_id),
            orch.record == old(orch).record,
            engine.wf(),
            engine.cursor_at() == engine.script().len(),
            0 <= i <= firings@.len(),
            spec_script_shape_ok(kind, firings@),
            kind == old(orch).active.unwrap().kind,
            oj_events == old(orch).active.unwrap().events,
            orch.active.unwrap().kind == kind,
            orch.active.unwrap().events == oj_events,
            orch.active.unwrap().accumulated@ == spec_firings_bytes(firings@.take(i as int)),
            !orch.active.unwrap().gate.received(),
            i < firings@.len() || !spec_script_closes(kind, firings@) ==> !orch.active.unwrap().gate.sent()
                && (orch.active.unwrap().state is Submitted
                || orch.active.unwrap().state is Draining),
            i == firings@.len() && spec_script_closes(kind, firings@)
                ==> orch.active.unwrap().state is Completed && spec_gate_wait_succeeds(
                orch.active.unwrap().gate,
            ),
        decreases firings@.len() - i,
    {
        let f = &firings[i];
        let ghost pre_script_len = engine.script().len() as int;
        engine.refill(&f.chunks);
        proof {
            assert(engine.script().subrange(pre_script_len, engine.script().len() as int)
                =~= f.chunks.deep_view());
        }
        let r = orch.on_buffer_event(job_id, f.reason, engine);
        proof {
            if r is Err {
                assert(false);
            }
            lemma_firings_bytes_step(firings@, i as int);
        }
        i = i + 1;
    }
    proof {
        assert(firings@.take(firings@.len() as int) =~= firings@);
    }
}

/// Run one text-to-phonetic conversion job end to end against a
/// simulated engine: install the drain loop as the text-buffer callback,
/// submit, let every firing of the script drain, wait on the completion
/// gate, close the job and uninstall the callback.
///
/// A non-success submission code is passed through as an engine error
/// and nothing is left behind.  A script that never fires the
/// end-of-stream reason never sends the completion gate, so the wait times out; the
/// job is then left unclosed, since closing a job that has not run to
/// its end is undefined.  Otherwise the result is exactly the
/// concatenation of every chunk the engine delivered, in callback-arrival
/// order — a stream of zero bytes gives an empty result, not an error.
pub fn convert_to_phonetic(
    orch: &mut Orchestrator,
    engine: &mut SimulatedEngine,
    job_id: i32,
    submit_code: i32,
    firings: &Vec<CallbackFiring>,
) -> (r: Result<Vec<u8>, AdapterError>)
    requires
        old(orch).wf(),
        old(orch).active is None,
        spec_script_shape_ok(JobKind::PhoneticConversion, firings@),
        old(engine).wf(),
        old(engine).cursor_at() == old(engine).script().len(),
    ensures
        final(orch).wf(),
        !spec_raw_is_success(submit_code) ==> r == Result::<Vec<u8>, AdapterError>::Err(
            AdapterError::Engine(submit_code),
        ) && *final(orch) == *old(orch),
        spec_raw_is_success(submit_code) && spec_script_closes(
            JobKind::PhoneticConversion,
            firings@,
        ) ==> {
            &&& r is Ok
            &&& r.unwrap()@ == spec_firings_bytes(firings@)
            &&& final(orch).active is None
            &&& final(orch).record == old(orch).record
        },
        spec_raw_is_success(submit_code) && !spec_script_closes(
            JobKind::PhoneticConversion,
            firings@,
        ) ==> r == Result::<Vec<u8>, AdapterError>::Err(AdapterError::Timeout),
{
    match orch.submit(job_id, JobKind::PhoneticConversion, submit_code) {
        Ok(()) => {},
        Err(e) => {
            return Err(e);
        },
    }
    run_buffer_firings(orch, engine, job_id, firings);
    match orch.await_completion(job_id) {
        Ok(()) => {},
        Err(e) => {
            return Err(e);
        },
    }
    match orch.close_job(job_id) {
        Ok((bytes, _events)) => Ok(bytes),
        Err(e) => {
            proof {
                assert(false);
            }
            Err(e)
        },
    }
}

/// Run one phonetic-to-waveform synthesis job end to end against a
/// simulated engine: install the drain loop as the raw-audio callback and
/// the event collector as the event callback, submit, collect every
/// annotation firing, let every buffer firing drain, wait on the
/// completion gate, close the job and uninstall both callbacks.
///
/// The waveform is exactly the concatenation of every chunk in
/// callback-arrival order, and the event list holds every recognized
/// annotation in arrival order, ticks never re-sorted.  Submission
/// failure and a script that never closes behave as for conversion.
pub fn synthesize(
    orch: &mut Orchestrator,
    engine: &mut SimulatedEngine,
    job_id: i32,
    submit_code: i32,
    annotations: &Vec<EventFiring>,
    firings: &Vec<CallbackFiring>,
) -> (r: Result<(Vec<u8>, Vec<(u64, TtsEvent)>), AdapterError>)
    requires
        old(orch).wf(),
        old(orch).active is None,
        spec_script_shape_ok(JobKind::WaveformSynthesis, firings@),
        old(engine).wf(),
        old(engine).cursor_at() == old(engine).script().len(),
    ensures
        final(orch).wf(),
        !spec_raw_is_success(submit_code) ==> r == Result::<
            (Vec<u8>, Vec<(u64, TtsEvent)>),
            AdapterError,
        >::Err(AdapterError::Engine(submit_code)) && *final(orch) == *old(orch),
        spec_raw_is_success(submit_code) && spec_script_closes(
            JobKind::WaveformSynthesis,
            firings@,
        ) ==> {
            &&& r is Ok
            &&& r.unwrap().0@ == spec_firings_bytes(firings@)
            &&& events_view(r.unwrap().1@) == spec_collected_events(annotations@)
            &&& final(orch).active is None
            &&& final(orch).record == old(orch).record
        },
        spec_raw_is_success(submit_code) && !spec_script_closes(
            JobKind::WaveformSynthesis,
            firings@,
        ) ==> r == Result::<(Vec<u8>, Vec<(u64, TtsEvent)>), AdapterError>::Err(
            AdapterError::Timeout,
        ),
{
    match orch.submit(job_id, JobKind::WaveformSynthesis, submit_code) {
        Ok(()) => {},
        Err(e) => {
            return Err(e);
        },
    }
    let mut i: usize = 0;
    while i < annotations.len()
        invariant
            orch.wf(),
            orch.spec_tracks(job_id),
            orch.record == spec_with_callbacks(old(orch).record, false, true, true),
            0 <= i <= annotations@.len(),
            orch.active.unwrap().kind is WaveformSynthesis,
            orch.active.unwrap().state is Submitted,
            orch.active.unwrap().accumulated@.len() == 0,
            spec_gate_is_fresh(orch.active.unwrap().gate),
            events_view(orch.active.unwrap().events@) == spec_collected_events(
                annotations@.take(i as int),
            ),
        decreases annotations@.len() - i,
    {
        let a = &annotations[i];
        let payload = a.payload.clone();
        proof {
            assert(payload@ =~= annotations@[i as int].payload@);
        }
        let _ = orch.on_tts_event(job_id, a.reason, a.tick, payload);
        proof {
            lemma_collected_events_step(annotations@, i as int);
        }
        i = i + 1;
    }
    proof {
        assert(annotations@.take(annotations@.len() as int) =~= annotations@);
    }
    run_buffer_firings(orch, engine, job_id, firings);
    match orch.await_completion(job_id) {
        Ok(()) => {},
        Err(e) => {
            return Err(e);
        },
    }
    match orch.close_job(job_id) {
        Ok((bytes, events)) => Ok((bytes, events)),
        Err(e) => {
            proof {
                assert(false);
            }
            Err(e)
        },
    }
}

} // verus!
