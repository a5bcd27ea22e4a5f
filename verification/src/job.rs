//! The job state machine.
//!
//! One job is one in-flight conversion or synthesis request.  Its life
//! runs `Submitted` to `Draining` to `Completed` to `Closed`, with
//! `Failed` reachable only while the engine could still refuse the call.
//! A job is closed exactly once, after completion is observed; double
//! close and use after close are invalid and the adapter rejects them.

use vstd::prelude::*;

use crate::codes::EventReasonCode;
use crate::error::AdapterError;
use crate::error::ProtocolViolationKind;
use crate::events::collect_event;
use crate::events::events_view;
use crate::events::spec_collected;
use crate::events::TtsEvent;
use crate::gate::spec_gate_is_fresh;
use crate::gate::spec_gate_wait_succeeds;
use crate::gate::CompletionGate;

verus! {

/// The two job kinds the adapter drives through one identical lifecycle.
#[derive(Debug, Clone, Copy, PartialEq, Eq, Structural)]
pub enum JobKind {
    /// Text-to-phonetic conversion.
    PhoneticConversion,
    /// Phonetic-to-waveform synthesis.
    WaveformSynthesis,
}

/// Lifecycle state of one job.
#[derive(Debug, Clone, Copy, PartialEq, Eq, Structural)]
pub enum JobState {
    Submitted,
    Draining,
    Completed,
    Closed,
    Failed,
}

/// Whether `reason` triggers a drain on a job of kind `kind`: text-buffer
/// reasons drive conversion jobs, raw-buffer reasons drive synthesis
/// jobs.
pub open spec fn spec_is_drain_reason(kind: JobKind, reason: EventReasonCode) -> bool {
    match kind {
        JobKind::PhoneticConversion => reason == EventReasonCode::TEXTBUF_FULL || reason
            == EventReasonCode::TEXTBUF_FLUSH || reason == EventReasonCode::TEXTBUF_CLOSE,
        JobKind::WaveformSynthesis => reason == EventReasonCode::RAWBUF_FULL || reason
            == EventReasonCode::RAWBUF_FLUSH || reason == EventReasonCode::RAWBUF_CLOSE,
    }
}

/// Whether `reason` is the end-of-stream reason for kind `kind`.
pub open spec fn spec_is_close_reason(kind: JobKind, reason: EventReasonCode) -> bool {
    match kind {
        JobKind::PhoneticConversion => reason == EventReasonCode::TEXTBUF_CLOSE,
        JobKind::WaveformSynthesis => reason == EventReasonCode::RAWBUF_CLOSE,
    }
}

/// Whether `reason` triggers a drain on a job of kind `kind`.
pub fn is_drain_reason(kind: JobKind, reason: EventReasonCode) -> (r: bool)
    ensures
        r == spec_is_drain_reason(kind, reason),
{
    match kind {
        JobKind::PhoneticConversion => match reason {
            EventReasonCode::TEXTBUF_FULL => true,
            EventReasonCode::TEXTBUF_FLUSH => true,
            EventReasonCode::TEXTBUF_CLOSE => true,
            _ => false,
        },
        JobKind::WaveformSynthesis => match reason {
            EventReasonCode::RAWBUF_FULL => true,
            EventReasonCode::RAWBUF_FLUSH => true,
            EventReasonCode::RAWBUF_CLOSE => true,
            _ => false,
        },
    }
}

/// Whether `reason` is the end-of-stream reason for kind `kind`.
pub fn is_close_reason(kind: JobKind, reason: EventReasonCode) -> (r: bool)
    ensures
        r == spec_is_close_reason(kind, reason),
{
    match kind {
        JobKind::PhoneticConversion => match reason {
            EventReasonCode::TEXTBUF_CLOSE => true,
            _ => false,
        },
        JobKind::WaveformSynthesis => match reason {
            EventReasonCode::RAWBUF_CLOSE => true,
            _ => false,
        },
    }
}

/// The state a live job moves to on a drain-triggering reason: the
/// end-of-stream reason completes it, any other keeps it draining.
pub open spec fn spec_state_after_drain(close: bool) -> JobState {
    if close {
        JobState::Completed
    } else {
        JobState::Draining
    }
}

/// One in-flight request: the engine-issued id, the kind, the lifecycle
/// state, the owned accumulation buffer, the event list (filled during
/// waveform jobs only), and the completion gate.  This is the single
/// exclusively-owned unit the engine's callbacks reach through the opaque
/// user-data token.
pub struct Job {
    pub id: i32,
    pub kind: JobKind,
    pub state: JobState,
    pub accumulated: Vec<u8>,
    pub events: Vec<(u64, TtsEvent)>,
    pub gate: CompletionGate,
}

impl Job {
    /// The job invariant: its completion gate has been sent if and only if the
    /// stream ran to its end, and conversion jobs collect no events.
    pub open spec fn wf(self) -> bool {
        &&& self.gate.sent() == (self.state is Completed || self.state is Closed)
        &&& (self.kind is PhoneticConversion ==> self.events@.len() == 0)
    }

    /// A freshly submitted job: empty accumulator, empty event list,
    /// fresh gate.
    pub fn new(id: i32, kind: JobKind) -> (j: Job)
        ensures
            j.wf(),
            j.id == id,
            j.kind == kind,
            j.state is Submitted,
            j.accumulated@.len() == 0,
            j.events@.len() == 0,
            spec_gate_is_fresh(j.gate),
    {
        Job {
            id,
            kind,
            state: JobState::Submitted,
            accumulated: Vec::new(),
            events: Vec::new(),
            gate: CompletionGate::new(),
        }
    }

    /// Record that the engine refused a call for this job: reachable only
    /// while the job was submitted or draining; no close is attempted
    /// afterwards, since the engine never allocated the job.
    pub fn mark_failed(&mut self)
        requires
            old(self).wf(),
            old(self).state is Submitted || old(self).state is Draining,
        ensures
            final(self).wf(),
            final(self).state is Failed,
            final(self).id == old(self).id,
            final(self).kind == old(self).kind,
            final(self).accumulated == old(self).accumulated,
            final(self).events == old(self).events,
            final(self).gate == old(self).gate,
    {
        self.state = JobState::Failed;
    }

    /// Record one synthesis-time annotation.  Only waveform jobs carry an
    /// event list; on a conversion job the firing is ignored.
    pub fn on_tts_event(&mut self, reason: EventReasonCode, tick: u64, payload: Vec<u8>)
        requires
            old(self).wf(),
        ensures
            final(self).wf(),
            final(self).id == old(self).id,
            final(self).kind == old(self).kind,
            final(self).state == old(self).state,
            final(self).accumulated == old(self).accumulated,
            final(self).gate == old(self).gate,
            old(self).kind is WaveformSynthesis ==> match spec_collected(reason, payload@) {
                Some(e) => events_view(final(self).events@) =~= events_view(
                    old(self).events@,
                ).push((tick, e)),
                None => final(self).events@ == old(self).events@,
            },
            old(self).kind is PhoneticConversion ==> final(self).events@ == old(self).events@,
    {
        match self.kind {
            JobKind::WaveformSynthesis => {
                collect_event(&mut self.events, reason, tick, payload);
            },
            JobKind::PhoneticConversion => {},
        }
    }

    /// Start the one bounded wait for the job's end of stream.  It
    /// succeeds just in case its completion gate was sent and no earlier wait used
    /// it up; otherwise the wait elapses and the operation times out, an
    /// outcome kept apart from engine errors since the engine gave no
    /// code.
    pub fn await_completion(&mut self) -> (r: Result<(), AdapterError>)
        requires
            old(self).wf(),
        ensures
            final(self).wf(),
            final(self).id == old(self).id,
            final(self).kind == old(self).kind,
            final(self).state == old(self).state,
            final(self).accumulated == old(self).accumulated,
            final(self).events == old(self).events,
            final(self).gate.sent() == old(self).gate.sent(),
            r is Ok <==> spec_gate_wait_succeeds(old(self).gate),
            r is Err ==> r == Result::<(), AdapterError>::Err(AdapterError::Timeout),
            final(self).gate.received() == (old(self).gate.received() || r is Ok),
    {
        let got = self.gate.try_wait();
        if got {
            Ok(())
        } else {
            Err(AdapterError::Timeout)
        }
    }

    /// Close the job once completion has been observed.  Closing a job in
    /// any other state is a protocol violation: the job is left as it
    /// was and the violation is reported, never silently accepted.
    pub fn close(&mut self) -> (r: Result<(), AdapterError>)
        requires
            old(self).wf(),
        ensures
            final(self).wf(),
            final(self).id == old(self).id,
            final(self).kind == old(self).kind,
            final(self).accumulated == old(self).accumulated,
            final(self).events == old(self).events,
            final(self).gate == old(self).gate,
            old(self).state is Completed ==> r is Ok && final(self).state is Closed,
            !(old(self).state is Completed) ==> r == Result::<(), AdapterError>::Err(
                AdapterError::Protocol(ProtocolViolationKind::CloseBeforeCompletion),
            ) && final(self).state == old(self).state,
    {
        match self.state {
            JobState::Completed => {
                self.state = JobState::Closed;
                Ok(())
            },
            _ => Err(AdapterError::Protocol(ProtocolViolationKind::CloseBeforeCompletion)),
        }
    }
}

} // verus!
