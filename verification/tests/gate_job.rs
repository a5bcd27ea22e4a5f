use aitalked::codes::EventReasonCode;
use aitalked::error::{AdapterError, ProtocolViolationKind};
use aitalked::gate::CompletionGate;
use aitalked::job::{is_close_reason, is_drain_reason, Job, JobKind, JobState};

#[test]
fn gate_fires_exactly_once() {
    let mut g = CompletionGate::new();
    assert!(!g.try_wait());
    assert!(g.send());
    assert!(!g.send());
    assert!(g.try_wait());
    assert!(!g.try_wait());
}

#[test]
fn gate_two_waits_after_one_completion_do_not_both_succeed() {
    let mut g = CompletionGate::new();
    assert!(g.send());
    let first = g.try_wait();
    let second = g.try_wait();
    assert!(first);
    assert!(!second);
}

#[test]
fn gate_wait_without_send_never_succeeds() {
    let mut g = CompletionGate::new();
    assert!(!g.try_wait());
    assert!(!g.try_wait());
}

#[test]
fn fresh_job_is_submitted_and_empty() {
    let j = Job::new(7, JobKind::PhoneticConversion);
    assert_eq!(j.id, 7);
    assert_eq!(j.state, JobState::Submitted);
    assert!(j.accumulated.is_empty());
    assert!(j.events.is_empty());
}

#[test]
fn close_before_completion_is_rejected() {
    let mut j = Job::new(1, JobKind::WaveformSynthesis);
    let r = j.close();
    assert_eq!(
        r,
        Err(AdapterError::Protocol(
            ProtocolViolationKind::CloseBeforeCompletion
        ))
    );
    assert_eq!(j.state, JobState::Submitted);
}

#[test]
fn await_on_unsignaled_gate_times_out() {
    let mut j = Job::new(1, JobKind::PhoneticConversion);
    assert_eq!(j.await_completion(), Err(AdapterError::Timeout));
}

#[test]
fn failed_job_reaches_failed_state() {
    let mut j = Job::new(1, JobKind::PhoneticConversion);
    j.mark_failed();
    assert_eq!(j.state, JobState::Failed);
}

#[test]
fn drain_reasons_match_job_kind() {
    assert!(is_drain_reason(
        JobKind::PhoneticConversion,
        EventReasonCode::TEXTBUF_FULL
    ));
    assert!(is_drain_reason(
        JobKind::PhoneticConversion,
        EventReasonCode::TEXTBUF_CLOSE
    ));
    assert!(!is_drain_reason(
        JobKind::PhoneticConversion,
        EventReasonCode::RAWBUF_FULL
    ));
    assert!(is_drain_reason(
        JobKind::WaveformSynthesis,
        EventReasonCode::RAWBUF_FLUSH
    ));
    assert!(!is_drain_reason(
        JobKind::WaveformSynthesis,
        EventReasonCode::TEXTBUF_FLUSH
    ));
    assert!(!is_drain_reason(
        JobKind::WaveformSynthesis,
        EventReasonCode::PH_LABEL
    ));
}

#[test]
fn close_reasons_match_job_kind() {
    assert!(is_close_reason(
        JobKind::PhoneticConversion,
        EventReasonCode::TEXTBUF_CLOSE
    ));
    assert!(!is_close_reason(
        JobKind::PhoneticConversion,
        EventReasonCode::TEXTBUF_FULL
    ));
    assert!(is_close_reason(
        JobKind::WaveformSynthesis,
        EventReasonCode::RAWBUF_CLOSE
    ));
    assert!(!is_close_reason(
        JobKind::WaveformSynthesis,
        EventReasonCode::RAWBUF_FLUSH
    ));
}

#[test]
fn conversion_job_ignores_event_callbacks() {
    let mut j = Job::new(1, JobKind::PhoneticConversion);
    j.on_tts_event(EventReasonCode::PH_LABEL, 5, b"a".to_vec());
    assert!(j.events.is_empty());
}
