use aitalked::codes::EventReasonCode;
use aitalked::drain::{drain_available, SimulatedEngine};
use aitalked::error::{AdapterError, ProtocolViolationKind};
use aitalked::events::TtsEvent;
use aitalked::job::{JobKind, JobState};
use aitalked::orchestrator::{
    convert_to_phonetic, synthesize, CallbackFiring, EventFiring, Orchestrator,
};
use aitalked::param::allocate;

fn firing(reason: EventReasonCode, chunks: &[&[u8]]) -> CallbackFiring {
    CallbackFiring {
        reason,
        chunks: chunks.iter().map(|c| c.to_vec()).collect(),
    }
}

#[test]
fn simulated_engine_reads_in_order() {
    let mut eng = SimulatedEngine::new(vec![b"ab".to_vec(), b"c".to_vec()]);
    assert_eq!(eng.read_next(), Some(b"ab".to_vec()));
    assert_eq!(eng.read_next(), Some(b"c".to_vec()));
    assert_eq!(eng.read_next(), None);
}

#[test]
fn drain_concatenates_in_arrival_order() {
    let mut eng = SimulatedEngine::new(vec![b"ab".to_vec(), b"".to_vec(), b"cde".to_vec()]);
    let mut acc = Vec::new();
    drain_available(&mut acc, &mut eng);
    assert_eq!(acc, b"abcde".to_vec());
    drain_available(&mut acc, &mut eng);
    assert_eq!(acc, b"abcde".to_vec());
}

#[test]
fn conversion_accumulates_exact_concatenation() {
    let rec = allocate(0);
    let mut orch = Orchestrator::new(rec);
    let mut eng = SimulatedEngine::new(Vec::new());
    let firings = vec![
        firing(EventReasonCode::TEXTBUF_FULL, &[b"ab", b"c"]),
        firing(EventReasonCode::TEXTBUF_FLUSH, &[]),
        firing(EventReasonCode::TEXTBUF_FLUSH, &[b"", b"defg"]),
        firing(EventReasonCode::TEXTBUF_CLOSE, &[b"h"]),
    ];
    let r = convert_to_phonetic(&mut orch, &mut eng, 1, 0, &firings);
    assert_eq!(r, Ok(b"abcdefgh".to_vec()));
    assert!(orch.active.is_none());
}

#[test]
fn synthesis_accumulates_exact_concatenation() {
    let rec = allocate(0);
    let mut orch = Orchestrator::new(rec);
    let mut eng = SimulatedEngine::new(Vec::new());
    let firings = vec![
        firing(EventReasonCode::RAWBUF_FULL, &[b"\x01\x02"]),
        firing(EventReasonCode::RAWBUF_CLOSE, &[b"\x03"]),
    ];
    let r = synthesize(&mut orch, &mut eng, 2, 0, &Vec::new(), &firings);
    let (waveform, events) = r.unwrap();
    assert_eq!(waveform, vec![1, 2, 3]);
    assert!(events.is_empty());
}

#[test]
fn zero_byte_close_gives_empty_result_not_error() {
    let rec = allocate(0);
    let mut orch = Orchestrator::new(rec);
    let mut eng = SimulatedEngine::new(Vec::new());
    let firings = vec![firing(EventReasonCode::TEXTBUF_CLOSE, &[])];
    let r = convert_to_phonetic(&mut orch, &mut eng, 1, 0, &firings);
    assert_eq!(r, Ok(Vec::new()));
}

#[test]
fn script_without_close_times_out() {
    let rec = allocate(0);
    let mut orch = Orchestrator::new(rec);
    let mut eng = SimulatedEngine::new(Vec::new());
    let firings = vec![firing(EventReasonCode::TEXTBUF_FULL, &[b"ab"])];
    let r = convert_to_phonetic(&mut orch, &mut eng, 1, 0, &firings);
    assert_eq!(r, Err(AdapterError::Timeout));
}

#[test]
fn submit_failure_passes_engine_code_through() {
    let rec = allocate(0);
    let mut orch = Orchestrator::new(rec);
    let mut eng = SimulatedEngine::new(Vec::new());
    let firings = vec![firing(EventReasonCode::TEXTBUF_CLOSE, &[])];
    let r = convert_to_phonetic(&mut orch, &mut eng, 1, -201, &firings);
    assert_eq!(r, Err(AdapterError::Engine(-201)));
    assert!(orch.active.is_none());
    assert!(!orch.record.text_buf_callback);
}

#[test]
fn end_to_end_hello_walks_the_lifecycle() {
    let rec = allocate(0);
    let mut orch = Orchestrator::new(rec);
    let mut eng = SimulatedEngine::new(Vec::new());

    orch.submit(9, JobKind::PhoneticConversion, 0).unwrap();
    assert_eq!(orch.active.as_ref().unwrap().state, JobState::Submitted);
    assert!(orch.record.text_buf_callback);

    eng.refill(&vec![b"he".to_vec()]);
    orch.on_buffer_event(9, EventReasonCode::TEXTBUF_FULL, &mut eng)
        .unwrap();
    assert_eq!(orch.active.as_ref().unwrap().state, JobState::Draining);

    eng.refill(&vec![b"llo".to_vec()]);
    orch.on_buffer_event(9, EventReasonCode::TEXTBUF_CLOSE, &mut eng)
        .unwrap();
    assert_eq!(orch.active.as_ref().unwrap().state, JobState::Completed);

    orch.await_completion(9).unwrap();
    let (bytes, events) = orch.close_job(9).unwrap();
    assert_eq!(bytes, b"hello".to_vec());
    assert!(events.is_empty());
    assert!(orch.active.is_none());
    assert!(!orch.record.text_buf_callback);
}

#[test]
fn closing_twice_is_a_protocol_violation() {
    let rec = allocate(0);
    let mut orch = Orchestrator::new(rec);
    let mut eng = SimulatedEngine::new(Vec::new());
    orch.submit(3, JobKind::PhoneticConversion, 0).unwrap();
    orch.on_buffer_event(3, EventReasonCode::TEXTBUF_CLOSE, &mut eng)
        .unwrap();
    orch.await_completion(3).unwrap();
    orch.close_job(3).unwrap();
    let second = orch.close_job(3);
    assert_eq!(
        second.err(),
        Some(AdapterError::Protocol(ProtocolViolationKind::UnknownJobId))
    );
}

#[test]
fn closing_unknown_job_id_is_a_protocol_violation() {
    let rec = allocate(0);
    let mut orch = Orchestrator::new(rec);
    let r = orch.close_job(42);
    assert_eq!(
        r.err(),
        Some(AdapterError::Protocol(ProtocolViolationKind::UnknownJobId))
    );
}

#[test]
fn closing_before_completion_is_a_protocol_violation() {
    let rec = allocate(0);
    let mut orch = Orchestrator::new(rec);
    orch.submit(3, JobKind::PhoneticConversion, 0).unwrap();
    let r = orch.close_job(3);
    assert_eq!(
        r.err(),
        Some(AdapterError::Protocol(
            ProtocolViolationKind::CloseBeforeCompletion
        ))
    );
}

#[test]
fn callback_for_unknown_job_id_is_a_protocol_violation() {
    let rec = allocate(0);
    let mut orch = Orchestrator::new(rec);
    let mut eng = SimulatedEngine::new(Vec::new());
    orch.submit(3, JobKind::PhoneticConversion, 0).unwrap();
    let r = orch.on_buffer_event(4, EventReasonCode::TEXTBUF_FULL, &mut eng);
    assert_eq!(
        r,
        Err(AdapterError::Protocol(ProtocolViolationKind::UnknownJobId))
    );
}

#[test]
fn buffer_callback_after_completion_is_a_protocol_violation() {
    let rec = allocate(0);
    let mut orch = Orchestrator::new(rec);
    let mut eng = SimulatedEngine::new(Vec::new());
    orch.submit(3, JobKind::PhoneticConversion, 0).unwrap();
    orch.on_buffer_event(3, EventReasonCode::TEXTBUF_CLOSE, &mut eng)
        .unwrap();
    let r = orch.on_buffer_event(3, EventReasonCode::TEXTBUF_FULL, &mut eng);
    assert_eq!(
        r,
        Err(AdapterError::Protocol(
            ProtocolViolationKind::CallbackAfterCompletion
        ))
    );
}

#[test]
fn synthesis_collects_annotations_in_arrival_order() {
    let rec = allocate(0);
    let mut orch = Orchestrator::new(rec);
    let mut eng = SimulatedEngine::new(Vec::new());
    let annotations = vec![
        EventFiring {
            reason: EventReasonCode::PH_LABEL,
            tick: 5,
            payload: b"a".to_vec(),
        },
        EventFiring {
            reason: EventReasonCode::AUTO_BOOKMARK,
            tick: 2,
            payload: b"7".to_vec(),
        },
        EventFiring {
            reason: EventReasonCode::BOOKMARK,
            tick: 9,
            payload: b"b".to_vec(),
        },
        EventFiring {
            reason: EventReasonCode::AUTO_BOOKMARK,
            tick: 11,
            payload: b"oops".to_vec(),
        },
    ];
    let firings = vec![firing(EventReasonCode::RAWBUF_CLOSE, &[b"w"])];
    let (waveform, events) = synthesize(&mut orch, &mut eng, 4, 0, &annotations, &firings).unwrap();
    assert_eq!(waveform, b"w".to_vec());
    assert_eq!(
        events,
        vec![
            (5, TtsEvent::Phonetic(b"a".to_vec())),
            (2, TtsEvent::Position(7)),
            (9, TtsEvent::Bookmark(b"b".to_vec())),
        ]
    );
}

#[test]
fn jobs_run_back_to_back_without_overlapping_callback_windows() {
    let rec = allocate(0);
    let mut orch = Orchestrator::new(rec);
    let mut eng = SimulatedEngine::new(Vec::new());
    let conv = vec![firing(EventReasonCode::TEXTBUF_CLOSE, &[b"kana"])];
    let kana = convert_to_phonetic(&mut orch, &mut eng, 1, 0, &conv).unwrap();
    assert_eq!(kana, b"kana".to_vec());
    assert!(!orch.record.text_buf_callback);
    let synth = vec![firing(EventReasonCode::RAWBUF_CLOSE, &[b"wave"])];
    let (waveform, _) = synthesize(&mut orch, &mut eng, 1, 0, &Vec::new(), &synth).unwrap();
    assert_eq!(waveform, b"wave".to_vec());
    assert!(!orch.record.raw_buf_callback);
    assert!(!orch.record.event_callback);
}
