use aitalked::error::{AdapterError, ProtocolViolationKind};
use aitalked::param::{
    allocate, speaker_count_from_total, total_size_for, MAX_JEITA_CONTROL, MAX_SPEAKER_COUNT,
    MAX_VOICE_NAME, SPEAKER_RECORD_BYTES, TTS_HEADER_BYTES,
};

#[test]
fn layout_constants() {
    assert_eq!(TTS_HEADER_BYTES, 312);
    assert_eq!(SPEAKER_RECORD_BYTES, 188);
    assert_eq!(MAX_VOICE_NAME, 80);
    assert_eq!(MAX_JEITA_CONTROL, 12);
}

#[test]
fn total_size_formula() {
    assert_eq!(total_size_for(0), 312);
    assert_eq!(total_size_for(1), 500);
    assert_eq!(total_size_for(3), 876);
    assert_eq!(total_size_for(MAX_SPEAKER_COUNT), 312 + MAX_SPEAKER_COUNT * 188);
}

#[test]
fn allocate_sets_count_and_size() {
    let rec = allocate(3);
    assert_eq!(rec.speakers_len(), 3);
    assert_eq!(rec.size, 876);
    assert!(!rec.text_buf_callback);
    assert!(!rec.raw_buf_callback);
    assert!(!rec.event_callback);
    assert_eq!(rec.pause_begin, 0);
    assert_eq!(rec.pause_term, 0);
    assert_eq!(rec.extend_format, 0);
    for s in &rec.speakers {
        assert!(s.voice_name.is_empty());
        assert_eq!(s.volume_bits, 0);
        assert_eq!(s.pause_middle, 0);
        assert!(s.style_rate.is_empty());
    }
}

#[test]
fn allocate_zero_speakers() {
    let rec = allocate(0);
    assert_eq!(rec.speakers_len(), 0);
    assert_eq!(rec.size, 312);
}

#[test]
fn speaker_count_read_back() {
    assert_eq!(speaker_count_from_total(312), Ok(0));
    assert_eq!(speaker_count_from_total(500), Ok(1));
    assert_eq!(speaker_count_from_total(876), Ok(3));
}

#[test]
fn speaker_count_inconsistent_total() {
    let err = Err(AdapterError::Protocol(
        ProtocolViolationKind::InconsistentReportedSize,
    ));
    assert_eq!(speaker_count_from_total(0), err);
    assert_eq!(speaker_count_from_total(311), err);
    assert_eq!(speaker_count_from_total(313), err);
    assert_eq!(speaker_count_from_total(700), err);
}

#[test]
fn refresh_keeps_record_when_size_unchanged() {
    let mut rec = allocate(2);
    rec.pause_begin = 7;
    let rec = rec.refresh(688).unwrap();
    assert_eq!(rec.speakers_len(), 2);
    assert_eq!(rec.size, 688);
    assert_eq!(rec.pause_begin, 7);
}

#[test]
fn refresh_reallocates_to_exactly_the_new_size() {
    let mut rec = allocate(2);
    rec.pause_begin = 7;
    rec.pause_term = 9;
    rec.extend_format = 17;
    rec.speakers[0].volume_bits = 0x3f800000;
    let old_size = rec.size;
    let new_total = total_size_for(5);
    let rec = rec.refresh(new_total).unwrap();
    assert_eq!(rec.size, new_total);
    assert_ne!(rec.size, old_size);
    assert_eq!(rec.speakers_len(), 5);
    assert_eq!(rec.pause_begin, 7);
    assert_eq!(rec.pause_term, 9);
    assert_eq!(rec.extend_format, 17);
    for s in &rec.speakers {
        assert_eq!(s.volume_bits, 0);
        assert!(s.voice_name.is_empty());
    }
}

#[test]
fn refresh_shrinks_to_exactly_the_new_size() {
    let rec = allocate(5);
    let rec = rec.refresh(total_size_for(1)).unwrap();
    assert_eq!(rec.speakers_len(), 1);
    assert_eq!(rec.size, 500);
}

#[test]
fn refresh_rejects_inconsistent_total() {
    let rec = allocate(1);
    let r = rec.refresh(700);
    assert_eq!(
        r.err(),
        Some(AdapterError::Protocol(
            ProtocolViolationKind::InconsistentReportedSize
        ))
    );
}
