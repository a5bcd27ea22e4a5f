use aitalked::codes::EventReasonCode;
use aitalked::events::{collect_event, parse_u32_decimal, TtsEvent};

#[test]
fn parse_plain_decimal() {
    assert_eq!(parse_u32_decimal(&b"0".to_vec()), Some(0));
    assert_eq!(parse_u32_decimal(&b"123".to_vec()), Some(123));
    assert_eq!(parse_u32_decimal(&b"042".to_vec()), Some(42));
}

#[test]
fn parse_with_plus_sign() {
    assert_eq!(parse_u32_decimal(&b"+42".to_vec()), Some(42));
    assert_eq!(parse_u32_decimal(&b"+0".to_vec()), Some(0));
}

#[test]
fn parse_rejects_empty_and_bare_sign() {
    assert_eq!(parse_u32_decimal(&b"".to_vec()), None);
    assert_eq!(parse_u32_decimal(&b"+".to_vec()), None);
}

#[test]
fn parse_rejects_non_digits() {
    assert_eq!(parse_u32_decimal(&b"12a".to_vec()), None);
    assert_eq!(parse_u32_decimal(&b"-1".to_vec()), None);
    assert_eq!(parse_u32_decimal(&b" 12".to_vec()), None);
    assert_eq!(parse_u32_decimal(&b"1 2".to_vec()), None);
    assert_eq!(parse_u32_decimal(&b"++1".to_vec()), None);
}

#[test]
fn parse_boundary_values() {
    assert_eq!(parse_u32_decimal(&b"4294967295".to_vec()), Some(u32::MAX));
    assert_eq!(parse_u32_decimal(&b"4294967296".to_vec()), None);
    assert_eq!(parse_u32_decimal(&b"99999999999".to_vec()), None);
}

#[test]
fn phonetic_label_is_collected() {
    let mut events = Vec::new();
    collect_event(&mut events, EventReasonCode::PH_LABEL, 4, b"ka".to_vec());
    assert_eq!(events, vec![(4, TtsEvent::Phonetic(b"ka".to_vec()))]);
}

#[test]
fn bookmark_is_collected() {
    let mut events = Vec::new();
    collect_event(&mut events, EventReasonCode::BOOKMARK, 8, b"mark".to_vec());
    assert_eq!(events, vec![(8, TtsEvent::Bookmark(b"mark".to_vec()))]);
}

#[test]
fn auto_bookmark_parses_position() {
    let mut events = Vec::new();
    collect_event(&mut events, EventReasonCode::AUTO_BOOKMARK, 3, b"77".to_vec());
    assert_eq!(events, vec![(3, TtsEvent::Position(77))]);
}

#[test]
fn auto_bookmark_with_bad_number_is_dropped() {
    let mut events = Vec::new();
    collect_event(&mut events, EventReasonCode::AUTO_BOOKMARK, 3, b"xx".to_vec());
    assert!(events.is_empty());
}

#[test]
fn unrecognized_reason_is_ignored() {
    let mut events = Vec::new();
    collect_event(&mut events, EventReasonCode::TEXTBUF_FULL, 1, b"x".to_vec());
    collect_event(&mut events, EventReasonCode::RAWBUF_CLOSE, 2, b"y".to_vec());
    assert!(events.is_empty());
}

#[test]
fn arrival_order_is_preserved_ticks_not_sorted() {
    let mut events = Vec::new();
    collect_event(&mut events, EventReasonCode::PH_LABEL, 5, b"a".to_vec());
    collect_event(&mut events, EventReasonCode::AUTO_BOOKMARK, 2, b"7".to_vec());
    collect_event(&mut events, EventReasonCode::BOOKMARK, 9, b"b".to_vec());
    assert_eq!(
        events,
        vec![
            (5, TtsEvent::Phonetic(b"a".to_vec())),
            (2, TtsEvent::Position(7)),
            (9, TtsEvent::Bookmark(b"b".to_vec())),
        ]
    );
}
