use aitalked::drain::{
    raw_cycle_continues, raw_scratch_capacity, text_cycle_continues, text_scratch_capacity,
};
use aitalked::{LEN_RAW_BUF_MAX_BYTES, LEN_TEXT_BUF_MAX};

#[test]
fn text_scratch_is_reported_size_capped() {
    assert_eq!(text_scratch_capacity(1000), 1000);
    assert_eq!(text_scratch_capacity(LEN_TEXT_BUF_MAX), LEN_TEXT_BUF_MAX);
    assert_eq!(text_scratch_capacity(LEN_TEXT_BUF_MAX + 1), LEN_TEXT_BUF_MAX);
    assert_eq!(text_scratch_capacity(u32::MAX), LEN_TEXT_BUF_MAX);
}

#[test]
fn raw_scratch_is_twice_the_words_capped() {
    assert_eq!(raw_scratch_capacity(100), 200);
    assert_eq!(raw_scratch_capacity(LEN_RAW_BUF_MAX_BYTES / 2), LEN_RAW_BUF_MAX_BYTES);
    assert_eq!(
        raw_scratch_capacity(LEN_RAW_BUF_MAX_BYTES / 2 + 1),
        LEN_RAW_BUF_MAX_BYTES
    );
    assert_eq!(raw_scratch_capacity(u32::MAX), LEN_RAW_BUF_MAX_BYTES);
}

#[test]
fn text_cycle_stops_on_short_read_or_error() {
    assert!(text_cycle_continues(0, 100, 100));
    assert!(text_cycle_continues(0, 99, 100));
    assert!(!text_cycle_continues(0, 98, 100));
    assert!(!text_cycle_continues(-1, 100, 100));
    assert!(!text_cycle_continues(204, 100, 100));
}

#[test]
fn raw_cycle_stops_on_short_read_or_error() {
    assert!(raw_cycle_continues(0, 50, 100));
    assert!(!raw_cycle_continues(0, 49, 100));
    assert!(!raw_cycle_continues(-1, 50, 100));
    assert!(raw_cycle_continues(0, u32::MAX, u32::MAX));
}
