//! The event collector.
//!
//! During waveform jobs the engine emits timestamped annotations on a
//! callback channel of its own: phoneme labels, explicit bookmarks, and
//! automatic position bookmarks whose payload is a decimal number.  The
//! collector appends each recognized annotation to the job's event list in
//! arrival order; reason codes it does not recognize are ignored, and a
//! numeric payload that does not parse is dropped silently (a permissive-
//! parsing decision, not an error path).

use vstd::prelude::*;

use crate::codes::EventReasonCode;

verus! {

/// A timestamped synthesis annotation.  The name payloads are the raw
/// engine-encoded bytes, without a terminating NUL.
#[derive(Debug, Clone, PartialEq, Eq)]
pub enum TtsEvent {
    Phonetic(Vec<u8>),
    Position(u32),
    Bookmark(Vec<u8>),
}

/// Mathematical value of a [`TtsEvent`].
pub enum TtsEventView {
    Phonetic(Seq<u8>),
    Position(u32),
    Bookmark(Seq<u8>),
}

impl View for TtsEvent {
    type V = TtsEventView;

    open spec fn view(&self) -> TtsEventView {
        match self {
            TtsEvent::Phonetic(name) => TtsEventView::Phonetic(name@),
            TtsEvent::Position(v) => TtsEventView::Position(*v),
            TtsEvent::Bookmark(name) => TtsEventView::Bookmark(name@),
        }
    }
}

/// Mathematical value of an event list: each entry as (tick, event value).
pub open spec fn events_view(s: Seq<(u64, TtsEvent)>) -> Seq<(u64, TtsEventView)> {
    s.map(|i: int, p: (u64, TtsEvent)| (p.0, p.1@))
}

/// An ASCII decimal digit.
pub open spec fn spec_is_ascii_digit(b: u8) -> bool {
    48 <= b && b <= 57
}

/// Every byte of `s` is an ASCII decimal digit.
pub open spec fn spec_all_ascii_digits(s: Seq<u8>) -> bool {
    forall|i: int| 0 <= i < s.len() ==> spec_is_ascii_digit(s[i])
}

/// Value of `s` read as a big-endian decimal digit string.
pub open spec fn spec_decimal_value(s: Seq<u8>) -> int
    decreases s.len(),
{
    if s.len() == 0 {
        0
    } else {
        spec_decimal_value(s.drop_last()) * 10 + (s.last() - 48)
    }
}

/// The digit part of a decimal string: everything after one optional
/// leading plus sign.
pub open spec fn spec_digits_part(s: Seq<u8>) -> Seq<u8> {
    if s.len() > 0 && s[0] == 43 {
        s.subrange(1, s.len() as int)
    } else {
        s
    }
}

/// What parsing `s` as an unsigned 32-bit decimal yields: an optional
/// plus sign, then at least one digit, and a value that fits.
pub open spec fn spec_parse_u32(s: Seq<u8>) -> Option<u32> {
    let d = spec_digits_part(s);
    if d.len() > 0 && spec_all_ascii_digits(d) && spec_decimal_value(d) <= u32::MAX {
        Some(spec_decimal_value(d) as u32)
    } else {
        None
    }
}

/// A digit string's value is never negative.
proof fn lemma_decimal_value_nonneg(s: Seq<u8>)
    requires
        spec_all_ascii_digits(s),
    ensures
        spec_decimal_value(s) >= 0,
    decreases s.len(),
{
    if s.len() > 0 {
        assert(spec_all_ascii_digits(s.drop_last()));
        lemma_decimal_value_nonneg(s.drop_last());
    }
}

/// Reading one more digit multiplies the prefix value by ten and adds the
/// digit.
proof fn lemma_decimal_value_step(s: Seq<u8>, i: int)
    requires
        0 <= i < s.len(),
    ensures
        spec_decimal_value(s.take(i + 1)) == spec_decimal_value(s.take(i)) * 10 + (s[i] - 48),
{
    assert(s.take(i + 1).drop_last() =~= s.take(i));
    assert(s.take(i + 1).last() == s[i]);
}

/// A digit string's value is at least the value of any of its prefixes.
proof fn lemma_decimal_prefix_le(s: Seq<u8>, i: int)
    requires
        0 <= i <= s.len(),
        spec_all_ascii_digits(s),
    ensures
        spec_decimal_value(s.take(i)) <= spec_decimal_value(s),
    decreases s.len() - i,
{
    if i == s.len() {
        assert(s.take(i) =~= s);
    } else {
        lemma_decimal_value_step(s, i);
        assert(spec_all_ascii_digits(s.take(i)));
        lemma_decimal_value_nonneg(s.take(i));
        lemma_decimal_prefix_le(s, i + 1);
    }
}

/// Parse an unsigned 32-bit decimal from raw bytes, as the automatic
/// position bookmarks carry it: an optional leading plus sign, then at
/// least one ASCII digit, rejecting values that do not fit.
pub fn parse_u32_decimal(bytes: &Vec<u8>) -> (r: Option<u32>)
    ensures
        r == spec_parse_u32(bytes@),
{
    let ghost d = spec_digits_part(bytes@);
    let n = bytes.len();
    let mut start: usize = 0;
    if n > 0 && bytes[0] == 43u8 {
        start = 1;
    }
    proof {
        assert(d =~= bytes@.subrange(start as int, n as int));
    }
    if start >= n {
        return None;
    }
    let mut value: u32 = 0;
    let mut i: usize = start;
    while i < n
        invariant
            start <= i <= n,
            n == bytes@.len(),
            start < n,
            d == spec_digits_part(bytes@),
            d =~= bytes@.subrange(start as int, n as int),
            spec_all_ascii_digits(d.take(i - start)),
            value == spec_decimal_value(d.take(i - start)),
        decreases n - i,
    {
        let b = bytes[i];
        proof {
            assert(d[i - start] == bytes@[i as int]);
        }
        if !(48 <= b && b <= 57) {
            assert(!spec_all_ascii_digits(d));
            return None;
        }
        if value > 429496729 || (value == 429496729 && b > 53) {
            proof {
                lemma_decimal_value_step(d, i - start);
                if spec_all_ascii_digits(d) {
                    lemma_decimal_prefix_le(d, i - start + 1);
                }
            }
            return None;
        }
        proof {
            lemma_decimal_value_step(d, i - start);
        }
        value = value * 10 + ((b - 48) as u32);
        i = i + 1;
    }
    proof {
        assert(d.take(i - start) =~= d);
    }
    Some(value)
}

/// The annotation a callback firing contributes, if any: phoneme labels
/// and bookmarks carry their payload through; an automatic bookmark is a
/// position whose payload must parse as a decimal number; every other
/// reason is ignored.
pub open spec fn spec_collected(reason: EventReasonCode, payload: Seq<u8>) -> Option<
    TtsEventView,
> {
    match reason {
        EventReasonCode::PH_LABEL => Some(TtsEventView::Phonetic(payload)),
        EventReasonCode::BOOKMARK => Some(TtsEventView::Bookmark(payload)),
        EventReasonCode::AUTO_BOOKMARK => match spec_parse_u32(payload) {
            Some(v) => Some(TtsEventView::Position(v)),
            None => None,
        },
        _ => None,
    }
}

/// Append the annotation of one callback firing to an event list.
///
/// Recognized annotations go to the end of the list, so arrival order is
/// preserved exactly; ticks are never re-sorted.  Unrecognized reasons
/// and unparsable position payloads leave the list unchanged.
pub fn collect_event(
    events: &mut Vec<(u64, TtsEvent)>,
    reason: EventReasonCode,
    tick: u64,
    payload: Vec<u8>,
)
    ensures
        match spec_collected(reason, payload@) {
            Some(e) => events_view(final(events)@) =~= events_view(old(events)@).push(
                (tick, e),
            ),
            None => final(events)@ == old(events)@,
        },
{
    match reason {
        EventReasonCode::PH_LABEL => {
            events.push((tick, TtsEvent::Phonetic(payload)));
        },
        EventReasonCode::BOOKMARK => {
            events.push((tick, TtsEvent::Bookmark(payload)));
        },
        EventReasonCode::AUTO_BOOKMARK => {
            let parsed = parse_u32_decimal(&payload);
            match parsed {
                Some(v) => {
                    events.push((tick, TtsEvent::Position(v)));
                },
                None => {},
            }
        },
        _ => {},
    }
}

} // verus!
