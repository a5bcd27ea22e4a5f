//! The parameter record allocator.
//!
//! The engine's configuration record is a fixed header followed by a
//! trailing array of per-voice speaker entries whose count is only known
//! after querying the engine.  The engine is the sole authority on that
//! count: callers query the required total size, allocate a record of
//! exactly header size plus count times entry size, and re-query before
//! every reload, reallocating whenever the voice set changed.
//!
//! Prosody values (volume, speed, pitch, range) are engine-side 32-bit
//! floats; the adapter never computes with them, so it carries them as
//! raw bit patterns.

use vstd::prelude::*;

use crate::error::AdapterError;
use crate::error::ProtocolViolationKind;

verus! {

/// Byte length of the record header on the engine boundary.
pub const TTS_HEADER_BYTES: u32 = 312;

/// Byte length of one trailing speaker entry on the engine boundary.
pub const SPEAKER_RECORD_BYTES: u32 = 188;

/// Byte capacity of a voice-name field.
pub const MAX_VOICE_NAME: u32 = 80;

/// Byte capacity of the JEITA control field.
pub const MAX_JEITA_CONTROL: u32 = 12;

/// Largest speaker count whose record size still fits the engine's
/// 32-bit size field.
pub const MAX_SPEAKER_COUNT: u32 = 22845569;

/// Total record size for a given speaker count: header plus count times
/// entry size.
pub open spec fn spec_total_size(count: int) -> int {
    TTS_HEADER_BYTES + count * SPEAKER_RECORD_BYTES
}

/// Global JEITA-style prosody settings of the record header.
#[derive(Debug, Clone)]
pub struct JeitaRecord {
    pub female_name: Vec<u8>,
    pub male_name: Vec<u8>,
    pub pause_middle: i32,
    pub pause_long: i32,
    pub pause_sentence: i32,
    pub control: Vec<u8>,
}

impl JeitaRecord {
    /// Name and control fields fit their fixed-size slots.
    pub open spec fn wf(self) -> bool {
        &&& self.female_name@.len() <= MAX_VOICE_NAME
        &&& self.male_name@.len() <= MAX_VOICE_NAME
        &&& self.control@.len() <= MAX_JEITA_CONTROL
    }
}

/// A zeroed JEITA block, as a freshly allocated record carries it.
pub open spec fn spec_jeita_zeroed(j: JeitaRecord) -> bool {
    &&& j.female_name@.len() == 0
    &&& j.male_name@.len() == 0
    &&& j.pause_middle == 0
    &&& j.pause_long == 0
    &&& j.pause_sentence == 0
    &&& j.control@.len() == 0
}

impl Default for JeitaRecord {
    /// A zeroed JEITA block.
    fn default() -> (r: JeitaRecord)
        ensures
            spec_jeita_zeroed(r),
            r.wf(),
    {
        JeitaRecord {
            female_name: Vec::new(),
            male_name: Vec::new(),
            pause_middle: 0,
            pause_long: 0,
            pause_sentence: 0,
            control: Vec::new(),
        }
    }
}

/// One trailing entry of the record: the settings of one loaded voice
/// persona.
#[derive(Debug, Clone)]
pub struct SpeakerRecord {
    pub voice_name: Vec<u8>,
    pub volume_bits: u32,
    pub speed_bits: u32,
    pub pitch_bits: u32,
    pub range_bits: u32,
    pub pause_middle: i32,
    pub pause_long: i32,
    pub pause_sentence: i32,
    pub style_rate: Vec<u8>,
}

impl SpeakerRecord {
    /// Name and style fields fit their fixed-size slots.
    pub open spec fn wf(self) -> bool {
        &&& self.voice_name@.len() <= MAX_VOICE_NAME
        &&& self.style_rate@.len() <= MAX_VOICE_NAME
    }
}

/// A zeroed speaker entry, as a freshly allocated record carries it.
pub open spec fn spec_speaker_zeroed(s: SpeakerRecord) -> bool {
    &&& s.voice_name@.len() == 0
    &&& s.volume_bits == 0
    &&& s.speed_bits == 0
    &&& s.pitch_bits == 0
    &&& s.range_bits == 0
    &&& s.pause_middle == 0
    &&& s.pause_long == 0
    &&& s.pause_sentence == 0
    &&& s.style_rate@.len() == 0
}

impl Default for SpeakerRecord {
    /// A zeroed speaker entry.
    fn default() -> (r: SpeakerRecord)
        ensures
            spec_speaker_zeroed(r),
            r.wf(),
    {
        SpeakerRecord {
            voice_name: Vec::new(),
            volume_bits: 0,
            speed_bits: 0,
            pitch_bits: 0,
            range_bits: 0,
            pause_middle: 0,
            pause_long: 0,
            pause_sentence: 0,
            style_rate: Vec::new(),
        }
    }
}

/// The header-plus-trailing-array configuration record exchanged with the
/// engine.  The trailing sequence length always equals the count the
/// header declares, and the declared total size always equals header size
/// plus count times entry size.
#[derive(Debug, Clone)]
pub struct ParameterRecord {
    /// Total record size in bytes, as declared to the engine.
    pub size: u32,
    /// Whether the text-buffer drain callback is installed.
    pub text_buf_callback: bool,
    /// Whether the raw-audio drain callback is installed.
    pub raw_buf_callback: bool,
    /// Whether the synthesis-event callback is installed.
    pub event_callback: bool,
    pub len_text_buf_bytes: u32,
    pub len_raw_buf_words: u32,
    pub volume_bits: u32,
    pub pause_begin: i32,
    pub pause_term: i32,
    pub extend_format: i32,
    pub voice_name: Vec<u8>,
    pub jeita: JeitaRecord,
    pub speakers: Vec<SpeakerRecord>,
}

impl ParameterRecord {
    /// The record invariant: the declared size accounts for exactly the
    /// speakers the trailing array holds, and every field fits its slot.
    pub open spec fn wf(self) -> bool {
        &&& self.speakers@.len() <= MAX_SPEAKER_COUNT
        &&& self.size == spec_total_size(self.speakers@.len() as int)
        &&& self.voice_name@.len() <= MAX_VOICE_NAME
        &&& self.jeita.wf()
        &&& forall|i: int| 0 <= i < self.speakers@.len() ==> self.speakers@[i].wf()
    }
}

/// A zeroed record header with no callbacks installed.
pub open spec fn spec_header_zeroed(r: ParameterRecord) -> bool {
    &&& !r.text_buf_callback
    &&& !r.raw_buf_callback
    &&& !r.event_callback
    &&& r.len_text_buf_bytes == 0
    &&& r.len_raw_buf_words == 0
    &&& r.volume_bits == 0
    &&& r.pause_begin == 0
    &&& r.pause_term == 0
    &&& r.extend_format == 0
    &&& r.voice_name@.len() == 0
    &&& spec_jeita_zeroed(r.jeita)
}

/// Total record size for a speaker count, in bytes.
pub fn total_size_for(count: u32) -> (r: u32)
    requires
        count <= MAX_SPEAKER_COUNT,
    ensures
        r == spec_total_size(count as int),
{
    TTS_HEADER_BYTES + count * SPEAKER_RECORD_BYTES
}

/// Read a speaker count back out of an engine-reported total size.
///
/// The reported total is consistent exactly when some whole number of
/// speaker entries accounts for it; anything else is a protocol
/// violation, not an engine error.
pub fn speaker_count_from_total(total: u32) -> (r: Result<u32, AdapterError>)
    ensures
        match r {
            Ok(c) => c <= MAX_SPEAKER_COUNT && total == spec_total_size(c as int),
            Err(e) => {
                &&& e == AdapterError::Protocol(ProtocolViolationKind::InconsistentReportedSize)
                &&& forall|c: int| 0 <= c ==> total != spec_total_size(c)
            },
        },
{
    if total < TTS_HEADER_BYTES {
        assert forall|c: int| 0 <= c implies total != spec_total_size(c) by {
            assert(c * SPEAKER_RECORD_BYTES >= 0) by (nonlinear_arith)
                requires
                    c >= 0,
            ;
        }
        return Err(AdapterError::Protocol(ProtocolViolationKind::InconsistentReportedSize));
    }
    let rem = total - TTS_HEADER_BYTES;
    let count = rem / SPEAKER_RECORD_BYTES;
    if count * SPEAKER_RECORD_BYTES != rem {
        assert forall|c: int| 0 <= c implies total != spec_total_size(c) by {
            if total == spec_total_size(c) {
                assert(c * SPEAKER_RECORD_BYTES == rem);
                assert(c == rem / SPEAKER_RECORD_BYTES && rem % SPEAKER_RECORD_BYTES == 0)
                    by (nonlinear_arith)
                    requires
                        c >= 0 && c * SPEAKER_RECORD_BYTES == rem && rem >= 0,
                ;
            }
        }
        return Err(AdapterError::Protocol(ProtocolViolationKind::InconsistentReportedSize));
    }
    Ok(count)
}

/// Allocate a fresh record for `count` speakers: the count field is set
/// to `count`, the declared size to exactly header plus `count` entries,
/// and everything else is zeroed, with no callbacks installed.
pub fn allocate(count: u32) -> (r: ParameterRecord)
    requires
        count <= MAX_SPEAKER_COUNT,
    ensures
        r.wf(),
        r.speakers@.len() == count,
        r.size == spec_total_size(count as int),
        spec_header_zeroed(r),
        forall|i: int| 0 <= i < count ==> spec_speaker_zeroed(r.speakers@[i]),
{
    let mut speakers: Vec<SpeakerRecord> = Vec::new();
    let mut i: u32 = 0;
    while i < count
        invariant
            i <= count,
            speakers@.len() == i,
            forall|j: int| 0 <= j < i ==> spec_speaker_zeroed(#[trigger] speakers@[j]),
            forall|j: int| 0 <= j < i ==> speakers@[j].wf(),
        decreases count - i,
    {
        speakers.push(SpeakerRecord::default());
        i = i + 1;
    }
    ParameterRecord {
        size: total_size_for(count),
        text_buf_callback: false,
        raw_buf_callback: false,
        event_callback: false,
        len_text_buf_bytes: 0,
        len_raw_buf_words: 0,
        volume_bits: 0,
        pause_begin: 0,
        pause_term: 0,
        extend_format: 0,
        voice_name: Vec::new(),
        jeita: JeitaRecord::default(),
        speakers,
    }
}

impl ParameterRecord {
    /// Number of speaker entries the record declares and holds.
    pub fn speakers_len(&self) -> (r: usize)
        ensures
            r == self.speakers@.len(),
    {
        self.speakers.len()
    }

    /// Re-size the record against a freshly queried total.
    ///
    /// If the engine still reports the size this record was allocated
    /// for, the record is kept as it is.  If the reported total accounts
    /// for a different whole number of speakers, the record is
    /// reallocated at exactly the new size — the old allocation is
    /// consumed and freed — carrying the header preferences forward and
    /// leaving the new speaker entries zeroed for the engine to fill.  A
    /// total that no whole number of entries accounts for is a protocol
    /// violation.
    pub fn refresh(self, reported_total: u32) -> (r: Result<ParameterRecord, AdapterError>)
        requires
            self.wf(),
        ensures
            match r {
                Ok(rec) => {
                    &&& rec.wf()
                    &&& rec.size == reported_total
                    &&& reported_total == spec_total_size(rec.speakers@.len() as int)
                    &&& rec.text_buf_callback == self.text_buf_callback
                    &&& rec.raw_buf_callback == self.raw_buf_callback
                    &&& rec.event_callback == self.event_callback
                    &&& rec.len_text_buf_bytes == self.len_text_buf_bytes
                    &&& rec.len_raw_buf_words == self.len_raw_buf_words
                    &&& rec.volume_bits == self.volume_bits
                    &&& rec.pause_begin == self.pause_begin
                    &&& rec.pause_term == self.pause_term
                    &&& rec.extend_format == self.extend_format
                    &&& rec.voice_name@ == self.voice_name@
                    &&& (reported_total == self.size ==> rec == self)
                    &&& (reported_total != self.size ==> forall|i: int|
                        0 <= i < rec.speakers@.len() ==> spec_speaker_zeroed(
                            #[trigger] rec.speakers@[i],
                        ))
                },
                Err(e) => {
                    &&& e == AdapterError::Protocol(
                        ProtocolViolationKind::InconsistentReportedSize,
                    )
                    &&& forall|c: int| 0 <= c ==> reported_total != spec_total_size(c)
                },
            },
    {
        let count = match speaker_count_from_total(reported_total) {
            Ok(c) => c,
            Err(e) => {
                return Err(e);
            },
        };
        if reported_total == self.size {
            return Ok(self);
        }
        let mut speakers: Vec<SpeakerRecord> = Vec::new();
        let mut i: u32 = 0;
        while i < count
            invariant
                i <= count,
                speakers@.len() == i,
                forall|j: int| 0 <= j < i ==> spec_speaker_zeroed(#[trigger] speakers@[j]),
                forall|j: int| 0 <= j < i ==> speakers@[j].wf(),
            decreases count - i,
        {
            speakers.push(SpeakerRecord::default());
            i = i + 1;
        }
        Ok(
            ParameterRecord {
                size: reported_total,
                text_buf_callback: self.text_buf_callback,
                raw_buf_callback: self.raw_buf_callback,
                event_callback: self.event_callback,
                len_text_buf_bytes: self.len_text_buf_bytes,
                len_raw_buf_words: self.len_raw_buf_words,
                volume_bits: self.volume_bits,
                pause_begin: self.pause_begin,
                pause_term: self.pause_term,
                extend_format: self.extend_format,
                voice_name: self.voice_name,
                jeita: self.jeita,
                speakers,
            },
        )
    }
}

/// Two speaker counts with the same total size are the same count.
pub proof fn lemma_total_size_injective(a: int, b: int)
    requires
        spec_total_size(a) == spec_total_size(b),
    ensures
        a == b,
{
    assert(a * SPEAKER_RECORD_BYTES == b * SPEAKER_RECORD_BYTES);
    assert(a == b) by (nonlinear_arith)
        requires
            a * SPEAKER_RECORD_BYTES == b * SPEAKER_RECORD_BYTES,
    ;
}

/// A record freshly sized against a query that reports a different count
/// than the record was allocated for has exactly the newly reported size,
/// never the old one: the total size pins the count, and the count pins
/// the total size.
pub proof fn lemma_refresh_resizes_exactly(n: int, m: int)
    requires
        0 <= n,
        0 <= m,
        n != m,
    ensures
        spec_total_size(m) != spec_total_size(n),
{
    if spec_total_size(m) == spec_total_size(n) {
        lemma_total_size_injective(m, n);
    }
}

} // verus!
