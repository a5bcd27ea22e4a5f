//! Numeric codes exchanged with the engine.
//!
//! The engine speaks in signed 32-bit codes: result codes from every call,
//! reason codes on every callback firing, and a job-kind tag on submission.
//! The boundary is bit-exact, so each enum comes with its raw value and the
//! conversions are stated exactly.

use vstd::prelude::*;

verus! {

/// Reason code handed to a callback firing.
#[allow(non_camel_case_types)]
#[derive(Debug, Clone, Copy, PartialEq, Eq, Structural)]
pub enum EventReasonCode {
    TEXTBUF_FULL,
    TEXTBUF_FLUSH,
    TEXTBUF_CLOSE,
    RAWBUF_FULL,
    RAWBUF_FLUSH,
    RAWBUF_CLOSE,
    PH_LABEL,
    BOOKMARK,
    AUTO_BOOKMARK,
}

/// Result code returned by every engine call.
#[allow(non_camel_case_types)]
#[derive(Debug, Clone, Copy, PartialEq, Eq, Structural)]
pub enum ResultCode {
    SUCCESS,
    INTERNAL_ERROR,
    UNSUPPORTED,
    INVALID_ARGUMENT,
    WAIT_TIMEOUT,
    NOT_INITIALIZED,
    ALREADY_INITIALIZED,
    NOT_LOADED,
    ALREADY_LOADED,
    INSUFFICIENT,
    PARTIALLY_REGISTERED,
    LICENSE_ABSENT,
    LICENSE_EXPIRED,
    LICENSE_REJECTED,
    TOO_MANY_JOBS,
    INVALID_JOBID,
    JOB_BUSY,
    NOMORE_DATA,
    OUT_OF_MEMORY,
    FILE_NOT_FOUND,
    PATH_NOT_FOUND,
    READ_FAULT,
    COUNT_LIMIT,
    USERDIC_LOCKED,
    USERDIC_NOENTRY,
}

/// Job-kind tag passed on submission.
#[allow(non_camel_case_types)]
#[derive(Debug, Clone, Copy, PartialEq, Eq, Structural)]
pub enum JobInOut {
    PLAIN_TO_WAVE,
    AIKANA_TO_WAVE,
    JEITA_TO_WAVE,
    PLAIN_TO_AIKANA,
    AIKANA_TO_JEITA,
}

/// Raw value of an event reason code on the engine boundary.
pub open spec fn spec_event_reason_raw(c: EventReasonCode) -> i32 {
    match c {
        EventReasonCode::TEXTBUF_FULL => 101,
        EventReasonCode::TEXTBUF_FLUSH => 102,
        EventReasonCode::TEXTBUF_CLOSE => 103,
        EventReasonCode::RAWBUF_FULL => 201,
        EventReasonCode::RAWBUF_FLUSH => 202,
        EventReasonCode::RAWBUF_CLOSE => 203,
        EventReasonCode::PH_LABEL => 301,
        EventReasonCode::BOOKMARK => 302,
        EventReasonCode::AUTO_BOOKMARK => 303,
    }
}

/// The event reason code a raw value stands for, if it is a known one.
pub open spec fn spec_event_reason_from_raw(v: i32) -> Option<EventReasonCode> {
    if v == 101 {
        Some(EventReasonCode::TEXTBUF_FULL)
    } else if v == 102 {
        Some(EventReasonCode::TEXTBUF_FLUSH)
    } else if v == 103 {
        Some(EventReasonCode::TEXTBUF_CLOSE)
    } else if v == 201 {
        Some(EventReasonCode::RAWBUF_FULL)
    } else if v == 202 {
        Some(EventReasonCode::RAWBUF_FLUSH)
    } else if v == 203 {
        Some(EventReasonCode::RAWBUF_CLOSE)
    } else if v == 301 {
        Some(EventReasonCode::PH_LABEL)
    } else if v == 302 {
        Some(EventReasonCode::BOOKMARK)
    } else if v == 303 {
        Some(EventReasonCode::AUTO_BOOKMARK)
    } else {
        None
    }
}

impl EventReasonCode {
    /// Raw value sent over the engine boundary.
    pub fn to_raw(self) -> (r: i32)
        ensures
            r == spec_event_reason_raw(self),
    {
        match self {
            EventReasonCode::TEXTBUF_FULL => 101,
            EventReasonCode::TEXTBUF_FLUSH => 102,
            EventReasonCode::TEXTBUF_CLOSE => 103,
            EventReasonCode::RAWBUF_FULL => 201,
            EventReasonCode::RAWBUF_FLUSH => 202,
            EventReasonCode::RAWBUF_CLOSE => 203,
            EventReasonCode::PH_LABEL => 301,
            EventReasonCode::BOOKMARK => 302,
            EventReasonCode::AUTO_BOOKMARK => 303,
        }
    }

    /// Decode a raw value from the engine; `None` for a code this adapter
    /// does not know.
    pub fn from_raw(v: i32) -> (r: Option<EventReasonCode>)
        ensures
            r == spec_event_reason_from_raw(v),
    {
        if v == 101 {
            Some(EventReasonCode::TEXTBUF_FULL)
        } else if v == 102 {
            Some(EventReasonCode::TEXTBUF_FLUSH)
        } else if v == 103 {
            Some(EventReasonCode::TEXTBUF_CLOSE)
        } else if v == 201 {
            Some(EventReasonCode::RAWBUF_FULL)
        } else if v == 202 {
            Some(EventReasonCode::RAWBUF_FLUSH)
        } else if v == 203 {
            Some(EventReasonCode::RAWBUF_CLOSE)
        } else if v == 301 {
            Some(EventReasonCode::PH_LABEL)
        } else if v == 302 {
            Some(EventReasonCode::BOOKMARK)
        } else if v == 303 {
            Some(EventReasonCode::AUTO_BOOKMARK)
        } else {
            None
        }
    }
}

/// Every reason code decodes back from its own raw value.
pub proof fn lemma_event_reason_raw_round_trip(c: EventReasonCode)
    ensures
        spec_event_reason_from_raw(spec_event_reason_raw(c)) == Some(c),
{
}

/// Raw value of a result code on the engine boundary.
pub open spec fn spec_result_code_raw(c: ResultCode) -> i32 {
    match c {
        ResultCode::SUCCESS => 0,
        ResultCode::INTERNAL_ERROR => -1i32,
        ResultCode::UNSUPPORTED => -2i32,
        ResultCode::INVALID_ARGUMENT => -3i32,
        ResultCode::WAIT_TIMEOUT => -4i32,
        ResultCode::NOT_INITIALIZED => -10i32,
        ResultCode::ALREADY_INITIALIZED => 10,
        ResultCode::NOT_LOADED => -11i32,
        ResultCode::ALREADY_LOADED => 11,
        ResultCode::INSUFFICIENT => -20i32,
        ResultCode::PARTIALLY_REGISTERED => 21,
        ResultCode::LICENSE_ABSENT => -100i32,
        ResultCode::LICENSE_EXPIRED => -101i32,
        ResultCode::LICENSE_REJECTED => -102i32,
        ResultCode::TOO_MANY_JOBS => -201i32,
        ResultCode::INVALID_JOBID => -202i32,
        ResultCode::JOB_BUSY => -203i32,
        ResultCode::NOMORE_DATA => 204,
        ResultCode::OUT_OF_MEMORY => -206i32,
        ResultCode::FILE_NOT_FOUND => -1001i32,
        ResultCode::PATH_NOT_FOUND => -1002i32,
        ResultCode::READ_FAULT => -1003i32,
        ResultCode::COUNT_LIMIT => -1004i32,
        ResultCode::USERDIC_LOCKED => -1011i32,
        ResultCode::USERDIC_NOENTRY => -1012i32,
    }
}

impl ResultCode {
    /// Raw value sent over the engine boundary.
    pub fn to_raw(self) -> (r: i32)
        ensures
            r == spec_result_code_raw(self),
    {
        match self {
            ResultCode::SUCCESS => 0,
            ResultCode::INTERNAL_ERROR => -1,
            ResultCode::UNSUPPORTED => -2,
            ResultCode::INVALID_ARGUMENT => -3,
            ResultCode::WAIT_TIMEOUT => -4,
            ResultCode::NOT_INITIALIZED => -10,
            ResultCode::ALREADY_INITIALIZED => 10,
            ResultCode::NOT_LOADED => -11,
            ResultCode::ALREADY_LOADED => 11,
            ResultCode::INSUFFICIENT => -20,
            ResultCode::PARTIALLY_REGISTERED => 21,
            ResultCode::LICENSE_ABSENT => -100,
            ResultCode::LICENSE_EXPIRED => -101,
            ResultCode::LICENSE_REJECTED => -102,
            ResultCode::TOO_MANY_JOBS => -201,
            ResultCode::INVALID_JOBID => -202,
            ResultCode::JOB_BUSY => -203,
            ResultCode::NOMORE_DATA => 204,
            ResultCode::OUT_OF_MEMORY => -206,
            ResultCode::FILE_NOT_FOUND => -1001,
            ResultCode::PATH_NOT_FOUND => -1002,
            ResultCode::READ_FAULT => -1003,
            ResultCode::COUNT_LIMIT => -1004,
            ResultCode::USERDIC_LOCKED => -1011,
            ResultCode::USERDIC_NOENTRY => -1012,
        }
    }
}

/// `0` means success on the engine boundary.
pub open spec fn spec_raw_is_success(v: i32) -> bool {
    v == 0
}

/// Negative raw values are errors.
pub open spec fn spec_raw_is_error(v: i32) -> bool {
    v < 0
}

/// Positive raw values are non-fatal partial-success conditions.
pub open spec fn spec_raw_is_partial(v: i32) -> bool {
    v > 0
}

/// Whether a raw result code from the engine means success.
pub fn raw_is_success(v: i32) -> (r: bool)
    ensures
        r == spec_raw_is_success(v),
{
    v == 0
}

/// Whether a raw result code from the engine is an error.
pub fn raw_is_error(v: i32) -> (r: bool)
    ensures
        r == spec_raw_is_error(v),
{
    v < 0
}

/// Raw value of a job-kind tag on the engine boundary.
pub open spec fn spec_job_in_out_raw(j: JobInOut) -> i32 {
    match j {
        JobInOut::PLAIN_TO_WAVE => 11,
        JobInOut::AIKANA_TO_WAVE => 12,
        JobInOut::JEITA_TO_WAVE => 13,
        JobInOut::PLAIN_TO_AIKANA => 21,
        JobInOut::AIKANA_TO_JEITA => 32,
    }
}

impl JobInOut {
    /// Raw value sent over the engine boundary.
    pub fn to_raw(self) -> (r: i32)
        ensures
            r == spec_job_in_out_raw(self),
    {
        match self {
            JobInOut::PLAIN_TO_WAVE => 11,
            JobInOut::AIKANA_TO_WAVE => 12,
            JobInOut::JEITA_TO_WAVE => 13,
            JobInOut::PLAIN_TO_AIKANA => 21,
            JobInOut::AIKANA_TO_JEITA => 32,
        }
    }
}

} // verus!
