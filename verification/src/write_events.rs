//! Typed outcome of a write-events request.
//!
//! On the wire the server answers with a record that holds a result code, an
//! inclusive pair of event numbers and two optional log positions. This module
//! turns such a record into either a [`WriteEventsCompleted`] or a
//! [`WriteEventsFailure`], and back.

use std::ops::Range;
use vstd::prelude::*;

verus! {

/// `Clone` of std's `Range`: the derived impl of std, which clones both bounds.
/// Nothing is claimed of the result.
pub assume_specification<Idx>[ <std::ops::Range<Idx> as std::clone::Clone>::clone ](
    r: &std::ops::Range<Idx>,
) -> std::ops::Range<Idx> where Idx: std::clone::Clone
;

/// Index of an event within its stream.
pub type StreamVersion = i64;

/// Offset into the server's commit log.
pub type LogPosition = i64;

/// Result code as the wire carries it.
#[derive(Debug, Clone, Copy, PartialEq, Eq)]
pub enum OperationResult {
    Success,
    PrepareTimeout,
    CommitTimeout,
    ForwardTimeout,
    WrongExpectedVersion,
    StreamDeleted,
    InvalidTransaction,
    AccessDenied,
}

/// The answer to a write-events request as the wire carries it.
#[derive(Debug, Clone, PartialEq, Eq)]
pub struct WriteEventsCompletedRecord {
    pub result: Option<OperationResult>,
    pub first_event_number: i32,
    pub last_event_number: i32,
    pub prepare_position: Option<i64>,
    pub commit_position: Option<i64>,
}

/// The server sent a record that no well-behaved server sends.
#[derive(Debug, Clone, Copy, PartialEq, Eq)]
pub enum MalformedResponse {
    /// The record holds no result code.
    MissingResult,
    /// The record holds a result code that has no meaning for a write.
    UnexpectedResult(OperationResult),
}

/// Successful answer to a write-events request.
#[derive(Debug, Clone, PartialEq, Eq)]
pub struct WriteEventsCompleted {
    /// The event numbers assigned to the written events, end excluded.
    pub event_numbers: Range<StreamVersion>,
    /// Log position of one of the written events.
    pub prepare_position: Option<LogPosition>,
    /// Log position from which the last written event can be found.
    pub commit_position: Option<LogPosition>,
}

/// Why a write-events request failed.
#[derive(Debug, Clone, Copy, PartialEq, Eq)]
pub enum WriteEventsFailure {
    /// Server failed to process the request before timeout
    PrepareTimeout,
    /// Server timed out while awaiting commit to be processed
    CommitTimeout,
    /// Server timed out while awaiting for a forwarded request to complete
    ForwardTimeout,
    /// Optimistic locking failure; stream version was not the expected
    WrongExpectedVersion,
    /// Stream has been deleted
    StreamDeleted,
    /// No authentication provided or insufficient permissions to a stream
    AccessDenied,
}

/// The half-open range that stands for the inclusive pair `first..=last`.
pub open spec fn spec_range_from_parts(first: i32, last: i32) -> Range<StreamVersion> {
    Range { start: first as i64, end: (last + 1) as i64 }
}

/// Whether a half-open range can be written as an inclusive pair on the wire.
pub open spec fn representable(r: Range<StreamVersion>) -> bool {
    &&& i32::MIN <= r.start <= i32::MAX
    &&& i32::MIN <= r.end - 1 <= i32::MAX
}

/// The inclusive pair that stands for a half-open range.
pub open spec fn spec_range_to_parts(r: Range<StreamVersion>) -> (i32, i32) {
    (r.start as i32, (r.end - 1) as i32)
}

/// The failure that a result code stands for. `Success` and
/// `InvalidTransaction` stand for none: where a failure is expected they make
/// the response malformed.
pub open spec fn failure_of(code: OperationResult) -> Result<WriteEventsFailure, MalformedResponse> {
    match code {
        OperationResult::Success => Err(MalformedResponse::UnexpectedResult(code)),
        OperationResult::InvalidTransaction => Err(MalformedResponse::UnexpectedResult(code)),
        OperationResult::PrepareTimeout => Ok(WriteEventsFailure::PrepareTimeout),
        OperationResult::CommitTimeout => Ok(WriteEventsFailure::CommitTimeout),
        OperationResult::ForwardTimeout => Ok(WriteEventsFailure::ForwardTimeout),
        OperationResult::WrongExpectedVersion => Ok(WriteEventsFailure::WrongExpectedVersion),
        OperationResult::StreamDeleted => Ok(WriteEventsFailure::StreamDeleted),
        OperationResult::AccessDenied => Ok(WriteEventsFailure::AccessDenied),
    }
}

/// The result code that a failure is written as.
pub open spec fn code_of(failure: WriteEventsFailure) -> OperationResult {
    match failure {
        WriteEventsFailure::PrepareTimeout => OperationResult::PrepareTimeout,
        WriteEventsFailure::CommitTimeout => OperationResult::CommitTimeout,
        WriteEventsFailure::ForwardTimeout => OperationResult::ForwardTimeout,
        WriteEventsFailure::WrongExpectedVersion => OperationResult::WrongExpectedVersion,
        WriteEventsFailure::StreamDeleted => OperationResult::StreamDeleted,
        WriteEventsFailure::AccessDenied => OperationResult::AccessDenied,
    }
}

/// What a received record means.
pub open spec fn outcome_of(rec: WriteEventsCompletedRecord) -> Result<
    Result<WriteEventsCompleted, WriteEventsFailure>,
    MalformedResponse,
> {
    match rec.result {
        None => Err(MalformedResponse::MissingResult),
        Some(OperationResult::Success) => Ok(
            Ok(
                WriteEventsCompleted {
                    event_numbers: spec_range_from_parts(
                        rec.first_event_number,
                        rec.last_event_number,
                    ),
                    prepare_position: rec.prepare_position,
                    commit_position: rec.commit_position,
                },
            ),
        ),
        Some(code) => match failure_of(code) {
            Ok(failure) => Ok(Err(failure)),
            Err(e) => Err(e),
        },
    }
}

/// The record that a successful answer is written as.
pub open spec fn completed_record(c: WriteEventsCompleted) -> WriteEventsCompletedRecord {
    WriteEventsCompletedRecord {
        result: Some(OperationResult::Success),
        first_event_number: spec_range_to_parts(c.event_numbers).0,
        last_event_number: spec_range_to_parts(c.event_numbers).1,
        prepare_position: c.prepare_position,
        commit_position: c.commit_position,
    }
}

/// The record that a failure is written as.
pub open spec fn failure_record(f: WriteEventsFailure) -> WriteEventsCompletedRecord {
    WriteEventsCompletedRecord {
        result: Some(code_of(f)),
        first_event_number: -1i32,
        last_event_number: -1i32,
        prepare_position: None,
        commit_position: None,
    }
}

/// Turns the inclusive pair of the wire into a half-open range.
pub fn range_from_parts(first: i32, last: i32) -> (r: Range<StreamVersion>)
    ensures
        r == spec_range_from_parts(first, last),
        r.start == first,
        r.end == last + 1,
{
    let start: i64 = first as i64;
    let end: i64 = last as i64 + 1;
    Range { start, end }
}

/// Turns a half-open range into the inclusive pair of the wire.
pub fn range_to_parts(r: &Range<StreamVersion>) -> (parts: (i32, i32))
    requires
        representable(*r),
    ensures
        parts == spec_range_to_parts(*r),
        parts.0 == r.start,
        parts.1 == r.end - 1,
{
    let first: i32 = r.start as i32;
    let last: i32 = (r.end - 1) as i32;
    (first, last)
}

/// Whether a half-open range can be written as an inclusive pair on the wire.
pub fn is_representable(r: &Range<StreamVersion>) -> (b: bool)
    ensures
        b == representable(*r),
{
    let lo: i64 = -2147483648i64;
    let hi: i64 = 2147483647i64;
    lo <= r.start && r.start <= hi && lo < r.end && r.end <= hi + 1
}

/// Interprets a received record: a success, a failure, or a record that no
/// well-behaved server sends.
pub fn outcome_from_record(rec: &WriteEventsCompletedRecord) -> (r: Result<
    Result<WriteEventsCompleted, WriteEventsFailure>,
    MalformedResponse,
>)
    ensures
        r == outcome_of(*rec),
        r matches Ok(Ok(completed)) ==> completed.well_formed(),
{
    match rec.result {
        None => Err(MalformedResponse::MissingResult),
        Some(OperationResult::Success) => Ok(
            Ok(
                WriteEventsCompleted {
                    event_numbers: range_from_parts(rec.first_event_number, rec.last_event_number),
                    prepare_position: rec.prepare_position,
                    commit_position: rec.commit_position,
                },
            ),
        ),
        Some(code) => match WriteEventsFailure::from_operation_result(code) {
            Ok(failure) => Ok(Err(failure)),
            Err(e) => Err(e),
        },
    }
}

impl WriteEventsCompleted {
    /// Whether the event numbers fit the wire.
    pub open spec fn well_formed(&self) -> bool {
        representable(self.event_numbers)
    }

    /// The record that this answer is written as.
    pub fn as_message_write(&self) -> (rec: WriteEventsCompletedRecord)
        requires
            self.well_formed(),
        ensures
            rec == completed_record(*self),
    {
        let parts = range_to_parts(&self.event_numbers);
        WriteEventsCompletedRecord {
            result: Some(OperationResult::Success),
            first_event_number: parts.0,
            last_event_number: parts.1,
            prepare_position: self.prepare_position,
            commit_position: self.commit_position,
        }
    }
}

impl WriteEventsFailure {
    /// Whether the request failed in a way that a retry may resolve.
    pub open spec fn transient(self) -> bool {
        self is PrepareTimeout || self is CommitTimeout || self is ForwardTimeout
    }

    /// The text that explains a failure.
    pub open spec fn spec_description(self) -> Seq<char> {
        match self {
            WriteEventsFailure::PrepareTimeout => "Internal server timeout, should be retried"@,
            WriteEventsFailure::CommitTimeout => "Internal server timeout, should be retried"@,
            WriteEventsFailure::ForwardTimeout =>
                "Server timed out while awaiting response to forwarded request, should be retried"@,
            WriteEventsFailure::WrongExpectedVersion =>
                "Stream version was not expected, optimistic locking failure"@,
            WriteEventsFailure::StreamDeleted => "Stream had been deleted"@,
            WriteEventsFailure::AccessDenied => "Access to stream was denied"@,
        }
    }

    /// Return `true` if the operation failed in a transient way that might be resolved by
    /// retrying.
    pub fn is_transient(&self) -> (b: bool)
        ensures
            b == self.transient(),
            b <==> (*self == WriteEventsFailure::PrepareTimeout || *self
                == WriteEventsFailure::CommitTimeout || *self == WriteEventsFailure::ForwardTimeout),
    {
        match *self {
            WriteEventsFailure::PrepareTimeout
            | WriteEventsFailure::CommitTimeout
            | WriteEventsFailure::ForwardTimeout => true,
            _ => false,
        }
    }

    /// The failure that a result code stands for. `Success` and
    /// `InvalidTransaction` stand for none and are handed back as a malformed
    /// response.
    pub fn from_operation_result(code: OperationResult) -> (r: Result<
        WriteEventsFailure,
        MalformedResponse,
    >)
        ensures
            r == failure_of(code),
            r is Err <==> (code == OperationResult::Success || code
                == OperationResult::InvalidTransaction),
            r is Err ==> r == Err::<WriteEventsFailure, MalformedResponse>(
                MalformedResponse::UnexpectedResult(code),
            ),
    {
        match code {
            OperationResult::Success => Err(MalformedResponse::UnexpectedResult(code)),
            OperationResult::InvalidTransaction => Err(MalformedResponse::UnexpectedResult(code)),
            OperationResult::PrepareTimeout => Ok(WriteEventsFailure::PrepareTimeout),
            OperationResult::CommitTimeout => Ok(WriteEventsFailure::CommitTimeout),
            OperationResult::ForwardTimeout => Ok(WriteEventsFailure::ForwardTimeout),
            OperationResult::WrongExpectedVersion => Ok(WriteEventsFailure::WrongExpectedVersion),
            OperationResult::StreamDeleted => Ok(WriteEventsFailure::StreamDeleted),
            OperationResult::AccessDenied => Ok(WriteEventsFailure::AccessDenied),
        }
    }

    /// The result code that this failure is written as.
    pub fn to_operation_result(self) -> (code: OperationResult)
        ensures
            code == code_of(self),
    {
        match self {
            WriteEventsFailure::PrepareTimeout => OperationResult::PrepareTimeout,
            WriteEventsFailure::CommitTimeout => OperationResult::CommitTimeout,
            WriteEventsFailure::ForwardTimeout => OperationResult::ForwardTimeout,
            WriteEventsFailure::WrongExpectedVersion => OperationResult::WrongExpectedVersion,
            WriteEventsFailure::StreamDeleted => OperationResult::StreamDeleted,
            WriteEventsFailure::AccessDenied => OperationResult::AccessDenied,
        }
    }

    /// The record that this failure is written as.
    pub fn as_message_write(&self) -> (rec: WriteEventsCompletedRecord)
        ensures
            rec == failure_record(*self),
    {
        WriteEventsCompletedRecord {
            result: Some(self.to_operation_result()),
            first_event_number: -1,
            last_event_number: -1,
            prepare_position: None,
            commit_position: None,
        }
    }

    /// A sentence that explains the failure.
    pub fn description(&self) -> (text: &'static str)
        ensures
            text@ == self.spec_description(),
    {
        match *self {
            WriteEventsFailure::PrepareTimeout => "Internal server timeout, should be retried",
            WriteEventsFailure::CommitTimeout => "Internal server timeout, should be retried",
            WriteEventsFailure::ForwardTimeout =>
                "Server timed out while awaiting response to forwarded request, should be retried",
            WriteEventsFailure::WrongExpectedVersion =>
                "Stream version was not expected, optimistic locking failure",
            WriteEventsFailure::StreamDeleted => "Stream had been deleted",
            WriteEventsFailure::AccessDenied => "Access to stream was denied",
        }
    }
}

/// An inclusive pair of event numbers `first <= last` becomes a non-empty
/// half-open range that fits the wire, and comes back from it unchanged.
pub proof fn lemma_range_round_trip(first: i32, last: i32)
    requires
        first <= last,
    ensures
        representable(spec_range_from_parts(first, last)),
        spec_range_to_parts(spec_range_from_parts(first, last)) == (first, last),
        spec_range_from_parts(first, last).start < spec_range_from_parts(first, last).end,
{
}

/// A half-open range that fits the wire survives the way through an inclusive
/// pair unchanged.
pub proof fn lemma_parts_round_trip(r: Range<StreamVersion>)
    requires
        representable(r),
    ensures
        spec_range_from_parts(spec_range_to_parts(r).0, spec_range_to_parts(r).1) == r,
{
}

/// A failure survives the way through its result code unchanged, and the
/// result codes that stand for a failure are written back as themselves.
pub proof fn lemma_failure_code_round_trip(f: WriteEventsFailure, code: OperationResult)
    ensures
        failure_of(code_of(f)) == Ok::<WriteEventsFailure, MalformedResponse>(f),
        failure_of(code) is Ok ==> code_of(failure_of(code).unwrap()) == code,
{
}

/// The record written for a successful answer is read back as that answer.
pub proof fn lemma_completed_record_round_trip(c: WriteEventsCompleted)
    requires
        c.well_formed(),
    ensures
        outcome_of(completed_record(c)) == Ok::<
            Result<WriteEventsCompleted, WriteEventsFailure>,
            MalformedResponse,
        >(Ok(c)),
{
    lemma_parts_round_trip(c.event_numbers);
}

/// The record written for a failure is read back as that failure.
pub proof fn lemma_failure_record_round_trip(f: WriteEventsFailure)
    ensures
        outcome_of(failure_record(f)) == Ok::<
            Result<WriteEventsCompleted, WriteEventsFailure>,
            MalformedResponse,
        >(Err(f)),
{
}

} // verus!
