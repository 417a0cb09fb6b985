//! Build/step outcome status and the errors of the textual codecs.

use vstd::prelude::*;

use crate::text::str_eq;

verus! {

/// Why a textual input was rejected.  Each codec fails with its own variant,
/// before any process is spawned or telemetry emitted.
#[derive(Clone, Copy, PartialEq, Eq, Structural, Debug)]
pub enum ParseError {
    MalformedId,
    MalformedTimestamp,
    MalformedStatus,
}

impl ParseError {
    /// A human-readable description for the error stream.
    pub fn message(&self) -> (r: &'static str)
        ensures
            *self is MalformedId ==> r@ == "malformed id: expected 48 hexadecimal characters"@,
            *self is MalformedTimestamp ==> r@
                == "malformed timestamp: expected seconds since the Unix epoch"@,
            *self is MalformedStatus ==> r@ == "invalid status; valid are: success, failure"@,
    {
        match self {
            ParseError::MalformedId => "malformed id: expected 48 hexadecimal characters",
            ParseError::MalformedTimestamp => "malformed timestamp: expected seconds since the Unix epoch",
            ParseError::MalformedStatus => "invalid status; valid are: success, failure",
        }
    }
}

/// The reported outcome of a build or step.
#[derive(Clone, Copy, PartialEq, Eq, Structural, Debug)]
pub enum Status {
    Success,
    Failure,
}

/// The textual form of a status: exactly `success` or `failure`.
pub open spec fn spec_status_text(s: Status) -> Seq<char> {
    match s {
        Status::Success => "success"@,
        Status::Failure => "failure"@,
    }
}

/// The binary trace status code a status maps to.
#[derive(Clone, Copy, PartialEq, Eq, Structural, Debug)]
pub enum SpanStatusCode {
    Okay,
    Error,
}

impl Status {
    /// The textual form, used both for parsing round trips and as a
    /// low-cardinality metric label value.
    pub fn as_str(&self) -> (r: &'static str)
        ensures
            r@ == spec_status_text(*self),
    {
        match self {
            Status::Success => "success",
            Status::Failure => "failure",
        }
    }

    /// Parses a status.  Succeeds exactly on the two textual forms.
    pub fn from_str(s: &str) -> (r: Result<Status, ParseError>)
        ensures
            r is Ok <==> (s@ == spec_status_text(Status::Success) || s@ == spec_status_text(
                Status::Failure,
            )),
            r is Ok ==> spec_status_text(r->Ok_0) == s@,
            r is Err ==> r->Err_0 == ParseError::MalformedStatus,
    {
        if str_eq(s, "success") {
            Ok(Status::Success)
        } else if str_eq(s, "failure") {
            Ok(Status::Failure)
        } else {
            Err(ParseError::MalformedStatus)
        }
    }

    /// The status code recorded on a span: success maps to the ok code,
    /// failure to the error code.
    pub fn status_code(&self) -> (r: SpanStatusCode)
        ensures
            r == (match *self {
                Status::Success => SpanStatusCode::Okay,
                Status::Failure => SpanStatusCode::Error,
            }),
    {
        match self {
            Status::Success => SpanStatusCode::Okay,
            Status::Failure => SpanStatusCode::Error,
        }
    }
}

} // verus!
