//! The error that every operation of the service reports, and the shape in
//! which it is shown to a caller.

use vstd::prelude::*;

verus! {

pub const INTERNAL_ERROR: &'static str = "INTERNAL_ERROR";

pub const DATABASE_ERROR: &'static str = "DATABASE_ERROR";

pub const NOT_FOUND: &'static str = "NOT_FOUND";

pub const VALIDATION_ERROR: &'static str = "VALIDATION_ERROR";

pub const EXTERNAL_API_ERROR: &'static str = "EXTERNAL_API_ERROR";

pub const RATE_LIMIT_EXCEEDED: &'static str = "RATE_LIMIT_EXCEEDED";

/// Status line of every answer, failures included: a failure is told in the
/// body, by `ok: false`.
pub const RESPONSE_STATUS: u16 = 200;

/// Code, message and trace identifier, as shown to a caller.
#[derive(Debug)]
pub struct ErrorDetail {
    pub code: String,
    pub message: String,
    pub trace_id: String,
}

/// Body of the answer to a request that failed.
#[derive(Debug)]
pub struct ErrorResponse {
    pub ok: bool,
    pub error: ErrorDetail,
}

/// A failure, with a code for its kind and an identifier to find it in the
/// logs.
#[derive(Debug)]
pub struct ApiError {
    pub code: String,
    pub message: String,
    pub trace_id: String,
}

/// What failed, where the failure comes from one of the outside services.
#[derive(Clone, Copy, Debug, PartialEq, Eq, Structural)]
pub enum FailureKind {
    /// The durable store.
    Database,
    /// An upstream HTTP API.
    Upstream,
    /// The fast store.
    Cache,
    /// Anything else.
    Other,
}

/// The shape of a trace identifier: 36 characters in five groups set apart by
/// hyphens, the third group starting with the version digit 4.
pub open spec fn is_trace_id(s: Seq<char>) -> bool {
    &&& s.len() == 36
    &&& s[8] == '-'
    &&& s[13] == '-'
    &&& s[18] == '-'
    &&& s[23] == '-'
    &&& s[14] == '4'
}

/// How an error reads on one line.
pub open spec fn display_text(code: Seq<char>, message: Seq<char>, trace_id: Seq<char>) -> Seq<
    char,
> {
    "["@ + code + "] "@ + message + " (trace_id: "@ + trace_id + ")"@
}

/// Prefix of the message of a failure of the fast store.
pub open spec fn cache_error_text(detail: Seq<char>) -> Seq<char> {
    "Cache error: "@ + detail
}

/// Code of the error that a failure of `kind` becomes.
pub open spec fn failure_code(kind: FailureKind) -> Seq<char> {
    match kind {
        FailureKind::Database => DATABASE_ERROR@,
        FailureKind::Upstream => EXTERNAL_API_ERROR@,
        FailureKind::Cache => INTERNAL_ERROR@,
        FailureKind::Other => INTERNAL_ERROR@,
    }
}

/// Message of the error that a failure of `kind` becomes.
pub open spec fn failure_message(kind: FailureKind, detail: Seq<char>) -> Seq<char> {
    match kind {
        FailureKind::Cache => cache_error_text(detail),
        _ => detail,
    }
}

/// `uuid::Uuid::new_v4` followed by the identifier's `to_string`: a random
/// version-4 identifier in the hyphenated lower-case form. The digits are
/// random; the contract states the form only.
#[verifier::external_body]
fn new_trace_id() -> (id: String)
    ensures
        is_trace_id(id@),
{
    uuid::Uuid::new_v4().to_string()
}

impl ApiError {
    /// Whether the error has this code and message, and a well-formed trace
    /// identifier.
    pub open spec fn says(self, code: Seq<char>, message: Seq<char>) -> bool {
        self.code@ == code && self.message@ == message && is_trace_id(self.trace_id@)
    }

    /// An error with the given parts.
    pub fn with_trace_id(code: &str, message: &str, trace_id: String) -> (e: ApiError)
        ensures
            e.code@ == code@,
            e.message@ == message@,
            e.trace_id == trace_id,
    {
        ApiError { code: code.to_owned(), message: message.to_owned(), trace_id }
    }

    /// An error with a fresh trace identifier.
    pub fn new(code: &str, message: &str) -> (e: ApiError)
        ensures
            e.code@ == code@,
            e.message@ == message@,
            is_trace_id(e.trace_id@),
    {
        ApiError::with_trace_id(code, message, new_trace_id())
    }

    pub fn internal(message: &str) -> (e: ApiError)
        ensures
            e.code@ == INTERNAL_ERROR@,
            e.message@ == message@,
            is_trace_id(e.trace_id@),
    {
        ApiError::new(INTERNAL_ERROR, message)
    }

    pub fn database(message: &str) -> (e: ApiError)
        ensures
            e.code@ == DATABASE_ERROR@,
            e.message@ == message@,
            is_trace_id(e.trace_id@),
    {
        ApiError::new(DATABASE_ERROR, message)
    }

    pub fn not_found(message: &str) -> (e: ApiError)
        ensures
            e.code@ == NOT_FOUND@,
            e.message@ == message@,
            is_trace_id(e.trace_id@),
    {
        ApiError::new(NOT_FOUND, message)
    }

    pub fn validation(message: &str) -> (e: ApiError)
        ensures
            e.code@ == VALIDATION_ERROR@,
            e.message@ == message@,
            is_trace_id(e.trace_id@),
    {
        ApiError::new(VALIDATION_ERROR, message)
    }

    pub fn external_api(message: &str) -> (e: ApiError)
        ensures
            e.code@ == EXTERNAL_API_ERROR@,
            e.message@ == message@,
            is_trace_id(e.trace_id@),
    {
        ApiError::new(EXTERNAL_API_ERROR, message)
    }

    pub fn rate_limit(message: &str) -> (e: ApiError)
        ensures
            e.code@ == RATE_LIMIT_EXCEEDED@,
            e.message@ == message@,
            is_trace_id(e.trace_id@),
    {
        ApiError::new(RATE_LIMIT_EXCEEDED, message)
    }

    /// The error for a failure of one of the outside services, `detail` being
    /// what that service said.
    pub fn from_failure(kind: FailureKind, detail: &str) -> (e: ApiError)
        ensures
            e.code@ == failure_code(kind),
            e.message@ == failure_message(kind, detail@),
            is_trace_id(e.trace_id@),
    {
        match kind {
            FailureKind::Database => ApiError::database(detail),
            FailureKind::Upstream => ApiError::external_api(detail),
            FailureKind::Cache => {
                let mut message = "Cache error: ".to_owned();
                message.append(detail);
                ApiError::internal(message.as_str())
            },
            FailureKind::Other => ApiError::internal(detail),
        }
    }

    /// The error on one line: code in brackets, message, trace identifier.
    pub fn to_string(&self) -> (s: String)
        ensures
            s@ == display_text(self.code@, self.message@, self.trace_id@),
    {
        let mut s = "[".to_owned();
        s.append(self.code.as_str());
        s.append("] ");
        s.append(self.message.as_str());
        s.append(" (trace_id: ");
        s.append(self.trace_id.as_str());
        s.append(")");
        s
    }

    /// The answer that tells a caller of this error: always status 200, the
    /// failure being told by `ok: false` in the body.
    pub fn into_response(self) -> (r: (u16, ErrorResponse))
        ensures
            r.0 == RESPONSE_STATUS,
            r.1.ok == false,
            r.1.error.code == self.code,
            r.1.error.message == self.message,
            r.1.error.trace_id == self.trace_id,
    {
        (
            RESPONSE_STATUS,
            ErrorResponse {
                ok: false,
                error: ErrorDetail {
                    code: self.code,
                    message: self.message,
                    trace_id: self.trace_id,
                },
            },
        )
    }
}

} // verus!
