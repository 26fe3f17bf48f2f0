//! Errors of the HTTP layer and the responses they turn into.

use crate::json::{text, ArrayBuilder, ObjectBuilder};
use crate::json::{array_value, no_members, object_value, string_value};
use vstd::prelude::*;
use vstd::string::StringExecFns;

verus! {

/// The body of every error response.
#[derive(Debug)]
pub struct ErrorBody {
    pub details: Vec<serde_json::Value>,
    pub message: String,
    pub code: String,
    pub trace_id: String,
    pub timestamp: String,
}

/// An error response: the HTTP status and the body.
#[derive(Debug)]
pub struct ErrorResponse {
    pub status: u16,
    pub body: ErrorBody,
}

/// Application errors, each of which maps to one HTTP response.
#[derive(Debug)]
pub enum AppError {
    Validation { details: Vec<serde_json::Value>, code: String, message: String },
    Conflict { details: Vec<serde_json::Value>, code: String, message: String },
    NotFound { message: String, code: String },
    Unauthorized { message: String, code: String },
    Forbidden { message: String, code: String },
    BadRequest { message: String, code: String },
    /// An error from inside the application, kept as its message.
    Internal(String),
}

/// What replaces the message of an internal error that is not to be shown.
pub const HIDDEN_INTERNAL_MESSAGE: &'static str = "An internal server error occurred";

/// `uuid::Uuid::new_v4`, rendered: a fresh random id. Nothing is stated of it.
/// It panics on a machine that gives no random bytes.
#[verifier::external_body]
fn fresh_trace_id() -> String {
    uuid::Uuid::new_v4().to_string()
}

/// `time::OffsetDateTime::now_utc`, rendered: the time of the call. Nothing is
/// stated of it. It panics on a machine whose clock is beyond the dates that
/// `time` can hold.
#[verifier::external_body]
fn current_timestamp() -> String {
    time::OffsetDateTime::now_utc().to_string()
}

impl AppError {
    /// A validation error with the code `validation_error`.
    pub fn validation(details: Vec<serde_json::Value>, message: &str) -> (error: Self)
        ensures
            error matches AppError::Validation { details: d, code, message: m } && d == details
                && code@ == "validation_error"@ && m@ == message@,
    {
        AppError::Validation {
            details,
            code: "validation_error".to_string(),
            message: message.to_string(),
        }
    }

    /// A conflict error with the code `conflict`.
    pub fn conflict(details: Vec<serde_json::Value>, message: &str) -> (error: Self)
        ensures
            error matches AppError::Conflict { details: d, code, message: m } && d == details
                && code@ == "conflict"@ && m@ == message@,
    {
        AppError::Conflict { details, code: "conflict".to_string(), message: message.to_string() }
    }

    /// A not-found error with the code `not_found`.
    pub fn not_found(message: &str) -> (error: Self)
        ensures
            error matches AppError::NotFound { message: m, code } && code@ == "not_found"@ && m@
                == message@,
    {
        AppError::NotFound { message: message.to_string(), code: "not_found".to_string() }
    }

    /// An unauthorized error with the code `unauthorized`.
    pub fn unauthorized(message: &str) -> (error: Self)
        ensures
            error matches AppError::Unauthorized { message: m, code } && code@ == "unauthorized"@
                && m@ == message@,
    {
        AppError::Unauthorized { message: message.to_string(), code: "unauthorized".to_string() }
    }

    /// A forbidden error with the code `forbidden`.
    pub fn forbidden(message: &str) -> (error: Self)
        ensures
            error matches AppError::Forbidden { message: m, code } && code@ == "forbidden"@ && m@
                == message@,
    {
        AppError::Forbidden { message: message.to_string(), code: "forbidden".to_string() }
    }

    /// A bad-request error with the code `bad_request`.
    pub fn bad_request(message: &str) -> (error: Self)
        ensures
            error matches AppError::BadRequest { message: m, code } && code@ == "bad_request"@
                && m@ == message@,
    {
        AppError::BadRequest { message: message.to_string(), code: "bad_request".to_string() }
    }

    /// The HTTP status that the error is answered with.
    pub open spec fn status_spec(self) -> u16 {
        match self {
            AppError::Validation { .. } => 422,
            AppError::Conflict { .. } => 409,
            AppError::NotFound { .. } => 404,
            AppError::Unauthorized { .. } => 401,
            AppError::Forbidden { .. } => 403,
            AppError::BadRequest { .. } => 400,
            AppError::Internal(_) => 500,
        }
    }

    /// The code that the response carries.
    pub open spec fn code_spec(self) -> Seq<char> {
        match self {
            AppError::Validation { code, .. } => code@,
            AppError::Conflict { code, .. } => code@,
            AppError::NotFound { code, .. } => code@,
            AppError::Unauthorized { code, .. } => code@,
            AppError::Forbidden { code, .. } => code@,
            AppError::BadRequest { code, .. } => code@,
            AppError::Internal(_) => "internal_error"@,
        }
    }

    /// The message of the error itself.
    pub open spec fn message_spec(self) -> Seq<char> {
        match self {
            AppError::Validation { message, .. } => message@,
            AppError::Conflict { message, .. } => message@,
            AppError::NotFound { message, .. } => message@,
            AppError::Unauthorized { message, .. } => message@,
            AppError::Forbidden { message, .. } => message@,
            AppError::BadRequest { message, .. } => message@,
            AppError::Internal(message) => message@,
        }
    }

    /// The message that the response carries: that of the error, but for an
    /// internal error whose message is to be hidden.
    pub open spec fn shown_message(self, hide_internal: bool) -> Seq<char> {
        if hide_internal && self is Internal {
            HIDDEN_INTERNAL_MESSAGE@
        } else {
            self.message_spec()
        }
    }

    /// The details that the response carries: those of a validation or
    /// conflict error, none for the other errors.
    pub open spec fn details_spec(self) -> Seq<serde_json::Value> {
        match self {
            AppError::Validation { details, .. } => details@,
            AppError::Conflict { details, .. } => details@,
            _ => Seq::empty(),
        }
    }

    /// What the error is called in a log line or a report: its kind, a colon
    /// and its message; an internal error is called by its message alone.
    pub open spec fn description_spec(self) -> Seq<char> {
        match self {
            AppError::Validation { message, .. } => "validation error: "@ + message@,
            AppError::Conflict { message, .. } => "conflict: "@ + message@,
            AppError::NotFound { message, .. } => "not found: "@ + message@,
            AppError::Unauthorized { message, .. } => "unauthorized: "@ + message@,
            AppError::Forbidden { message, .. } => "forbidden: "@ + message@,
            AppError::BadRequest { message, .. } => "bad request: "@ + message@,
            AppError::Internal(message) => message@,
        }
    }

    /// The HTTP status that the error is answered with.
    pub fn status_code(&self) -> (status: u16)
        ensures
            status == self.status_spec(),
    {
        match self {
            AppError::Validation { .. } => 422,
            AppError::Conflict { .. } => 409,
            AppError::NotFound { .. } => 404,
            AppError::Unauthorized { .. } => 401,
            AppError::Forbidden { .. } => 403,
            AppError::BadRequest { .. } => 400,
            AppError::Internal(_) => 500,
        }
    }

    /// What the error is called in a log line or a report.
    pub fn description(&self) -> (described: String)
        ensures
            described@ == self.description_spec(),
    {
        match self {
            AppError::Validation { message, .. } => String::from_str("validation error: ").concat(
                message.as_str(),
            ),
            AppError::Conflict { message, .. } => String::from_str("conflict: ").concat(
                message.as_str(),
            ),
            AppError::NotFound { message, .. } => String::from_str("not found: ").concat(
                message.as_str(),
            ),
            AppError::Unauthorized { message, .. } => String::from_str("unauthorized: ").concat(
                message.as_str(),
            ),
            AppError::Forbidden { message, .. } => String::from_str("forbidden: ").concat(
                message.as_str(),
            ),
            AppError::BadRequest { message, .. } => String::from_str("bad request: ").concat(
                message.as_str(),
            ),
            AppError::Internal(message) => message.clone(),
        }
    }

    /// The response for the error, given the id of the trace and the time.
    pub fn respond(self, trace_id: String, timestamp: String, hide_internal: bool) -> (response:
        ErrorResponse)
        ensures
            response.status == self.status_spec(),
            response.body.code@ == self.code_spec(),
            response.body.message@ == self.shown_message(hide_internal),
            response.body.details@ == self.details_spec(),
            response.body.trace_id == trace_id,
            response.body.timestamp == timestamp,
    {
        let (status, code, message, details): (
            u16,
            String,
            String,
            Vec<serde_json::Value>,
        ) = match self {
            AppError::Validation { details, code, message } => (422, code, message, details),
            AppError::Conflict { details, code, message } => (409, code, message, details),
            AppError::NotFound { message, code } => (404, code, message, Vec::new()),
            AppError::Unauthorized { message, code } => (401, code, message, Vec::new()),
            AppError::Forbidden { message, code } => (403, code, message, Vec::new()),
            AppError::BadRequest { message, code } => (400, code, message, Vec::new()),
            AppError::Internal(message) => (
                500,
                "internal_error".to_string(),
                message,
                Vec::new(),
            ),
        };
        let message = if hide_internal && status == 500 {
            HIDDEN_INTERNAL_MESSAGE.to_string()
        } else {
            message
        };
        ErrorResponse { status, body: ErrorBody { details, message, code, trace_id, timestamp } }
    }

    /// The response for the error, with a fresh trace id and the current time.
    pub fn into_response(self, hide_internal: bool) -> (response: ErrorResponse)
        ensures
            response.status == self.status_spec(),
            response.body.code@ == self.code_spec(),
            response.body.message@ == self.shown_message(hide_internal),
            response.body.details@ == self.details_spec(),
    {
        let trace_id = fresh_trace_id();
        let timestamp = current_timestamp();
        self.respond(trace_id, timestamp, hide_internal)
    }
}

impl ErrorBody {
    /// The body as JSON: one member `error` that holds code, message, details,
    /// trace id and timestamp.
    pub open spec fn json_spec(self) -> serde_json::Value {
        object_value(
            no_members().insert(
                "error"@,
                object_value(
                    no_members().insert("code"@, string_value(self.code@)).insert(
                        "message"@,
                        string_value(self.message@),
                    ).insert("details"@, array_value(self.details@)).insert(
                        "trace_id"@,
                        string_value(self.trace_id@),
                    ).insert("timestamp"@, string_value(self.timestamp@)),
                ),
            ),
        )
    }

    /// The body as JSON.
    pub fn to_json(&self) -> (json: serde_json::Value)
        ensures
            json == self.json_spec(),
    {
        let mut details = ArrayBuilder::new();
        let mut i: usize = 0;
        while i < self.details.len()
            invariant
                i <= self.details@.len(),
                details.items() == self.details@.take(i as int),
            decreases self.details.len() - i,
        {
            details = details.with(self.details[i].clone());
            assert(self.details@.take(i as int + 1) =~= self.details@.take(i as int).push(
                self.details@[i as int],
            ));
            i += 1;
        }
        assert(self.details@.take(i as int) =~= self.details@);
        let error = ObjectBuilder::new().with("code", text(self.code.as_str())).with(
            "message",
            text(self.message.as_str()),
        ).with("details", details.build()).with("trace_id", text(self.trace_id.as_str())).with(
            "timestamp",
            text(self.timestamp.as_str()),
        ).build();
        ObjectBuilder::new().with("error", error).build()
    }
}

} // verus!
