//! Errors, and the shape in which clients see them.
//!
//! A client sees
//!
//! ```json
//! {
//!   "type": "error",
//!   "error": {
//!     "type": "invalid_request_error",
//!     "message": "..."
//!   }
//! }
//! ```
//!
//! | Cause | `error.type` | HTTP |
//! |-------|--------------|------|
//! | Authentication | `authentication_error` | 401 |
//! | Permission / missing scope | `permission_error` | 403 |
//! | Validation / bad input | `invalid_request_error` | 400 |
//! | Rate limit | `rate_limit_error` | 429 |
//! | Provider overloaded | `overloaded_error` | 529 |
//! | Timeout | `api_error` | 504 |
//! | Unexpected | `api_error` | 500 |
//! | Unimplemented | `not_implemented_error` | 501 |
use crate::json::{Json, JsonEntry, JsonView};
use crate::text::owned;
use vstd::prelude::*;

verus! {

pub const BAD_REQUEST: u16 = 400;

pub const UNAUTHORIZED: u16 = 401;

pub const FORBIDDEN: u16 = 403;

pub const REQUEST_TIMEOUT: u16 = 408;

pub const TOO_MANY_REQUESTS: u16 = 429;

pub const INTERNAL_SERVER_ERROR: u16 = 500;

pub const NOT_IMPLEMENTED: u16 = 501;

pub const BAD_GATEWAY: u16 = 502;

pub const SERVICE_UNAVAILABLE: u16 = 503;

pub const GATEWAY_TIMEOUT: u16 = 504;

pub const OVERLOADED: u16 = 529;

// ---------------------------------------------------------------------------
// Errors of the gateway
// ---------------------------------------------------------------------------

/// What went wrong.
#[derive(Debug)]
pub enum ErrorDetails {
    InvalidRequest { message: String },
    InternalError { message: String },
    NotImplemented { message: String },
    /// An error of the inference engine, with the HTTP status that it stands for.
    Engine { status: u16, message: String },
}

/// An error of the gateway.
#[derive(Debug)]
pub struct Error {
    pub details: ErrorDetails,
}

pub struct ErrorView {
    pub status: u16,
    pub message: Seq<char>,
}

impl DeepView for Error {
    type V = ErrorView;

    open spec fn deep_view(&self) -> ErrorView {
        match self.details {
            ErrorDetails::InvalidRequest { message } => invalid(message@),
            ErrorDetails::InternalError { message } => internal(message@),
            ErrorDetails::NotImplemented { message } => ErrorView {
                status: NOT_IMPLEMENTED,
                message: message@,
            },
            ErrorDetails::Engine { status, message } => ErrorView { status, message: message@ },
        }
    }
}

/// The error of an invalid request.
pub open spec fn invalid(message: Seq<char>) -> ErrorView {
    ErrorView { status: BAD_REQUEST, message }
}

/// The error of a fault of the gateway.
pub open spec fn internal(message: Seq<char>) -> ErrorView {
    ErrorView { status: INTERNAL_SERVER_ERROR, message }
}

impl Error {
    pub fn new(details: ErrorDetails) -> (r: Error)
        ensures
            r.details == details,
    {
        Error { details }
    }

    /// The error of an invalid request.
    pub fn invalid_request(message: String) -> (r: Error)
        ensures
            r.deep_view() == invalid(message@),
    {
        Error { details: ErrorDetails::InvalidRequest { message } }
    }

    /// The HTTP status that the error stands for.
    pub fn status_code(&self) -> (r: u16)
        ensures
            r == self.deep_view().status,
    {
        match &self.details {
            ErrorDetails::InvalidRequest { .. } => BAD_REQUEST,
            ErrorDetails::InternalError { .. } => INTERNAL_SERVER_ERROR,
            ErrorDetails::NotImplemented { .. } => NOT_IMPLEMENTED,
            ErrorDetails::Engine { status, .. } => *status,
        }
    }

    /// The message of the error.
    pub fn to_string(&self) -> (r: String)
        ensures
            r@ == self.deep_view().message,
    {
        match &self.details {
            ErrorDetails::InvalidRequest { message } => message.clone(),
            ErrorDetails::InternalError { message } => message.clone(),
            ErrorDetails::NotImplemented { message } => message.clone(),
            ErrorDetails::Engine { message, .. } => message.clone(),
        }
    }
}

// ---------------------------------------------------------------------------
// What clients see
// ---------------------------------------------------------------------------

/// The inner error object.
#[derive(Debug)]
pub struct AnthropicError {
    pub message: String,
    pub error_type: Option<&'static str>,
}

/// The body of an error response.
#[derive(Debug)]
pub struct AnthropicErrorBody {
    pub body_type: &'static str,
    pub error: AnthropicError,
}

pub struct ErrorBodyView {
    pub body_type: Seq<char>,
    pub message: Seq<char>,
    pub error_type: Option<Seq<char>>,
}

impl DeepView for AnthropicErrorBody {
    type V = ErrorBodyView;

    open spec fn deep_view(&self) -> ErrorBodyView {
        ErrorBodyView {
            body_type: self.body_type@,
            message: self.error.message@,
            error_type: match self.error.error_type {
                Some(name) => Some(name@),
                None => None,
            },
        }
    }
}

/// The body of an error of a given type.
pub open spec fn error_body(error_type: Seq<char>, message: Seq<char>) -> ErrorBodyView {
    ErrorBodyView { body_type: "error"@, message, error_type: Some(error_type) }
}

/// The JSON form of an error body. A type that is not given is left out.
pub open spec fn error_json(body: ErrorBodyView) -> JsonView {
    let message = seq![("message"@, JsonView::String(body.message))];
    let inner = match body.error_type {
        Some(name) => message.push(("type"@, JsonView::String(name))),
        None => message,
    };
    JsonView::Object(
        seq![("type"@, JsonView::String(body.body_type)), ("error"@, JsonView::Object(inner))],
    )
}

impl AnthropicErrorBody {
    fn of_type(error_type: &'static str, message: &str) -> (r: AnthropicErrorBody)
        ensures
            r.deep_view() == error_body(error_type@, message@),
    {
        AnthropicErrorBody {
            body_type: "error",
            error: AnthropicError { message: owned(message), error_type: Some(error_type) },
        }
    }

    /// The error of invalid client input.
    pub fn invalid_request(message: &str) -> (r: AnthropicErrorBody)
        ensures
            r.deep_view() == error_body("invalid_request_error"@, message@),
    {
        Self::of_type("invalid_request_error", message)
    }

    /// The error of a failed authentication.
    pub fn authentication_error(message: &str) -> (r: AnthropicErrorBody)
        ensures
            r.deep_view() == error_body("authentication_error"@, message@),
    {
        Self::of_type("authentication_error", message)
    }

    /// The error of a missing permission.
    pub fn permission_error(message: &str) -> (r: AnthropicErrorBody)
        ensures
            r.deep_view() == error_body("permission_error"@, message@),
    {
        Self::of_type("permission_error", message)
    }

    /// The error of a client that sends too many requests.
    pub fn rate_limit_error(message: &str) -> (r: AnthropicErrorBody)
        ensures
            r.deep_view() == error_body("rate_limit_error"@, message@),
    {
        Self::of_type("rate_limit_error", message)
    }

    /// The error of a provider that is at capacity.
    pub fn overloaded_error(message: &str) -> (r: AnthropicErrorBody)
        ensures
            r.deep_view() == error_body("overloaded_error"@, message@),
    {
        Self::of_type("overloaded_error", message)
    }

    /// The error of a fault on the server's side.
    pub fn api_error(message: &str) -> (r: AnthropicErrorBody)
        ensures
            r.deep_view() == error_body("api_error"@, message@),
    {
        Self::of_type("api_error", message)
    }

    /// The error of a feature that is not implemented.
    pub fn unimplemented(message: &str) -> (r: AnthropicErrorBody)
        ensures
            r.deep_view() == error_body("not_implemented_error"@, message@),
    {
        Self::of_type("not_implemented_error", message)
    }

    /// The JSON form of the body.
    pub fn to_json(&self) -> (r: Json)
        ensures
            r@ == error_json(self.deep_view()),
    {
        let mut inner: Vec<JsonEntry> = vec![
            JsonEntry::new("message", Json::text(self.error.message.as_str())),
        ];
        if let Some(name) = self.error.error_type {
            inner.push(JsonEntry::new("type", Json::text(name)));
        }
        let ghost expected = error_json(self.deep_view());
        assert(inner.deep_view() =~= expected->Object_0[1].1->Object_0);
        let outer: Vec<JsonEntry> = vec![
            JsonEntry::new("type", Json::text(self.body_type)),
            JsonEntry::new("error", Json::object(inner)),
        ];
        assert(outer.deep_view() =~= expected->Object_0);
        Json::object(outer)
    }
}

/// An error response: its body and its HTTP status.
#[derive(Debug)]
pub struct AnthropicErrorResponse(pub AnthropicErrorBody, pub u16);

pub struct ErrorResponseView {
    pub body: ErrorBodyView,
    pub status: u16,
}

impl DeepView for AnthropicErrorResponse {
    type V = ErrorResponseView;

    open spec fn deep_view(&self) -> ErrorResponseView {
        ErrorResponseView { body: self.0.deep_view(), status: self.1 }
    }
}

/// The response to an invalid request.
pub open spec fn invalid_response(message: Seq<char>) -> ErrorResponseView {
    ErrorResponseView {
        body: error_body("invalid_request_error"@, message),
        status: BAD_REQUEST,
    }
}

/// The response to a fault on the server's side.
pub open spec fn fault_response(message: Seq<char>) -> ErrorResponseView {
    ErrorResponseView { body: error_body("api_error"@, message), status: INTERNAL_SERVER_ERROR }
}

/// The response for an error of the gateway. Errors on the server's side keep a
/// status on which clients try again; what is left is an invalid request.
pub open spec fn response_for(error: ErrorView) -> ErrorResponseView {
    let message = error.message;
    if error.status == UNAUTHORIZED {
        ErrorResponseView {
            body: error_body("authentication_error"@, message),
            status: UNAUTHORIZED,
        }
    } else if error.status == FORBIDDEN {
        ErrorResponseView { body: error_body("permission_error"@, message), status: FORBIDDEN }
    } else if error.status == TOO_MANY_REQUESTS {
        ErrorResponseView {
            body: error_body("rate_limit_error"@, message),
            status: TOO_MANY_REQUESTS,
        }
    } else if error.status == SERVICE_UNAVAILABLE {
        ErrorResponseView { body: error_body("overloaded_error"@, message), status: OVERLOADED }
    } else if error.status == NOT_IMPLEMENTED {
        ErrorResponseView {
            body: error_body("not_implemented_error"@, message),
            status: NOT_IMPLEMENTED,
        }
    } else if error.status == REQUEST_TIMEOUT || error.status == GATEWAY_TIMEOUT {
        ErrorResponseView { body: error_body("api_error"@, message), status: GATEWAY_TIMEOUT }
    } else if error.status == INTERNAL_SERVER_ERROR || error.status == BAD_GATEWAY {
        fault_response(message)
    } else {
        invalid_response(message)
    }
}

impl AnthropicErrorResponse {
    /// A response with status 400.
    pub fn bad_request(body: AnthropicErrorBody) -> (r: AnthropicErrorResponse)
        ensures
            r == AnthropicErrorResponse(body, BAD_REQUEST),
    {
        AnthropicErrorResponse(body, BAD_REQUEST)
    }

    /// A response with status 401.
    pub fn unauthorized(body: AnthropicErrorBody) -> (r: AnthropicErrorResponse)
        ensures
            r == AnthropicErrorResponse(body, UNAUTHORIZED),
    {
        AnthropicErrorResponse(body, UNAUTHORIZED)
    }

    /// A response with status 403.
    pub fn forbidden(body: AnthropicErrorBody) -> (r: AnthropicErrorResponse)
        ensures
            r == AnthropicErrorResponse(body, FORBIDDEN),
    {
        AnthropicErrorResponse(body, FORBIDDEN)
    }

    /// A response with status 429.
    pub fn rate_limited(body: AnthropicErrorBody) -> (r: AnthropicErrorResponse)
        ensures
            r == AnthropicErrorResponse(body, TOO_MANY_REQUESTS),
    {
        AnthropicErrorResponse(body, TOO_MANY_REQUESTS)
    }

    /// A response with status 500.
    pub fn internal_error(body: AnthropicErrorBody) -> (r: AnthropicErrorResponse)
        ensures
            r == AnthropicErrorResponse(body, INTERNAL_SERVER_ERROR),
    {
        AnthropicErrorResponse(body, INTERNAL_SERVER_ERROR)
    }

    /// A response with status 501.
    pub fn unimplemented(body: AnthropicErrorBody) -> (r: AnthropicErrorResponse)
        ensures
            r == AnthropicErrorResponse(body, NOT_IMPLEMENTED),
    {
        AnthropicErrorResponse(body, NOT_IMPLEMENTED)
    }

    /// A response with status 504.
    pub fn timed_out(body: AnthropicErrorBody) -> (r: AnthropicErrorResponse)
        ensures
            r == AnthropicErrorResponse(body, GATEWAY_TIMEOUT),
    {
        AnthropicErrorResponse(body, GATEWAY_TIMEOUT)
    }

    /// A response with status 529.
    pub fn overloaded(body: AnthropicErrorBody) -> (r: AnthropicErrorResponse)
        ensures
            r == AnthropicErrorResponse(body, OVERLOADED),
    {
        AnthropicErrorResponse(body, OVERLOADED)
    }

    /// The response to an invalid request.
    pub fn bad_request_msg(msg: &str) -> (r: AnthropicErrorResponse)
        ensures
            r.deep_view() == invalid_response(msg@),
    {
        Self::bad_request(AnthropicErrorBody::invalid_request(msg))
    }

    /// The response for an error of the gateway.
    pub fn for_error(error: &Error) -> (r: AnthropicErrorResponse)
        ensures
            r.deep_view() == response_for(error.deep_view()),
    {
        let text: String = error.to_string();
        let message: &str = text.as_str();
        match error.status_code() {
            UNAUTHORIZED => Self::unauthorized(AnthropicErrorBody::authentication_error(message)),
            FORBIDDEN => Self::forbidden(AnthropicErrorBody::permission_error(message)),
            TOO_MANY_REQUESTS => Self::rate_limited(AnthropicErrorBody::rate_limit_error(message)),
            SERVICE_UNAVAILABLE => Self::overloaded(AnthropicErrorBody::overloaded_error(message)),
            NOT_IMPLEMENTED => Self::unimplemented(AnthropicErrorBody::unimplemented(message)),
            REQUEST_TIMEOUT | GATEWAY_TIMEOUT => Self::timed_out(
                AnthropicErrorBody::api_error(message),
            ),
            INTERNAL_SERVER_ERROR | BAD_GATEWAY => Self::internal_error(
                AnthropicErrorBody::api_error(message),
            ),
            _ => Self::bad_request(AnthropicErrorBody::invalid_request(message)),
        }
    }
}

impl From<Error> for AnthropicErrorResponse {
    fn from(error: Error) -> (r: AnthropicErrorResponse)
        ensures
            r.deep_view() == response_for(error.deep_view()),
    {
        Self::for_error(&error)
    }
}

impl vstd::std_specs::convert::FromSpecImpl<Error> for AnthropicErrorResponse {
    open spec fn obeys_from_spec() -> bool {
        false
    }

    open spec fn from_spec(error: Error) -> AnthropicErrorResponse {
        arbitrary()
    }
}

/// An error that is the server's fault is answered with a status of the 500s,
/// so that clients try again; any other is answered with one of the 400s.
pub proof fn server_faults_stay_server_faults(error: ErrorView)
    ensures
        ({
            let fault = error.status == REQUEST_TIMEOUT || INTERNAL_SERVER_ERROR <= error.status
                <= GATEWAY_TIMEOUT;
            let status = response_for(error).status;
            &&& fault ==> 500 <= status < 600
            &&& !fault ==> 400 <= status < 500
        }),
{
}

/// The message of an error reaches the client unchanged.
pub proof fn error_message_is_kept(error: ErrorView)
    ensures
        response_for(error).body.message == error.message,
        response_for(error).body.body_type == "error"@,
{
}

/// Each cause of an error has its own type and status.
pub proof fn errors_are_answered_by_their_cause(error: ErrorView)
    ensures
        ({
            let status = response_for(error).status;
            let name = response_for(error).body.error_type;
            if error.status == 401 {
                status == 401 && name == Some("authentication_error"@)
            } else if error.status == 403 {
                status == 403 && name == Some("permission_error"@)
            } else if error.status == 429 {
                status == 429 && name == Some("rate_limit_error"@)
            } else if error.status == 503 {
                status == 529 && name == Some("overloaded_error"@)
            } else if error.status == 501 {
                status == 501 && name == Some("not_implemented_error"@)
            } else if error.status == 408 || error.status == 504 {
                status == 504 && name == Some("api_error"@)
            } else if error.status == 500 || error.status == 502 {
                status == 500 && name == Some("api_error"@)
            } else {
                status == 400 && name == Some("invalid_request_error"@)
            }
        }),
{
}

/// An error of the gateway has the status of its cause and its own message.
pub proof fn errors_have_their_status(error: Error)
    ensures
        match error.details {
            ErrorDetails::InvalidRequest { message } => error.deep_view().status == 400
                && error.deep_view().message == message@,
            ErrorDetails::InternalError { message } => error.deep_view().status == 500
                && error.deep_view().message == message@,
            ErrorDetails::NotImplemented { message } => error.deep_view().status == 501
                && error.deep_view().message == message@,
            ErrorDetails::Engine { status, message } => error.deep_view().status == status
                && error.deep_view().message == message@,
        },
{
}

} // verus!
