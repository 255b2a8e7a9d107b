//! The failures that a request handler can end in, and the rule that gives
//! each of them an HTTP status.
use crate::file_validator::Violation;
use crate::result::{MultipartError, MultipartErrorView};
use vstd::prelude::*;

verus! {

/// The status of a request that was malformed.
pub const BAD_REQUEST: u16 = 400;

/// The status of an upload whose type or extension is not accepted.
pub const UNSUPPORTED_MEDIA_TYPE: u16 = 415;

/// The status of a failure that the client did not cause.
pub const INTERNAL_SERVER_ERROR: u16 = 500;

/// What an application message says to a client: a status and a text.
#[derive(Debug)]
pub struct AppNotice {
    pub status: u16,
    pub message: String,
}

/// What lies inside an application error, as far as the HTTP layer looks.
#[derive(Debug)]
pub enum AppFailure {
    /// An application message.
    Message(AppNotice),
    /// An application message raised on a blocking thread.
    BlockingMessage(AppNotice),
    /// A blocking task that was cancelled.
    BlockingCanceled,
    /// An HTTP failure that was turned into an application error.
    Http(Box<HttpError>),
    /// A JSON error, with its text.
    Json(String),
    /// Anything else, with its text.
    Other(String),
}

/// A failure of the HTTP layer.
#[derive(Debug)]
pub enum HttpError {
    Std(String),
    AppError(AppFailure),
    AppMessage(AppNotice),
    PayloadError(String),
    Utf8Error(String),
    ValidationError(String),
    MultipartError(MultipartError),
}

pub type AppResult<T> = Result<T, AppFailure>;

/// How a task on a blocking thread failed.
#[derive(Debug)]
pub enum Blocking<E> {
    /// The task failed with its own error.
    Error(E),
    /// The task was cancelled.
    Canceled,
}

/// The status of a multipart failure: a file of the wrong type or extension
/// is an unsupported media type, everything else a bad request.
pub open spec fn multipart_status(e: MultipartErrorView) -> u16 {
    match e {
        MultipartErrorView::ValidationError(err) => match err.error {
            Violation::InvalidFileExtension(_) => UNSUPPORTED_MEDIA_TYPE,
            Violation::InvalidContentType(_) => UNSUPPORTED_MEDIA_TYPE,
            _ => BAD_REQUEST,
        },
        _ => BAD_REQUEST,
    }
}

/// The status of an HTTP failure.
pub open spec fn http_status(e: HttpError) -> u16
    decreases e,
{
    match e {
        HttpError::AppMessage(m) => m.status,
        HttpError::AppError(f) => failure_status(f),
        HttpError::ValidationError(_) => BAD_REQUEST,
        HttpError::PayloadError(_) => BAD_REQUEST,
        HttpError::MultipartError(err) => multipart_status(err@),
        HttpError::Std(_) => INTERNAL_SERVER_ERROR,
        HttpError::Utf8Error(_) => INTERNAL_SERVER_ERROR,
    }
}

/// The status of an application error.
pub open spec fn failure_status(f: AppFailure) -> u16
    decreases f,
{
    match f {
        AppFailure::Message(m) => m.status,
        AppFailure::BlockingMessage(m) => m.status,
        AppFailure::BlockingCanceled => INTERNAL_SERVER_ERROR,
        AppFailure::Http(e) => http_status(*e),
        AppFailure::Json(_) => BAD_REQUEST,
        AppFailure::Other(_) => INTERNAL_SERVER_ERROR,
    }
}

impl AppNotice {
    /// A warning for the client: a bad request with the text `message`.
    pub fn warning(message: String) -> (r: AppNotice)
        ensures
            r.status == BAD_REQUEST,
            r.message == message,
    {
        AppNotice { status: BAD_REQUEST, message }
    }

    /// Tells whether the status stands for success.
    pub fn is_success(&self) -> (r: bool)
        ensures
            r == (200 <= self.status < 300),
    {
        200 <= self.status && self.status < 300
    }
}

/// The status of a multipart failure.
pub fn multipart_status_code(err: &MultipartError) -> (r: u16)
    ensures
        r == multipart_status(err@),
{
    match err {
        MultipartError::ValidationError(err) => match err.error {
            crate::file_validator::ErrorMessage::InvalidFileExtension(_) => UNSUPPORTED_MEDIA_TYPE,
            crate::file_validator::ErrorMessage::InvalidContentType(_) => UNSUPPORTED_MEDIA_TYPE,
            _ => BAD_REQUEST,
        },
        _ => BAD_REQUEST,
    }
}

/// The status of an application error.
pub fn make_status_code(err: &AppFailure) -> (r: u16)
    ensures
        r == failure_status(*err),
    decreases *err,
{
    match err {
        AppFailure::Message(msg) => msg.status,
        AppFailure::BlockingMessage(msg) => msg.status,
        AppFailure::BlockingCanceled => INTERNAL_SERVER_ERROR,
        AppFailure::Http(err) => err.status_code(),
        AppFailure::Json(_) => BAD_REQUEST,
        AppFailure::Other(_) => INTERNAL_SERVER_ERROR,
    }
}

impl HttpError {
    /// This failure as an application error.
    pub fn into_app_error(self) -> (r: AppFailure)
        ensures
            r == AppFailure::Http(Box::new(self)),
    {
        AppFailure::Http(Box::new(self))
    }

    /// The HTTP status that answers this failure.
    pub fn status_code(&self) -> (r: u16)
        ensures
            r == http_status(*self),
        decreases *self,
    {
        match self {
            HttpError::AppMessage(m) => m.status,
            HttpError::AppError(e) => make_status_code(e),
            HttpError::ValidationError(_) => BAD_REQUEST,
            HttpError::PayloadError(_) => BAD_REQUEST,
            HttpError::MultipartError(err) => multipart_status_code(err),
            _ => INTERNAL_SERVER_ERROR,
        }
    }

    /// The failure of a blocking task: its own error, or an internal error
    /// where the task was cancelled.
    pub fn from_blocking(value: Blocking<AppFailure>) -> (r: HttpError)
        ensures
            match value {
                Blocking::Error(e) => r == HttpError::AppError(e),
                Blocking::Canceled => r is AppMessage && r->AppMessage_0.status
                    == INTERNAL_SERVER_ERROR && r->AppMessage_0.message@
                    == "Internal Server Error"@,
            },
    {
        match value {
            Blocking::Error(e) => HttpError::AppError(e),
            Blocking::Canceled => HttpError::AppMessage(
                AppNotice {
                    status: INTERNAL_SERVER_ERROR,
                    message: String::from_str("Internal Server Error"),
                },
            ),
        }
    }
}

/// Every failure has one of the three failure statuses or the status of the
/// application message that it carries.
pub proof fn status_is_total(e: HttpError)
    ensures
        http_status(e) == BAD_REQUEST || http_status(e) == UNSUPPORTED_MEDIA_TYPE || http_status(e)
            == INTERNAL_SERVER_ERROR || carries_message_status(e, http_status(e)),
    decreases e,
{
    match e {
        HttpError::AppError(f) => match f {
            AppFailure::Http(inner) => {
                status_is_total(*inner);
            },
            _ => {},
        },
        _ => {},
    }
}

/// Tells whether `status` is the status of an application message that `e`
/// carries, directly or inside an application error.
pub open spec fn carries_message_status(e: HttpError, status: u16) -> bool
    decreases e,
{
    match e {
        HttpError::AppMessage(m) => m.status == status,
        HttpError::AppError(f) => match f {
            AppFailure::Message(m) => m.status == status,
            AppFailure::BlockingMessage(m) => m.status == status,
            AppFailure::Http(inner) => carries_message_status(*inner, status),
            _ => false,
        },
        _ => false,
    }
}

} // verus!
