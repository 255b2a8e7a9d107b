//! The answers that failures turn into: a status, a message for the client
//! and, for some failures, details.
use crate::error::{
    failure_status, http_status, make_status_code, multipart_status, multipart_status_code, AppFailure, AppNotice, AppResult, Blocking,
    HttpError, BAD_REQUEST, INTERNAL_SERVER_ERROR,
};
use crate::result::message_text;
use vstd::prelude::*;

verus! {

/// The answer to a request: a status, a message and, sometimes, details.
#[derive(Debug)]
pub struct Reply {
    pub status: u16,
    pub message: String,
    pub data: Option<String>,
}

/// An answer with its texts as character sequences.
pub struct ReplyView {
    pub status: u16,
    pub message: Seq<char>,
    pub data: Option<Seq<char>>,
}

impl View for Reply {
    type V = ReplyView;

    open spec fn view(&self) -> ReplyView {
        ReplyView {
            status: self.status,
            message: self.message@,
            data: match self.data {
                Some(d) => Some(d@),
                None => None,
            },
        }
    }
}

/// The answer to a failure of which the client learns nothing.
pub open spec fn internal_reply() -> ReplyView {
    ReplyView { status: INTERNAL_SERVER_ERROR, message: "Internal Server Error"@, data: None }
}

/// Tells whether `r` answers the HTTP failure `e`: an application message
/// answers with its own status and text; a validation or payload failure is
/// a bad request with the failure's text as details; an upload failure has
/// its message as details and is an unsupported media type where a file's
/// type or extension is refused, a bad request otherwise; anything else is
/// an internal error.
pub open spec fn answers_http(e: HttpError, r: ReplyView) -> bool
    decreases e,
{
    match e {
        HttpError::AppMessage(m) => r == ReplyView {
            status: m.status,
            message: m.message@,
            data: None,
        },
        HttpError::AppError(f) => answers_failure(f, r),
        HttpError::ValidationError(errors) => r == ReplyView {
            status: BAD_REQUEST,
            message: "Validation Error"@,
            data: Some(errors@),
        },
        HttpError::PayloadError(text) => r == ReplyView {
            status: BAD_REQUEST,
            message: "Payload Error"@,
            data: Some(text@),
        },
        HttpError::MultipartError(err) => {
            &&& r.status == multipart_status(err@)
            &&& r.message == "File Upload Error"@
            &&& r.data is Some
            &&& !err.is_foreign() ==> r.data == Some(message_text(err@))
        },
        HttpError::Std(_) => r == internal_reply(),
        HttpError::Utf8Error(_) => r == internal_reply(),
    }
}

/// Tells whether `r` answers the application error `f`: a message answers
/// with its own status and text, a JSON error is a bad request that says
/// nothing of the data, anything else is an internal error.
pub open spec fn answers_failure(f: AppFailure, r: ReplyView) -> bool
    decreases f,
{
    match f {
        AppFailure::Message(m) => r == ReplyView {
            status: m.status,
            message: m.message@,
            data: None,
        },
        AppFailure::BlockingMessage(m) => r == ReplyView {
            status: m.status,
            message: m.message@,
            data: None,
        },
        AppFailure::BlockingCanceled => r == internal_reply(),
        AppFailure::Http(e) => answers_http(*e, r),
        AppFailure::Json(_) => r == ReplyView {
            status: BAD_REQUEST,
            message: "Data processing error"@,
            data: None,
        },
        AppFailure::Other(_) => r == internal_reply(),
    }
}

/// An answer that carries a message only.
pub fn make_json_response(body: String, status: u16) -> (r: Reply)
    ensures
        r@ == (ReplyView { status, message: body@, data: None }),
{
    Reply { status, message: body, data: None }
}

/// The answer to a failure of which the client learns nothing.
pub fn internal_response() -> (r: Reply)
    ensures
        r@ == internal_reply(),
{
    make_json_response(String::from_str("Internal Server Error"), INTERNAL_SERVER_ERROR)
}

/// A bad request whose details are `data`.
fn bad_request(data: String, message: &str) -> (r: Reply)
    ensures
        r@ == (ReplyView { status: BAD_REQUEST, message: message@, data: Some(data@) }),
{
    Reply { status: BAD_REQUEST, message: message.to_owned(), data: Some(data) }
}

/// The answer to an application error.
pub fn make_response(err: &AppFailure) -> (r: Reply)
    ensures
        answers_failure(*err, r@),
    decreases *err,
{
    let status = make_status_code(err);
    match err {
        AppFailure::Message(msg) => make_json_response(msg.message.clone(), status),
        AppFailure::BlockingMessage(msg) => make_json_response(msg.message.clone(), status),
        AppFailure::BlockingCanceled => internal_response(),
        AppFailure::Http(err) => make_http_error_response(err),
        AppFailure::Json(_) => make_json_response(
            String::from_str("Data processing error"),
            BAD_REQUEST,
        ),
        AppFailure::Other(_) => internal_response(),
    }
}

/// The answer to an HTTP failure.
pub fn make_http_error_response(err: &HttpError) -> (r: Reply)
    ensures
        answers_http(*err, r@),
    decreases *err,
{
    match err {
        HttpError::AppMessage(m) => make_json_response(m.message.clone(), m.status),
        HttpError::AppError(e) => make_response(e),
        HttpError::ValidationError(e) => bad_request(e.clone(), "Validation Error"),
        HttpError::PayloadError(e) => bad_request(e.clone(), "Payload Error"),
        HttpError::MultipartError(err) => Reply {
            status: multipart_status_code(err),
            message: String::from_str("File Upload Error"),
            data: Some(err.message()),
        },
        _ => internal_response(),
    }
}

pub type HttpResult = Result<Reply, HttpError>;

/// The message for a failure of which the client learns nothing.
pub fn internal_notice() -> (r: AppNotice)
    ensures
        r.status == INTERNAL_SERVER_ERROR,
        r.message@ == "Internal Server Error"@,
{
    AppNotice { status: INTERNAL_SERVER_ERROR, message: String::from_str("Internal Server Error") }
}

/// Tells whether `r` is what the message `notice` is answered with: the
/// message itself where its status stands for success, the message as a
/// failure otherwise.
pub open spec fn answers_notice(notice: AppNotice, r: HttpResult) -> bool {
    if 200 <= notice.status < 300 {
        r is Ok && r->Ok_0@ == (ReplyView {
            status: notice.status,
            message: notice.message@,
            data: None,
        })
    } else {
        r == Err::<Reply, HttpError>(HttpError::AppMessage(notice))
    }
}

/// Answers with an application message.
pub fn respond(notice: AppNotice) -> (r: HttpResult)
    ensures
        answers_notice(notice, r),
{
    if notice.is_success() {
        Ok(make_json_response(notice.message, notice.status))
    } else {
        Err(HttpError::AppMessage(notice))
    }
}

/// Answers with a message under the status `code`, or fails with the
/// message that a result holds as its error.
pub fn send_result(result: Result<AppNotice, AppNotice>, code: u16) -> (r: HttpResult)
    ensures
        match result {
            Ok(notice) => r is Ok && r->Ok_0@ == (ReplyView {
                status: code,
                message: notice.message@,
                data: None,
            }),
            Err(notice) => r == Err::<Reply, HttpError>(HttpError::AppMessage(notice)),
        },
{
    match result {
        Ok(data) => Ok(make_json_response(data.message, code)),
        Err(err) => Err(HttpError::AppMessage(err)),
    }
}

/// Answers with the message of an application result, or fails with its
/// error.
pub fn respond_result(result: AppResult<AppNotice>) -> (r: HttpResult)
    ensures
        match result {
            Ok(notice) => answers_notice(notice, r),
            Err(e) => r == Err::<Reply, HttpError>(HttpError::AppError(e)),
        },
{
    match result {
        Ok(msg) => respond(msg),
        Err(err) => Err(HttpError::AppError(err)),
    }
}

/// Answers with whichever message a result holds.
pub fn respond_either(result: Result<AppNotice, AppNotice>) -> (r: HttpResult)
    ensures
        match result {
            Ok(notice) => answers_notice(notice, r),
            Err(notice) => answers_notice(notice, r),
        },
{
    match result {
        Ok(msg) => respond(msg),
        Err(err) => respond(err),
    }
}

/// Answers with the message of a blocking task; a cancelled task is an
/// internal failure.
pub fn respond_blocking(result: Result<AppNotice, Blocking<AppNotice>>) -> (r: HttpResult)
    ensures
        match result {
            Ok(notice) => answers_notice(notice, r),
            Err(Blocking::Error(notice)) => answers_notice(notice, r),
            Err(Blocking::Canceled) => r is Err && r->Err_0 is AppMessage
                && r->Err_0->AppMessage_0.status == INTERNAL_SERVER_ERROR,
        },
{
    match result {
        Ok(msg) => respond(msg),
        Err(err) => match err {
            Blocking::Error(msg) => respond(msg),
            Blocking::Canceled => Err(HttpError::AppMessage(internal_notice())),
        },
    }
}

/// Answers with the message of a blocking task that may fail with an
/// application error; a cancelled task is an internal failure.
pub fn respond_blocking_failure(result: Result<AppNotice, Blocking<AppFailure>>) -> (r: HttpResult)
    ensures
        match result {
            Ok(notice) => answers_notice(notice, r),
            Err(Blocking::Error(e)) => r == Err::<Reply, HttpError>(HttpError::AppError(e)),
            Err(Blocking::Canceled) => r is Err && r->Err_0 is AppMessage
                && r->Err_0->AppMessage_0.status == INTERNAL_SERVER_ERROR,
        },
{
    match result {
        Ok(msg) => respond(msg),
        Err(err) => match err {
            Blocking::Error(err) => Err(HttpError::AppError(err)),
            Blocking::Canceled => Err(HttpError::AppMessage(internal_notice())),
        },
    }
}

/// The application result of a blocking task: a message that the task
/// failed with becomes an application error, a cancelled task an internal
/// failure.
pub fn into_app_result<T>(result: Result<T, Blocking<AppNotice>>) -> (r: AppResult<T>)
    ensures
        match result {
            Ok(v) => r == Ok::<T, AppFailure>(v),
            Err(Blocking::Error(notice)) => r == Err::<T, AppFailure>(AppFailure::Message(notice)),
            Err(Blocking::Canceled) => r is Err && r->Err_0 is Message
                && r->Err_0->Message_0.status == INTERNAL_SERVER_ERROR,
        },
{
    match result {
        Ok(v) => Ok(v),
        Err(err) => match err {
            Blocking::Error(err) => Err(AppFailure::Message(err)),
            Blocking::Canceled => Err(AppFailure::Message(internal_notice())),
        },
    }
}

/// An application error on its way to becoming an answer.
#[derive(Debug)]
pub struct ResponseError {
    pub error: AppFailure,
}

impl ResponseError {
    /// Wraps an application error.
    pub fn new(error: AppFailure) -> (r: Self)
        ensures
            r.error == error,
    {
        ResponseError { error }
    }

    /// The application error inside an HTTP failure: the failure's own
    /// application error or message where it has one, the failure itself
    /// otherwise.
    pub fn from_http(value: HttpError) -> (r: Self)
        ensures
            match value {
                HttpError::AppError(e) => r.error == e,
                HttpError::AppMessage(m) => r.error == AppFailure::Message(m),
                HttpError::Std(text) => r.error == AppFailure::Other(text),
                _ => r.error == AppFailure::Http(Box::new(value)),
            },
            failure_status(r.error) == http_status(value),
    {
        match value {
            HttpError::AppError(e) => ResponseError::new(e),
            HttpError::AppMessage(e) => ResponseError::new(AppFailure::Message(e)),
            HttpError::Std(e) => ResponseError::new(AppFailure::Other(e)),
            other => ResponseError::new(AppFailure::Http(Box::new(other))),
        }
    }

    /// The HTTP status that answers this error.
    pub fn status_code(&self) -> (r: u16)
        ensures
            r == failure_status(self.error),
    {
        make_status_code(&self.error)
    }

    /// The answer to this error.
    pub fn error_response(&self) -> (r: Reply)
        ensures
            answers_failure(self.error, r@),
    {
        make_response(&self.error)
    }
}

/// The status of an answer is the status of the failure that it answers.
pub proof fn reply_status(e: HttpError, r: ReplyView)
    requires
        answers_http(e, r),
    ensures
        r.status == http_status(e),
    decreases e,
{
    match e {
        HttpError::AppError(f) => match f {
            AppFailure::Http(inner) => {
                reply_status(*inner, r);
            },
            _ => {},
        },
        _ => {},
    }
}

} // verus!
