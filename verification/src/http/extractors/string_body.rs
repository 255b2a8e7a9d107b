//! A request body as text.
use crate::contract::{parses_to, PostParseableFromStr};
use crate::error::{AppFailure, AppNotice, AppResult, HttpError, BAD_REQUEST};
use crate::outside::{text_from_utf8, utf8_error_text};
use vstd::utf8::{decode_utf8, valid_utf8};
use vstd::prelude::*;
use vstd::std_specs::convert::FromSpecImpl;

verus! {

/// The text of a request body.
pub struct StringBody {
    body: String,
}

impl View for StringBody {
    type V = Seq<char>;

    closed spec fn view(&self) -> Seq<char> {
        self.body@
    }
}

/// Tells whether `f` is a warning for the client, as an application error.
pub open spec fn is_warning(f: AppFailure) -> bool {
    &&& f is Http
    &&& *f->Http_0 is AppMessage
    &&& f->Http_0->AppMessage_0.status == BAD_REQUEST
}

/// Tells whether `f` is the warning with the text `text`.
pub open spec fn is_warning_of(f: AppFailure, text: Seq<char>) -> bool {
    is_warning(f) && f->Http_0->AppMessage_0.message@ == text
}

/// Tells whether `r` is what a handler gets for the parser's answer
/// `parsed`: the value, or a warning with the parser's reason.
pub open spec fn warns<T>(parsed: Result<T, String>, r: AppResult<T>) -> bool {
    match parsed {
        Ok(v) => r == Ok::<T, AppFailure>(v),
        Err(why) => r is Err && is_warning_of(r->Err_0, why@),
    }
}

/// Tells whether `r` is what a handler gets when `text` is read as a `T`:
/// the value that the type's own parser gives for `text`, or a warning with
/// the reason for which the parser refuses it.
pub open spec fn parsed_or_warned<T: PostParseableFromStr>(text: Seq<char>, r: AppResult<T>) -> bool {
    exists|parsed: Result<T, String>| #[trigger] parses_to::<T>(text, parsed) && warns(parsed, r)
}

/// What a handler gets once a parser has answered with `parsed`: the value,
/// or a warning with the parser's reason.
pub fn warning_result<T>(parsed: Result<T, String>) -> (r: AppResult<T>)
    ensures
        warns(parsed, r),
{
    match parsed {
        Ok(v) => Ok(v),
        Err(why) => Err(HttpError::AppMessage(AppNotice::warning(why)).into_app_error()),
    }
}

/// The text of a body of `bytes`, or the failure for bytes that are not
/// UTF-8.
pub fn body_text(bytes: &Vec<u8>) -> (r: Result<String, HttpError>)
    ensures
        r is Ok <==> valid_utf8(bytes@),
        r is Ok ==> r->Ok_0@ == decode_utf8(bytes@),
        r is Err ==> r->Err_0 is Utf8Error && r->Err_0->Utf8Error_0@ == utf8_error_text(bytes@),
{
    match text_from_utf8(bytes) {
        Ok(text) => Ok(text),
        Err(why) => Err(HttpError::Utf8Error(why)),
    }
}

impl StringBody {
    /// The body of a request whose bytes are `bytes`; bytes that are not
    /// UTF-8 are a failure.
    pub fn from_bytes(bytes: &Vec<u8>) -> (r: Result<StringBody, HttpError>)
        ensures
            r is Ok <==> valid_utf8(bytes@),
            r is Ok ==> r->Ok_0@ == decode_utf8(bytes@),
            r is Err ==> r->Err_0 is Utf8Error,
    {
        match body_text(bytes) {
            Ok(body) => Ok(StringBody { body }),
            Err(e) => Err(e),
        }
    }

    /// The text.
    pub fn body(&self) -> (r: &String)
        ensures
            r@ == self@,
    {
        &self.body
    }

    /// The text, by value.
    pub fn into_body(self) -> (r: String)
        ensures
            r@ == self@,
    {
        self.body
    }

    /// The length of the text in bytes.
    pub fn len(&self) -> (r: usize)
        ensures
            r == vstd::utf8::encode_utf8(self@).len() as usize,
    {
        self.body.as_str().len()
    }

    /// Tells whether the text is empty.
    pub fn is_empty(&self) -> (r: bool)
        ensures
            r == (self@.len() == 0),
    {
        self.body.as_str().is_empty()
    }

    /// The text read as a `T` by the type's own parser; a refusal is a
    /// warning for the client.
    pub fn parse<T: PostParseableFromStr>(&self) -> (r: AppResult<T>)
        ensures
            parsed_or_warned::<T>(self@, r),
    {
        let parsed = T::parse_text(self.body.as_str());
        let r = warning_result(parsed);
        assert(parses_to::<T>(self@, parsed) && warns(parsed, r));
        r
    }
}

impl From<String> for StringBody {
    fn from(body: String) -> (r: Self)
        ensures
            r@ == body@,
    {
        StringBody { body }
    }
}

impl FromSpecImpl<String> for StringBody {
    open spec fn obeys_from_spec() -> bool {
        true
    }

    closed spec fn from_spec(body: String) -> Self {
        StringBody { body }
    }
}

impl From<&str> for StringBody {
    fn from(body: &str) -> (r: Self)
        ensures
            r@ == body@,
    {
        StringBody { body: body.to_owned() }
    }
}

impl FromSpecImpl<&str> for StringBody {
    open spec fn obeys_from_spec() -> bool {
        false
    }

    closed spec fn from_spec(body: &str) -> Self {
        choose|b: StringBody| b@ == body@
    }
}

} // verus!
