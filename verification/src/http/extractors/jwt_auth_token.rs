//! The bearer token of a request.
use crate::error::{AppFailure, AppNotice, AppResult, HttpError};
use crate::http::extractors::string_body::{is_warning, is_warning_of, warning_result};
use crate::outside::decode_token;
use crate::text::{chars_of, slice_text, trim, trim_range};
use vstd::prelude::*;
use vstd::std_specs::convert::FromSpecImpl;

verus! {

/// A JSON web token as sent in an `Authorization` header.
#[derive(Debug, PartialEq)]
pub struct JwtAuthToken {
    token: String,
}

impl View for JwtAuthToken {
    type V = Seq<char>;

    closed spec fn view(&self) -> Seq<char> {
        self.token@
    }
}

/// `s` without the prefix `prefix`, if it starts with it.
pub open spec fn strip_prefix(s: Seq<char>, prefix: Seq<char>) -> Option<Seq<char>> {
    if prefix.is_prefix_of(s) {
        Some(s.skip(prefix.len() as int))
    } else {
        None
    }
}

/// The token that an `Authorization` header value carries: what follows
/// `Bearer ` or `bearer `, trimmed.
pub open spec fn bearer_token(header: Seq<char>) -> Option<Seq<char>> {
    match strip_prefix(header, "Bearer "@) {
        Some(rest) => Some(trim(rest)),
        None => match strip_prefix(header, "bearer "@) {
            Some(rest) => Some(trim(rest)),
            None => None,
        },
    }
}

/// Tells whether `chars` starts with `prefix`.
fn starts_with(chars: &Vec<char>, prefix: &Vec<char>) -> (r: bool)
    ensures
        r == prefix@.is_prefix_of(chars@),
{
    if prefix.len() > chars.len() {
        return false;
    }
    let mut i: usize = 0;
    while i < prefix.len()
        invariant
            i <= prefix.len() <= chars.len(),
            forall|j: int| 0 <= j < i ==> prefix@[j] == chars@[j],
        decreases prefix.len() - i,
    {
        if prefix[i] != chars[i] {
            assert(chars@.subrange(0, prefix.len() as int)[i as int] != prefix@[i as int]);
            return false;
        }
        i = i + 1;
    }
    assert(chars@.subrange(0, prefix.len() as int) == prefix@);
    true
}

impl JwtAuthToken {
    /// The token text.
    pub fn token(&self) -> (r: &str)
        ensures
            r@ == self@,
    {
        self.token.as_str()
    }

    /// The token text, by value.
    pub fn into_token(self) -> (r: String)
        ensures
            r@ == self@,
    {
        self.token
    }

    /// What a handler gets once the token has been decoded and verified with
    /// the outcome `decoded`: the claims, or a warning with the reason.
    pub fn decode<T>(&self, decoded: Result<T, String>) -> (r: AppResult<T>)
        ensures
            match decoded {
                Ok(claims) => r == Ok::<T, AppFailure>(claims),
                Err(why) => r is Err && is_warning_of(r->Err_0, why@),
            },
    {
        warning_result(decoded)
    }

    /// Decodes and verifies the token with `secret` and returns its claims
    /// as a JSON value; a token that does not pass is a warning for the
    /// client.
    pub fn decode_claims(&self, secret: &str, validation: &jsonwebtoken::Validation) -> (r:
        AppResult<serde_json::Value>)
        ensures
            r is Err ==> is_warning(r->Err_0),
    {
        warning_result(decode_token(self.token.as_str(), secret, validation))
    }

    /// Tells whether the token text is empty.
    pub fn is_empty(&self) -> (r: bool)
        ensures
            r == (self@.len() == 0),
    {
        self.token.as_str().is_empty()
    }

    /// The token of a request whose `Authorization` header reads `header`
    /// (`None` where the header is absent or is not text). A header without
    /// a bearer token is a warning for the client, as an application error.
    pub fn from_authorization(header: Option<&str>) -> (r: Result<JwtAuthToken, HttpError>)
        ensures
            match header {
                Some(text) => match bearer_token(text@) {
                    Some(token) => r is Ok && r->Ok_0@ == token,
                    None => r is Err && missing_bearer(r->Err_0),
                },
                None => r is Err && missing_bearer(r->Err_0),
            },
    {
        let found = match header {
            Some(text) => {
                let chars = chars_of(text);
                let upper = chars_of("Bearer ");
                let lower = chars_of("bearer ");
                if starts_with(&chars, &upper) {
                    let (a, b) = trim_range(&chars, upper.len(), chars.len());
                    assert(chars@.subrange(upper.len() as int, chars.len() as int) == chars@.skip(
                        upper.len() as int,
                    ));
                    Some(slice_text(text, a, b))
                } else if starts_with(&chars, &lower) {
                    let (a, b) = trim_range(&chars, lower.len(), chars.len());
                    assert(chars@.subrange(lower.len() as int, chars.len() as int) == chars@.skip(
                        lower.len() as int,
                    ));
                    Some(slice_text(text, a, b))
                } else {
                    None
                }
            },
            None => None,
        };
        match found {
            Some(token) => Ok(JwtAuthToken { token }),
            None => Err(
                HttpError::AppError(
                    HttpError::AppMessage(
                        AppNotice::warning(
                            String::from_str("Missing or malformed Authorization header"),
                        ),
                    ).into_app_error(),
                ),
            ),
        }
    }
}

/// Tells whether `e` is the failure for a request without a bearer token.
pub open spec fn missing_bearer(e: HttpError) -> bool {
    &&& e is AppError
    &&& is_warning_of(e->AppError_0, "Missing or malformed Authorization header"@)
}

impl Clone for JwtAuthToken {
    fn clone(&self) -> (r: Self)
        ensures
            r@ == self@,
    {
        JwtAuthToken { token: self.token.clone() }
    }
}

impl From<String> for JwtAuthToken {
    fn from(token: String) -> (r: Self)
        ensures
            r@ == token@,
    {
        JwtAuthToken { token }
    }
}

impl FromSpecImpl<String> for JwtAuthToken {
    open spec fn obeys_from_spec() -> bool {
        true
    }

    closed spec fn from_spec(token: String) -> Self {
        JwtAuthToken { token }
    }
}

impl From<&str> for JwtAuthToken {
    fn from(token: &str) -> (r: Self)
        ensures
            r@ == token@,
    {
        JwtAuthToken { token: token.to_owned() }
    }
}

impl FromSpecImpl<&str> for JwtAuthToken {
    open spec fn obeys_from_spec() -> bool {
        false
    }

    closed spec fn from_spec(token: &str) -> Self {
        choose|t: JwtAuthToken| t@ == token@
    }
}

} // verus!
