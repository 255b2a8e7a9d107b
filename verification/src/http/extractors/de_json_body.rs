//! A request body as JSON text together with the value it deserializes to.
use crate::error::{AppNotice, HttpError, BAD_REQUEST};
use vstd::prelude::*;

verus! {

/// The JSON text of a request body and the value read from it.
pub struct DeJsonBody<T>(String, T);

impl<T> DeJsonBody<T> {
    /// The JSON text.
    pub closed spec fn text(&self) -> Seq<char> {
        self.0@
    }

    /// The value read from the text.
    pub closed spec fn value(&self) -> T {
        self.1
    }

    /// The body for the text `json`, which was deserialized with the outcome
    /// `parsed`; a refusal is a warning for the client.
    pub fn new(json: String, parsed: Result<T, String>) -> (r: Result<DeJsonBody<T>, HttpError>)
        ensures
            match parsed {
                Ok(v) => r is Ok && r->Ok_0.text() == json@ && r->Ok_0.value() == v,
                Err(why) => r is Err && r->Err_0 is AppMessage && r->Err_0->AppMessage_0.status
                    == BAD_REQUEST && r->Err_0->AppMessage_0.message@ == why@,
            },
    {
        match parsed {
            Ok(t) => Ok(DeJsonBody(json, t)),
            Err(why) => Err(HttpError::AppMessage(AppNotice::warning(why))),
        }
    }

    /// The JSON text.
    pub fn body(&self) -> (r: &String)
        ensures
            r@ == self.text(),
    {
        &self.0
    }

    /// The JSON text, by value.
    pub fn into_body(self) -> (r: String)
        ensures
            r@ == self.text(),
    {
        self.0
    }

    /// The value.
    pub fn inner(&self) -> (r: &T)
        ensures
            *r == self.value(),
    {
        &self.1
    }

    /// The value, by value.
    pub fn into_inner(self) -> (r: T)
        ensures
            r == self.value(),
    {
        self.1
    }
}

} // verus!
