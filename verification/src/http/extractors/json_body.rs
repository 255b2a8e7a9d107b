//! A request body as JSON text.
use crate::error::{AppFailure, AppResult, HttpError};
use crate::http::extractors::string_body::{body_text, is_warning_of, warning_result};
use vstd::utf8::{decode_utf8, valid_utf8};
use crate::outside::{json_from_str, json_refusal};
use vstd::prelude::*;
use vstd::std_specs::convert::FromSpecImpl;

verus! {

/// The JSON text of a request body.
pub struct JsonBody {
    json: String,
}

impl View for JsonBody {
    type V = Seq<char>;

    closed spec fn view(&self) -> Seq<char> {
        self.json@
    }
}

impl JsonBody {
    /// The body of a request whose bytes are `bytes`; bytes that are not
    /// UTF-8 are a failure.
    pub fn from_bytes(bytes: &Vec<u8>) -> (r: Result<JsonBody, HttpError>)
        ensures
            r is Ok <==> valid_utf8(bytes@),
            r is Ok ==> r->Ok_0@ == decode_utf8(bytes@),
            r is Err ==> r->Err_0 is Utf8Error,
    {
        match body_text(bytes) {
            Ok(json) => Ok(JsonBody { json }),
            Err(e) => Err(e),
        }
    }

    /// The JSON text. Prefer `body`.
    pub fn raw(&self) -> (r: &String)
        ensures
            r@ == self@,
    {
        &self.json
    }

    /// The JSON text.
    pub fn body(&self) -> (r: &String)
        ensures
            r@ == self@,
    {
        &self.json
    }

    /// The JSON text, by value.
    pub fn into_body(self) -> (r: String)
        ensures
            r@ == self@,
    {
        self.json
    }

    /// What a handler gets once the body has been deserialized with the
    /// outcome `parsed`: the value, or a warning with the deserializer's
    /// reason.
    pub fn deserialize<T>(&self, parsed: Result<T, String>) -> (r: AppResult<T>)
        ensures
            match parsed {
                Ok(v) => r == Ok::<T, AppFailure>(v),
                Err(why) => r is Err && is_warning_of(r->Err_0, why@),
            },
    {
        warning_result(parsed)
    }

    /// The body as a JSON value; text that is not JSON is a JSON failure
    /// with the reason for which it is refused.
    pub fn json_value(&self) -> (r: AppResult<serde_json::Value>)
        ensures
            match json_refusal(self@) {
                None => r is Ok,
                Some(why) => r is Err && r->Err_0 is Json && r->Err_0->Json_0@ == why,
            },
    {
        match json_from_str(self.json.as_str()) {
            Ok(value) => Ok(value),
            Err(why) => Err(AppFailure::Json(why)),
        }
    }
}

impl From<String> for JsonBody {
    fn from(json: String) -> (r: Self)
        ensures
            r@ == json@,
    {
        JsonBody { json }
    }
}

impl FromSpecImpl<String> for JsonBody {
    open spec fn obeys_from_spec() -> bool {
        true
    }

    closed spec fn from_spec(json: String) -> Self {
        JsonBody { json }
    }
}

impl From<&str> for JsonBody {
    fn from(json: &str) -> (r: Self)
        ensures
            r@ == json@,
    {
        JsonBody { json: json.to_owned() }
    }
}

impl FromSpecImpl<&str> for JsonBody {
    open spec fn obeys_from_spec() -> bool {
        false
    }

    closed spec fn from_spec(json: &str) -> Self {
        choose|b: JsonBody| b@ == json@
    }
}

} // verus!
