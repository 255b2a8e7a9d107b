//! A request body as raw bytes.
use crate::error::{AppFailure, AppNotice, AppResult, HttpError, BAD_REQUEST};
use crate::outside::{text_from_utf8, utf8_error_text};
use vstd::prelude::*;
use vstd::slice::slice_to_vec;
use vstd::std_specs::convert::FromSpecImpl;
use vstd::utf8::{decode_utf8, valid_utf8};

verus! {

/// The bytes of a request body.
pub struct ByteBody {
    bytes: Vec<u8>,
}

impl View for ByteBody {
    type V = Seq<u8>;

    closed spec fn view(&self) -> Seq<u8> {
        self.bytes@
    }
}

/// The failure for bytes that do not read as UTF-8: a warning for the
/// client, as an application error.
pub open spec fn utf8_refusal(f: AppFailure, bytes: Seq<u8>) -> bool {
    &&& f is Http
    &&& *f->Http_0 is AppMessage
    &&& f->Http_0->AppMessage_0.status == BAD_REQUEST
    &&& f->Http_0->AppMessage_0.message@ == utf8_error_text(bytes)
}

impl ByteBody {
    /// The raw bytes.
    pub fn bytes(&self) -> (r: &Vec<u8>)
        ensures
            r@ == self@,
    {
        &self.bytes
    }

    /// The raw bytes, by value.
    pub fn into_bytes(self) -> (r: Vec<u8>)
        ensures
            r@ == self@,
    {
        self.bytes
    }

    /// The number of bytes.
    pub fn len(&self) -> (r: usize)
        ensures
            r == self@.len(),
    {
        self.bytes.len()
    }

    /// Tells whether there are no bytes.
    pub fn is_empty(&self) -> (r: bool)
        ensures
            r == (self@.len() == 0),
    {
        self.bytes.len() == 0
    }

    /// The bytes as text, if they are valid UTF-8; a warning otherwise.
    pub fn as_utf8(&self) -> (r: AppResult<String>)
        ensures
            r is Ok <==> valid_utf8(self@),
            r is Ok ==> r->Ok_0@ == decode_utf8(self@),
            r is Err ==> utf8_refusal(r->Err_0, self@),
    {
        match text_from_utf8(&self.bytes) {
            Ok(text) => Ok(text),
            Err(why) => Err(HttpError::AppMessage(AppNotice::warning(why)).into_app_error()),
        }
    }
}

impl From<Vec<u8>> for ByteBody {
    fn from(bytes: Vec<u8>) -> (r: Self)
        ensures
            r@ == bytes@,
    {
        ByteBody { bytes }
    }
}

impl FromSpecImpl<Vec<u8>> for ByteBody {
    open spec fn obeys_from_spec() -> bool {
        true
    }

    closed spec fn from_spec(bytes: Vec<u8>) -> Self {
        ByteBody { bytes }
    }
}

impl From<&[u8]> for ByteBody {
    fn from(bytes: &[u8]) -> (r: Self)
        ensures
            r@ == bytes@,
    {
        ByteBody { bytes: slice_to_vec(bytes) }
    }
}

impl FromSpecImpl<&[u8]> for ByteBody {
    open spec fn obeys_from_spec() -> bool {
        false
    }

    closed spec fn from_spec(bytes: &[u8]) -> Self {
        choose|body: ByteBody| body@ == bytes@
    }
}

} // verus!
