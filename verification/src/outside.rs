//! The items of other crates and of std that the library calls without a
//! specification from vstd, each with the contract that the library relies on.
//! Nothing here is proved: every contract restates what the named function does.
use ntex::http::header::{HeaderValue, ToStrError};
use ntex::http::HeaderMap;
use ntex::util::Bytes;
use ntex_multipart::MultipartError as StreamError;
use crate::text::decimal_integer_in;
use vstd::prelude::*;

verus! {

/// `ntex::util::Bytes`: a shared, immutable run of bytes.
#[verifier::external_type_specification]
#[verifier::external_body]
pub struct ExBytes(Bytes);

/// `ntex::http::HeaderMap`: the headers of a request or of a part.
#[verifier::external_type_specification]
#[verifier::external_body]
pub struct ExHeaderMap(HeaderMap);

/// `ntex::http::header::HeaderValue`: the bytes of one header.
#[verifier::external_type_specification]
#[verifier::external_body]
pub struct ExHeaderValue(HeaderValue);

/// The error of `HeaderValue::to_str`.
#[verifier::external_type_specification]
#[verifier::external_body]
pub struct ExToStrError(ToStrError);

/// `std::path::PathBuf`: an owned file system path.
#[verifier::external_type_specification]
#[verifier::external_body]
pub struct ExPathBuf(std::path::PathBuf);

/// `std::io::Error`.
#[verifier::external_type_specification]
#[verifier::external_body]
pub struct ExIoError(std::io::Error);

/// `serde_json::Value`: any JSON value.
#[verifier::external_type_specification]
#[verifier::external_body]
pub struct ExJsonValue(serde_json::Value);

/// `jsonwebtoken::Validation`: the checks that a token has to pass.
#[verifier::external_type_specification]
#[verifier::external_body]
pub struct ExValidation(jsonwebtoken::Validation);

/// `ntex_multipart::MultipartError`: a failure of the multipart stream.
#[verifier::external_type_specification]
#[verifier::external_body]
pub struct ExStreamError(StreamError);

/// The bytes that a `Bytes` segment holds.
pub uninterp spec fn bytes_content(b: Bytes) -> Seq<u8>;

/// For each header name under which `HeaderMap::get_all` yields a value,
/// the bytes of the first value that it yields.
pub uninterp spec fn header_entries(headers: HeaderMap) -> Map<Seq<char>, Seq<u8>>;

/// The bytes of one header value.
pub uninterp spec fn header_value_bytes(value: HeaderValue) -> Seq<u8>;

/// The text that `String::from_utf8_lossy` makes of `bytes`: valid UTF-8 is
/// decoded, each invalid sequence becomes U+FFFD.
pub uninterp spec fn utf8_lossy(bytes: Seq<u8>) -> Seq<char>;

/// The lowercase form of `s` as `str::to_lowercase` gives it.
pub uninterp spec fn lowercased(s: Seq<char>) -> Seq<char>;

/// The `{:?}` rendering of a list of strings.
pub uninterp spec fn debug_list(items: Seq<Seq<char>>) -> Seq<char>;

/// The extension that foxtive's `FileExtHelper::get_extension` finds in a
/// file name, if it finds one.
pub uninterp spec fn extension_of(file_name: Seq<char>) -> Option<Seq<char>>;

/// The human-readable size that foxtive's `format_size` gives for a number
/// of bytes.
pub uninterp spec fn formatted_size(size_in_bytes: u64) -> Seq<char>;

/// The text with which `String::from_utf8` refuses `bytes`.
pub uninterp spec fn utf8_error_text(bytes: Seq<u8>) -> Seq<char>;

/// The reason for which uuid's `Uuid::parse_str` refuses `text`, if it
/// refuses it.
pub uninterp spec fn uuid_refusal(text: Seq<char>) -> Option<Seq<char>>;

/// The reason for which `serde_json::from_str` refuses `text` as a JSON
/// value, if it refuses it.
pub uninterp spec fn json_refusal(text: Seq<char>) -> Option<Seq<char>>;

/// The reason for which chrono's `NaiveDateTime::parse_from_str` refuses
/// `text` under `format`, if it refuses it.
pub uninterp spec fn date_time_refusal(text: Seq<char>, format: Seq<char>) -> Option<Seq<char>>;

/// Tells whether `b` is a tab or a printable ASCII byte, which is what a
/// header value must consist of to be read as text.
pub open spec fn is_visible_ascii(b: u8) -> bool {
    (32 <= b < 127) || b == 9
}

/// Tells whether every byte of `bytes` is visible ASCII.
pub open spec fn all_visible_ascii(bytes: Seq<u8>) -> bool {
    forall|i: int| 0 <= i < bytes.len() ==> is_visible_ascii(#[trigger] bytes[i])
}

/// The text whose characters are the ASCII `bytes`.
pub open spec fn ascii_text(bytes: Seq<u8>) -> Seq<char> {
    bytes.map_values(|b: u8| b as char)
}

/// `ntex::util::Bytes::len`: the number of bytes in the segment.
pub assume_specification[ Bytes::len ](b: &Bytes) -> (n: usize)
    ensures
        n == bytes_content(*b).len(),
;

/// `Bytes` as a slice of its bytes.
#[verifier::external_body]
pub(crate) fn segment_bytes(b: &Bytes) -> (r: &[u8])
    ensures
        r@ == bytes_content(*b),
{
    b.as_ref()
}

/// `String::push`: appends one character.
pub assume_specification[ String::push ](s: &mut String, c: char)
    ensures
        final(s)@ == old(s)@.push(c),
;

/// `String::from_utf8_lossy` on the bytes of a segment, as an owned
/// string: bytes that are valid UTF-8 decode to the text that they encode.
#[verifier::external_body]
pub(crate) fn lossy_text(b: &Bytes) -> (r: String)
    ensures
        r@ == utf8_lossy(bytes_content(*b)),
        vstd::utf8::valid_utf8(bytes_content(*b)) ==> r@ == vstd::utf8::decode_utf8(
            bytes_content(*b),
        ),
{
    String::from_utf8_lossy(b).into_owned()
}

/// `HeaderMap::get_all` with a name given as text, and the first value that
/// its iterator yields: the first value stored under that name, if there is
/// one.
#[verifier::external_body]
pub(crate) fn header_get<'a>(headers: &'a HeaderMap, name: &str) -> (r: Option<&'a HeaderValue>)
    ensures
        r is Some <==> header_entries(*headers).contains_key(name@),
        r is Some ==> header_value_bytes(*r->0) == header_entries(*headers)[name@],
{
    headers.get_all(name).next()
}

/// `HeaderValue::to_str`: the value as text if all its bytes are visible
/// ASCII, an error otherwise.
#[verifier::external_body]
pub(crate) fn header_to_str<'a>(value: &'a HeaderValue) -> (r: Result<&'a str, ToStrError>)
    ensures
        r is Ok <==> all_visible_ascii(header_value_bytes(*value)),
        r is Ok ==> r->Ok_0@ == ascii_text(header_value_bytes(*value)),
{
    value.to_str()
}

/// The `Display` text of `ToStrError`, which is one fixed sentence.
#[verifier::external_body]
pub(crate) fn to_str_error_text(e: &ToStrError) -> (r: String)
    ensures
        r@ == "failed to convert header to a str"@,
{
    e.to_string()
}

/// The `Display` text of an I/O error. It may depend on the operating
/// system, so nothing is said of it.
#[verifier::external_body]
pub(crate) fn io_error_text(e: &std::io::Error) -> (r: String) {
    e.to_string()
}

/// The `Display` text of a multipart stream error.
#[verifier::external_body]
pub(crate) fn stream_error_text(e: &StreamError) -> (r: String) {
    e.to_string()
}

/// `String::from_utf8` on a copy of `bytes`: the text if the bytes are valid
/// UTF-8, the error's `Display` text otherwise.
#[verifier::external_body]
pub(crate) fn text_from_utf8(bytes: &Vec<u8>) -> (r: Result<String, String>)
    ensures
        r is Ok <==> vstd::utf8::valid_utf8(bytes@),
        r is Ok ==> r->Ok_0@ == vstd::utf8::decode_utf8(bytes@),
        r is Err ==> r->Err_0@ == utf8_error_text(bytes@),
{
    String::from_utf8(bytes.clone()).map_err(|e| e.to_string())
}

/// `serde_json::from_str` for a JSON value, with the error's `Display`
/// text: a value unless the text is refused, and then the reason.
#[verifier::external_body]
pub(crate) fn json_from_str(text: &str) -> (r: Result<serde_json::Value, String>)
    ensures
        match r {
            Ok(_) => json_refusal(text@) is None,
            Err(why) => json_refusal(text@) == Some(why@),
        },
{
    serde_json::from_str::<serde_json::Value>(text).map_err(|e| e.to_string())
}

/// chrono's `NaiveDateTime::parse_from_str`, with the error's `Display`
/// text: a date and time unless the text is refused under the format, and
/// then the reason.
#[verifier::external_body]
pub(crate) fn parse_date_time(text: &str, format: &str) -> (r: Result<
    chrono::NaiveDateTime,
    String,
>)
    ensures
        match r {
            Ok(_) => date_time_refusal(text@, format@) is None,
            Err(why) => date_time_refusal(text@, format@) == Some(why@),
        },
{
    chrono::NaiveDateTime::parse_from_str(text, format).map_err(|e| e.to_string())
}

/// jsonwebtoken's `decode` with a key made from `secret`: the claims of a
/// token that passes `validation`, or the error's `Display` text. The
/// outcome may depend on the time of the call, so nothing is said of it.
#[verifier::external_body]
pub(crate) fn decode_token(
    token: &str,
    secret: &str,
    validation: &jsonwebtoken::Validation,
) -> (r: Result<serde_json::Value, String>) {
    let key = jsonwebtoken::DecodingKey::from_secret(secret.as_bytes());
    jsonwebtoken::decode::<serde_json::Value>(token, &key, validation)
        .map(|data| data.claims)
        .map_err(|e| e.to_string())
}

/// `str::to_lowercase`.
#[verifier::external_body]
pub(crate) fn lowercase(s: &str) -> (r: String)
    ensures
        r@ == lowercased(s@),
{
    s.to_lowercase()
}

/// The `{:?}` rendering of a list of strings.
#[verifier::external_body]
pub(crate) fn debug_text(items: &Vec<String>) -> (r: String)
    ensures
        r@ == debug_list(items@.map_values(|s: String| s@)),
{
    format!("{items:?}")
}

/// foxtive's `FileExtHelper::get_extension` on a helper with the default
/// extensions.
#[verifier::external_body]
pub(crate) fn file_extension(file_name: &str) -> (r: Option<String>)
    ensures
        match r {
            Some(ext) => extension_of(file_name@) == Some(ext@),
            None => extension_of(file_name@) is None,
        },
{
    foxtive::helpers::FileExtHelper::new().get_extension(file_name)
}

/// foxtive's `file_size::format_size`.
#[verifier::external_body]
pub(crate) fn size_text(size_in_bytes: u64) -> (r: String)
    ensures
        r@ == formatted_size(size_in_bytes),
{
    foxtive::helpers::file_size::format_size(size_in_bytes)
}

/// `str::parse` for `i8`, with the error's `Display` text: the value of
/// an optional `+` or `-` sign followed by digits only, if it fits the type, and an
/// error for every other text.
#[verifier::external_body]
pub(crate) fn parse_i8(text: &str) -> (r: Result<i8, String>)
    ensures
        match decimal_integer_in(text@, true, i8::MIN as int, i8::MAX as int) {
            Some(v) => r is Ok && r->Ok_0 == v,
            None => r is Err,
        },
{
    text.parse::<i8>().map_err(|e| e.to_string())
}

/// `str::parse` for `i16`, with the error's `Display` text: the value of
/// an optional `+` or `-` sign followed by digits only, if it fits the type, and an
/// error for every other text.
#[verifier::external_body]
pub(crate) fn parse_i16(text: &str) -> (r: Result<i16, String>)
    ensures
        match decimal_integer_in(text@, true, i16::MIN as int, i16::MAX as int) {
            Some(v) => r is Ok && r->Ok_0 == v,
            None => r is Err,
        },
{
    text.parse::<i16>().map_err(|e| e.to_string())
}

/// `str::parse` for `i32`, with the error's `Display` text: the value of
/// an optional `+` or `-` sign followed by digits only, if it fits the type, and an
/// error for every other text.
#[verifier::external_body]
pub(crate) fn parse_i32(text: &str) -> (r: Result<i32, String>)
    ensures
        match decimal_integer_in(text@, true, i32::MIN as int, i32::MAX as int) {
            Some(v) => r is Ok && r->Ok_0 == v,
            None => r is Err,
        },
{
    text.parse::<i32>().map_err(|e| e.to_string())
}

/// `str::parse` for `i64`, with the error's `Display` text: the value of
/// an optional `+` or `-` sign followed by digits only, if it fits the type, and an
/// error for every other text.
#[verifier::external_body]
pub(crate) fn parse_i64(text: &str) -> (r: Result<i64, String>)
    ensures
        match decimal_integer_in(text@, true, i64::MIN as int, i64::MAX as int) {
            Some(v) => r is Ok && r->Ok_0 == v,
            None => r is Err,
        },
{
    text.parse::<i64>().map_err(|e| e.to_string())
}

/// `str::parse` for `i128`, with the error's `Display` text: the value of
/// an optional `+` or `-` sign followed by digits only, if it fits the type, and an
/// error for every other text.
#[verifier::external_body]
pub(crate) fn parse_i128(text: &str) -> (r: Result<i128, String>)
    ensures
        match decimal_integer_in(text@, true, i128::MIN as int, i128::MAX as int) {
            Some(v) => r is Ok && r->Ok_0 == v,
            None => r is Err,
        },
{
    text.parse::<i128>().map_err(|e| e.to_string())
}

/// `str::parse` for `isize`, with the error's `Display` text: the value of
/// an optional `+` or `-` sign followed by digits only, if it fits the type, and an
/// error for every other text.
#[verifier::external_body]
pub(crate) fn parse_isize(text: &str) -> (r: Result<isize, String>)
    ensures
        match decimal_integer_in(text@, true, isize::MIN as int, isize::MAX as int) {
            Some(v) => r is Ok && r->Ok_0 == v,
            None => r is Err,
        },
{
    text.parse::<isize>().map_err(|e| e.to_string())
}

/// `str::parse` for `u8`, with the error's `Display` text: the value of
/// an optional `+` sign followed by digits only, if it fits the type, and an
/// error for every other text.
#[verifier::external_body]
pub(crate) fn parse_u8(text: &str) -> (r: Result<u8, String>)
    ensures
        match decimal_integer_in(text@, false, u8::MIN as int, u8::MAX as int) {
            Some(v) => r is Ok && r->Ok_0 == v,
            None => r is Err,
        },
{
    text.parse::<u8>().map_err(|e| e.to_string())
}

/// `str::parse` for `u16`, with the error's `Display` text: the value of
/// an optional `+` sign followed by digits only, if it fits the type, and an
/// error for every other text.
#[verifier::external_body]
pub(crate) fn parse_u16(text: &str) -> (r: Result<u16, String>)
    ensures
        match decimal_integer_in(text@, false, u16::MIN as int, u16::MAX as int) {
            Some(v) => r is Ok && r->Ok_0 == v,
            None => r is Err,
        },
{
    text.parse::<u16>().map_err(|e| e.to_string())
}

/// `str::parse` for `u32`, with the error's `Display` text: the value of
/// an optional `+` sign followed by digits only, if it fits the type, and an
/// error for every other text.
#[verifier::external_body]
pub(crate) fn parse_u32(text: &str) -> (r: Result<u32, String>)
    ensures
        match decimal_integer_in(text@, false, u32::MIN as int, u32::MAX as int) {
            Some(v) => r is Ok && r->Ok_0 == v,
            None => r is Err,
        },
{
    text.parse::<u32>().map_err(|e| e.to_string())
}

/// `str::parse` for `u64`, with the error's `Display` text: the value of
/// an optional `+` sign followed by digits only, if it fits the type, and an
/// error for every other text.
#[verifier::external_body]
pub(crate) fn parse_u64(text: &str) -> (r: Result<u64, String>)
    ensures
        match decimal_integer_in(text@, false, u64::MIN as int, u64::MAX as int) {
            Some(v) => r is Ok && r->Ok_0 == v,
            None => r is Err,
        },
{
    text.parse::<u64>().map_err(|e| e.to_string())
}

/// `str::parse` for `u128`, with the error's `Display` text: the value of
/// an optional `+` sign followed by digits only, if it fits the type, and an
/// error for every other text.
#[verifier::external_body]
pub(crate) fn parse_u128(text: &str) -> (r: Result<u128, String>)
    ensures
        match decimal_integer_in(text@, false, u128::MIN as int, u128::MAX as int) {
            Some(v) => r is Ok && r->Ok_0 == v,
            None => r is Err,
        },
{
    text.parse::<u128>().map_err(|e| e.to_string())
}

/// `str::parse` for `usize`, with the error's `Display` text: the value of
/// an optional `+` sign followed by digits only, if it fits the type, and an
/// error for every other text.
#[verifier::external_body]
pub(crate) fn parse_usize(text: &str) -> (r: Result<usize, String>)
    ensures
        match decimal_integer_in(text@, false, usize::MIN as int, usize::MAX as int) {
            Some(v) => r is Ok && r->Ok_0 == v,
            None => r is Err,
        },
{
    text.parse::<usize>().map_err(|e| e.to_string())
}

/// `str::parse` for `bool`, with the error's `Display` text: `true` and
/// `false` are the only texts accepted.
#[verifier::external_body]
pub(crate) fn parse_bool(text: &str) -> (r: Result<bool, String>)
    ensures
        r is Ok <==> text@ == "true"@ || text@ == "false"@,
        r is Ok ==> r->Ok_0 == (text@ == "true"@),
{
    text.parse::<bool>().map_err(|e| e.to_string())
}

/// `str::parse` for `char`, with the error's `Display` text: the one
/// character of a text that holds exactly one, and an error for every
/// other text.
#[verifier::external_body]
pub(crate) fn parse_char(text: &str) -> (r: Result<char, String>)
    ensures
        r is Ok <==> text@.len() == 1,
        r is Ok ==> r->Ok_0 == text@[0],
{
    text.parse::<char>().map_err(|e| e.to_string())
}

/// uuid's `Uuid::parse_str`, with the error's `Display` text: an identifier
/// unless the text is refused, and then the reason.
#[verifier::external_body]
pub(crate) fn parse_uuid(text: &str) -> (r: Result<uuid::Uuid, String>)
    ensures
        match r {
            Ok(_) => uuid_refusal(text@) is None,
            Err(why) => uuid_refusal(text@) == Some(why@),
        },
{
    uuid::Uuid::parse_str(text).map_err(|e| e.to_string())
}

/// `str::parse` for `PathBuf`, which accepts every text.
#[verifier::external_body]
pub(crate) fn parse_path_buf(text: &str) -> (r: Result<std::path::PathBuf, String>)
    ensures
        r is Ok,
{
    text.parse::<std::path::PathBuf>().map_err(|e| e.to_string())
}

} // verus!
