//! Typed reading of plain fields: a field's first value, trimmed, is handed
//! to the target type's own parser.
use crate::multipart::{list_in, FormView, Multipart};
use crate::outside::{
    uuid_refusal, parse_bool, parse_char, parse_path_buf, parse_i128, parse_i16, parse_i32, parse_i64, parse_i8, parse_isize,
    parse_u128, parse_u16, parse_u32, parse_u64, parse_u8, parse_usize, parse_uuid,
};
use crate::result::{MultipartError, MultipartErrorView, MultipartResult};
use crate::sealed::Sealed;
use crate::text::{chars_of, decimal_integer_in, slice_text, trim, trim_range};
use vstd::prelude::*;

verus! {

/// A type that reads itself from text. `parse_text` is the type's own
/// parser and may accept or refuse any text; a refusal carries its reason.
pub trait PostParseableFromStr: Sized + Sealed {
    /// The name of the type as it appears in messages.
    fn label() -> (r: &'static str);

    /// Reads a value from `text`.
    fn parse_text(text: &str) -> (r: Result<Self, String>);
}

/// Tells whether `parsed` is what `T`'s own parser answers for `text`.
pub open spec fn parses_to<T: PostParseableFromStr>(text: Seq<char>, parsed: Result<T, String>) -> bool {
    exists|input: &str| input@ == text && call_ensures(T::parse_text, (input,), parsed)
}

/// Tells whether `label` is the name that `T` gives itself for messages.
pub open spec fn labels<T: PostParseableFromStr>(label: Seq<char>) -> bool {
    exists|name: &str| name@ == label && call_ensures(T::label, (), name)
}

/// A type that can be asked for from a named field of a form.
pub trait PostParseable: Sized {
    /// Tells whether `r` is an outcome that reading `field` from `form` may have.
    spec fn admits(form: FormView, field: Seq<char>, r: MultipartResult<Self>) -> bool;

    /// Reads the field `field` of the form.
    fn parse_from_multipart(multipart: &Multipart, field: &str) -> (r: MultipartResult<Self>)
        ensures
            Self::admits(multipart@, field@, r),
    ;
}

/// What a field offers to a parser.
pub enum Lookup {
    /// The form has no such field.
    Missing,
    /// The field's first value is empty once trimmed.
    Blank,
    /// The field's first value, trimmed and not empty.
    Text(Seq<char>),
}

/// What the field `field` of `form` offers to a parser.
pub open spec fn lookup(form: FormView, field: Seq<char>) -> Lookup {
    let list = list_in(form.data, field);
    if list.len() == 0 {
        Lookup::Missing
    } else if trim(list[0].value).len() == 0 {
        Lookup::Blank
    } else {
        Lookup::Text(trim(list[0].value))
    }
}

/// The message for a required field that is empty.
pub open spec fn empty_field_text(field: Seq<char>, label: Seq<char>) -> Seq<char> {
    "Field '"@ + field + "' is empty and cannot be parsed as "@ + label
}

/// The message for a value that the type's parser refused for the reason `why`.
pub open spec fn parse_failure_text(
    field: Seq<char>,
    value: Seq<char>,
    label: Seq<char>,
    why: Seq<char>,
) -> Seq<char> {
    "Failed to parse field '"@ + field + "' with value '"@ + value + "' as "@ + label + ": "@ + why
}

/// Tells whether `r` is what reading a required field returns once the
/// type's parser has answered with `parsed` for the trimmed value `text`:
/// the value, or the failure that names the field, the value, the type and
/// the parser's reason.
pub open spec fn required_outcome<T>(
    field: Seq<char>,
    text: Seq<char>,
    label: Seq<char>,
    parsed: Result<T, String>,
    r: MultipartResult<T>,
) -> bool {
    match parsed {
        Ok(v) => r == Ok::<T, MultipartError>(v),
        Err(why) => r is Err && r->Err_0@ == MultipartErrorView::ParseError(
            parse_failure_text(field, text, label, why@),
        ),
    }
}

/// Tells whether `r` is what reading an optional field returns once the
/// type's parser has answered with `parsed` for the trimmed value `text`:
/// `Some` of the value, or the failure that names the field, the value, the
/// type and the parser's reason. A refusal is a failure, not `None`.
pub open spec fn optional_outcome<T>(
    field: Seq<char>,
    text: Seq<char>,
    label: Seq<char>,
    parsed: Result<T, String>,
    r: MultipartResult<Option<T>>,
) -> bool {
    match parsed {
        Ok(v) => r == Ok::<Option<T>, MultipartError>(Some(v)),
        Err(why) => r is Err && r->Err_0@ == MultipartErrorView::ParseError(
            parse_failure_text(field, text, label, why@),
        ),
    }
}

/// Tells whether `e` is the failure of a required field that is empty: the
/// empty-field message with the name that `T` gives itself.
pub open spec fn is_empty_failure<T: PostParseableFromStr>(
    e: MultipartErrorView,
    field: Seq<char>,
) -> bool {
    exists|label: Seq<char>| #[trigger]
        labels::<T>(label) && e == MultipartErrorView::ParseError(empty_field_text(field, label))
}

/// Tells whether `r` is what reading the trimmed value `text` as a required
/// `T` returns: what `required_outcome` makes of the answer of `T`'s own
/// parser for `text`, under the name that `T` gives itself.
pub open spec fn reads_required<T: PostParseableFromStr>(
    field: Seq<char>,
    text: Seq<char>,
    r: MultipartResult<T>,
) -> bool {
    exists|label: Seq<char>, parsed: Result<T, String>|
        labels::<T>(label) && parses_to::<T>(text, parsed) && #[trigger] required_outcome(
            field,
            text,
            label,
            parsed,
            r,
        )
}

/// Tells whether `r` is what reading the trimmed value `text` as an
/// optional `T` returns: what `optional_outcome` makes of the answer of
/// `T`'s own parser for `text`, under the name that `T` gives itself.
pub open spec fn reads_optional<T: PostParseableFromStr>(
    field: Seq<char>,
    text: Seq<char>,
    r: MultipartResult<Option<T>>,
) -> bool {
    exists|label: Seq<char>, parsed: Result<T, String>|
        labels::<T>(label) && parses_to::<T>(text, parsed) && #[trigger] optional_outcome(
            field,
            text,
            label,
            parsed,
            r,
        )
}

/// The outcome of reading a required field as a `T`. A missing field fails
/// with `MissingDataField`; a field whose value is empty once trimmed fails
/// with the empty-field message, which names the type; any other value is
/// handed, trimmed, to the type's own parser, whose answer decides: its
/// value is the result, its refusal is the failure that names the field,
/// the value, the type and the reason.
pub open spec fn required_rule<T: PostParseableFromStr>(
    form: FormView,
    field: Seq<char>,
    r: MultipartResult<T>,
) -> bool {
    match lookup(form, field) {
        Lookup::Missing => r is Err && r->Err_0@ == MultipartErrorView::MissingDataField(field),
        Lookup::Blank => r is Err && is_empty_failure::<T>(r->Err_0@, field),
        Lookup::Text(text) => reads_required::<T>(field, text, r),
    }
}

/// The outcome of reading an optional field as a `T`. A missing field and
/// a field whose value is empty once trimmed give `None`; any other value
/// is handed, trimmed, to the type's own parser, whose answer decides: its
/// value gives `Some`, its refusal is the failure that names the field, the
/// value, the type and the reason.
pub open spec fn optional_rule<T: PostParseableFromStr>(
    form: FormView,
    field: Seq<char>,
    r: MultipartResult<Option<T>>,
) -> bool {
    match lookup(form, field) {
        Lookup::Missing => r is Ok && r->Ok_0 is None,
        Lookup::Blank => r is Ok && r->Ok_0 is None,
        Lookup::Text(text) => reads_optional::<T>(field, text, r),
    }
}

/// `value` without its leading and trailing whitespace.
pub fn trimmed(value: &str) -> (r: String)
    ensures
        r@ == trim(value@),
{
    let chars = chars_of(value);
    let (a, b) = trim_range(&chars, 0, chars.len());
    assert(chars@.subrange(0, chars.len() as int) == chars@);
    slice_text(value, a, b)
}

/// The failure for a required field that is empty.
pub fn empty_field_error(field: &str, label: &str) -> (e: MultipartError)
    ensures
        e@ == MultipartErrorView::ParseError(empty_field_text(field@, label@)),
{
    let mut text = String::from_str("Field '");
    text.append(field);
    text.append("' is empty and cannot be parsed as ");
    text.append(label);
    MultipartError::ParseError(text)
}

/// The failure for a value that the type's parser refused.
pub fn parse_failure(field: &str, value: &str, label: &str, why: &str) -> (e: MultipartError)
    ensures
        e@ == MultipartErrorView::ParseError(parse_failure_text(field@, value@, label@, why@)),
{
    let mut text = String::from_str("Failed to parse field '");
    text.append(field);
    text.append("' with value '");
    text.append(value);
    text.append("' as ");
    text.append(label);
    text.append(": ");
    text.append(why);
    MultipartError::ParseError(text)
}

/// What reading a required field returns once the type's parser has
/// answered with `parsed` for the trimmed value `value`.
pub fn required_result<T>(field: &str, value: &str, label: &str, parsed: Result<T, String>) -> (r:
    MultipartResult<T>)
    ensures
        required_outcome(field@, value@, label@, parsed, r),
{
    match parsed {
        Ok(v) => Ok(v),
        Err(why) => Err(parse_failure(field, value, label, why.as_str())),
    }
}

/// What reading an optional field returns once the type's parser has
/// answered with `parsed` for the trimmed value `value`: a refusal is a
/// failure, not `None`.
pub fn optional_result<T>(field: &str, value: &str, label: &str, parsed: Result<T, String>) -> (r:
    MultipartResult<Option<T>>)
    ensures
        optional_outcome(field@, value@, label@, parsed, r),
{
    match parsed {
        Ok(v) => Ok(Some(v)),
        Err(why) => Err(parse_failure(field, value, label, why.as_str())),
    }
}

/// Reads the required field `field` as a `T`.
pub fn parse_from_multipart_str<T: PostParseableFromStr>(multipart: &Multipart, field: &str) -> (r:
    MultipartResult<T>)
    ensures
        required_rule::<T>(multipart@, field@, r),
{
    let data_input = match multipart.first_data_required(field) {
        Ok(d) => d,
        Err(e) => {
            return Err(e);
        },
    };
    let value = trimmed(data_input.value.as_str());
    let label = T::label();
    assert(labels::<T>(label@));
    assert(list_in(multipart@.data, field@)[0].value == data_input.value@);
    if value.as_str().is_empty() {
        let e = empty_field_error(field, label);
        assert(is_empty_failure::<T>(e@, field@));
        return Err(e);
    }
    let parsed = T::parse_text(value.as_str());
    let r = required_result(field, value.as_str(), label, parsed);
    assert(parses_to::<T>(value@, parsed) && required_outcome(field@, value@, label@, parsed, r));
    assert(reads_required::<T>(field@, value@, r));
    r
}

/// Reads the optional field `field` as a `T`.
pub fn parse_optional_from_multipart<T: PostParseableFromStr>(
    multipart: &Multipart,
    field: &str,
) -> (r: MultipartResult<Option<T>>)
    ensures
        optional_rule::<T>(multipart@, field@, r),
{
    match multipart.first_data(field) {
        Some(data_input) => {
            let value = trimmed(data_input.value.as_str());
            assert(list_in(multipart@.data, field@)[0].value == data_input.value@);
            if value.as_str().is_empty() {
                return Ok(None);
            }
            let label = T::label();
            let parsed = T::parse_text(value.as_str());
            let r = optional_result(field, value.as_str(), label, parsed);
            assert(labels::<T>(label@) && parses_to::<T>(value@, parsed) && optional_outcome(
                field@,
                value@,
                label@,
                parsed,
                r,
            ));
            assert(reads_optional::<T>(field@, value@, r));
            r
        },
        None => Ok(None),
    }
}

impl<T: PostParseableFromStr> PostParseable for T {
    open spec fn admits(form: FormView, field: Seq<char>, r: MultipartResult<Self>) -> bool {
        required_rule::<T>(form, field, r)
    }

    fn parse_from_multipart(multipart: &Multipart, field: &str) -> (r: MultipartResult<Self>) {
        parse_from_multipart_str::<T>(multipart, field)
    }
}

impl<T: PostParseableFromStr> PostParseable for Option<T> {
    open spec fn admits(form: FormView, field: Seq<char>, r: MultipartResult<Self>) -> bool {
        optional_rule::<T>(form, field, r)
    }

    fn parse_from_multipart(multipart: &Multipart, field: &str) -> (r: MultipartResult<Self>) {
        parse_optional_from_multipart::<T>(multipart, field)
    }
}

impl Sealed for i8 {

}

impl PostParseableFromStr for i8 {
    fn label() -> (r: &'static str)
        ensures
            r@ == "i8"@,
    {
        "i8"
    }

    fn parse_text(text: &str) -> (r: Result<Self, String>)
        ensures
            match decimal_integer_in(text@, true, i8::MIN as int, i8::MAX as int) {
                Some(v) => r is Ok && r->Ok_0 == v,
                None => r is Err,
            },
    {
        parse_i8(text)
    }
}

impl Sealed for i16 {

}

impl PostParseableFromStr for i16 {
    fn label() -> (r: &'static str)
        ensures
            r@ == "i16"@,
    {
        "i16"
    }

    fn parse_text(text: &str) -> (r: Result<Self, String>)
        ensures
            match decimal_integer_in(text@, true, i16::MIN as int, i16::MAX as int) {
                Some(v) => r is Ok && r->Ok_0 == v,
                None => r is Err,
            },
    {
        parse_i16(text)
    }
}

impl Sealed for i32 {

}

impl PostParseableFromStr for i32 {
    fn label() -> (r: &'static str)
        ensures
            r@ == "i32"@,
    {
        "i32"
    }

    fn parse_text(text: &str) -> (r: Result<Self, String>)
        ensures
            match decimal_integer_in(text@, true, i32::MIN as int, i32::MAX as int) {
                Some(v) => r is Ok && r->Ok_0 == v,
                None => r is Err,
            },
    {
        parse_i32(text)
    }
}

impl Sealed for i64 {

}

impl PostParseableFromStr for i64 {
    fn label() -> (r: &'static str)
        ensures
            r@ == "i64"@,
    {
        "i64"
    }

    fn parse_text(text: &str) -> (r: Result<Self, String>)
        ensures
            match decimal_integer_in(text@, true, i64::MIN as int, i64::MAX as int) {
                Some(v) => r is Ok && r->Ok_0 == v,
                None => r is Err,
            },
    {
        parse_i64(text)
    }
}

impl Sealed for i128 {

}

impl PostParseableFromStr for i128 {
    fn label() -> (r: &'static str)
        ensures
            r@ == "i128"@,
    {
        "i128"
    }

    fn parse_text(text: &str) -> (r: Result<Self, String>)
        ensures
            match decimal_integer_in(text@, true, i128::MIN as int, i128::MAX as int) {
                Some(v) => r is Ok && r->Ok_0 == v,
                None => r is Err,
            },
    {
        parse_i128(text)
    }
}

impl Sealed for isize {

}

impl PostParseableFromStr for isize {
    fn label() -> (r: &'static str)
        ensures
            r@ == "isize"@,
    {
        "isize"
    }

    fn parse_text(text: &str) -> (r: Result<Self, String>)
        ensures
            match decimal_integer_in(text@, true, isize::MIN as int, isize::MAX as int) {
                Some(v) => r is Ok && r->Ok_0 == v,
                None => r is Err,
            },
    {
        parse_isize(text)
    }
}

impl Sealed for u8 {

}

impl PostParseableFromStr for u8 {
    fn label() -> (r: &'static str)
        ensures
            r@ == "u8"@,
    {
        "u8"
    }

    fn parse_text(text: &str) -> (r: Result<Self, String>)
        ensures
            match decimal_integer_in(text@, false, u8::MIN as int, u8::MAX as int) {
                Some(v) => r is Ok && r->Ok_0 == v,
                None => r is Err,
            },
    {
        parse_u8(text)
    }
}

impl Sealed for u16 {

}

impl PostParseableFromStr for u16 {
    fn label() -> (r: &'static str)
        ensures
            r@ == "u16"@,
    {
        "u16"
    }

    fn parse_text(text: &str) -> (r: Result<Self, String>)
        ensures
            match decimal_integer_in(text@, false, u16::MIN as int, u16::MAX as int) {
                Some(v) => r is Ok && r->Ok_0 == v,
                None => r is Err,
            },
    {
        parse_u16(text)
    }
}

impl Sealed for u32 {

}

impl PostParseableFromStr for u32 {
    fn label() -> (r: &'static str)
        ensures
            r@ == "u32"@,
    {
        "u32"
    }

    fn parse_text(text: &str) -> (r: Result<Self, String>)
        ensures
            match decimal_integer_in(text@, false, u32::MIN as int, u32::MAX as int) {
                Some(v) => r is Ok && r->Ok_0 == v,
                None => r is Err,
            },
    {
        parse_u32(text)
    }
}

impl Sealed for u64 {

}

impl PostParseableFromStr for u64 {
    fn label() -> (r: &'static str)
        ensures
            r@ == "u64"@,
    {
        "u64"
    }

    fn parse_text(text: &str) -> (r: Result<Self, String>)
        ensures
            match decimal_integer_in(text@, false, u64::MIN as int, u64::MAX as int) {
                Some(v) => r is Ok && r->Ok_0 == v,
                None => r is Err,
            },
    {
        parse_u64(text)
    }
}

impl Sealed for u128 {

}

impl PostParseableFromStr for u128 {
    fn label() -> (r: &'static str)
        ensures
            r@ == "u128"@,
    {
        "u128"
    }

    fn parse_text(text: &str) -> (r: Result<Self, String>)
        ensures
            match decimal_integer_in(text@, false, u128::MIN as int, u128::MAX as int) {
                Some(v) => r is Ok && r->Ok_0 == v,
                None => r is Err,
            },
    {
        parse_u128(text)
    }
}

impl Sealed for usize {

}

impl PostParseableFromStr for usize {
    fn label() -> (r: &'static str)
        ensures
            r@ == "usize"@,
    {
        "usize"
    }

    fn parse_text(text: &str) -> (r: Result<Self, String>)
        ensures
            match decimal_integer_in(text@, false, usize::MIN as int, usize::MAX as int) {
                Some(v) => r is Ok && r->Ok_0 == v,
                None => r is Err,
            },
    {
        parse_usize(text)
    }
}

impl Sealed for bool {

}

impl PostParseableFromStr for bool {
    fn label() -> (r: &'static str)
        ensures
            r@ == "bool"@,
    {
        "bool"
    }

    fn parse_text(text: &str) -> (r: Result<Self, String>)
        ensures
            r is Ok <==> text@ == "true"@ || text@ == "false"@,
            r is Ok ==> r->Ok_0 == (text@ == "true"@),
    {
        parse_bool(text)
    }
}

impl Sealed for char {

}

impl PostParseableFromStr for char {
    fn label() -> (r: &'static str)
        ensures
            r@ == "char"@,
    {
        "char"
    }

    fn parse_text(text: &str) -> (r: Result<Self, String>)
        ensures
            r is Ok <==> text@.len() == 1,
            r is Ok ==> r->Ok_0 == text@[0],
    {
        parse_char(text)
    }
}

impl Sealed for String {

}

impl PostParseableFromStr for String {
    fn label() -> (r: &'static str)
        ensures
            r@ == "alloc::string::String"@,
    {
        "alloc::string::String"
    }

    fn parse_text(text: &str) -> (r: Result<Self, String>)
        ensures
            r is Ok,
            r->Ok_0@ == text@,
    {
        Ok(text.to_owned())
    }
}

impl Sealed for std::path::PathBuf {

}

impl PostParseableFromStr for std::path::PathBuf {
    fn label() -> (r: &'static str)
        ensures
            r@ == "std::path::PathBuf"@,
    {
        "std::path::PathBuf"
    }

    fn parse_text(text: &str) -> (r: Result<Self, String>)
        ensures
            r is Ok,
    {
        parse_path_buf(text)
    }
}

impl Sealed for uuid::Uuid {

}

impl PostParseableFromStr for uuid::Uuid {
    fn label() -> (r: &'static str)
        ensures
            r@ == "uuid::Uuid"@,
    {
        "uuid::Uuid"
    }

    fn parse_text(text: &str) -> (r: Result<Self, String>)
        ensures
            match r {
                Ok(_) => uuid_refusal(text@) is None,
                Err(why) => uuid_refusal(text@) == Some(why@),
            },
    {
        parse_uuid(text)
    }
}

} // verus!
