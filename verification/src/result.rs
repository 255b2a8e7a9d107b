//! The failures of multipart handling and the messages that describe them.
use crate::file_validator::{ErrorMessage, InputError, InputErrorView, Violation};
use crate::outside::{formatted_size, io_error_text, size_text, stream_error_text};
use crate::text::{decimal, decimal_text};
use ntex_multipart::MultipartError as StreamError;
use vstd::prelude::*;

verus! {

pub type MultipartResult<T> = Result<T, MultipartError>;

/// Why handling a multipart form failed.
#[derive(Debug)]
pub enum MultipartError {
    NoFile,
    IoError(std::io::Error),
    NoContentType(String),
    ParseError(String),
    MissingDataField(String),
    InvalidContentDisposition(String),
    NtexError(StreamError),
    ValidationError(InputError),
}

/// A failure with its texts as character sequences. The two variants that
/// wrap a foreign error keep nothing of it.
pub enum MultipartErrorView {
    NoFile,
    IoError,
    NoContentType(Seq<char>),
    ParseError(Seq<char>),
    MissingDataField(Seq<char>),
    InvalidContentDisposition(Seq<char>),
    NtexError,
    ValidationError(InputErrorView),
}

impl View for MultipartError {
    type V = MultipartErrorView;

    open spec fn view(&self) -> MultipartErrorView {
        match self {
            MultipartError::NoFile => MultipartErrorView::NoFile,
            MultipartError::IoError(_) => MultipartErrorView::IoError,
            MultipartError::NoContentType(s) => MultipartErrorView::NoContentType(s@),
            MultipartError::ParseError(s) => MultipartErrorView::ParseError(s@),
            MultipartError::MissingDataField(s) => MultipartErrorView::MissingDataField(s@),
            MultipartError::InvalidContentDisposition(s) =>
                MultipartErrorView::InvalidContentDisposition(s@),
            MultipartError::NtexError(_) => MultipartErrorView::NtexError,
            MultipartError::ValidationError(e) => MultipartErrorView::ValidationError(e@),
        }
    }
}

/// `name` with every underscore turned into a space.
pub open spec fn spaced(name: Seq<char>) -> Seq<char> {
    name.map_values(|c: char| if c == '_' { ' ' } else { c })
}

/// The message for a rule violation on the field `name`. Every message
/// names the field, with its underscores shown as spaces.
pub open spec fn violation_text(name: Seq<char>, violation: Violation) -> Seq<char> {
    let field = spaced(name);
    match violation {
        Violation::NoFiles => "No files were uploaded for field: '"@ + field + "'"@,
        Violation::FileTooSmall(size) => "File size is too small for field '"@ + field
            + "'. Minimum size is "@ + formatted_size(size as u64),
        Violation::FileTooLarge(size) => "File size is too big for field '"@ + field
            + "'. Maximum size is "@ + formatted_size(size as u64),
        Violation::TooFewFiles(count) => "Too few files uploaded for field '"@ + field
            + "'. Minimum is "@ + decimal(count as nat),
        Violation::TooManyFiles(count) => "Too many files uploaded for field '"@ + field
            + "'. Maximum is "@ + decimal(count as nat),
        Violation::InvalidFileExtension(ext) => "Invalid file extension for field '"@ + field
            + "': ."@ + (match ext {
            Some(e) => e,
            None => Seq::<char>::empty(),
        }),
        Violation::InvalidContentType(mime) => "Invalid mime type for field '"@ + field + "': "@
            + mime,
        Violation::MissingFileExtension(file) => "Invalid file for field '"@ + field
            + "', file extension is required: "@ + file,
    }
}

/// Tells whether `part` stands in `text` as a run of consecutive characters.
pub open spec fn holds(text: Seq<char>, part: Seq<char>) -> bool {
    exists|i: int|
        0 <= i && i + part.len() <= text.len() && #[trigger] text.subrange(i, i + part.len())
            == part
}

/// A text holds what stands between its head and its tail.
pub proof fn holds_between(head: Seq<char>, part: Seq<char>, tail: Seq<char>)
    ensures
        holds(head + part + tail, part),
{
    let text = head + part + tail;
    let i = head.len() as int;
    assert(text.subrange(i, i + part.len()) == part);
}

/// The message of every violation names the field, with its underscores
/// shown as spaces.
pub proof fn message_names_the_field(name: Seq<char>, violation: Violation)
    ensures
        holds(violation_text(name, violation), spaced(name)),
{
    let field = spaced(name);
    let text = violation_text(name, violation);
    match violation {
        Violation::NoFiles => {
            holds_between("No files were uploaded for field: '"@, field, "'"@);
        },
        Violation::FileTooSmall(size) => {
            let tail = "'. Minimum size is "@ + formatted_size(size as u64);
            assert(text == "File size is too small for field '"@ + field + tail);
            holds_between("File size is too small for field '"@, field, tail);
        },
        Violation::FileTooLarge(size) => {
            let tail = "'. Maximum size is "@ + formatted_size(size as u64);
            assert(text == "File size is too big for field '"@ + field + tail);
            holds_between("File size is too big for field '"@, field, tail);
        },
        Violation::TooFewFiles(count) => {
            let tail = "'. Minimum is "@ + decimal(count as nat);
            assert(text == "Too few files uploaded for field '"@ + field + tail);
            holds_between("Too few files uploaded for field '"@, field, tail);
        },
        Violation::TooManyFiles(count) => {
            let tail = "'. Maximum is "@ + decimal(count as nat);
            assert(text == "Too many files uploaded for field '"@ + field + tail);
            holds_between("Too many files uploaded for field '"@, field, tail);
        },
        Violation::InvalidFileExtension(ext) => {
            let tail = "': ."@ + (match ext {
                Some(e) => e,
                None => Seq::<char>::empty(),
            });
            assert(text == "Invalid file extension for field '"@ + field + tail);
            holds_between("Invalid file extension for field '"@, field, tail);
        },
        Violation::InvalidContentType(mime) => {
            let tail = "': "@ + mime;
            assert(text == "Invalid mime type for field '"@ + field + tail);
            holds_between("Invalid mime type for field '"@, field, tail);
        },
        Violation::MissingFileExtension(file) => {
            let tail = "', file extension is required: "@ + file;
            assert(text == "Invalid file for field '"@ + field + tail);
            holds_between("Invalid file for field '"@, field, tail);
        },
    }
}

/// The message of a failure that carries its own text. For the two variants
/// that wrap a foreign error the message is that error's own and is not
/// described here.
pub open spec fn message_text(e: MultipartErrorView) -> Seq<char> {
    match e {
        MultipartErrorView::NoFile => "No file was uploaded"@,
        MultipartErrorView::MissingDataField(field) => "Data field '"@ + field + "' is required"@,
        MultipartErrorView::NoContentType(what) => "Invalid content type: "@ + what,
        MultipartErrorView::ParseError(what) => "Failed to parse post data: "@ + what,
        MultipartErrorView::InvalidContentDisposition(what) => "Invalid content disposition: "@
            + what,
        MultipartErrorView::ValidationError(err) => violation_text(err.name, err.error),
        MultipartErrorView::IoError => Seq::<char>::empty(),
        MultipartErrorView::NtexError => Seq::<char>::empty(),
    }
}

/// `name` with every underscore turned into a space.
pub fn spaced_text(name: &str) -> (r: String)
    ensures
        r@ == spaced(name@),
{
    let mut out = String::new();
    for c in it: name.chars()
        invariant
            it.seq() == name@,
            out@ == spaced(it.seq().take(it.index() as int)),
    {
        let ghost before = it.seq().take(it.index() as int);
        if c == '_' {
            out.push(' ');
        } else {
            out.push(c);
        }
        assert(it.seq().take(it.index() + 1) == before.push(c));
        assert(spaced(before.push(c)) == spaced(before).push(if c == '_' { ' ' } else { c }));
    }
    assert(name@.take(name@.len() as int) == name@);
    out
}

/// The text `head`, then `field`, then `tail`.
fn around_field(head: &str, field: &str, tail: &str) -> (r: String)
    ensures
        r@ == head@ + field@ + tail@,
{
    let mut out = String::from_str(head);
    out.append(field);
    out.append(tail);
    out
}

impl InputError {
    /// The message that describes this violation.
    pub fn message(&self) -> (r: String)
        ensures
            r@ == violation_text(self.name@, self.error@),
    {
        let field = spaced_text(self.name.as_str());
        match &self.error {
            ErrorMessage::NoFiles => around_field(
                "No files were uploaded for field: '",
                field.as_str(),
                "'",
            ),
            ErrorMessage::FileTooSmall(size) => {
                let mut out = around_field(
                    "File size is too small for field '",
                    field.as_str(),
                    "'. Minimum size is ",
                );
                out.append(size_text(*size as u64).as_str());
                out
            },
            ErrorMessage::FileTooLarge(size) => {
                let mut out = around_field(
                    "File size is too big for field '",
                    field.as_str(),
                    "'. Maximum size is ",
                );
                out.append(size_text(*size as u64).as_str());
                out
            },
            ErrorMessage::TooFewFiles(count) => {
                let mut out = around_field(
                    "Too few files uploaded for field '",
                    field.as_str(),
                    "'. Minimum is ",
                );
                out.append(decimal_text(*count).as_str());
                out
            },
            ErrorMessage::TooManyFiles(count) => {
                let mut out = around_field(
                    "Too many files uploaded for field '",
                    field.as_str(),
                    "'. Maximum is ",
                );
                out.append(decimal_text(*count).as_str());
                out
            },
            ErrorMessage::InvalidFileExtension(ext) => {
                let mut out = around_field(
                    "Invalid file extension for field '",
                    field.as_str(),
                    "': .",
                );
                match ext {
                    Some(e) => {
                        out.append(e.as_str());
                    },
                    None => {
                        assert(out@ + Seq::<char>::empty() == out@);
                    },
                }
                out
            },
            ErrorMessage::InvalidContentType(mime) => {
                let mut out = around_field("Invalid mime type for field '", field.as_str(), "': ");
                out.append(mime.as_str());
                out
            },
            ErrorMessage::MissingFileExtension(file) => {
                let mut out = around_field(
                    "Invalid file for field '",
                    field.as_str(),
                    "', file extension is required: ",
                );
                out.append(file.as_str());
                out
            },
        }
    }
}

impl MultipartError {
    /// Tells whether the failure wraps a foreign error, whose message is that
    /// error's own.
    pub open spec fn is_foreign(&self) -> bool {
        self is IoError || self is NtexError
    }

    /// The message that describes this failure.
    pub fn message(&self) -> (r: String)
        ensures
            !self.is_foreign() ==> r@ == message_text(self@),
    {
        match self {
            MultipartError::IoError(err) => io_error_text(err),
            MultipartError::NoFile => String::from_str("No file was uploaded"),
            MultipartError::MissingDataField(field) => around_field(
                "Data field '",
                field.as_str(),
                "' is required",
            ),
            MultipartError::NoContentType(what) => {
                let mut out = String::from_str("Invalid content type: ");
                out.append(what.as_str());
                out
            },
            MultipartError::ParseError(what) => {
                let mut out = String::from_str("Failed to parse post data: ");
                out.append(what.as_str());
                out
            },
            MultipartError::InvalidContentDisposition(what) => {
                let mut out = String::from_str("Invalid content disposition: ");
                out.append(what.as_str());
                out
            },
            MultipartError::NtexError(err) => stream_error_text(err),
            MultipartError::ValidationError(err) => err.message(),
        }
    }
}

} // verus!
