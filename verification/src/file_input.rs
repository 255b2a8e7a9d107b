//! An uploaded file as it is collected from one part of a multipart form.
use crate::content_disposition::ContentDisposition;
use crate::file_validator::{
    field_violation, file_violation, first_file_violation, FileRules, InputError, Validator,
};
use crate::outside::{
    all_visible_ascii, ascii_text, bytes_content, extension_of, file_extension, formatted_size,
    header_entries, header_get, header_to_str, segment_bytes, size_text, to_str_error_text,
};
use crate::result::{MultipartError, MultipartErrorView, MultipartResult};
use ntex::http::HeaderMap;
use ntex::util::Bytes;
use vstd::prelude::*;

verus! {

/// One uploaded file: what its headers say of it and the bytes read so far.
#[derive(Debug, Clone)]
pub struct FileInput {
    pub file_name: String,
    pub field_name: String,
    /// Size in bytes.
    pub size: usize,
    pub content_type: String,
    pub bytes: Vec<Bytes>,
    pub extension: Option<String>,
    pub content_disposition: ContentDisposition,
}

/// A file with its texts as character sequences and its segments as bytes.
pub struct FileView {
    pub file_name: Seq<char>,
    pub field_name: Seq<char>,
    pub size: usize,
    pub content_type: Seq<char>,
    pub segments: Seq<Seq<u8>>,
    pub extension: Option<Seq<char>>,
    pub disposition: Map<Seq<char>, Seq<char>>,
}

/// The characters of an optional string.
pub open spec fn optional_text(s: Option<String>) -> Option<Seq<char>> {
    match s {
        Some(t) => Some(t@),
        None => None,
    }
}

/// The contents of each segment.
pub open spec fn segment_contents(bytes: Seq<Bytes>) -> Seq<Seq<u8>> {
    bytes.map_values(|b: Bytes| bytes_content(b))
}

impl View for FileInput {
    type V = FileView;

    open spec fn view(&self) -> FileView {
        FileView {
            file_name: self.file_name@,
            field_name: self.field_name@,
            size: self.size,
            content_type: self.content_type@,
            segments: segment_contents(self.bytes@),
            extension: optional_text(self.extension),
            disposition: self.content_disposition@,
        }
    }
}

/// The sum of the lengths of `segments`.
pub open spec fn total_len(segments: Seq<Seq<u8>>) -> nat
    decreases segments.len(),
{
    if segments.len() == 0 {
        0
    } else {
        total_len(segments.drop_last()) + segments.last().len()
    }
}

/// The total length of a prefix is at most that of the whole.
pub proof fn total_len_prefix(segments: Seq<Seq<u8>>, n: int)
    requires
        0 <= n <= segments.len(),
    ensures
        total_len(segments.take(n)) <= total_len(segments),
    decreases segments.len(),
{
    if n < segments.len() {
        total_len_prefix(segments.drop_last(), n);
        assert(segments.drop_last().take(n) == segments.take(n));
    } else {
        assert(segments.take(n) == segments);
    }
}

/// The bytes of `segments`, one segment after the other.
pub open spec fn joined(segments: Seq<Seq<u8>>) -> Seq<u8>
    decreases segments.len(),
{
    if segments.len() == 0 {
        Seq::empty()
    } else {
        joined(segments.drop_last()) + segments.last()
    }
}

/// The joined segments are as long as the segments are in total.
pub proof fn joined_len(segments: Seq<Seq<u8>>)
    ensures
        joined(segments).len() == total_len(segments),
    decreases segments.len(),
{
    if segments.len() > 0 {
        joined_len(segments.drop_last());
    }
}

/// The total size of the segments of a file.
pub fn total_size(chunks: &Vec<Bytes>) -> (n: usize)
    requires
        total_len(segment_contents(chunks@)) <= usize::MAX,
    ensures
        n == total_len(segment_contents(chunks@)),
{
    let ghost contents = segment_contents(chunks@);
    let mut sum: usize = 0;
    let mut i: usize = 0;
    while i < chunks.len()
        invariant
            i <= chunks.len(),
            contents == segment_contents(chunks@),
            sum == total_len(contents.take(i as int)),
            total_len(contents) <= usize::MAX,
        decreases chunks.len() - i,
    {
        proof {
            total_len_prefix(contents, i + 1);
            assert(contents.take(i + 1).drop_last() == contents.take(i as int));
        }
        sum = sum + chunks[i].len();
        i = i + 1;
    }
    assert(contents.take(i as int) == contents);
    sum
}

/// The total size of the segments of a file, if it fits in `usize`.
pub fn checked_total_size(chunks: &Vec<Bytes>) -> (r: Option<usize>)
    ensures
        r is Some <==> total_len(segment_contents(chunks@)) <= usize::MAX,
        r is Some ==> r->0 == total_len(segment_contents(chunks@)),
{
    let ghost contents = segment_contents(chunks@);
    let mut sum: usize = 0;
    let mut i: usize = 0;
    while i < chunks.len()
        invariant
            i <= chunks.len(),
            contents == segment_contents(chunks@),
            sum == total_len(contents.take(i as int)),
        decreases chunks.len() - i,
    {
        let len = chunks[i].len();
        proof {
            total_len_prefix(contents, i + 1);
            assert(contents.take(i + 1).drop_last() == contents.take(i as int));
        }
        if len > usize::MAX - sum {
            return None;
        }
        sum = sum + len;
        i = i + 1;
    }
    assert(contents.take(i as int) == contents);
    Some(sum)
}

/// What the `content-type` header of a part yields: its text, or the reason
/// why there is none.
pub open spec fn content_type_of(headers: HeaderMap) -> Result<Seq<char>, Seq<char>> {
    let entries = header_entries(headers);
    if !entries.contains_key("content-type"@) {
        Err("Empty content type"@)
    } else if all_visible_ascii(entries["content-type"@]) {
        Ok(ascii_text(entries["content-type"@]))
    } else {
        Err("failed to convert header to a str"@)
    }
}

/// The file that a part's headers and disposition describe, before any of
/// its bytes is read, or the failure that they give rise to.
pub open spec fn created(headers: HeaderMap, cd: Map<Seq<char>, Seq<char>>) -> Result<
    FileView,
    MultipartErrorView,
> {
    match content_type_of(headers) {
        Err(why) => Err(MultipartErrorView::NoContentType(why)),
        Ok(content_type) => if !cd.contains_key("name"@) {
            Err(MultipartErrorView::InvalidContentDisposition("missing name parameter"@))
        } else if !cd.contains_key("filename"@) {
            Err(MultipartErrorView::InvalidContentDisposition("missing filename parameter"@))
        } else {
            Ok(
                FileView {
                    file_name: cd["filename"@],
                    field_name: cd["name"@],
                    size: 0,
                    content_type,
                    segments: Seq::empty(),
                    extension: extension_of(cd["filename"@]),
                    disposition: cd,
                },
            )
        },
    }
}

impl Default for FileInput {
    fn default() -> (r: Self)
        ensures
            r@ == (FileView {
                file_name: Seq::empty(),
                field_name: Seq::empty(),
                size: 0,
                content_type: Seq::empty(),
                segments: Seq::empty(),
                extension: None,
                disposition: Map::empty(),
            }),
    {
        let r = FileInput {
            file_name: String::new(),
            field_name: String::new(),
            size: 0,
            content_type: String::new(),
            bytes: Vec::new(),
            extension: None,
            content_disposition: ContentDisposition::default(),
        };
        assert(segment_contents(r.bytes@) == Seq::<Seq<u8>>::empty());
        r
    }
}

impl FileInput {
    /// Starts a file from the headers of its part and the parsed
    /// disposition. The content type is looked at first, then the `name`
    /// and the `filename` of the disposition.
    pub fn create(headers: &HeaderMap, cd: ContentDisposition) -> (r: MultipartResult<Self>)
        ensures
            match created(*headers, cd@) {
                Ok(file) => r is Ok && r->Ok_0@ == file,
                Err(e) => r is Err && r->Err_0@ == e,
            },
    {
        let content_type = match Self::get_content_type(headers) {
            Ok(t) => t,
            Err(e) => {
                return Err(e);
            },
        };
        let field = match cd.get_variable("name") {
            Some(v) => v.to_owned(),
            None => {
                return Err(
                    MultipartError::InvalidContentDisposition(
                        String::from_str("missing name parameter"),
                    ),
                );
            },
        };
        let name = match cd.get_variable("filename") {
            Some(v) => v.to_owned(),
            None => {
                return Err(
                    MultipartError::InvalidContentDisposition(
                        String::from_str("missing filename parameter"),
                    ),
                );
            },
        };
        let extension = file_extension(name.as_str());
        let file = FileInput {
            extension,
            content_type,
            size: 0,
            bytes: Vec::new(),
            file_name: name,
            field_name: field,
            content_disposition: cd,
        };
        assert(segment_contents(file.bytes@) == Seq::<Seq<u8>>::empty());
        Ok(file)
    }

    /// Checks this file alone against `rules`, as the only file of its field.
    pub fn validate(&self, rules: FileRules) -> (r: MultipartResult<()>)
        ensures
            match field_violation(self.field_name@, Some(seq![self@]), rules@) {
                None => r is Ok,
                Some(e) => r is Err && r->Err_0@ == MultipartErrorView::ValidationError(e),
            },
    {
        let count_error = Validator::check_count(self.field_name.as_str(), 1, &rules);
        let outcome = match count_error {
            Some(e) => Some(e),
            None => Validator::validate_file(&rules, self),
        };
        proof {
            let files = seq![self@];
            assert(files.drop_first() == Seq::<FileView>::empty());
            assert(files.first() == self@);
            assert(first_file_violation(rules@, files.drop_first()) is None);
            assert(first_file_violation(rules@, files) == file_violation(rules@, self@));
        }
        match outcome {
            Some(e) => Err(MultipartError::ValidationError(e)),
            None => Ok(()),
        }
    }

    /// The number of bytes collected, which is the sum of the lengths of the
    /// segments.
    pub fn calculate_size(&self) -> (n: usize)
        requires
            total_len(self@.segments) <= usize::MAX,
        ensures
            n == total_len(self@.segments),
    {
        total_size(&self.bytes)
    }

    /// The number of bytes collected, if it fits in `usize`.
    pub fn checked_size(&self) -> (r: Option<usize>)
        ensures
            r is Some <==> total_len(self@.segments) <= usize::MAX,
            r is Some ==> r->0 == total_len(self@.segments),
    {
        checked_total_size(&self.bytes)
    }

    /// The bytes collected, one segment after the other: what saving the
    /// file writes.
    pub fn content(&self) -> (r: Vec<u8>)
        ensures
            r@ == joined(self@.segments),
            r@.len() == total_len(self@.segments),
    {
        let ghost segments = self@.segments;
        let mut out: Vec<u8> = Vec::new();
        let mut i: usize = 0;
        while i < self.bytes.len()
            invariant
                i <= self.bytes.len(),
                segments == segment_contents(self.bytes@),
                out@ == joined(segments.take(i as int)),
            decreases self.bytes.len() - i,
        {
            out.extend_from_slice(segment_bytes(&self.bytes[i]));
            assert(segments.take(i + 1).drop_last() == segments.take(i as int));
            i = i + 1;
        }
        assert(segments.take(i as int) == segments);
        proof {
            joined_len(segments);
        }
        out
    }

    /// The collected size in human-readable form.
    pub fn human_size(&self) -> (r: String)
        requires
            total_len(self@.segments) <= usize::MAX,
        ensures
            r@ == formatted_size(total_len(self@.segments) as u64),
    {
        let size_in_bytes = self.calculate_size();
        size_text(size_in_bytes as u64)
    }

    /// The text of the `content-type` header, or why there is none.
    pub fn get_content_type(headers: &HeaderMap) -> (r: MultipartResult<String>)
        ensures
            match content_type_of(*headers) {
                Ok(text) => r is Ok && r->Ok_0@ == text,
                Err(why) => r is Err && r->Err_0@ == MultipartErrorView::NoContentType(why),
            },
    {
        match header_get(headers, "content-type") {
            None => Err(MultipartError::NoContentType(String::from_str("Empty content type"))),
            Some(header) => match header_to_str(header) {
                Ok(v) => Ok(v.to_owned()),
                Err(err) => Err(MultipartError::NoContentType(to_str_error_text(&err))),
            },
        }
    }

    /// A size in bytes in human-readable form.
    pub fn format_size(size_in_bytes: usize) -> (r: String)
        ensures
            r@ == formatted_size(size_in_bytes as u64),
    {
        size_text(size_in_bytes as u64)
    }
}

} // verus!
