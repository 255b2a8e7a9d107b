//! The aggregator of a multipart form: it takes the parts of a form one by
//! one and keeps the plain fields and the files by field name.
use crate::content_disposition::{
    is_padding, is_plain_name, pair_lacks_semicolon, pair_text, parse_onto, parse_segment,
    parse_two_quoted_pairs, segment_of_pair,
    parse_variables, ContentDisposition,
};
use crate::contract::PostParseable;
use crate::data_input::{DataInput, DataView};
use crate::field_map::FieldMap;
use crate::file_input::{
    checked_total_size, content_type_of, created, segment_contents, total_len, total_size, FileInput, FileView,
};
use crate::file_validator::{file_views, files_view, first_rule_violation, Validator};
use crate::outside::{
    all_visible_ascii, ascii_text, bytes_content, extension_of, header_entries, header_get, header_to_str,
    lossy_text, utf8_lossy,
};
use crate::result::{MultipartError, MultipartErrorView, MultipartResult};
use crate::text::{index_of_absent, index_of_joined, is_trimmed, lacks, trim_of_padded};
use ntex::http::HeaderMap;
use ntex::util::Bytes;
use ntex_multipart::MultipartError as StreamError;
use vstd::prelude::*;
use vstd::utf8::{decode_utf8, valid_utf8};

verus! {

/// One part of a form as read from the stream: its headers and the byte
/// segments of its body, in order.
pub struct RawPart {
    pub headers: HeaderMap,
    pub chunks: Vec<Bytes>,
}

/// The fields and files of a form, by field name, as views.
pub struct FormView {
    pub data: Map<Seq<char>, Seq<DataView>>,
    pub files: Map<Seq<char>, Seq<FileView>>,
}

/// What becomes of a part.
#[derive(Debug, Clone, Copy, PartialEq, Eq, Structural)]
pub enum PartKind {
    /// The part has no `name`: it is passed over.
    Skipped,
    /// The part has a `name` and no `filename`: a plain field.
    Data,
    /// The part has a `name` and a `filename`: a file.
    File,
}

/// The kind of the part whose disposition has the parameters `cd`.
pub open spec fn kind_of(cd: Map<Seq<char>, Seq<char>>) -> PartKind {
    if !cd.contains_key("name"@) {
        PartKind::Skipped
    } else if cd.contains_key("filename"@) {
        PartKind::File
    } else {
        PartKind::Data
    }
}

/// The text of the `content-disposition` header, if the part has one that
/// reads as text.
pub open spec fn disposition_text(headers: HeaderMap) -> Option<Seq<char>> {
    let entries = header_entries(headers);
    if entries.contains_key("content-disposition"@) && all_visible_ascii(
        entries["content-disposition"@],
    ) {
        Some(ascii_text(entries["content-disposition"@]))
    } else {
        None
    }
}

/// The segments decoded with invalid bytes replaced: each segment on its
/// own, and the results joined in order.
pub open spec fn lossy_concat(chunks: Seq<Seq<u8>>) -> Seq<char>
    decreases chunks.len(),
{
    if chunks.len() == 0 {
        Seq::empty()
    } else {
        lossy_concat(chunks.drop_last()) + utf8_lossy(chunks.last())
    }
}

/// Tells whether every segment is valid UTF-8 on its own.
pub open spec fn all_valid(chunks: Seq<Seq<u8>>) -> bool {
    forall|i: int| 0 <= i < chunks.len() ==> valid_utf8(#[trigger] chunks[i])
}

/// The texts that the segments encode, joined in order.
pub open spec fn decoded_concat(chunks: Seq<Seq<u8>>) -> Seq<char>
    decreases chunks.len(),
{
    if chunks.len() == 0 {
        Seq::empty()
    } else {
        decoded_concat(chunks.drop_last()) + decode_utf8(chunks.last())
    }
}

/// The text of a plain field. Where every segment is valid UTF-8 it is the
/// text that the segments encode; otherwise each segment is decoded on its
/// own with its invalid bytes replaced, and the results are joined.
pub open spec fn field_text(chunks: Seq<Seq<u8>>) -> Seq<char> {
    if all_valid(chunks) {
        decoded_concat(chunks)
    } else {
        lossy_concat(chunks)
    }
}

/// The list under `name`, which is empty where the name is absent.
pub open spec fn list_in<T>(m: Map<Seq<char>, Seq<T>>, name: Seq<char>) -> Seq<T> {
    if m.contains_key(name) {
        m[name]
    } else {
        Seq::empty()
    }
}

/// The form after one more part, or the failure that the part gives rise
/// to. A part without a readable disposition or without a `name` changes
/// nothing; a plain field adds its text under its name; a file adds itself
/// under its field name, with its segments and their total size.
pub open spec fn step(form: FormView, headers: HeaderMap, chunks: Seq<Seq<u8>>) -> Result<
    FormView,
    MultipartErrorView,
> {
    match disposition_text(headers) {
        None => Ok(form),
        Some(text) => {
            let cd = parse_variables(text);
            match kind_of(cd) {
                PartKind::Skipped => Ok(form),
                PartKind::Data => Ok(
                    FormView {
                        data: form.data.insert(
                            cd["name"@],
                            list_in(form.data, cd["name"@]).push(
                                DataView { name: cd["name"@], value: field_text(chunks) },
                            ),
                        ),
                        files: form.files,
                    },
                ),
                PartKind::File => match created(headers, cd) {
                    Err(e) => Err(e),
                    Ok(file) => Ok(
                        FormView {
                            data: form.data,
                            files: form.files.insert(
                                file.field_name,
                                list_in(form.files, file.field_name).push(
                                    FileView {
                                        size: total_len(chunks) as usize,
                                        segments: chunks,
                                        ..file
                                    },
                                ),
                            ),
                        },
                    ),
                },
            }
        },
    }
}

/// How a part is classified. A part without a readable disposition or
/// without a `name` is skipped: the form stays as it is, with no field and
/// no file added. A part with a `name` and no `filename` is a plain field:
/// the files stay, and the field's list grows by the one new value. A part
/// with a `name` and a `filename` is a file: the plain fields stay, and
/// unless the part fails the file's list grows by the one new file.
pub proof fn part_classification(form: FormView, headers: HeaderMap, chunks: Seq<Seq<u8>>)
    ensures
        disposition_text(headers) is None ==> step(form, headers, chunks) == Ok::<
            FormView,
            MultipartErrorView,
        >(form),
        disposition_text(headers) is Some ==> ({
            let cd = parse_variables(disposition_text(headers)->0);
            let name = cd["name"@];
            let next = step(form, headers, chunks);
            &&& !cd.contains_key("name"@) ==> next == Ok::<FormView, MultipartErrorView>(form)
            &&& cd.contains_key("name"@) && !cd.contains_key("filename"@) ==> {
                &&& next is Ok
                &&& next->Ok_0.files == form.files
                &&& list_in(next->Ok_0.data, name) == list_in(form.data, name).push(
                    DataView { name, value: field_text(chunks) },
                )
            }
            &&& cd.contains_key("name"@) && cd.contains_key("filename"@) && next is Ok ==> {
                &&& next->Ok_0.data == form.data
                &&& list_in(next->Ok_0.files, name).len() == list_in(form.files, name).len() + 1
                &&& list_in(next->Ok_0.files, name).last().file_name == cd["filename"@]
            }
        }),
{
}

/// The header text `form-data; name="N"; filename="F"` for the field name
/// `name` and the file name `file_name`, with the whitespace `pad1` and
/// `pad2` around the two parameters.
pub open spec fn file_disposition(
    pad1: Seq<Seq<char>>,
    name: Seq<char>,
    pad2: Seq<Seq<char>>,
    file_name: Seq<char>,
) -> Seq<char> {
    "form-data"@ + seq![';'] + (pair_text(pad1, "name"@, name) + seq![';'] + pair_text(
        pad2,
        "filename"@,
        file_name,
    ))
}

/// A part whose disposition reads `form-data; name="N"; filename="F"` and
/// whose content type reads as text becomes one file under `N`, after the
/// files already there, with the file name `F`, the content type, the
/// segments of the body and their total size; no plain field is added.
pub proof fn file_part_becomes_one_file(
    form: FormView,
    headers: HeaderMap,
    chunks: Seq<Seq<u8>>,
    pad1: Seq<Seq<char>>,
    name: Seq<char>,
    pad2: Seq<Seq<char>>,
    file_name: Seq<char>,
    content_type: Seq<char>,
)
    requires
        is_padding(pad1),
        is_padding(pad2),
        lacks(name, ';'),
        lacks(file_name, ';'),
        disposition_text(headers) == Some(file_disposition(pad1, name, pad2, file_name)),
        content_type_of(headers) == Ok::<Seq<char>, Seq<char>>(content_type),
    ensures
        step(form, headers, chunks) == Ok::<FormView, MultipartErrorView>(
            FormView {
                data: form.data,
                files: form.files.insert(
                    name,
                    list_in(form.files, name).push(
                        FileView {
                            file_name,
                            field_name: name,
                            size: total_len(chunks) as usize,
                            content_type,
                            segments: chunks,
                            extension: extension_of(file_name),
                            disposition: parse_variables(
                                file_disposition(pad1, name, pad2, file_name),
                            ),
                        },
                    ),
                ),
            },
        ),
{
    let head = "form-data"@;
    let key1 = "name"@;
    let key2 = "filename"@;
    reveal_strlit("form-data");
    reveal_strlit("name");
    reveal_strlit("filename");
    let rest = pair_text(pad1, key1, name) + seq![';'] + pair_text(pad2, key2, file_name);
    let text = file_disposition(pad1, name, pad2, file_name);
    let empty = Map::<Seq<char>, Seq<char>>::empty();
    // The first segment, `form-data`, has no `=` and adds nothing.
    assert(lacks(head, ';') && lacks(head, '=') && is_trimmed(head));
    index_of_joined(head, ';', rest);
    assert(text.take(head.len() as int) == head);
    assert(text.skip(head.len() as int + 1) == rest);
    assert(head == Seq::<char>::empty() + head + Seq::<char>::empty());
    trim_of_padded(Seq::<char>::empty(), head, Seq::<char>::empty());
    index_of_absent(head, '=');
    assert(parse_segment(head) is None);
    assert(parse_onto(empty, text) == parse_onto(empty, rest));
    // The two parameters.
    assert(is_plain_name(key1) && is_plain_name(key2) && key1 != key2);
    parse_two_quoted_pairs(pad1, key1, name, pad2, key2, file_name);
}

/// One part of the stream as the aggregator sees it.
pub struct PartView {
    pub headers: HeaderMap,
    pub chunks: Seq<Seq<u8>>,
}

/// What ended the taking in of a stream.
pub enum Failure {
    /// The stream itself failed, with this error.
    Stream(StreamError),
    /// A part was refused, with this failure.
    Part(MultipartErrorView),
}

/// The view of one event of the stream: a part, or the error with which
/// the stream failed.
pub open spec fn event_view(event: Result<RawPart, StreamError>) -> Result<PartView, StreamError> {
    match event {
        Ok(part) => Ok(PartView { headers: part.headers, chunks: segment_contents(part.chunks@) }),
        Err(e) => Err(e),
    }
}

/// The views of the events of a stream.
pub open spec fn event_views(events: Seq<Result<RawPart, StreamError>>) -> Seq<
    Result<PartView, StreamError>,
> {
    events.map_values(|e: Result<RawPart, StreamError>| event_view(e))
}

/// The form after the events of a stream, taken in order, and what ended
/// the taking, if it ended early: the first failure of the stream, with its
/// error, or of a part. What was collected before the failure stays.
pub open spec fn run(form: FormView, events: Seq<Result<PartView, StreamError>>) -> (
    FormView,
    Option<Failure>,
)
    decreases events.len(),
{
    if events.len() == 0 {
        (form, None)
    } else {
        match events.first() {
            Err(e) => (form, Some(Failure::Stream(e))),
            Ok(part) => match step(form, part.headers, part.chunks) {
                Err(e) => (form, Some(Failure::Part(e))),
                Ok(next) => run(next, events.drop_first()),
            },
        }
    }
}

/// Taking in a stream of one part gives the form after that part, or the
/// part's failure and the form as it was.
pub proof fn run_of_one_part(form: FormView, headers: HeaderMap, chunks: Seq<Seq<u8>>)
    ensures
        run(form, seq![Ok::<PartView, StreamError>(PartView { headers, chunks })]) == (match step(
            form,
            headers,
            chunks,
        ) {
            Ok(next) => (next, None::<Failure>),
            Err(e) => (form, Some(Failure::Part(e))),
        }),
{
    let events = seq![Ok::<PartView, StreamError>(PartView { headers, chunks })];
    assert(events.first() == Ok::<PartView, StreamError>(PartView { headers, chunks }));
    assert(events.drop_first().len() == 0);
    match step(form, headers, chunks) {
        Ok(next) => {
            assert(run(next, events.drop_first()) == (next, None::<Failure>));
        },
        Err(_) => {},
    }
}

/// A stream of one part without a readable disposition, or without a
/// `name` in it, leaves the form as it was and does not fail.
pub proof fn part_without_name_is_skipped(form: FormView, headers: HeaderMap, chunks: Seq<Seq<u8>>)
    requires
        disposition_text(headers) is Some ==> !parse_variables(
            disposition_text(headers)->0,
        ).contains_key("name"@),
    ensures
        step(form, headers, chunks) == Ok::<FormView, MultipartErrorView>(form),
        run(form, seq![Ok::<PartView, StreamError>(PartView { headers, chunks })]) == (
            form,
            None::<Failure>,
        ),
{
    run_of_one_part(form, headers, chunks);
}

/// The header text `form-data; name="N"` for the field name `name`, with
/// the whitespace `pad` around the parameter.
pub open spec fn field_disposition(pad: Seq<Seq<char>>, name: Seq<char>) -> Seq<char> {
    "form-data"@ + seq![';'] + pair_text(pad, "name"@, name)
}

/// A part whose disposition reads `form-data; name="N"` becomes one plain
/// field under `N`, after the values already there; no file is added. Its
/// value is the text of the body, which is the text that the segments
/// encode where each of them is valid UTF-8.
pub proof fn plain_part_becomes_one_field(
    form: FormView,
    headers: HeaderMap,
    chunks: Seq<Seq<u8>>,
    pad: Seq<Seq<char>>,
    name: Seq<char>,
)
    requires
        is_padding(pad),
        lacks(name, ';'),
        disposition_text(headers) == Some(field_disposition(pad, name)),
    ensures
        step(form, headers, chunks) == Ok::<FormView, MultipartErrorView>(
            FormView {
                data: form.data.insert(
                    name,
                    list_in(form.data, name).push(DataView { name, value: field_text(chunks) }),
                ),
                files: form.files,
            },
        ),
        all_valid(chunks) ==> field_text(chunks) == decoded_concat(chunks),
{
    let head = "form-data"@;
    let key = "name"@;
    reveal_strlit("form-data");
    reveal_strlit("name");
    reveal_strlit("filename");
    let pair = pair_text(pad, key, name);
    let text = field_disposition(pad, name);
    let empty = Map::<Seq<char>, Seq<char>>::empty();
    // The first segment, `form-data`, has no `=` and adds nothing.
    assert(lacks(head, ';') && lacks(head, '=') && is_trimmed(head));
    index_of_joined(head, ';', pair);
    assert(text.take(head.len() as int) == head);
    assert(text.skip(head.len() as int + 1) == pair);
    assert(head == Seq::<char>::empty() + head + Seq::<char>::empty());
    trim_of_padded(Seq::<char>::empty(), head, Seq::<char>::empty());
    index_of_absent(head, '=');
    assert(parse_segment(head) is None);
    assert(parse_onto(empty, text) == parse_onto(empty, pair));
    // The one parameter.
    assert(is_plain_name(key) && key != "filename"@);
    pair_lacks_semicolon(pad, key, name);
    segment_of_pair(pad, key, name);
    index_of_absent(pair, ';');
    assert(pair.take(pair.len() as int) == pair);
    assert(parse_onto(empty, pair) == empty.insert(key, name));
}

/// A stream of one part whose disposition reads
/// `form-data; name="N"; filename="F"`, taken into an empty form, gives one
/// file under `N` and nothing else.
pub proof fn one_file_part_alone(
    headers: HeaderMap,
    chunks: Seq<Seq<u8>>,
    pad1: Seq<Seq<char>>,
    name: Seq<char>,
    pad2: Seq<Seq<char>>,
    file_name: Seq<char>,
    content_type: Seq<char>,
)
    requires
        is_padding(pad1),
        is_padding(pad2),
        lacks(name, ';'),
        lacks(file_name, ';'),
        disposition_text(headers) == Some(file_disposition(pad1, name, pad2, file_name)),
        content_type_of(headers) == Ok::<Seq<char>, Seq<char>>(content_type),
    ensures
        ({
            let empty = FormView { data: Map::empty(), files: Map::empty() };
            let taken = run(
                empty,
                seq![Ok::<PartView, StreamError>(PartView { headers, chunks })],
            );
            &&& taken.1 is None
            &&& taken.0.data == Map::<Seq<char>, Seq<DataView>>::empty()
            &&& taken.0.files.dom() == set![name]
            &&& taken.0.files[name].len() == 1
            &&& taken.0.files[name][0].field_name == name
            &&& taken.0.files[name][0].file_name == file_name
            &&& taken.0.files[name][0].content_type == content_type
            &&& taken.0.files[name][0].segments == chunks
            &&& taken.0.files[name][0].size == total_len(chunks) as usize
        }),
{
    let empty = FormView { data: Map::empty(), files: Map::empty() };
    file_part_becomes_one_file(
        empty,
        headers,
        chunks,
        pad1,
        name,
        pad2,
        file_name,
        content_type,
    );
    run_of_one_part(empty, headers, chunks);
    let taken = run(empty, seq![Ok::<PartView, StreamError>(PartView { headers, chunks })]);
    assert(taken.0.files.dom() =~= set![name]);
}

/// A stream of one part whose disposition reads `form-data; name="N"`,
/// taken into an empty form, gives one plain field under `N` and nothing
/// else; where each segment is valid UTF-8 its value is the text that the
/// segments encode.
pub proof fn one_plain_part_alone(
    headers: HeaderMap,
    chunks: Seq<Seq<u8>>,
    pad: Seq<Seq<char>>,
    name: Seq<char>,
)
    requires
        is_padding(pad),
        lacks(name, ';'),
        disposition_text(headers) == Some(field_disposition(pad, name)),
    ensures
        ({
            let empty = FormView { data: Map::empty(), files: Map::empty() };
            let taken = run(
                empty,
                seq![Ok::<PartView, StreamError>(PartView { headers, chunks })],
            );
            &&& taken.1 is None
            &&& taken.0.files == Map::<Seq<char>, Seq<FileView>>::empty()
            &&& taken.0.data.dom() == set![name]
            &&& taken.0.data[name] == seq![DataView { name, value: field_text(chunks) }]
            &&& all_valid(chunks) ==> taken.0.data[name][0].value == decoded_concat(chunks)
        }),
{
    let empty = FormView { data: Map::empty(), files: Map::empty() };
    plain_part_becomes_one_field(empty, headers, chunks, pad, name);
    run_of_one_part(empty, headers, chunks);
    let taken = run(empty, seq![Ok::<PartView, StreamError>(PartView { headers, chunks })]);
    assert(taken.0.data.dom() =~= set![name]);
    assert(taken.0.data[name] == seq![DataView { name, value: field_text(chunks) }]);
}

/// Tells whether `r` reports `failure`: success where nothing failed, the
/// stream's own error passed through as `NtexError`, or the failure of the
/// part.
pub open spec fn reports(r: MultipartResult<()>, failure: Option<Failure>) -> bool {
    match failure {
        None => r is Ok,
        Some(Failure::Stream(e)) => r == Err::<(), MultipartError>(MultipartError::NtexError(e)),
        Some(Failure::Part(e)) => r is Err && r->Err_0@ == e,
    }
}

/// Tells whether the size of every part of a stream fits in `usize`.
pub open spec fn sizes_fit(events: Seq<Result<PartView, StreamError>>) -> bool {
    forall|i: int|
        0 <= i < events.len() && events[i] is Ok ==> total_len((#[trigger] events[i])->Ok_0.chunks)
            <= usize::MAX
}

/// The views of the plain fields of a list.
pub open spec fn data_views(list: Seq<DataInput>) -> Seq<DataView> {
    list.map_values(|d: DataInput| d@)
}

/// The plain fields of a form by field name, as views.
pub open spec fn data_view(data: &FieldMap<Vec<DataInput>>) -> Map<Seq<char>, Seq<DataView>> {
    data.to_map().map_values(|list: Vec<DataInput>| data_views(list@))
}

/// The fields and files collected from the parts of one form.
#[derive(Debug)]
pub struct Multipart {
    file_inputs: FieldMap<Vec<FileInput>>,
    data_inputs: FieldMap<Vec<DataInput>>,
}

/// What to do when a segment of a part's body cannot be read.
#[derive(Debug, Clone, Copy, PartialEq, Eq, Structural)]
pub enum ChunkAction {
    /// End the taking in of the stream with the stream's error.
    Fail,
    /// Pass over the segment and go on with the part.
    Skip,
}

/// What to do when a segment of a part of the kind `kind` cannot be read: a
/// file is lost with any of its segments, so the stream's error ends the
/// taking in; a plain field goes on without the segment, and so does a part
/// that is skipped anyway.
pub fn on_chunk_failure(kind: PartKind) -> (r: ChunkAction)
    ensures
        r == (if kind == PartKind::File {
            ChunkAction::Fail
        } else {
            ChunkAction::Skip
        }),
{
    match kind {
        PartKind::File => ChunkAction::Fail,
        _ => ChunkAction::Skip,
    }
}

/// The kind of the part with the headers `headers`: a part without a
/// `content-disposition` header that reads as text is skipped.
pub fn classify_part(headers: &HeaderMap) -> (r: PartKind)
    ensures
        r == (match disposition_text(*headers) {
            Some(text) => kind_of(parse_variables(text)),
            None => PartKind::Skipped,
        }),
{
    match header_get(headers, "content-disposition") {
        None => PartKind::Skipped,
        Some(value) => match header_to_str(value) {
            Err(_) => PartKind::Skipped,
            Ok(text) => classify(&ContentDisposition::create(text)),
        },
    }
}

/// The kind of the part with the disposition `cd`.
pub fn classify(cd: &ContentDisposition) -> (r: PartKind)
    ensures
        r == kind_of(cd@),
{
    if !cd.has_name_field() {
        PartKind::Skipped
    } else if cd.is_file_field() {
        PartKind::File
    } else {
        PartKind::Data
    }
}

/// The text of the segments of a plain field.
pub fn collect_text(chunks: &Vec<Bytes>) -> (r: String)
    ensures
        r@ == field_text(segment_contents(chunks@)),
{
    let ghost contents = segment_contents(chunks@);
    let mut value = String::new();
    let mut i: usize = 0;
    while i < chunks.len()
        invariant
            i <= chunks.len(),
            contents == segment_contents(chunks@),
            value@ == lossy_concat(contents.take(i as int)),
            all_valid(contents.take(i as int)) ==> value@ == decoded_concat(contents.take(i as int)),
        decreases chunks.len() - i,
    {
        let piece = lossy_text(&chunks[i]);
        value.append(piece.as_str());
        proof {
            let before = contents.take(i as int);
            let now = contents.take(i + 1);
            assert(now.drop_last() == before);
            assert(now.last() == contents[i as int]);
            if all_valid(now) {
                assert(valid_utf8(now[i as int]));
                assert forall|j: int| 0 <= j < before.len() implies valid_utf8(
                    #[trigger] before[j],
                ) by {
                    assert(before[j] == now[j]);
                }
            }
        }
        i = i + 1;
    }
    assert(contents.take(i as int) == contents);
    value
}

impl Multipart {
    /// The fields and files collected so far.
    pub closed spec fn view(&self) -> FormView {
        FormView { data: data_view(&self.data_inputs), files: files_view(&self.file_inputs) }
    }

    /// An aggregator that has seen no part.
    pub fn new() -> (r: Self)
        ensures
            r@.data == Map::<Seq<char>, Seq<DataView>>::empty(),
            r@.files == Map::<Seq<char>, Seq<FileView>>::empty(),
    {
        let r = Multipart { file_inputs: FieldMap::new(), data_inputs: FieldMap::new() };
        assert(r@.data =~= Map::<Seq<char>, Seq<DataView>>::empty());
        assert(r@.files =~= Map::<Seq<char>, Seq<FileView>>::empty());
        r
    }

    /// Adds one occurrence of a plain field, after those already held under
    /// its name.
    pub fn push_data(&mut self, input: DataInput)
        ensures
            final(self)@.files == old(self)@.files,
            final(self)@.data == old(self)@.data.insert(
                input.name@,
                list_in(old(self)@.data, input.name@).push(input@),
            ),
    {
        let ghost before = self.data_inputs;
        let ghost name = input.name@;
        let key = input.name.clone();
        self.data_inputs.append(key, input);
        proof {
            let after = self.data_inputs;
            assert(data_views(after.list_of(name)) == data_views(before.list_of(name)).push(input@));
            assert(data_views(before.list_of(name)) == list_in(old(self)@.data, name));
            assert(after.has(name));
            let target = old(self)@.data.insert(name, list_in(old(self)@.data, name).push(input@));
            assert forall|k: Seq<char>| self@.data.contains_key(k) == target.contains_key(k) by {
                assert(after.has(k) == (before.has(k) || k == name));
            }
            assert forall|k: Seq<char>| self@.data.contains_key(k) implies self@.data[k]
                == target[k] by {
                assert(after.has(k) == (before.has(k) || k == name));
                if k != name {
                    assert(after.value_of(k) == before.value_of(k));
                }
            }
            assert(self@.data =~= old(self)@.data.insert(
                name,
                list_in(old(self)@.data, name).push(input@),
            ));
        }
    }

    /// Adds one file, after those already held under its field name.
    pub fn push_file(&mut self, file: FileInput)
        ensures
            final(self)@.data == old(self)@.data,
            final(self)@.files == old(self)@.files.insert(
                file.field_name@,
                list_in(old(self)@.files, file.field_name@).push(file@),
            ),
    {
        let ghost before = self.file_inputs;
        let ghost name = file.field_name@;
        let key = file.field_name.clone();
        self.file_inputs.append(key, file);
        proof {
            let after = self.file_inputs;
            assert(file_views(after.list_of(name)) == file_views(before.list_of(name)).push(file@));
            assert(file_views(before.list_of(name)) == list_in(old(self)@.files, name));
            assert(after.has(name));
            let target = old(self)@.files.insert(name, list_in(old(self)@.files, name).push(file@));
            assert forall|k: Seq<char>| self@.files.contains_key(k) == target.contains_key(k) by {
                assert(after.has(k) == (before.has(k) || k == name));
            }
            assert forall|k: Seq<char>| self@.files.contains_key(k) implies self@.files[k]
                == target[k] by {
                assert(after.has(k) == (before.has(k) || k == name));
                if k != name {
                    assert(after.value_of(k) == before.value_of(k));
                }
            }
            assert(self@.files =~= old(self)@.files.insert(
                name,
                list_in(old(self)@.files, name).push(file@),
            ));
        }
    }

    /// The field `field` read as a `T`. For an `Option` a missing or empty
    /// field is `None`; for any other type it is a failure.
    pub fn post<T: PostParseable>(&self, field: &str) -> (r: MultipartResult<T>)
        ensures
            T::admits(self@, field@, r),
    {
        T::parse_from_multipart(self, field)
    }

    /// The field `field` read as a `T`, or `default` where reading it fails.
    pub fn post_or<T: PostParseable>(&self, field: &str, default: T) -> (r: T)
        ensures
            T::admits(self@, field@, Ok(r)) || (r == default && exists|e: MultipartError|
                T::admits(self@, field@, Err(e))),
    {
        match self.post::<T>(field) {
            Ok(v) => v,
            Err(e) => {
                assert(T::admits(self@, field@, Err(e)));
                default
            },
        }
    }

    /// The field `field` read as a `T`, or `None` where reading it fails
    /// for whatever reason.
    pub fn post_opt<T: PostParseable>(&self, field: &str) -> (r: Option<T>)
        ensures
            match r {
                Some(v) => T::admits(self@, field@, Ok(v)),
                None => exists|e: MultipartError| T::admits(self@, field@, Err(e)),
            },
    {
        match self.post::<T>(field) {
            Ok(v) => Some(v),
            Err(e) => {
                assert(T::admits(self@, field@, Err(e)));
                None
            },
        }
    }

    /// All plain fields.
    pub fn all_data(&self) -> (r: &FieldMap<Vec<DataInput>>)
        ensures
            r.wf(),
            data_view(r) == self@.data,
    {
        proof {
            use_type_invariant(&self.data_inputs);
        }
        &self.data_inputs
    }

    /// The occurrences of the plain field `field`, if the form has it.
    pub fn data(&self, field: &str) -> (r: Option<&Vec<DataInput>>)
        ensures
            r is Some <==> self@.data.contains_key(field@),
            r is Some ==> data_views(r->0@) == self@.data[field@],
    {
        self.data_inputs.get(field)
    }

    /// The first occurrence of the plain field `field`, if there is one.
    pub fn first_data(&self, field: &str) -> (r: Option<&DataInput>)
        ensures
            r is Some <==> list_in(self@.data, field@).len() > 0,
            r is Some ==> r->0@ == self@.data[field@][0],
    {
        match self.data_inputs.get(field) {
            Some(inputs) => {
                if inputs.len() > 0 {
                    assert(data_views(inputs@)[0] == inputs@[0]@);
                    Some(&inputs[0])
                } else {
                    None
                }
            },
            None => None,
        }
    }

    /// The first occurrence of the plain field `field`, or the failure that
    /// names the missing field.
    pub fn first_data_required(&self, field: &str) -> (r: MultipartResult<&DataInput>)
        ensures
            r is Ok <==> list_in(self@.data, field@).len() > 0,
            r is Ok ==> r->Ok_0@ == self@.data[field@][0],
            r is Err ==> r->Err_0@ == MultipartErrorView::MissingDataField(field@),
    {
        match self.first_data(field) {
            Some(input) => Ok(input),
            None => Err(MultipartError::MissingDataField(field.to_owned())),
        }
    }

    /// All files.
    pub fn all_files(&self) -> (r: &FieldMap<Vec<FileInput>>)
        ensures
            r.wf(),
            files_view(r) == self@.files,
    {
        proof {
            use_type_invariant(&self.file_inputs);
        }
        &self.file_inputs
    }

    /// The files of the field `field`, if the form has it.
    pub fn files(&self, field: &str) -> (r: Option<&Vec<FileInput>>)
        ensures
            r is Some <==> self@.files.contains_key(field@),
            r is Some ==> file_views(r->0@) == self@.files[field@],
    {
        self.file_inputs.get(field)
    }

    /// The first file of the field `field`, if there is one.
    pub fn first_file(&self, field: &str) -> (r: Option<&FileInput>)
        ensures
            r is Some <==> list_in(self@.files, field@).len() > 0,
            r is Some ==> r->0@ == self@.files[field@][0],
    {
        match self.file_inputs.get(field) {
            Some(files) => {
                if files.len() > 0 {
                    assert(file_views(files@)[0] == files@[0]@);
                    Some(&files[0])
                } else {
                    None
                }
            },
            None => None,
        }
    }

    /// Tells whether the form has files under `field`.
    pub fn has_file(&self, field: &str) -> (r: bool)
        ensures
            r == self@.files.contains_key(field@),
    {
        self.file_inputs.contains_key(field)
    }

    /// Takes in the events of a stream, then checks the files collected
    /// against the rules of `validator`. A failure of the stream or of a
    /// part comes before any violation.
    pub fn validate(&mut self, events: Vec<Result<RawPart, StreamError>>, validator: Validator) -> (r:
        MultipartResult<()>)
        requires
            sizes_fit(event_views(events@)),
        ensures
            final(self)@ == run(old(self)@, event_views(events@)).0,
            match run(old(self)@, event_views(events@)).1 {
                Some(failure) => reports(r, Some(failure)),
                None => match first_rule_violation(
                    validator.names(),
                    validator.rules(),
                    final(self)@.files,
                ) {
                    None => r is Ok,
                    Some(e) => r is Err && r->Err_0@ == MultipartErrorView::ValidationError(e),
                },
            },
    {
        let taken = self.process(events);
        if taken.is_err() {
            return taken;
        }
        validator.validate(&self.file_inputs)
    }

    /// Takes in the events of a stream in order and stops at the first
    /// failure, which it returns: a failure of the stream is passed through
    /// with its error.
    pub fn process(&mut self, events: Vec<Result<RawPart, StreamError>>) -> (r: MultipartResult<()>)
        requires
            sizes_fit(event_views(events@)),
        ensures
            final(self)@ == run(old(self)@, event_views(events@)).0,
            reports(r, run(old(self)@, event_views(events@)).1),
    {
        let ghost views = event_views(events@);
        assert(views.skip(0) == views);
        for event in it: events
            invariant
                it.seq() == events@,
                views == event_views(events@),
                sizes_fit(views),
                run(old(self)@, views) == run(self@, views.skip(it.index() as int)),
        {
            let ghost rest = views.skip(it.index() as int);
            assert(rest.first() == event_view(event));
            assert(rest.drop_first() == views.skip(it.index() + 1));
            assert(views[it.index() as int] == event_view(event));
            match event {
                Err(e) => {
                    return Err(MultipartError::NtexError(e));
                },
                Ok(part) => {
                    match self.accept_part(part) {
                        Err(e) => {
                            return Err(e);
                        },
                        Ok(_) => {},
                    }
                },
            }
        }
        Ok(())
    }

    /// Takes in one part of the form if the size of its body fits in
    /// `usize`, and hands the part back untouched if it does not.
    pub fn try_accept_part(&mut self, part: RawPart) -> (r: Result<MultipartResult<()>, RawPart>)
        ensures
            r is Err <==> total_len(segment_contents(part.chunks@)) > usize::MAX,
            r is Err ==> r->Err_0 == part && final(self)@ == old(self)@,
            r is Ok ==> match step(old(self)@, part.headers, segment_contents(part.chunks@)) {
                Ok(form) => r->Ok_0 is Ok && final(self)@ == form,
                Err(e) => r->Ok_0 is Err && r->Ok_0->Err_0@ == e && final(self)@ == old(self)@,
            },
    {
        match checked_total_size(&part.chunks) {
            Some(_) => Ok(self.accept_part(part)),
            None => Err(part),
        }
    }

    /// Takes in one part of the form.
    pub fn accept_part(&mut self, part: RawPart) -> (r: MultipartResult<()>)
        requires
            total_len(segment_contents(part.chunks@)) <= usize::MAX,
        ensures
            match step(old(self)@, part.headers, segment_contents(part.chunks@)) {
                Ok(form) => r is Ok && final(self)@ == form,
                Err(e) => r is Err && r->Err_0@ == e && final(self)@ == old(self)@,
            },
    {
        let text = match header_get(&part.headers, "content-disposition") {
            None => {
                return Ok(());
            },
            Some(value) => match header_to_str(value) {
                Err(_) => {
                    return Ok(());
                },
                Ok(text) => text,
            },
        };
        let content_disposition = ContentDisposition::create(text);
        let kind = classify(&content_disposition);
        if kind == PartKind::Skipped {
            return Ok(());
        }
        if kind == PartKind::Data {
            let value = collect_text(&part.chunks);
            let name = match content_disposition.get_variable("name") {
                Some(n) => n.to_owned(),
                None => String::new(),
            };
            self.push_data(DataInput { value, name });
            return Ok(());
        }
        let mut info = match FileInput::create(&part.headers, content_disposition) {
            Ok(info) => info,
            Err(e) => {
                return Err(e);
            },
        };
        info.size = total_size(&part.chunks);
        info.bytes = part.chunks;
        self.push_file(info);
        Ok(())
    }
}

} // verus!
