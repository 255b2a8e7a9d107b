//! Declarative rules for uploaded files and their evaluation.
use crate::field_map::{position_of, position_of_bounds, FieldMap};
use crate::file_input::{FileInput, FileView};
use crate::outside::{debug_list, debug_text, lowercase, lowercased};
use crate::result::{MultipartError, MultipartErrorView, MultipartResult};
use vstd::prelude::*;

verus! {

/// What a file or a field did wrong.
#[derive(Debug, Clone, Eq, PartialEq)]
pub enum ErrorMessage {
    NoFiles,
    FileTooSmall(usize),
    FileTooLarge(usize),
    TooFewFiles(usize),
    TooManyFiles(usize),
    InvalidFileExtension(Option<String>),
    InvalidContentType(String),
    MissingFileExtension(String),
}

/// A violation together with the field it was found on.
#[derive(Debug, Clone)]
pub struct InputError {
    pub name: String,
    pub error: ErrorMessage,
}

/// `ErrorMessage` with its texts as character sequences.
pub enum Violation {
    NoFiles,
    FileTooSmall(usize),
    FileTooLarge(usize),
    TooFewFiles(usize),
    TooManyFiles(usize),
    InvalidFileExtension(Option<Seq<char>>),
    InvalidContentType(Seq<char>),
    MissingFileExtension(Seq<char>),
}

/// `InputError` with its texts as character sequences.
pub struct InputErrorView {
    pub name: Seq<char>,
    pub error: Violation,
}

impl View for ErrorMessage {
    type V = Violation;

    open spec fn view(&self) -> Violation {
        match self {
            ErrorMessage::NoFiles => Violation::NoFiles,
            ErrorMessage::FileTooSmall(n) => Violation::FileTooSmall(*n),
            ErrorMessage::FileTooLarge(n) => Violation::FileTooLarge(*n),
            ErrorMessage::TooFewFiles(n) => Violation::TooFewFiles(*n),
            ErrorMessage::TooManyFiles(n) => Violation::TooManyFiles(*n),
            ErrorMessage::InvalidFileExtension(ext) => Violation::InvalidFileExtension(
                match ext {
                    Some(e) => Some(e@),
                    None => None,
                },
            ),
            ErrorMessage::InvalidContentType(s) => Violation::InvalidContentType(s@),
            ErrorMessage::MissingFileExtension(s) => Violation::MissingFileExtension(s@),
        }
    }
}

impl View for InputError {
    type V = InputErrorView;

    open spec fn view(&self) -> InputErrorView {
        InputErrorView { name: self.name@, error: self.error@ }
    }
}

/// The constraints on the files of one field. An absent bound constrains
/// nothing.
#[derive(Debug)]
pub struct FileRules {
    /// Whether field is required
    pub required: bool,
    /// Whether file extension is required
    pub extension_required: bool,
    /// Min file size in bytes
    pub min_size: Option<usize>,
    /// Max file size in bytes
    pub max_size: Option<usize>,
    /// Allowed file extensions, in any letter case
    pub allowed_extensions: Option<Vec<String>>,
    /// Allowed content types, in any letter case
    pub allowed_content_types: Option<Vec<String>>,
    /// Min number of files
    pub min_files: Option<usize>,
    /// Max number of files
    pub max_files: Option<usize>,
}

/// `FileRules` with its lists as sequences of character sequences.
pub struct FileRulesView {
    pub required: bool,
    pub extension_required: bool,
    pub min_size: Option<usize>,
    pub max_size: Option<usize>,
    pub allowed_extensions: Option<Seq<Seq<char>>>,
    pub allowed_content_types: Option<Seq<Seq<char>>>,
    pub min_files: Option<usize>,
    pub max_files: Option<usize>,
}

/// The characters of each string of a list.
pub open spec fn texts(list: Seq<String>) -> Seq<Seq<char>> {
    list.map_values(|s: String| s@)
}

/// The characters of each string of an optional list.
pub open spec fn optional_texts(list: Option<Vec<String>>) -> Option<Seq<Seq<char>>> {
    match list {
        Some(l) => Some(texts(l@)),
        None => None,
    }
}

impl View for FileRules {
    type V = FileRulesView;

    open spec fn view(&self) -> FileRulesView {
        FileRulesView {
            required: self.required,
            extension_required: self.extension_required,
            min_size: self.min_size,
            max_size: self.max_size,
            allowed_extensions: optional_texts(self.allowed_extensions),
            allowed_content_types: optional_texts(self.allowed_content_types),
            min_files: self.min_files,
            max_files: self.max_files,
        }
    }
}

impl Clone for FileRules {
    fn clone(&self) -> (r: Self)
        ensures
            r@ == self@,
    {
        self.duplicate()
    }
}

impl Default for FileRules {
    fn default() -> (r: Self)
        ensures
            r@ == (FileRulesView {
                required: false,
                extension_required: false,
                min_size: None,
                max_size: None,
                allowed_extensions: None,
                allowed_content_types: None,
                min_files: None,
                max_files: None,
            }),
    {
        FileRules {
            required: false,
            extension_required: false,
            min_size: None,
            max_size: None,
            allowed_extensions: None,
            allowed_content_types: None,
            min_files: None,
            max_files: None,
        }
    }
}

/// The text that names the allowed content types in a violation.
pub open spec fn content_type_notice(allowed: Seq<Seq<char>>) -> Seq<char> {
    "Invalid content type. Allowed content types are: "@ + debug_list(allowed)
}

/// Tells whether `allowed` holds `text`, letter case set aside: some entry
/// of the list and `text` are the same once both are in lower case.
pub open spec fn allows(allowed: Seq<Seq<char>>, text: Seq<char>) -> bool {
    exists|i: int| 0 <= i < allowed.len() && lowercased(#[trigger] allowed[i]) == lowercased(text)
}

/// A list allows each of its entries, and with it the entry in any other
/// letter case.
pub proof fn listed_is_allowed(allowed: Seq<Seq<char>>, i: int, text: Seq<char>)
    requires
        0 <= i < allowed.len(),
        lowercased(text) == lowercased(allowed[i]),
    ensures
        allows(allowed, allowed[i]),
        allows(allowed, text),
{
}

/// The first rule that `file` breaks, in the order extension required, size
/// too small, size too large, extension not allowed, content type not
/// allowed; `None` if it breaks none. Extension and content type are looked
/// up in their lists with letter case set aside.
pub open spec fn file_violation(rules: FileRulesView, file: FileView) -> Option<InputErrorView> {
    if rules.extension_required && file.extension is None {
        Some(
            InputErrorView {
                name: file.field_name,
                error: Violation::MissingFileExtension(file.file_name),
            },
        )
    } else if rules.min_size is Some && file.size < rules.min_size->0 {
        Some(
            InputErrorView {
                name: file.field_name,
                error: Violation::FileTooSmall(rules.min_size->0),
            },
        )
    } else if rules.max_size is Some && file.size > rules.max_size->0 {
        Some(
            InputErrorView {
                name: file.field_name,
                error: Violation::FileTooLarge(rules.max_size->0),
            },
        )
    } else if rules.allowed_extensions is Some && file.extension is None {
        Some(
            InputErrorView {
                name: file.field_name,
                error: Violation::MissingFileExtension(file.file_name),
            },
        )
    } else if rules.allowed_extensions is Some && !allows(
        rules.allowed_extensions->0,
        file.extension->0,
    ) {
        Some(
            InputErrorView {
                name: file.field_name,
                error: Violation::InvalidFileExtension(file.extension),
            },
        )
    } else if rules.allowed_content_types is Some && !allows(
        rules.allowed_content_types->0,
        file.content_type,
    ) {
        Some(
            InputErrorView {
                name: file.field_name,
                error: Violation::InvalidContentType(
                    content_type_notice(rules.allowed_content_types->0),
                ),
            },
        )
    } else {
        None
    }
}

/// The violation of the first file of `files`, in list order, that breaks a
/// rule.
pub open spec fn first_file_violation(rules: FileRulesView, files: Seq<FileView>) -> Option<
    InputErrorView,
>
    decreases files.len(),
{
    if files.len() == 0 {
        None
    } else {
        match file_violation(rules, files.first()) {
            Some(e) => Some(e),
            None => first_file_violation(rules, files.drop_first()),
        }
    }
}

/// The violation that the number of files gives rise to: none at all where
/// files are required, fewer than `min_files`, more than `max_files`.
pub open spec fn count_violation(name: Seq<char>, count: usize, rules: FileRulesView) -> Option<
    InputErrorView,
> {
    if rules.required && count == 0 {
        Some(InputErrorView { name, error: Violation::NoFiles })
    } else if rules.min_files is Some && count < rules.min_files->0 {
        Some(InputErrorView { name, error: Violation::TooFewFiles(count) })
    } else if rules.max_files is Some && count > rules.max_files->0 {
        Some(InputErrorView { name, error: Violation::TooManyFiles(count) })
    } else {
        None
    }
}

/// The first violation of the field `name`, whose files are `files` (`None`
/// where the form has no such field): the field missing though required,
/// then the number of files, then the files in list order.
pub open spec fn field_violation(
    name: Seq<char>,
    files: Option<Seq<FileView>>,
    rules: FileRulesView,
) -> Option<InputErrorView> {
    match files {
        None => if rules.required {
            Some(InputErrorView { name, error: Violation::NoFiles })
        } else {
            None
        },
        Some(list) => match count_violation(name, list.len() as usize, rules) {
            Some(e) => Some(e),
            None => first_file_violation(rules, list),
        },
    }
}

/// The views of the files of a list.
pub open spec fn file_views(files: Seq<FileInput>) -> Seq<FileView> {
    files.map_values(|f: FileInput| f@)
}

/// The files of a form by field name, as views.
pub open spec fn files_view(files: &FieldMap<Vec<FileInput>>) -> Map<Seq<char>, Seq<FileView>> {
    files.to_map().map_values(|list: Vec<FileInput>| file_views(list@))
}

/// The files of the field `name`, if the form has that field.
pub open spec fn files_of(files: Map<Seq<char>, Seq<FileView>>, name: Seq<char>) -> Option<
    Seq<FileView>,
> {
    if files.contains_key(name) {
        Some(files[name])
    } else {
        None
    }
}

/// The violation of the first rule, in the order of `names`, that the form's
/// files break.
pub open spec fn first_rule_violation(
    names: Seq<Seq<char>>,
    rules: Seq<FileRulesView>,
    files: Map<Seq<char>, Seq<FileView>>,
) -> Option<InputErrorView>
    decreases names.len(),
{
    if names.len() == 0 || rules.len() != names.len() {
        None
    } else {
        match field_violation(names.first(), files_of(files, names.first()), rules.first()) {
            Some(e) => Some(e),
            None => first_rule_violation(names.drop_first(), rules.drop_first(), files),
        }
    }
}

/// Fields without rules impose nothing: two forms that have the same files
/// under every field that has a rule have the same first violation.
pub proof fn fields_without_rules_are_free(
    names: Seq<Seq<char>>,
    rules: Seq<FileRulesView>,
    a: Map<Seq<char>, Seq<FileView>>,
    b: Map<Seq<char>, Seq<FileView>>,
)
    requires
        forall|i: int| 0 <= i < names.len() ==> files_of(a, #[trigger] names[i]) == files_of(b, names[i]),
    ensures
        first_rule_violation(names, rules, a) == first_rule_violation(names, rules, b),
    decreases names.len(),
{
    if names.len() > 0 && rules.len() == names.len() {
        assert(files_of(a, names[0]) == files_of(b, names[0]));
        assert forall|i: int| 0 <= i < names.drop_first().len() implies files_of(
            a,
            #[trigger] names.drop_first()[i],
        ) == files_of(b, names.drop_first()[i]) by {
            assert(names.drop_first()[i] == names[i + 1]);
        }
        fields_without_rules_are_free(names.drop_first(), rules.drop_first(), a, b);
    }
}

/// Rules that constrain nothing are never broken: without `required`,
/// without bounds and without lists, no form has a violation.
pub proof fn empty_rules_accept(name: Seq<char>, files: Option<Seq<FileView>>, rules: FileRulesView)
    requires
        !rules.required,
        !rules.extension_required,
        rules.min_size is None,
        rules.max_size is None,
        rules.allowed_extensions is None,
        rules.allowed_content_types is None,
        rules.min_files is None,
        rules.max_files is None,
    ensures
        field_violation(name, files, rules) is None,
{
    if files is Some {
        no_file_violation(rules, files->0);
    }
}

/// Where no single file breaks a rule, the list has no violation.
pub proof fn no_file_violation(rules: FileRulesView, files: Seq<FileView>)
    requires
        forall|f: FileView| file_violation(rules, f) is None,
    ensures
        first_file_violation(rules, files) is None,
    decreases files.len(),
{
    if files.len() > 0 {
        no_file_violation(rules, files.drop_first());
    }
}

/// Tells whether `list` holds `text`, letter case set aside.
fn list_allows(list: &Vec<String>, text: &str) -> (r: bool)
    ensures
        r == allows(texts(list@), text@),
{
    let lower = lowercase(text);
    let mut i: usize = 0;
    while i < list.len()
        invariant
            i <= list.len(),
            lower@ == lowercased(text@),
            forall|j: int| 0 <= j < i ==> lowercased(#[trigger] texts(list@)[j]) != lowercased(text@),
        decreases list.len() - i,
    {
        let entry = lowercase(list[i].as_str());
        if entry.as_str().eq(lower.as_str()) {
            assert(lowercased(texts(list@)[i as int]) == lowercased(text@));
            return true;
        }
        i = i + 1;
    }
    false
}

/// A copy of a list of strings.
fn copy_texts(list: &Vec<String>) -> (r: Vec<String>)
    ensures
        texts(r@) == texts(list@),
{
    let mut out: Vec<String> = Vec::new();
    let mut i: usize = 0;
    while i < list.len()
        invariant
            i <= list.len(),
            texts(out@) == texts(list@).take(i as int),
        decreases list.len() - i,
    {
        out.push(list[i].clone());
        assert(texts(out@) == texts(list@).take(i as int).push(list@[i as int]@));
        assert(texts(list@).take(i + 1) == texts(list@).take(i as int).push(list@[i as int]@));
        i = i + 1;
    }
    assert(texts(list@).take(i as int) == texts(list@));
    out
}

/// A copy of an optional list of strings.
fn copy_optional_texts(list: &Option<Vec<String>>) -> (r: Option<Vec<String>>)
    ensures
        optional_texts(r) == optional_texts(*list),
{
    match list {
        Some(l) => Some(copy_texts(l)),
        None => None,
    }
}

impl FileRules {
    /// A copy of these rules.
    pub fn duplicate(&self) -> (r: FileRules)
        ensures
            r@ == self@,
    {
        FileRules {
            required: self.required,
            extension_required: self.extension_required,
            min_size: self.min_size,
            max_size: self.max_size,
            allowed_extensions: copy_optional_texts(&self.allowed_extensions),
            allowed_content_types: copy_optional_texts(&self.allowed_content_types),
            min_files: self.min_files,
            max_files: self.max_files,
        }
    }
}

/// The rules of a form, by field name.
#[derive(Debug)]
pub struct Validator {
    rules: FieldMap<FileRules>,
}

/// The views of a run of rules.
pub open spec fn rule_views(rules: Seq<FileRules>) -> Seq<FileRulesView> {
    rules.map_values(|r: FileRules| r@)
}

impl Default for Validator {
    fn default() -> (r: Self)
        ensures
            r.names() == Seq::<Seq<char>>::empty(),
            r.rules() == Seq::<FileRulesView>::empty(),
    {
        Validator::new()
    }
}

impl Validator {
    /// The names of the fields that have rules, in the order in which they
    /// were first given.
    pub closed spec fn names(&self) -> Seq<Seq<char>> {
        self.rules.names()
    }

    /// The rules, each at the position of its field's name.
    pub closed spec fn rules(&self) -> Seq<FileRulesView> {
        rule_views(self.rules.values())
    }

    /// A validator without rules.
    pub fn new() -> (r: Self)
        ensures
            r.names() == Seq::<Seq<char>>::empty(),
            r.rules() == Seq::<FileRulesView>::empty(),
    {
        let r = Validator { rules: FieldMap::new() };
        assert(r.rules() == Seq::<FileRulesView>::empty());
        r
    }

    /// A validator with the rules of this one and `rules` for `field`, which
    /// replace earlier rules for that field. This validator stays as it is.
    pub fn add_rule(&mut self, field: &str, rules: FileRules) -> (r: Self)
        ensures
            final(self).names() == old(self).names(),
            final(self).rules() == old(self).rules(),
            old(self).names().contains(field@) ==> r.names() == old(self).names() && r.rules()
                == old(self).rules().update(position_of(old(self).names(), field@), rules@),
            !old(self).names().contains(field@) ==> r.names() == old(self).names().push(field@)
                && r.rules() == old(self).rules().push(rules@),
    {
        let mut copy = self.rules.clone();
        proof {
            assert forall|i: int| 0 <= i < copy.values().len() implies copy.values()[i]@
                == self.rules.values()[i]@ by {
                assert(cloned::<FileRules>(self.rules.values()[i], copy.values()[i]));
            }
            assert(rule_views(copy.values()) =~= rule_views(self.rules.values()));
        }
        let ghost before = copy.values();
        copy.insert(field.to_owned(), rules);
        proof {
            if self.names().contains(field@) {
                position_of_bounds(self.names(), field@);
                assert(rule_views(copy.values()) =~= rule_views(before).update(
                    position_of(self.names(), field@),
                    rules@,
                ));
            } else {
                assert(rule_views(copy.values()) =~= rule_views(before).push(rules@));
            }
        }
        Validator { rules: copy }
    }

    /// Checks the files of a form against every rule, in the order in which
    /// the rules' fields were first given, and reports the first violation.
    pub fn validate(&self, files: &FieldMap<Vec<FileInput>>) -> (r: MultipartResult<()>)
        ensures
            match first_rule_violation(self.names(), self.rules(), files_view(files)) {
                None => r is Ok,
                Some(e) => r is Err && r->Err_0@ == MultipartErrorView::ValidationError(e),
            },
    {
        proof {
            use_type_invariant(files);
        }
        let ghost names = self.names();
        let ghost rules = self.rules();
        let ghost form = files_view(files);
        let n = self.rules.len();
        assert(names.skip(0) == names);
        assert(rules.skip(0) == rules);
        let mut i: usize = 0;
        while i < n
            invariant
                i <= n,
                n == names.len(),
                n == rules.len(),
                names == self.names(),
                rules == self.rules(),
                form == files_view(files),
                self.rules.wf(),
                files.wf(),
                first_rule_violation(names, rules, form) == first_rule_violation(
                    names.skip(i as int),
                    rules.skip(i as int),
                    form,
                ),
            decreases n - i,
        {
            let name = self.rules.name_at(i);
            let rule = self.rules.value_at(i);
            let found = files.get(name.as_str());
            proof {
                assert(names.skip(i as int).first() == name@);
                assert(rules.skip(i as int).first() == rule@);
                assert(names.skip(i as int).drop_first() == names.skip(i + 1));
                assert(rules.skip(i as int).drop_first() == rules.skip(i + 1));
                assert(files_of(form, name@) == match found {
                    Some(list) => Some(file_views(list@)),
                    None => None,
                });
            }
            match Self::validate_files(name.as_str(), found, rule) {
                Some(e) => {
                    return Err(MultipartError::ValidationError(e));
                },
                None => {},
            }
            i = i + 1;
        }
        Ok(())
    }

    /// The violation that `count` files give rise to under `rules`.
    pub fn check_count(name: &str, count: usize, rules: &FileRules) -> (r: Option<InputError>)
        ensures
            match count_violation(name@, count, rules@) {
                Some(e) => r is Some && r->0@ == e,
                None => r is None,
            },
    {
        if rules.required && count == 0 {
            return Some(InputError { name: name.to_owned(), error: ErrorMessage::NoFiles });
        }
        match rules.min_files {
            Some(min) => {
                if count < min {
                    return Some(
                        InputError { name: name.to_owned(), error: ErrorMessage::TooFewFiles(count) },
                    );
                }
            },
            None => {},
        }
        match rules.max_files {
            Some(max) => {
                if count > max {
                    return Some(
                        InputError {
                            name: name.to_owned(),
                            error: ErrorMessage::TooManyFiles(count),
                        },
                    );
                }
            },
            None => {},
        }
        None
    }

    /// The first rule that `file` breaks.
    pub fn validate_file(rule: &FileRules, file: &FileInput) -> (r: Option<InputError>)
        ensures
            match file_violation(rule@, file@) {
                Some(e) => r is Some && r->0@ == e,
                None => r is None,
            },
    {
        if rule.extension_required && file.extension.is_none() {
            return Some(
                InputError {
                    name: file.field_name.clone(),
                    error: ErrorMessage::MissingFileExtension(file.file_name.clone()),
                },
            );
        }
        match rule.min_size {
            Some(min_size) => {
                if file.size < min_size {
                    return Some(
                        InputError {
                            name: file.field_name.clone(),
                            error: ErrorMessage::FileTooSmall(min_size),
                        },
                    );
                }
            },
            None => {},
        }
        match rule.max_size {
            Some(max_size) => {
                if file.size > max_size {
                    return Some(
                        InputError {
                            name: file.field_name.clone(),
                            error: ErrorMessage::FileTooLarge(max_size),
                        },
                    );
                }
            },
            None => {},
        }
        match &rule.allowed_extensions {
            Some(allowed_extensions) => {
                match &file.extension {
                    Some(extension) => {
                        if !list_allows(allowed_extensions, extension.as_str()) {
                            return Some(
                                InputError {
                                    name: file.field_name.clone(),
                                    error: ErrorMessage::InvalidFileExtension(
                                        Some(extension.clone()),
                                    ),
                                },
                            );
                        }
                    },
                    None => {
                        return Some(
                            InputError {
                                name: file.field_name.clone(),
                                error: ErrorMessage::MissingFileExtension(file.file_name.clone()),
                            },
                        );
                    },
                }
            },
            None => {},
        }
        match &rule.allowed_content_types {
            Some(allowed_content_types) => {
                if !list_allows(allowed_content_types, file.content_type.as_str()) {
                    let mut notice = String::from_str(
                        "Invalid content type. Allowed content types are: ",
                    );
                    notice.append(debug_text(allowed_content_types).as_str());
                    return Some(
                        InputError {
                            name: file.field_name.clone(),
                            error: ErrorMessage::InvalidContentType(notice),
                        },
                    );
                }
            },
            None => {},
        }
        None
    }

    /// The first violation of one field.
    pub fn validate_files(field_name: &str, files: Option<&Vec<FileInput>>, rules: &FileRules) -> (r:
        Option<InputError>)
        ensures
            match field_violation(
                field_name@,
                match files {
                    Some(list) => Some(file_views(list@)),
                    None => None,
                },
                rules@,
            ) {
                Some(e) => r is Some && r->0@ == e,
                None => r is None,
            },
    {
        let list = match files {
            None => {
                if rules.required {
                    return Some(
                        InputError { name: field_name.to_owned(), error: ErrorMessage::NoFiles },
                    );
                }
                return None;
            },
            Some(list) => list,
        };
        match Self::check_count(field_name, list.len(), rules) {
            Some(e) => {
                return Some(e);
            },
            None => {},
        }
        let ghost views = file_views(list@);
        assert(views.skip(0) == views);
        let mut i: usize = 0;
        while i < list.len()
            invariant
                i <= list.len(),
                views == file_views(list@),
                files == Some(list),
                count_violation(field_name@, list.len(), rules@) is None,
                first_file_violation(rules@, views) == first_file_violation(
                    rules@,
                    views.skip(i as int),
                ),
            decreases list.len() - i,
        {
            assert(views.skip(i as int).first() == list@[i as int]@);
            assert(views.skip(i as int).drop_first() == views.skip(i + 1));
            assert(first_file_violation(rules@, views.skip(i as int)) == (match file_violation(
                rules@,
                list@[i as int]@,
            ) {
                Some(e) => Some(e),
                None => first_file_violation(rules@, views.skip(i + 1)),
            }));
            match Self::validate_file(rules, &list[i]) {
                Some(e) => {
                    return Some(e);
                },
                None => {},
            }
            i = i + 1;
        }
        None
    }
}

} // verus!
