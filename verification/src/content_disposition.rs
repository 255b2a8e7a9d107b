//! Parsing of `Content-Disposition` header values into named parameters.
use crate::field_map::FieldMap;
use crate::text::{
    all_whitespace, chars_of, find_char, index_of, index_of_absent, index_of_joined, is_trimmed,
    is_whitespace, lacks, slice_text, trim, trim_of_padded, trim_range,
};
use vstd::prelude::*;

verus! {

/// `s` without one leading double quote, if it has one, and then without one
/// trailing double quote, if it has one.
pub open spec fn strip_quote_layer(s: Seq<char>) -> Seq<char> {
    let a = if s.len() > 0 && s.first() == '"' {
        s.drop_first()
    } else {
        s
    };
    if a.len() > 0 && a.last() == '"' {
        a.drop_last()
    } else {
        a
    }
}

/// The parameter that one `;`-separated segment contributes: the trimmed text
/// before its first `=` as the name, the trimmed and unquoted text after it as
/// the value. A segment without `=` contributes nothing.
pub open spec fn parse_segment(segment: Seq<char>) -> Option<(Seq<char>, Seq<char>)> {
    let part = trim(segment);
    let eq = index_of(part, '=');
    if eq < part.len() {
        Some((trim(part.take(eq)), strip_quote_layer(trim(part.skip(eq + 1)))))
    } else {
        None
    }
}

/// The parameters `acc` extended by those of the header text `s`, segment by
/// segment from left to right; a later parameter replaces an earlier one of
/// the same name.
pub open spec fn parse_onto(acc: Map<Seq<char>, Seq<char>>, s: Seq<char>) -> Map<
    Seq<char>,
    Seq<char>,
>
    decreases s.len(),
{
    let end = index_of(s, ';');
    let next = match parse_segment(s.take(end)) {
        Some((name, value)) => acc.insert(name, value),
        None => acc,
    };
    if 0 <= end < s.len() {
        parse_onto(next, s.skip(end + 1))
    } else {
        next
    }
}

/// The parameters of a whole header value.
pub open spec fn parse_variables(s: Seq<char>) -> Map<Seq<char>, Seq<char>> {
    parse_onto(Map::empty(), s)
}

/// The parameters held by `variables`, each value as its characters.
pub open spec fn variables_view(variables: &FieldMap<String>) -> Map<Seq<char>, Seq<char>> {
    variables.to_map().map_values(|v: String| v@)
}

/// `value` between double quotes.
pub open spec fn quoted(value: Seq<char>) -> Seq<char> {
    seq!['"'] + value + seq!['"']
}

/// Tells whether `name` can stand as a parameter name: it holds no `;` and
/// no `=`, and neither begins nor ends with whitespace.
pub open spec fn is_plain_name(name: Seq<char>) -> bool {
    lacks(name, ';') && lacks(name, '=') && is_trimmed(name)
}

/// The text of one parameter `name="value"`, with the whitespace `pad`
/// around the name, around the `=` and after the quoted value.
pub open spec fn pair_text(pad: Seq<Seq<char>>, name: Seq<char>, value: Seq<char>) -> Seq<char> {
    pad[0] + name + pad[1] + seq!['='] + pad[2] + quoted(value) + pad[3]
}

/// Tells whether `pad` holds four runs of whitespace.
pub open spec fn is_padding(pad: Seq<Seq<char>>) -> bool {
    pad.len() == 4 && forall|i: int| 0 <= i < 4 ==> all_whitespace(#[trigger] pad[i])
}

/// Stripping one layer of quotes from a quoted value gives the value.
pub proof fn strip_of_quoted(value: Seq<char>)
    ensures
        strip_quote_layer(quoted(value)) == value,
{
    let q = quoted(value);
    assert(q.first() == '"');
    assert(q.drop_first() == value + seq!['"']);
    assert((value + seq!['"']).last() == '"');
    assert((value + seq!['"']).drop_last() == value);
}

/// A padded `name="value"` is read as the parameter `name` with the value
/// `value`: quotes and surrounding whitespace are gone.
pub proof fn segment_of_pair(pad: Seq<Seq<char>>, name: Seq<char>, value: Seq<char>)
    requires
        is_padding(pad),
        is_plain_name(name),
    ensures
        parse_segment(pair_text(pad, name, value)) == Some((name, value)),
{
    let q = quoted(value);
    let tail = seq!['='] + pad[2] + q;
    let gap = if name.len() == 0 {
        Seq::<char>::empty()
    } else {
        pad[1]
    };
    let part = name + gap + tail;
    assert(all_whitespace(pad[0]) && all_whitespace(pad[1]) && all_whitespace(pad[2])
        && all_whitespace(pad[3]));
    assert(all_whitespace(gap));
    assert(tail.first() == '=' && tail.last() == '"');
    assert(!is_whitespace('=') && !is_whitespace('"'));
    // The segment trims to `part`.
    if name.len() == 0 {
        let left = pad[0] + pad[1];
        assert(all_whitespace(left)) by {
            assert forall|i: int| 0 <= i < left.len() implies is_whitespace(#[trigger] left[i]) by {
                if i < pad[0].len() {
                    assert(left[i] == pad[0][i]);
                } else {
                    assert(left[i] == pad[1][i - pad[0].len()]);
                }
            }
        }
        assert(pair_text(pad, name, value) == left + tail + pad[3]);
        assert(part == tail);
        assert(is_trimmed(tail));
        trim_of_padded(left, tail, pad[3]);
    } else {
        assert(part.first() == name.first());
        assert(part.last() == '"');
        assert(is_trimmed(part));
        assert(pair_text(pad, name, value) == pad[0] + part + pad[3]);
        trim_of_padded(pad[0], part, pad[3]);
    }
    assert(trim(pair_text(pad, name, value)) == part);
    // The first `=` of `part` is the one after the name.
    let head = name + gap;
    assert(lacks(head, '=')) by {
        assert forall|i: int| 0 <= i < head.len() implies #[trigger] head[i] != '=' by {
            if i < name.len() {
                assert(head[i] == name[i]);
            } else {
                assert(head[i] == gap[i - name.len()]);
                assert(is_whitespace(gap[i - name.len()]));
            }
        }
    }
    assert(part == head + seq!['='] + (pad[2] + q));
    index_of_joined(head, '=', pad[2] + q);
    let eq = index_of(part, '=');
    assert(eq == head.len());
    assert(part.take(eq) == head);
    assert(part.skip(eq + 1) == pad[2] + q);
    // Name and value.
    assert(head == Seq::<char>::empty() + name + gap);
    trim_of_padded(Seq::<char>::empty(), name, gap);
    assert(q.first() == '"' && q.last() == '"');
    assert(is_trimmed(q));
    assert(pad[2] + q == pad[2] + q + Seq::<char>::empty());
    trim_of_padded(pad[2], q, Seq::<char>::empty());
    strip_of_quoted(value);
}

/// A padded `name="value"` whose value holds no `;` holds none at all.
pub proof fn pair_lacks_semicolon(pad: Seq<Seq<char>>, name: Seq<char>, value: Seq<char>)
    requires
        is_padding(pad),
        is_plain_name(name),
        lacks(value, ';'),
    ensures
        lacks(pair_text(pad, name, value), ';'),
{
    let s = pair_text(pad, name, value);
    assert(all_whitespace(pad[0]) && all_whitespace(pad[1]) && all_whitespace(pad[2])
        && all_whitespace(pad[3]));
    assert(!is_whitespace(';'));
    let a = pad[0].len();
    let b = a + name.len();
    let c = b + pad[1].len();
    let d = c + 1 + pad[2].len();
    let e = d + 1 + value.len();
    assert forall|i: int| 0 <= i < s.len() implies #[trigger] s[i] != ';' by {
        if i < a {
            assert(s[i] == pad[0][i]);
        } else if i < b {
            assert(s[i] == name[i - a]);
        } else if i < c {
            assert(s[i] == pad[1][i - b]);
        } else if i == c {
            assert(s[i] == '=');
        } else if i < d {
            assert(s[i] == pad[2][i - c - 1]);
        } else if i == d {
            assert(s[i] == '"');
        } else if i < e {
            assert(s[i] == value[i - d - 1]);
        } else if i == e {
            assert(s[i] == '"');
        } else {
            assert(s[i] == pad[3][i - e - 1]);
        }
    }
}

/// For a header value of the form `k1="v1"; k2="v2"` with two different
/// names, parsing and then looking up `k1` and `k2` gives `v1` and `v2`:
/// the quotes are stripped and no surrounding whitespace remains, whatever
/// whitespace stands around the names, the `=`, the quoted values and the
/// `;`.
pub proof fn parse_two_quoted_pairs(
    pad1: Seq<Seq<char>>,
    k1: Seq<char>,
    v1: Seq<char>,
    pad2: Seq<Seq<char>>,
    k2: Seq<char>,
    v2: Seq<char>,
)
    requires
        is_padding(pad1),
        is_padding(pad2),
        is_plain_name(k1),
        is_plain_name(k2),
        lacks(v1, ';'),
        lacks(v2, ';'),
        k1 != k2,
    ensures
        ({
            let parsed = parse_variables(
                pair_text(pad1, k1, v1) + seq![';'] + pair_text(pad2, k2, v2),
            );
            &&& parsed.contains_key(k1)
            &&& parsed[k1] == v1
            &&& parsed.contains_key(k2)
            &&& parsed[k2] == v2
        }),
{
    let first = pair_text(pad1, k1, v1);
    let second = pair_text(pad2, k2, v2);
    let s = first + seq![';'] + second;
    pair_lacks_semicolon(pad1, k1, v1);
    pair_lacks_semicolon(pad2, k2, v2);
    segment_of_pair(pad1, k1, v1);
    segment_of_pair(pad2, k2, v2);
    index_of_joined(first, ';', second);
    index_of_absent(second, ';');
    let empty = Map::<Seq<char>, Seq<char>>::empty();
    let one = empty.insert(k1, v1);
    assert(s.take(first.len() as int) == first);
    assert(s.skip(first.len() as int + 1) == second);
    assert(second.take(second.len() as int) == second);
    assert(parse_onto(one, second) == one.insert(k2, v2));
    assert(parse_onto(empty, s) == parse_onto(one, second));
}

/// What parsing a header value yields.
pub struct ContentDispositionParseResult {
    pub variables: FieldMap<String>,
    pub is_file_field: bool,
    pub has_name_field: bool,
}

/// The parameters of one part's `Content-Disposition` header.
#[derive(Debug)]
pub struct ContentDisposition {
    variables: FieldMap<String>,
    is_file_field: bool,
    has_name_field: bool,
}

/// Reads one segment `chars[lo..hi]` of the header text `s`.
fn parse_pair(s: &str, chars: &Vec<char>, lo: usize, hi: usize) -> (r: Option<(String, String)>)
    requires
        chars@ == s@,
        lo <= hi <= chars.len(),
    ensures
        match parse_segment(chars@.subrange(lo as int, hi as int)) {
            Some((name, value)) => r matches Some(pair) && pair.0@ == name && pair.1@ == value,
            None => r is None,
        },
{
    let (a, b) = trim_range(chars, lo, hi);
    let ghost part = chars@.subrange(a as int, b as int);
    let eq = find_char(chars, a, b, '=');
    if eq < b {
        assert(part.take(eq - a) == chars@.subrange(a as int, eq as int));
        assert(part.skip(eq - a + 1) == chars@.subrange(eq + 1, b as int));
        let (ka, kb) = trim_range(chars, a, eq);
        let (va, vb) = trim_range(chars, eq + 1, b);
        let ghost raw = chars@.subrange(va as int, vb as int);
        let mut from = va;
        if from < vb && chars[from] == '"' {
            from = from + 1;
        }
        let ghost opened = chars@.subrange(from as int, vb as int);
        assert(opened == if raw.len() > 0 && raw.first() == '"' {
            raw.drop_first()
        } else {
            raw
        });
        let mut to = vb;
        if from < to && chars[to - 1] == '"' {
            to = to - 1;
        }
        assert(chars@.subrange(from as int, to as int) == strip_quote_layer(raw));
        Some((slice_text(s, ka, kb), slice_text(s, from, to)))
    } else {
        None
    }
}

impl Clone for ContentDisposition {
    fn clone(&self) -> (r: Self)
        ensures
            r.wf(),
            r@ == self@,
    {
        proof {
            use_type_invariant(self);
            use_type_invariant(&self.variables);
        }
        let variables = self.variables.clone();
        proof {
            assert forall|i: int| 0 <= i < variables.values().len() implies variables.values()[i]
                == self.variables.values()[i] by {
                assert(cloned::<String>(self.variables.values()[i], variables.values()[i]));
            }
            assert(variables.values() =~= self.variables.values());
            assert(variables_view(&variables) =~= variables_view(&self.variables));
        }
        ContentDisposition {
            variables,
            is_file_field: self.is_file_field,
            has_name_field: self.has_name_field,
        }
    }
}

impl Default for ContentDisposition {
    fn default() -> (r: Self)
        ensures
            r.wf(),
            r@ == Map::<Seq<char>, Seq<char>>::empty(),
    {
        let variables: FieldMap<String> = FieldMap::new();
        assert(variables_view(&variables) =~= Map::<Seq<char>, Seq<char>>::empty());
        ContentDisposition { variables, is_file_field: false, has_name_field: false }
    }
}

impl ContentDisposition {
    /// The parameters as a map from name to value.
    pub closed spec fn view(&self) -> Map<Seq<char>, Seq<char>> {
        variables_view(&self.variables)
    }

    /// The `is_file_field` flag as stored.
    pub closed spec fn file_flag(&self) -> bool {
        self.is_file_field
    }

    /// The `has_name_field` flag as stored.
    pub closed spec fn name_flag(&self) -> bool {
        self.has_name_field
    }

    /// Well-formedness: the flags say whether `filename` and `name` are present.
    pub open spec fn wf(&self) -> bool {
        &&& self.file_flag() == self@.contains_key("filename"@)
        &&& self.name_flag() == self@.contains_key("name"@)
    }

    #[verifier::type_invariant]
    pub open spec fn inv(&self) -> bool {
        self.wf()
    }

    /// Parses a header value into its parameters and the two flags derived
    /// from them.
    pub fn parse(content_disposition: &str) -> (r: ContentDispositionParseResult)
        ensures
            r.variables.wf(),
            variables_view(&r.variables) == parse_variables(content_disposition@),
            r.is_file_field == parse_variables(content_disposition@).contains_key("filename"@),
            r.has_name_field == parse_variables(content_disposition@).contains_key("name"@),
    {
        let chars = chars_of(content_disposition);
        let n = chars.len();
        let mut variables: FieldMap<String> = FieldMap::new();
        assert(variables_view(&variables) =~= Map::<Seq<char>, Seq<char>>::empty());
        let mut pos: usize = 0;
        let mut done = false;
        assert(chars@.skip(0) == chars@);
        while !done
            invariant
                chars@ == content_disposition@,
                n == chars.len(),
                pos <= n,
                variables.wf(),
                !done ==> parse_onto(variables_view(&variables), chars@.skip(pos as int))
                    == parse_variables(chars@),
                done ==> variables_view(&variables) == parse_variables(chars@),
            decreases n - pos + (if done { 0int } else { 1int }),
        {
            let ghost rest = chars@.skip(pos as int);
            let ghost before = variables_view(&variables);
            let end = find_char(&chars, pos, n, ';');
            assert(chars@.subrange(pos as int, n as int) == rest);
            assert(rest.take(end - pos) == chars@.subrange(pos as int, end as int));
            match parse_pair(content_disposition, &chars, pos, end) {
                Some((name, value)) => {
                    variables.insert(name, value);
                    assert(variables_view(&variables) =~= before.insert(name@, value@));
                },
                None => {},
            }
            if end < n {
                assert(rest.skip(end - pos + 1) == chars@.skip(end + 1));
                pos = end + 1;
            } else {
                done = true;
            }
        }
        let is_file_field = variables.contains_key("filename");
        let has_name_field = variables.contains_key("name");
        ContentDispositionParseResult { variables, is_file_field, has_name_field }
    }

    /// Builds the parameters of a header value.
    pub fn create(content_disposition: &str) -> (r: Self)
        ensures
            r.wf(),
            r@ == parse_variables(content_disposition@),
    {
        let result = Self::parse(content_disposition);
        ContentDisposition {
            variables: result.variables,
            is_file_field: result.is_file_field,
            has_name_field: result.has_name_field,
        }
    }

    /// The value of the parameter `key`, if it is present.
    pub fn get_variable(&self, key: &str) -> (r: Option<&str>)
        ensures
            r is Some <==> self@.contains_key(key@),
            r is Some ==> r->0@ == self@[key@],
    {
        match self.variables.get(key) {
            Some(v) => Some(v.as_str()),
            None => None,
        }
    }

    /// All parameters.
    pub fn get_variables(&self) -> (r: &FieldMap<String>)
        ensures
            r.wf(),
            variables_view(r) == self@,
    {
        proof {
            use_type_invariant(&self.variables);
        }
        &self.variables
    }

    /// Tells whether the part is a file, that is whether `filename` is present.
    pub fn is_file_field(&self) -> (r: bool)
        ensures
            self.wf(),
            r == self@.contains_key("filename"@),
    {
        proof {
            use_type_invariant(self);
        }
        self.is_file_field
    }

    /// Tells whether `name` is present.
    pub fn has_name_field(&self) -> (r: bool)
        ensures
            self.wf(),
            r == self@.contains_key("name"@),
    {
        proof {
            use_type_invariant(self);
        }
        self.has_name_field
    }

    /// The value of `name`, if it is present.
    pub fn get_name(&self) -> (r: Option<&str>)
        ensures
            r is Some <==> self@.contains_key("name"@),
            r is Some ==> r->0@ == self@["name"@],
    {
        self.get_variable("name")
    }

    /// The value of `filename`, if it is present.
    pub fn get_filename(&self) -> (r: Option<&str>)
        ensures
            r is Some <==> self@.contains_key("filename"@),
            r is Some ==> r->0@ == self@["filename"@],
    {
        self.get_variable("filename")
    }
}

} // verus!
