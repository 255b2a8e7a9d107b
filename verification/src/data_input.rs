//! A plain text field of a multipart form.
use crate::contract::{parses_to, PostParseableFromStr};
use vstd::prelude::*;

verus! {

/// One occurrence of a plain field: its name and its text.
#[derive(Debug, Clone)]
pub struct DataInput {
    pub name: String,
    pub value: String,
}

/// A plain field with its texts as character sequences.
pub struct DataView {
    pub name: Seq<char>,
    pub value: Seq<char>,
}

impl View for DataInput {
    type V = DataView;

    open spec fn view(&self) -> DataView {
        DataView { name: self.name@, value: self.value@ }
    }
}

impl Default for DataInput {
    fn default() -> (r: Self)
        ensures
            r.name@ == Seq::<char>::empty(),
            r.value@ == Seq::<char>::empty(),
    {
        DataInput { name: String::new(), value: String::new() }
    }
}

impl DataInput {
    /// The value read as a `T` by the type's own parser, from the text as it
    /// stands.
    pub fn get<T: PostParseableFromStr>(&self) -> (r: Result<T, String>)
        ensures
            parses_to::<T>(self.value@, r),
    {
        T::parse_text(self.value.as_str())
    }

    /// The input itself.
    pub fn inner(&self) -> (r: &DataInput)
        ensures
            r == self,
    {
        self
    }

    /// The input itself, by value.
    pub fn into_inner(self) -> (r: DataInput)
        ensures
            r == self,
    {
        self
    }

    /// The name and the value.
    pub fn parts(&self) -> (r: (&String, &String))
        ensures
            r.0 == &self.name,
            r.1 == &self.value,
    {
        (&self.name, &self.value)
    }

    /// The name and the value, by value.
    pub fn into_parts(self) -> (r: (String, String))
        ensures
            r.0 == self.name,
            r.1 == self.value,
    {
        (self.name, self.value)
    }
}

} // verus!
