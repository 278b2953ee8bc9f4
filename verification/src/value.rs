//! A JSON document as a tree of plain values, and the lenient accessors that
//! the normalizers read it with: a lookup that fails gives `Null`, never an
//! error.

use vstd::prelude::*;

use crate::text::same_text;

verus! {

/// A JSON value.
///
/// An object holds its members in the order of the document. Where a key
/// occurs more than once, the first member with that key is the one found.
#[derive(Debug, PartialEq, Eq)]
pub enum Json {
    Null,
    Bool(bool),
    /// A number in decimal parts: sign, mantissa and power of ten.
    Number { positive: bool, mantissa: u64, exponent: i16 },
    Text(String),
    Array(Vec<Json>),
    Object(Vec<(String, Json)>),
}

/// What a [`Json`] holds, as mathematical values.
pub enum JsonView {
    Null,
    Bool(bool),
    Number { positive: bool, mantissa: u64, exponent: i16 },
    Text(Seq<char>),
    Array(Seq<JsonView>),
    Object(Seq<(Seq<char>, JsonView)>),
}

impl View for Json {
    type V = JsonView;

    open spec fn view(&self) -> JsonView
        decreases self,
    {
        match self {
            Json::Null => JsonView::Null,
            Json::Bool(flag) => JsonView::Bool(*flag),
            Json::Number { positive, mantissa, exponent } => JsonView::Number {
                positive: *positive,
                mantissa: *mantissa,
                exponent: *exponent,
            },
            Json::Text(text) => JsonView::Text(text@),
            Json::Array(items) => JsonView::Array(
                Seq::new(
                    items@.len(),
                    |i: int|
                        if 0 <= i < items@.len() {
                            items@[i].view()
                        } else {
                            JsonView::Null
                        },
                ),
            ),
            Json::Object(members) => JsonView::Object(
                Seq::new(
                    members@.len(),
                    |i: int|
                        if 0 <= i < members@.len() {
                            (members@[i].0@, members@[i].1.view())
                        } else {
                            (Seq::empty(), JsonView::Null)
                        },
                ),
            ),
        }
    }
}

/// The first member of `members` whose key is `key`, or `Null` where no
/// member has that key.
pub open spec fn find_member(members: Seq<(Seq<char>, JsonView)>, key: Seq<char>) -> JsonView
    decreases members.len(),
{
    if members.len() == 0 {
        JsonView::Null
    } else if members[0].0 == key {
        members[0].1
    } else {
        find_member(members.drop_first(), key)
    }
}

impl JsonView {
    /// The member of an object under `key`; `Null` for a key that the object
    /// lacks and for a value that is no object.
    pub open spec fn field(self, key: Seq<char>) -> JsonView {
        match self {
            JsonView::Object(members) => find_member(members, key),
            _ => JsonView::Null,
        }
    }

    /// The characters of a string; `None` for a value that is no string.
    pub open spec fn as_text(self) -> Option<Seq<char>> {
        match self {
            JsonView::Text(text) => Some(text),
            _ => None,
        }
    }

    /// The characters of a string; empty for a value that is no string.
    pub open spec fn text(self) -> Seq<char> {
        match self {
            JsonView::Text(text) => text,
            _ => Seq::empty(),
        }
    }

    /// The elements of an array; empty for a value that is no array.
    pub open spec fn members(self) -> Seq<JsonView> {
        match self {
            JsonView::Array(items) => items,
            _ => Seq::empty(),
        }
    }
}

/// What the view of an array and of an object consists of, element by
/// element.
pub proof fn lemma_view_parts(value: &Json)
    ensures
        value matches Json::Array(items) ==> {
            &&& value@ is Array
            &&& value@->Array_0.len() == items@.len()
            &&& forall|i: int| 0 <= i < items@.len() ==> value@->Array_0[i] == items@[i]@
        },
        value matches Json::Object(members) ==> {
            &&& value@ is Object
            &&& value@->Object_0.len() == members@.len()
            &&& forall|i: int|
                0 <= i < members@.len() ==> value@->Object_0[i] == (members@[i].0@, members@[i].1@)
        },
{
    reveal_with_fuel(<Json as View>::view, 2);
}

impl Json {
    /// The member of an object under `key`. A key that the object lacks, and
    /// a value that is no object, give `Null`.
    pub fn field<'a>(&'a self, key: &str) -> (member: &'a Json)
        ensures
            member@ == self@.field(key@),
    {
        match self {
            Json::Object(members) => {
                let ghost all = self@->Object_0;
                let mut i: usize = 0;
                proof {
                    lemma_view_parts(self);
                    assert(all.skip(0) == all);
                }
                while i < members.len()
                    invariant
                        i <= members.len(),
                        self@ == JsonView::Object(all),
                        all.len() == members.len(),
                        forall|j: int|
                            0 <= j < members.len() ==> all[j] == (
                                members@[j].0@,
                                members@[j].1@,
                            ),
                        find_member(all.skip(i as int), key@) == find_member(all, key@),
                    decreases members.len() - i,
                {
                    assert(all.skip(i as int).drop_first() == all.skip(i + 1));
                    assert(all.skip(i as int)[0] == all[i as int]);
                    if same_text(members[i].0.as_str(), key) {
                        return &members[i].1;
                    }
                    i += 1;
                }
                &Json::Null
            },
            _ => &Json::Null,
        }
    }

    /// The string that the value holds, if it is one.
    pub fn as_str(&self) -> (text: Option<&str>)
        ensures
            match text {
                Some(t) => self@.as_text() == Some(t@),
                None => self@.as_text() is None,
            },
    {
        match self {
            Json::Text(text) => Some(text.as_str()),
            _ => None,
        }
    }

    /// The string that the value holds; the empty string for a value that is
    /// no string.
    pub fn text(&self) -> (text: &str)
        ensures
            text@ == self@.text(),
    {
        match self.as_str() {
            Some(text) => text,
            None => {
                proof {
                    reveal_strlit("");
                }
                ""
            },
        }
    }

    /// The elements of an array, in order; none for a value that is no array.
    pub fn members(&self) -> (items: &[Json])
        ensures
            items@.len() == self@.members().len(),
            forall|i: int| 0 <= i < items@.len() ==> (#[trigger] items@[i])@ == self@.members()[i],
    {
        proof {
            lemma_view_parts(self);
        }
        match self {
            Json::Array(items) => items.as_slice(),
            _ => &[],
        }
    }
}

} // verus!
