//! The boundary to the `json` crate, which does the parsing.
//!
//! Three things in this file are taken on trust, each from the source of the
//! `json` crate: that [`parse_text`] returns what `json::parse` makes of a
//! text, that [`layer_of`] tells what kind of value a `json::JsonValue` is and
//! what it holds directly, and the two names [`json_parse`] and
//! [`json_content`] for what the crate returns. The copy of a parsed value
//! into a [`Json`] is proved from them.
//!
//! The crate counts the digits of a fraction in a 16-bit exponent without a
//! check, so a text is handed to it only where no run of digits is longer
//! than [`DIGIT_RUN_LIMIT`]; [`parse_document`] refuses the others.

use vstd::prelude::*;

use crate::model::Failure;
use crate::text::{digit_runs_within, longest_digit_run};
use crate::value::{lemma_view_parts, Json, JsonView};

verus! {

/// `json::JsonValue`, the tree that `json::parse` returns.
#[verifier::external_type_specification]
#[verifier::external_body]
pub struct ExJsonValue(json::JsonValue);

/// `json::Error`, the error of `json::parse`.
#[verifier::external_type_specification]
#[verifier::external_body]
pub struct ExJsonError(json::Error);

/// The longest run of consecutive digits in a text that is handed to
/// `json::parse`. The crate takes one from its exponent, an `i16` that starts
/// at zero or above, for each digit of a fraction: up to this many digits
/// cannot take it below `i16::MIN`.
pub const DIGIT_RUN_LIMIT: usize = 32768;

/// The document that `json::parse` reads from `text`, or `None` where it
/// rejects the text. For a text without a run of more than
/// [`DIGIT_RUN_LIMIT`] digits the outcome depends on the text alone; of any
/// other text nothing is said.
pub uninterp spec fn json_parse(text: Seq<char>) -> Option<JsonView>;

/// What parsing a text gives: the document that the `json` crate reads from
/// it; [`Failure::Parse`] where the crate rejects it; and, before anything
/// else, [`Failure::DigitRun`] where the text holds a run of more than
/// [`DIGIT_RUN_LIMIT`] consecutive digits, which is not handed to the crate.
pub open spec fn parse_outcome(text: Seq<char>) -> Result<JsonView, Failure> {
    if longest_digit_run(text) > DIGIT_RUN_LIMIT {
        Err(Failure::DigitRun)
    } else {
        match json_parse(text) {
            Some(document) => Ok(document),
            None => Err(Failure::Parse),
        }
    }
}

/// What a `json::JsonValue` holds, down to its leaves. [`layer_of`] says what
/// this is for each variant.
pub uninterp spec fn json_content(value: json::JsonValue) -> JsonView;

/// The top of a `json::JsonValue`: its variant with what the variant holds,
/// the values below it still in the crate's own type.
enum Layer<'a> {
    Null,
    Bool(bool),
    Number { positive: bool, mantissa: u64, exponent: i16 },
    Text(String),
    Array(Vec<&'a json::JsonValue>),
    Object(Vec<(String, &'a json::JsonValue)>),
}

impl<'a> Layer<'a> {
    /// What the value holds whose top this is.
    spec fn content(self) -> JsonView {
        match self {
            Layer::Null => JsonView::Null,
            Layer::Bool(flag) => JsonView::Bool(flag),
            Layer::Number { positive, mantissa, exponent } => JsonView::Number {
                positive,
                mantissa,
                exponent,
            },
            Layer::Text(text) => JsonView::Text(text@),
            Layer::Array(items) => JsonView::Array(
                Seq::new(items@.len(), |i: int| json_content(*items@[i])),
            ),
            Layer::Object(members) => JsonView::Object(
                Seq::new(members@.len(), |i: int| (members@[i].0@, json_content(*members@[i].1))),
            ),
        }
    }
}

/// Calls `json::parse`. The contract names the outcome: a value that is read
/// holds `json_parse` of the text, and an error comes exactly where
/// `json_parse` of the text is `None`. The `requires` keeps out the texts on
/// which the crate's count of fraction digits can leave the range of its
/// `i16` exponent.
#[verifier::external_body]
fn parse_text(text: &str) -> (parsed: Result<json::JsonValue, json::Error>)
    requires
        longest_digit_run(text@) <= DIGIT_RUN_LIMIT,
    ensures
        match parsed {
            Ok(value) => json_parse(text@) == Some(json_content(value)),
            Err(_) => json_parse(text@) is None,
        },
{
    json::parse(text)
}

/// Takes a `json::JsonValue` apart by its variant. `Short` and `String` both
/// give their text, a `Number` its parts as `Number::as_parts` returns them,
/// an `Array` its elements in order, an `Object` its members with their keys
/// in the order of `Object::iter`. The contract says that the value holds
/// just this, with the content of each value below it in its place.
#[verifier::external_body]
fn layer_of<'a>(value: &'a json::JsonValue) -> (layer: Layer<'a>)
    ensures
        layer.content() == json_content(*value),
{
    match value {
        json::JsonValue::Null => Layer::Null,
        json::JsonValue::Boolean(flag) => Layer::Bool(*flag),
        json::JsonValue::Number(number) => {
            let (positive, mantissa, exponent) = number.as_parts();
            Layer::Number { positive, mantissa, exponent }
        },
        json::JsonValue::Short(short) => Layer::Text(short.as_str().to_string()),
        json::JsonValue::String(string) => Layer::Text(string.clone()),
        json::JsonValue::Array(items) => Layer::Array(items.iter().collect()),
        json::JsonValue::Object(object) => Layer::Object(
            object.iter().map(|(key, member)| (key.to_string(), member)).collect(),
        ),
    }
}

/// Copies a `json::JsonValue` into a [`Json`] that holds the same.
fn tree_of(value: &json::JsonValue) -> (tree: Json)
    ensures
        tree@ == json_content(*value),
    decreases json_content(*value),
{
    match layer_of(value) {
        Layer::Null => Json::Null,
        Layer::Bool(flag) => Json::Bool(flag),
        Layer::Number { positive, mantissa, exponent } => Json::Number {
            positive,
            mantissa,
            exponent,
        },
        Layer::Text(text) => Json::Text(text),
        Layer::Array(below) => {
            let ghost content = json_content(*value)->Array_0;
            let mut items: Vec<Json> = Vec::new();
            let mut i: usize = 0;
            while i < below.len()
                invariant
                    i <= below.len(),
                    items@.len() == i,
                    json_content(*value) == JsonView::Array(content),
                    content.len() == below.len(),
                    forall|j: int| 0 <= j < below.len() ==> content[j] == json_content(*below@[j]),
                    forall|j: int| 0 <= j < i ==> (#[trigger] items@[j])@ == content[j],
                decreases below.len() - i,
            {
                proof {
                    let whole = json_content(*value);
                    assert(whole->Array_0[i as int] == json_content(*below@[i as int]));
                    assert(decreases_to!(whole => whole->Array_0));
                    assert(decreases_to!(whole->Array_0 => whole->Array_0[i as int]));
                }
                items.push(tree_of(below[i]));
                i += 1;
            }
            let tree = Json::Array(items);
            proof {
                lemma_view_parts(&tree);
                assert(tree@->Array_0 =~= content);
            }
            tree
        },
        Layer::Object(below) => {
            let ghost content = json_content(*value)->Object_0;
            let mut members: Vec<(String, Json)> = Vec::new();
            let mut i: usize = 0;
            while i < below.len()
                invariant
                    i <= below.len(),
                    members@.len() == i,
                    json_content(*value) == JsonView::Object(content),
                    content.len() == below.len(),
                    forall|j: int|
                        0 <= j < below.len() ==> content[j] == (
                            below@[j].0@,
                            json_content(*below@[j].1),
                        ),
                    forall|j: int|
                        0 <= j < i ==> ((#[trigger] members@[j]).0@, members@[j].1@) == content[j],
                decreases below.len() - i,
            {
                proof {
                    let whole = json_content(*value);
                    assert(whole->Object_0[i as int].1 == json_content(*below@[i as int].1));
                    assert(decreases_to!(whole => whole->Object_0));
                    assert(decreases_to!(whole->Object_0 => whole->Object_0[i as int]));
                    assert(decreases_to!(whole->Object_0[i as int] => whole->Object_0[i as int].1));
                }
                let key = below[i].0.clone();
                let member = tree_of(below[i].1);
                members.push((key, member));
                i += 1;
            }
            let tree = Json::Object(members);
            proof {
                lemma_view_parts(&tree);
                assert(tree@->Object_0 =~= content);
            }
            tree
        },
    }
}

/// Parses a JSON text into a document.
///
/// A text with a run of more than [`DIGIT_RUN_LIMIT`] consecutive digits
/// gives [`Failure::DigitRun`]. Of the others, those that the `json` crate
/// accepts give their document, and the rest give [`Failure::Parse`].
pub fn parse_document(text: &str) -> (document: Result<Json, Failure>)
    ensures
        match document {
            Ok(tree) => parse_outcome(text@) == Ok::<JsonView, Failure>(tree@),
            Err(failure) => parse_outcome(text@) == Err::<JsonView, Failure>(failure),
        },
{
    if !digit_runs_within(text, DIGIT_RUN_LIMIT) {
        return Err(Failure::DigitRun);
    }
    match parse_text(text) {
        Ok(value) => Ok(tree_of(&value)),
        Err(_) => Err(Failure::Parse),
    }
}

} // verus!
