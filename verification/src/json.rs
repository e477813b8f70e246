//! JSON objects as the claims of a token and the body of a reply.
//!
//! The objects are `serde_json` maps. What such a map holds is named by
//! [`members`]; the functions of this module are the only ones that touch a
//! map, and each says what it does to that content.

use vstd::prelude::*;

verus! {

/// `serde_json::Value`, any JSON value. Nothing is known of what is inside.
#[verifier::external_type_specification]
#[verifier::external_body]
pub struct ExJsonValue(serde_json::Value);

/// `serde_json::Map`, the members of a JSON object. What is inside is known
/// through [`members`] alone.
#[verifier::external_type_specification]
#[verifier::external_body]
#[verifier::reject_recursive_types(K)]
#[verifier::reject_recursive_types(V)]
pub struct ExJsonMap<K, V>(serde_json::Map<K, V>);

/// `serde_json::Error`, why JSON could not be read or written. It is never
/// looked into.
#[verifier::external_type_specification]
#[verifier::external_body]
pub struct ExJsonError(serde_json::Error);

/// A JSON object with string keys.
pub type JsonObject = serde_json::Map<String, serde_json::Value>;

/// One member of a JSON object, as far as this library tells values apart.
pub ghost enum Member {
    /// `null`.
    Null,
    /// A number that is an integer in the range of `i64`.
    Integer(int),
    /// A string.
    Text(Seq<char>),
    /// Anything else: a boolean, another number, an array, an object.
    Other,
}

/// A value that this library writes into a JSON object.
#[derive(Debug)]
pub enum Scalar {
    Null,
    Integer(i64),
    Text(String),
}

impl View for Scalar {
    type V = Member;

    open spec fn view(&self) -> Member {
        match self {
            Scalar::Null => Member::Null,
            Scalar::Integer(i) => Member::Integer(*i as int),
            Scalar::Text(t) => Member::Text(t@),
        }
    }
}

/// A value read from a JSON object.
#[derive(Debug)]
pub enum Field {
    Null,
    /// A number, with its value where it is an integer in the range of `i64`.
    Number(Option<i64>),
    Text(String),
    Other,
}

impl View for Field {
    type V = Member;

    open spec fn view(&self) -> Member {
        match self {
            Field::Null => Member::Null,
            Field::Number(Some(i)) => Member::Integer(*i as int),
            Field::Number(None) => Member::Other,
            Field::Text(t) => Member::Text(t@),
            Field::Other => Member::Other,
        }
    }
}

/// The members of a JSON object, by name.
pub uninterp spec fn members(object: JsonObject) -> Map<Seq<char>, Member>;

/// Whether every member is one that [`Scalar`] can express.
pub open spec fn all_scalar(content: Map<Seq<char>, Member>) -> bool {
    forall|name: Seq<char>| content.contains_key(name) ==> !(#[trigger] content[name] is Other)
}

/// `serde_json::Map::new`: an object without members.
#[verifier::external_body]
pub(crate) fn empty_object() -> (object: JsonObject)
    ensures
        members(object) == (Map::<Seq<char>, Member>::empty()),
{
    serde_json::Map::new()
}

/// `serde_json::Map::insert`: sets the member `name` to `value`, replacing a
/// member of that name if there is one, and leaves every other member as it
/// was.
#[verifier::external_body]
pub(crate) fn put(object: &mut JsonObject, name: &str, value: &Scalar)
    ensures
        members(*final(object)) == members(*old(object)).insert(name@, value@),
{
    let value = match value {
        Scalar::Null => serde_json::Value::Null,
        Scalar::Integer(i) => serde_json::Value::from(*i),
        Scalar::Text(t) => serde_json::Value::String(t.clone()),
    };
    object.insert(name.to_string(), value);
}

/// `serde_json::Map::get`: the member `name`, if the object has one. A number
/// is read with `serde_json::Number::as_i64`.
#[verifier::external_body]
pub(crate) fn get(object: &JsonObject, name: &str) -> (field: Option<Field>)
    ensures
        field is Some <==> members(*object).contains_key(name@),
        field is Some ==> field->0@ == members(*object)[name@],
{
    match object.get(name) {
        None => None,
        Some(serde_json::Value::Null) => Some(Field::Null),
        Some(serde_json::Value::Number(number)) => Some(Field::Number(number.as_i64())),
        Some(serde_json::Value::String(text)) => Some(Field::Text(text.clone())),
        Some(_) => Some(Field::Other),
    }
}

/// The text that an object is written as: its members in the order of
/// their names, without spaces; `None` where it cannot be written.
pub uninterp spec fn json_text(content: Map<Seq<char>, Member>) -> Option<Seq<char>>;

/// `serde_json::to_string` on an object. A `serde_json::Map` keeps its
/// members sorted by name, unless `serde_json` is built to preserve the
/// order of insertion, which this library does not ask for; so the text
/// depends on the members alone.
#[verifier::external_body]
pub(crate) fn to_text(object: &JsonObject) -> (r: Result<String, serde_json::Error>)
    requires
        all_scalar(members(*object)),
    ensures
        r is Ok <==> json_text(members(*object)) is Some,
        r is Ok ==> json_text(members(*object)) == Some(r->Ok_0@),
{
    serde_json::to_string(object)
}

} // verus!
