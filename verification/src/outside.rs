//! The calls this library makes into other crates.
//!
//! Nothing in this file is proved. Each function below makes one call into
//! another crate and converts the values that go in and come out; its contract
//! is what the library takes on trust about that call. The rest of the library
//! is verified against these contracts.

use vstd::prelude::*;

verus! {

/// What `uuid::Uuid::parse_str` makes of a text: the 128-bit value of the
/// identifier it reads, or `None` where it rejects the text. The accepted
/// grammar (simple, hyphenated, braced and URN forms of 32 hexadecimal digits)
/// is the crate's own; the library only relies on the result being a function
/// of the text.
pub uninterp spec fn uuid_parsed(text: Seq<char>) -> Option<u128>;

/// Whether the regular expression `pattern` finds a match anywhere in `text`,
/// as `regex::Regex` decides it; `None` where `Regex::new` refuses the pattern.
pub uninterp spec fn pattern_accepts(pattern: Seq<char>, text: Seq<char>) -> Option<bool>;

/// The shape of a JSON document, as far as the library reads one.
pub enum Json {
    Null,
    Bool(bool),
    Number,
    Text(Seq<char>),
    Array(Seq<Json>),
    Object(Map<Seq<char>, Json>),
}

/// The document that `serde_json::from_str` reads from a text, or `None` where
/// it reports an error.
pub uninterp spec fn json_parsed(text: Seq<char>) -> Option<Json>;

/// The document that a `serde_json::Value` holds.
pub uninterp spec fn json_of(value: serde_json::Value) -> Json;

#[verifier::external_type_specification]
#[verifier::external_body]
pub struct ExJsonValue(serde_json::Value);

impl Json {
    /// The member stored under `key`, where this is an object that has one.
    pub open spec fn member(self, key: Seq<char>) -> Option<Json> {
        match self {
            Json::Object(members) => if members.contains_key(key) {
                Some(members[key])
            } else {
                None
            },
            _ => None,
        }
    }

    /// The element at `position`, where this is an array that long.
    pub open spec fn element(self, position: int) -> Option<Json> {
        match self {
            Json::Array(elements) => if 0 <= position < elements.len() {
                Some(elements[position])
            } else {
                None
            },
            _ => None,
        }
    }

    /// The characters of a JSON string; `None` for any other value.
    pub open spec fn text(self) -> Option<Seq<char>> {
        match self {
            Json::Text(characters) => Some(characters),
            _ => None,
        }
    }

    /// The value of a JSON boolean; `None` for any other value.
    pub open spec fn flag(self) -> Option<bool> {
        match self {
            Json::Bool(value) => Some(value),
            _ => None,
        }
    }
}

/// `uuid::Uuid::new_v4`, read through `Uuid::as_u128`. The identifier is drawn
/// from the operating system's random source, so nothing is claimed of it.
#[verifier::external_body]
pub(crate) fn fresh_id() -> (id: u128) {
    uuid::Uuid::new_v4().as_u128()
}

/// `uuid::Uuid::parse_str`, read through `Uuid::as_u128`: the result is the
/// crate's reading of the text, which depends on the text alone.
#[verifier::external_body]
pub(crate) fn parse_uuid(text: &str) -> (id: Option<u128>)
    ensures
        id == uuid_parsed(text@),
{
    match uuid::Uuid::parse_str(text) {
        Ok(uuid) => Some(uuid.as_u128()),
        Err(_) => None,
    }
}

/// `uuid::Uuid::from_u128` followed by `Uuid::simple` and the `to_string` of
/// that form: the sixteen bytes of the identifier, most significant first,
/// each as two hexadecimal digits in lower case, 32 digits in all.
#[verifier::external_body]
pub(crate) fn simple_text(id: u128) -> (text: String)
    ensures
        text@ == crate::ident::simple_form(id),
{
    uuid::Uuid::from_u128(id).simple().to_string()
}

/// `chrono::Utc::now`, read through `DateTime::timestamp`: the current time in
/// whole seconds since the Unix epoch. It depends on the clock, so nothing is
/// claimed of it. (chrono panics if the system clock is set before the epoch.)
#[verifier::external_body]
pub(crate) fn unix_now() -> (now: i64) {
    chrono::Utc::now().timestamp()
}

/// `regex::Regex::new` followed by `Regex::is_match`: whether the pattern
/// matches somewhere in the text, or `None` if the pattern does not compile.
/// Both depend on their arguments alone.
#[verifier::external_body]
pub(crate) fn pattern_matches(pattern: &str, text: &str) -> (verdict: Option<bool>)
    ensures
        verdict == pattern_accepts(pattern@, text@),
{
    match regex::Regex::new(pattern) {
        Ok(regex) => Some(regex.is_match(text)),
        Err(_) => None,
    }
}

/// `rand::seq::SliceRandom::choose` with `rand::thread_rng`: one element of the
/// slice, or `None` if and only if the slice is empty. Which element comes
/// back is left open.
#[verifier::external_body]
pub(crate) fn choose_id(ids: &Vec<u128>) -> (picked: Option<u128>)
    ensures
        ids@.len() == 0 ==> picked is None,
        ids@.len() > 0 ==> picked is Some && ids@.contains(picked->0),
{
    rand::seq::SliceRandom::choose(ids.as_slice(), &mut rand::thread_rng()).copied()
}

/// `serde_json::from_str` at type `Value`. On success the value holds the
/// document that the text denotes; an error means the text denotes none. The
/// error is handed back as the message serde_json gives it.
#[verifier::external_body]
pub(crate) fn parse_json(text: &str) -> (parsed: Result<serde_json::Value, String>)
    ensures
        match parsed {
            Ok(value) => json_parsed(text@) == Some(json_of(value)),
            Err(_) => json_parsed(text@) is None,
        },
{
    match serde_json::from_str::<serde_json::Value>(text) {
        Ok(value) => Ok(value),
        Err(error) => Err(error.to_string()),
    }
}

/// `serde_json::Value::get` with a string key: the member under that key if the
/// value is an object that has it, `None` in every other case.
#[verifier::external_body]
pub(crate) fn json_member<'a>(value: &'a serde_json::Value, key: &str) -> (member: Option<
    &'a serde_json::Value,
>)
    ensures
        match member {
            Some(found) => json_of(*value).member(key@) == Some(json_of(*found)),
            None => json_of(*value).member(key@) is None,
        },
{
    value.get(key)
}

/// `serde_json::Value::get` with a position: the element at that position if the
/// value is an array that long, `None` in every other case.
#[verifier::external_body]
pub(crate) fn json_element<'a>(value: &'a serde_json::Value, position: usize) -> (element: Option<
    &'a serde_json::Value,
>)
    ensures
        match element {
            Some(found) => json_of(*value).element(position as int) == Some(json_of(*found)),
            None => json_of(*value).element(position as int) is None,
        },
{
    value.get(position)
}

/// `serde_json::Value::as_str`: the characters if the value is a string.
#[verifier::external_body]
pub(crate) fn json_text<'a>(value: &'a serde_json::Value) -> (text: Option<&'a str>)
    ensures
        match text {
            Some(characters) => json_of(*value).text() == Some(characters@),
            None => json_of(*value).text() is None,
        },
{
    value.as_str()
}

/// `serde_json::Value::as_bool`: the truth value if the value is a boolean.
#[verifier::external_body]
pub(crate) fn json_flag(value: &serde_json::Value) -> (flag: Option<bool>)
    ensures
        flag == json_of(*value).flag(),
{
    value.as_bool()
}

/// `String::push` of the standard library: appends one character.
#[verifier::external_body]
pub(crate) fn push_char(text: &mut String, character: char)
    ensures
        final(text)@ == old(text)@.push(character),
{
    text.push(character)
}

} // verus!
