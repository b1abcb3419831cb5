//! The calls into other crates: JSON text, URLs, MIME types and UUIDs.
use crate::json::{
    Json, JsonEntry, JsonNumber, JsonView, is_key_sorted, is_plain, nested_at_most,
    no_object_holds, sorting_keeps_shape,
};
use crate::model::outcome;
use serde_json::Value;
use vstd::arithmetic::power::pow;
use vstd::prelude::*;

verus! {

/// A JSON value of serde_json.
#[verifier::external_type_specification]
#[verifier::external_body]
pub struct ExValue(serde_json::Value);

/// What a serde_json value holds.
pub uninterp spec fn value_content(value: serde_json::Value) -> JsonView;

/// What `serde_json::from_str` reads from a text, or the text of its error.
pub uninterp spec fn parsed_json(text: Seq<char>) -> Result<JsonView, Seq<char>>;

/// Whether serde_json reads `json` from `text`.
pub open spec fn reads_as(text: Seq<char>, json: JsonView) -> bool {
    parsed_json(text) matches Ok(read) && read == json
}

/// What the serde_json value made from a JSON value holds.
pub uninterp spec fn built_value(json: JsonView) -> JsonView;

/// The text that serde_json prints for a value.
pub uninterp spec fn printed_json(value: JsonView) -> Seq<char>;

/// `serde_json::from_str::<Value>`.
#[verifier::external_body]
pub(crate) fn value_from_text(text: &str) -> (r: Result<Value, String>)
    ensures
        match r {
            Ok(value) => parsed_json(text@) matches Ok(x) && x == value_content(value),
            Err(message) => parsed_json(text@) matches Err(x) && x == message@,
        },
{
    serde_json::from_str::<Value>(text).map_err(|e| e.to_string())
}

/// What a `serde_json::Value` holds: a plain value, from which it can be made again.
#[verifier::external_body]
pub(crate) fn json_of(value: Value) -> (r: Json)
    ensures
        r@ == value_content(value),
        built_value(r@) == r@,
        is_plain(r@),
{
    match value {
        Value::Null => Json::Null,
        Value::Bool(b) => Json::Bool(b),
        Value::Number(n) => Json::Number(match (n.as_u64(), n.as_i64()) {
            (Some(u), _) => JsonNumber::Unsigned(u),
            (None, Some(i)) => JsonNumber::Negative(i),
            (None, None) => JsonNumber::Fractional(n.to_string()),
        }),
        Value::String(s) => Json::String(s),
        Value::Array(items) => Json::Array(items.into_iter().map(json_of).collect()),
        Value::Object(map) => Json::Object(
            map.into_iter().map(|(key, v)| JsonEntry { key, value: json_of(v) }).collect(),
        ),
    }
}

/// The `serde_json::Value` that holds a JSON value. Its maps are walked in the
/// order of their keys, so a plain value comes out with its keys sorted. An object
/// that repeats a key keeps the last value under it; a fractional number whose
/// text is no number becomes null.
#[verifier::external_body]
pub(crate) fn value_of(json: &Json) -> (r: Value)
    ensures
        value_content(r) == built_value(json@),
        is_plain(json@) ==> is_key_sorted(json@, value_content(r)),
{
    match json {
        Json::Null => Value::Null,
        Json::Bool(b) => Value::Bool(*b),
        Json::Number(JsonNumber::Unsigned(n)) => Value::from(*n),
        Json::Number(JsonNumber::Negative(n)) => Value::from(*n),
        Json::Number(JsonNumber::Fractional(s)) => s.parse().map_or(Value::Null, Value::Number),
        Json::String(s) => Value::String(s.clone()),
        Json::Array(items) => Value::Array(items.iter().map(value_of).collect()),
        Json::Object(entries) => Value::Object(
            entries.iter().map(|e| (e.key.clone(), value_of(&e.value))).collect(),
        ),
    }
}

/// Whether serde_json reads a value back from its text: it is not nested more deeply
/// than serde_json reads, and it does not hold the key that serde_json keeps to itself.
pub open spec fn is_readable(json: JsonView) -> bool {
    nested_at_most(json, 127) && no_object_holds(json, raw_value_key())
}

/// The key by which serde_json knows text that is passed through unread.
pub open spec fn raw_value_key() -> Seq<char> {
    "$serde_json::private::RawValue"@
}

/// `serde_json::Value::to_string`: the compact text of a value. Reading that
/// text back gives what the value holds, where serde_json reads it.
#[verifier::external_body]
pub(crate) fn value_text(value: &Value) -> (r: String)
    ensures
        r@ == printed_json(value_content(*value)),
        is_readable(value_content(*value)) ==> reads_as(r@, value_content(*value)),
{
    value.to_string()
}

/// The text of a JSON value.
pub open spec fn json_text(json: JsonView) -> Seq<char> {
    printed_json(built_value(json))
}

/// What is known of reading a JSON value back from its text. A value that was read
/// from a text reads as itself, and a plain value as itself with its keys sorted,
/// where serde_json reads it.
pub open spec fn reads_back(json: JsonView) -> bool {
    &&& built_value(json) == json && is_readable(json) ==> reads_as(json_text(json), json)
    &&& is_plain(json) && is_readable(json) ==> reads_as_sorted(json_text(json), json)
}

/// Whether serde_json reads `json` from `text`, with its keys sorted.
pub open spec fn reads_as_sorted(text: Seq<char>, json: JsonView) -> bool {
    parsed_json(text) matches Ok(read) && is_key_sorted(json, read)
}

/// Reads a JSON value from its text.
pub fn parse_json(text: &str) -> (r: Result<Json, String>)
    ensures
        outcome(r) == parsed_json(text@),
        r matches Ok(json) ==> built_value(json@) == json@ && is_plain(json@),
{
    match value_from_text(text) {
        Ok(value) => Ok(json_of(value)),
        Err(message) => Err(message),
    }
}

/// Writes a JSON value as compact text, from which it can be read back.
pub fn print_json(json: &Json) -> (r: String)
    ensures
        r@ == json_text(json@),
        reads_back(json@),
{
    let value: Value = value_of(json);
    let text: String = value_text(&value);
    proof {
        if is_plain(json@) {
            sorting_keeps_shape(json@, value_content(value), 127, raw_value_key());
        }
    }
    text
}

/// How serde describes a text that it did not expect.
pub uninterp spec fn described_text(text: Seq<char>) -> Seq<char>;

/// `serde::de::Unexpected::Str`, as it is printed.
#[verifier::external_body]
pub(crate) fn describe_text(text: &str) -> (r: String)
    ensures
        r@ == described_text(text@),
{
    serde::de::Unexpected::Str(text).to_string()
}

/// The text of the single JSON value that a text holds, without the space around it,
/// or the text of the error. Values inside it are skipped, not built.
pub uninterp spec fn raw_json(text: Seq<char>) -> Result<Seq<char>, Seq<char>>;

/// `serde_json::from_str::<&RawValue>`.
#[verifier::external_body]
pub(crate) fn raw_from_text(text: &str) -> (r: Result<&str, String>)
    ensures
        match r {
            Ok(raw) => raw_json(text@) matches Ok(x) && x == raw@,
            Err(message) => raw_json(text@) matches Err(x) && x == message@,
        },
{
    serde_json::from_str::<&serde_json::value::RawValue>(text)
        .map(|raw| raw.get())
        .map_err(|e| e.to_string())
}

/// The text of the first JSON value in a text and the text behind it, where there is
/// one.
pub uninterp spec fn first_value(text: Seq<char>) -> Option<(Seq<char>, Seq<char>)>;

/// `serde_json::StreamDeserializer::next` over raw values, and `byte_offset`. A value
/// has at least one character, and stands in the text before what is behind it.
#[verifier::external_body]
pub(crate) fn split_first_value(text: &str) -> (r: Option<(&str, &str)>)
    ensures
        match r {
            Some((raw, rest)) => first_value(text@) == Some((raw@, rest@)) && raw@.len() > 0
                && raw@.len() + rest@.len() <= text@.len(),
            None => first_value(text@) is None,
        },
{
    let mut values = serde_json::Deserializer::from_str(text)
        .into_iter::<&serde_json::value::RawValue>();
    let raw = values.next()?.ok()?;
    Some((raw.get(), &text[values.byte_offset()..]))
}

/// A text without the JSON white space at its start.
pub open spec fn without_space(text: Seq<char>) -> Seq<char>
    decreases text.len(),
{
    if text.len() > 0 && (text[0] == ' ' || text[0] == '\n' || text[0] == '\t' || text[0] == '\r') {
        without_space(text.skip(1))
    } else {
        text
    }
}

/// `str::trim_start_matches` with the four characters of JSON white space.
#[verifier::external_body]
pub(crate) fn trim_space(text: &str) -> (r: &str)
    ensures
        r@ == without_space(text@),
{
    text.trim_start_matches([' ', '\n', '\t', '\r'])
}

/// `str::strip_prefix` with a character.
#[verifier::external_body]
pub(crate) fn strip_char(text: &str, c: char) -> (r: Option<&str>)
    ensures
        match r {
            Some(rest) => text@.len() > 0 && text@[0] == c && rest@ == text@.skip(1),
            None => text@.len() == 0 || text@[0] != c,
        },
{
    text.strip_prefix(c)
}

/// The serialization of the URL that `Url::parse` reads from a text, or
/// nothing where it reads none.
pub uninterp spec fn parsed_url(text: Seq<char>) -> Option<Seq<char>>;

/// The path of the URL that a text spells.
pub uninterp spec fn path_of_url(text: Seq<char>) -> Option<Seq<char>>;

/// The URL that a text spells, with its path replaced.
pub uninterp spec fn url_with_path(text: Seq<char>, path: Seq<char>) -> Option<Seq<char>>;

/// The URL that a reference spells relative to a base, or the text of the
/// error.
pub uninterp spec fn joined_url(base: Seq<char>, reference: Seq<char>) -> Result<
    Seq<char>,
    Seq<char>,
>;

/// `url::Url::parse`, with the URL given by its serialization.
#[verifier::external_body]
pub(crate) fn url_from_text(text: &str) -> (r: Option<String>)
    ensures
        match r {
            Some(url) => parsed_url(text@) == Some(url@),
            None => parsed_url(text@) is None,
        },
{
    url::Url::parse(text).ok().map(String::from)
}

/// `url::Url::path`.
#[verifier::external_body]
pub(crate) fn url_path(text: &str) -> (r: Option<String>)
    ensures
        match r {
            Some(path) => path_of_url(text@) == Some(path@),
            None => path_of_url(text@) is None,
        },
{
    url::Url::parse(text).ok().map(|u| u.path().to_string())
}

/// Whether the url crate can put a path of so many characters into a URL. It counts
/// positions in 32 bits, and a character takes at most twelve of them when it is
/// percent-encoded.
pub open spec fn path_fits(url: Option<Seq<char>>, path_len: nat) -> bool {
    match url {
        Some(u) => u.len() + 12 * path_len + 4 <= u32::MAX,
        None => true,
    }
}

/// `url::Url::set_path`, with the URL given by its text before and after. It panics
/// on a URL that grows beyond four gigabytes.
#[verifier::external_body]
pub(crate) fn url_set_path(text: &str, path: &str) -> (r: Option<String>)
    requires
        path_fits(parsed_url(text@), path@.len()),
    ensures
        match r {
            Some(url) => url_with_path(text@, path@) == Some(url@),
            None => url_with_path(text@, path@) is None,
        },
{
    let mut url = url::Url::parse(text).ok()?;
    url.set_path(path);
    Some(String::from(url))
}

/// `url::Url::join`.
#[verifier::external_body]
pub(crate) fn url_join(base: &str, reference: &str) -> (r: Result<String, String>)
    ensures
        match r {
            Ok(url) => joined_url(base@, reference@) matches Ok(x) && x == url@,
            Err(message) => joined_url(base@, reference@) matches Err(x) && x == message@,
        },
{
    let base = url::Url::parse(base).map_err(|e| e.to_string())?;
    base.join(reference).map(String::from).map_err(|e| e.to_string())
}

/// The text of the MIME type that the mime crate reads from a text, or nothing
/// where it reads none.
pub uninterp spec fn parsed_mime(text: Seq<char>) -> Option<Seq<char>>;

/// `mime::Mime::from_str`, with the MIME type given by its text.
#[verifier::external_body]
pub(crate) fn mime_from_text(text: &str) -> (r: Option<String>)
    ensures
        match r {
            Some(mime) => parsed_mime(text@) == Some(mime@),
            None => parsed_mime(text@) is None,
        },
{
    text.parse::<mime::Mime>().ok().map(|m| m.to_string())
}

/// The hexadecimal digit of a number below sixteen.
pub open spec fn hex_digit(d: int) -> char {
    if d < 10 {
        (48 + d) as char
    } else {
        (87 + d) as char
    }
}

/// The hyphenated text of a UUID: groups of eight, four, four, four and twelve
/// lower-case hexadecimal digits, the most significant first.
pub open spec fn uuid_text(id: u128) -> Seq<char> {
    Seq::new(
        36,
        |i: int|
            if i == 8 || i == 13 || i == 18 || i == 23 {
                '-'
            } else {
                let hyphens: int = if i < 8 {
                    0
                } else if i < 13 {
                    1
                } else if i < 18 {
                    2
                } else if i < 23 {
                    3
                } else {
                    4
                };
                hex_digit((id as int / pow(16, (31 - (i - hyphens)) as nat)) % 16)
            },
    )
}

/// The UUID that a text spells, or the text of the error.
pub uninterp spec fn parsed_uuid(text: Seq<char>) -> Result<u128, Seq<char>>;

/// `uuid::Uuid::parse_str`. Among the texts that it reads is the hyphenated one.
#[verifier::external_body]
pub(crate) fn uuid_from_text(text: &str) -> (r: Result<u128, String>)
    ensures
        outcome(r) == parsed_uuid(text@),
        forall|id: u128|
            text@ == #[trigger] uuid_text(id) ==> (r is Ok && r->Ok_0 == id),
{
    uuid::Uuid::parse_str(text).map(|u| u.as_u128()).map_err(|e| e.to_string())
}

/// `uuid::Uuid::to_string`.
#[verifier::external_body]
pub(crate) fn text_of_uuid(id: u128) -> (r: String)
    ensures
        r@ == uuid_text(id),
{
    uuid::Uuid::from_u128(id).to_string()
}

} // verus!
