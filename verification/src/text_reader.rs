//! Reading typed values out of the text of JSON.
//!
//! A record is read from its text field by field. Only the fields that it has are
//! built: what stands in another field is skipped, whatever it holds. The text is
//! known to be JSON when it is read here.
use crate::json::{Json, JsonEntry, JsonView, nested_at_most};
use crate::model::outcome;
use crate::outside::{
    first_value, parse_json, parsed_json, raw_from_text, raw_json, split_first_value, strip_char,
    trim_space, without_space,
};
use crate::reader::{
    Shape, find_key, find_place, items_error, items_problem, key_index, lack_error, lack_problem,
    place, record_error, record_problem, repeated, repeated_field,
};
use crate::text::owned;
use vstd::prelude::*;

verus! {

// ---------------------------------------------------------------------------
// Parts of a text
// ---------------------------------------------------------------------------

/// The message for a text that is not JSON.
pub open spec fn malformed() -> Seq<char> {
    "expected value"@
}

/// The text that starts with the next item of an array or an object, or with the
/// bracket that ends it.
pub open spec fn next_item(text: Seq<char>) -> Seq<char> {
    let t = without_space(text);
    if starts(t, ',') {
        without_space(t.skip(1))
    } else {
        t
    }
}

/// Whether a text starts with a character.
pub open spec fn starts(text: Seq<char>, c: char) -> bool {
    text.len() > 0 && text[0] == c
}

/// The text of the key of the first member in a text, the text of its value, and the
/// text behind it.
pub open spec fn first_member(text: Seq<char>) -> Option<(Seq<char>, Seq<char>, Seq<char>)> {
    match first_value(text) {
        None => None,
        Some((key, behind)) => if starts(without_space(behind), ':') {
            match first_value(without_space(behind).skip(1)) {
                None => None,
                Some((value, rest)) => Some((key, value, rest)),
            }
        } else {
            None
        },
    }
}

proof fn without_space_is_shorter(text: Seq<char>)
    ensures
        without_space(text).len() <= text.len(),
    decreases text.len(),
{
    if text.len() > 0 {
        without_space_is_shorter(text.skip(1));
    }
}

fn skip_to_item(text: &str) -> (r: &str)
    ensures
        r@ == next_item(text@),
        r@.len() <= text@.len(),
{
    proof {
        without_space_is_shorter(text@);
        without_space_is_shorter(without_space(text@).skip(1));
    }
    let t: &str = trim_space(text);
    match strip_char(t, ',') {
        Some(rest) => trim_space(rest),
        None => t,
    }
}

fn split_first_member(text: &str) -> (r: Option<(&str, &str, &str)>)
    ensures
        match r {
            Some((key, value, rest)) => first_member(text@) == Some((key@, value@, rest@))
                && rest@.len() < text@.len(),
            None => first_member(text@) is None,
        },
{
    match split_first_value(text) {
        None => None,
        Some((key, behind)) => {
            proof {
                without_space_is_shorter(behind@);
            }
            match strip_char(trim_space(behind), ':') {
                None => None,
                Some(t) => match split_first_value(t) {
                    None => None,
                    Some((value, rest)) => Some((key, value, rest)),
                },
            }
        },
    }
}

// ---------------------------------------------------------------------------
// Values
// ---------------------------------------------------------------------------

/// The value that a text spells, which may be nested so deep.
pub open spec fn leaf_text(raw: Seq<char>, limit: nat) -> Result<JsonView, Seq<char>> {
    match parsed_json(raw) {
        Err(e) => Err(e),
        Ok(v) => if nested_at_most(v, limit) {
            Ok(v)
        } else {
            Err("recursion limit exceeded"@)
        },
    }
}

/// Reads a value, which may be nested so deep.
pub fn read_leaf_text(raw: &str, limit: usize) -> (r: Result<Json, String>)
    ensures
        outcome(r) == leaf_text(raw@, limit as nat),
{
    match parse_json(raw) {
        Err(e) => Err(e),
        Ok(value) => if value.nests_at_most(limit) {
            Ok(value)
        } else {
            Err(owned("recursion limit exceeded"))
        },
    }
}

/// The members of an object whose text goes on with `text`, behind those that were
/// read.
pub open spec fn all_members_text(
    text: Seq<char>,
    limit: nat,
    read: Seq<(Seq<char>, JsonView)>,
) -> Result<Seq<(Seq<char>, JsonView)>, Seq<char>>
    decreases text.len(),
{
    let t = next_item(text);
    if starts(t, '}') {
        Ok(read)
    } else {
        match first_member(t) {
            None => Err(malformed()),
            Some((key, value, rest)) => if rest.len() >= text.len() {
                Err(malformed())
            } else {
                match (parsed_json(key), leaf_text(value, limit)) {
                    (Err(e), _) => Err(e),
                    (_, Err(e)) => Err(e),
                    (Ok(JsonView::String(name)), Ok(v)) => all_members_text(
                        rest,
                        limit,
                        read.push((name, v)),
                    ),
                    _ => Err(malformed()),
                }
            },
        }
    }
}

/// The value that a text spells, with all the members of an object, also those whose
/// key is repeated.
pub open spec fn object_text(raw: Seq<char>, limit: nat) -> Result<JsonView, Seq<char>> {
    if starts(raw, '{') {
        match all_members_text(raw.skip(1), limit, Seq::empty()) {
            Err(e) => Err(e),
            Ok(entries) => Ok(JsonView::Object(entries)),
        }
    } else {
        parsed_json(raw)
    }
}

/// Reads a value, with all the members of an object.
pub fn read_object_text(raw: &str, limit: usize) -> (r: Result<Json, String>)
    ensures
        outcome(r) == object_text(raw@, limit as nat),
{
    let text: &str = match strip_char(raw, '{') {
        None => {
            return parse_json(raw);
        },
        Some(text) => text,
    };
    let mut entries: Vec<JsonEntry> = Vec::new();
    assert(entries.deep_view() =~= Seq::empty());
    let mut rest: &str = text;
    loop
        invariant
            starts(raw@, '{'),
            text@ == raw@.skip(1),
            all_members_text(text@, limit as nat, Seq::empty()) == all_members_text(
                rest@,
                limit as nat,
                entries.deep_view(),
            ),
        decreases rest@.len(),
    {
        let t: &str = skip_to_item(rest);
        if strip_char(t, '}').is_some() {
            let v: Json = Json::Object(entries);
            assert(v@->Object_0 =~= entries.deep_view());
            return Ok(v);
        }
        let (key, value, behind) = match split_first_member(t) {
            None => {
                return Err(owned("expected value"));
            },
            Some(member) => member,
        };
        match (parse_json(key), read_leaf_text(value, limit)) {
            (Err(e), _) => {
                return Err(e);
            },
            (_, Err(e)) => {
                return Err(e);
            },
            (Ok(Json::String(name)), Ok(v)) => {
                let ghost before = entries.deep_view();
                let ghost added = (name@, v@);
                entries.push(JsonEntry { key: name, value: v });
                assert(entries.deep_view() =~= before.push(added));
            },
            _ => {
                return Err(owned("expected value"));
            },
        }
        rest = behind;
    }
}

/// A record that is read from a text.
pub trait TextShape: Shape {
    /// The value of a field, by its text. serde_json reads what is nested at most 127
    /// deep: a field may hold what that leaves below the records that it stands in.
    spec fn field_text(i: int, raw: Seq<char>) -> Result<JsonView, Seq<char>>;

    fn read_field_text(i: usize, raw: &str) -> (r: Result<Json, String>)
        requires
            i < Self::keys().len(),
        ensures
            outcome(r) == Self::field_text(i as int, raw@),
    ;
}

/// The value of a field that has no error.
pub open spec fn checked_field<S: TextShape>(i: int, raw: Seq<char>) -> Result<
    JsonView,
    Seq<char>,
> {
    match S::field_text(i, raw) {
        Err(e) => Err(e),
        Ok(v) => match S::field_error(i, v) {
            Some(e) => Err(e),
            None => Ok(v),
        },
    }
}

fn read_checked_field<S: TextShape>(i: usize, raw: &str) -> (r: Result<Json, String>)
    requires
        i < S::keys().len(),
    ensures
        outcome(r) == checked_field::<S>(i as int, raw@),
{
    match S::read_field_text(i, raw) {
        Err(e) => Err(e),
        Ok(v) => match S::field_problem(i, &v) {
            Some(e) => Err(e),
            None => Ok(v),
        },
    }
}

/// The fields among the members of an object whose text goes on with `text`, behind
/// those that were read.
pub open spec fn members_text<S: TextShape>(
    text: Seq<char>,
    read: Seq<(Seq<char>, JsonView)>,
) -> Result<Seq<(Seq<char>, JsonView)>, Seq<char>>
    decreases text.len(),
{
    let t = next_item(text);
    if starts(t, '}') {
        Ok(read)
    } else {
        match first_member(t) {
            None => Err(malformed()),
            Some((key, value, rest)) => if rest.len() >= text.len() {
                Err(malformed())
            } else {
                match parsed_json(key) {
                    Err(e) => Err(e),
                    Ok(JsonView::String(name)) => {
                        let i = place(S::keys(), name);
                        if i < 0 {
                            members_text::<S>(rest, read)
                        } else if key_index(read, name) >= 0 {
                            Err(repeated(name))
                        } else {
                            match checked_field::<S>(i, value) {
                                Err(e) => Err(e),
                                Ok(v) => members_text::<S>(rest, read.push((name, v))),
                            }
                        }
                    },
                    Ok(_) => Err(malformed()),
                }
            },
        }
    }
}

/// The fields among the items of an array whose text goes on with `text`, behind
/// those that were read.
pub open spec fn items_text<S: TextShape>(text: Seq<char>, read: Seq<JsonView>) -> Result<
    Seq<JsonView>,
    Seq<char>,
>
    decreases text.len(),
{
    let t = next_item(text);
    if starts(t, ']') {
        Ok(read)
    } else if read.len() >= S::keys().len() {
        Err("trailing characters"@)
    } else {
        match first_value(t) {
            None => Err(malformed()),
            Some((raw, rest)) => if rest.len() >= text.len() {
                Err(malformed())
            } else {
                match checked_field::<S>(read.len() as int, raw) {
                    Err(e) => Err(e),
                    Ok(v) => items_text::<S>(rest, read.push(v)),
                }
            },
        }
    }
}

/// The fields of the record that a text spells: an object with the fields that were
/// given, or an array with the fields in order. Any other value is left as it is.
pub open spec fn record_text<S: TextShape>(raw: Seq<char>) -> Result<JsonView, Seq<char>> {
    if starts(raw, '{') {
        match members_text::<S>(raw.skip(1), Seq::empty()) {
            Err(e) => Err(e),
            Ok(entries) => match lack_error::<S>(entries, S::keys().len()) {
                Some(e) => Err(e),
                None => Ok(JsonView::Object(entries)),
            },
        }
    } else if starts(raw, '[') {
        match items_text::<S>(raw.skip(1), Seq::empty()) {
            Err(e) => Err(e),
            Ok(items) => match items_error::<S>(items, S::keys().len()) {
                Some(e) => Err(e),
                None => Ok(JsonView::Array(items)),
            },
        }
    } else {
        parsed_json(raw)
    }
}

/// The records among the items of an array whose text goes on with `text`, behind
/// those that were read.
pub open spec fn records_text<S: TextShape>(text: Seq<char>, read: Seq<JsonView>) -> Result<
    Seq<JsonView>,
    Seq<char>,
>
    decreases text.len(),
{
    let t = next_item(text);
    if starts(t, ']') {
        Ok(read)
    } else {
        match first_value(t) {
            None => Err(malformed()),
            Some((raw, rest)) => if rest.len() >= text.len() {
                Err(malformed())
            } else {
                match record_text::<S>(raw) {
                    Err(e) => Err(e),
                    Ok(v) => match record_error::<S>(v) {
                        Some(e) => Err(e),
                        None => records_text::<S>(rest, read.push(v)),
                    },
                }
            },
        }
    }
}

/// The records of the array that a text spells. Any other value is left as it is.
pub open spec fn list_text<S: TextShape>(raw: Seq<char>) -> Result<JsonView, Seq<char>> {
    if starts(raw, '[') {
        match records_text::<S>(raw.skip(1), Seq::empty()) {
            Err(e) => Err(e),
            Ok(items) => Ok(JsonView::Array(items)),
        }
    } else {
        parsed_json(raw)
    }
}

/// The fields of the record that a whole text spells.
pub open spec fn whole_text<S: TextShape>(text: Seq<char>) -> Result<JsonView, Seq<char>> {
    match raw_json(text) {
        Err(e) => Err(e),
        Ok(raw) => record_text::<S>(raw),
    }
}

fn read_members<S: TextShape>(text: &str) -> (r: Result<Vec<JsonEntry>, String>)
    ensures
        outcome(r) == members_text::<S>(text@, Seq::empty()),
{
    let mut entries: Vec<JsonEntry> = Vec::new();
    assert(entries.deep_view() =~= Seq::empty());
    let mut rest: &str = text;
    loop
        invariant
            members_text::<S>(text@, Seq::empty()) == members_text::<S>(
                rest@,
                entries.deep_view(),
            ),
        decreases rest@.len(),
    {
        let t: &str = skip_to_item(rest);
        if strip_char(t, '}').is_some() {
            return Ok(entries);
        }
        let (key, value, behind) = match split_first_member(t) {
            None => {
                return Err(owned("expected value"));
            },
            Some(member) => member,
        };
        let name: String = match parse_json(key) {
            Err(e) => {
                return Err(e);
            },
            Ok(Json::String(name)) => name,
            Ok(_) => {
                return Err(owned("expected value"));
            },
        };
        if let Some(i) = find_place::<S>(name.as_str()) {
            assert(entries.deep_view().take(entries@.len() as int) =~= entries.deep_view());
            if find_key(&entries, entries.len(), name.as_str()).is_some() {
                return Err(repeated_field(name.as_str()));
            }
            match read_checked_field::<S>(i, value) {
                Err(e) => {
                    return Err(e);
                },
                Ok(v) => {
                    let ghost before = entries.deep_view();
                    let ghost added = (name@, v@);
                    entries.push(JsonEntry { key: name, value: v });
                    assert(entries.deep_view() =~= before.push(added));
                },
            }
        }
        rest = behind;
    }
}

fn read_items<S: TextShape>(text: &str) -> (r: Result<Vec<Json>, String>)
    ensures
        outcome(r) == items_text::<S>(text@, Seq::empty()),
{
    let mut items: Vec<Json> = Vec::new();
    assert(items.deep_view() =~= Seq::empty());
    let mut rest: &str = text;
    loop
        invariant
            items_text::<S>(text@, Seq::empty()) == items_text::<S>(rest@, items.deep_view()),
        decreases rest@.len(),
    {
        let t: &str = skip_to_item(rest);
        if strip_char(t, ']').is_some() {
            return Ok(items);
        }
        if items.len() >= S::key_count() {
            return Err(owned("trailing characters"));
        }
        let (raw, behind) = match split_first_value(t) {
            None => {
                return Err(owned("expected value"));
            },
            Some(parts) => parts,
        };
        match read_checked_field::<S>(items.len(), raw) {
            Err(e) => {
                return Err(e);
            },
            Ok(v) => {
                let ghost before = items.deep_view();
                let ghost added = v@;
                items.push(v);
                assert(items.deep_view() =~= before.push(added));
            },
        }
        rest = behind;
    }
}

/// Reads the fields of a record.
pub fn read_record_text<S: TextShape>(raw: &str) -> (r: Result<Json, String>)
    ensures
        outcome(r) == record_text::<S>(raw@),
{
    if let Some(text) = strip_char(raw, '{') {
        match read_members::<S>(text) {
            Err(e) => Err(e),
            Ok(entries) => match lack_problem::<S>(&entries) {
                Some(e) => Err(e),
                None => {
                    let v: Json = Json::Object(entries);
                    assert(v@->Object_0 =~= entries.deep_view());
                    Ok(v)
                },
            },
        }
    } else if let Some(text) = strip_char(raw, '[') {
        match read_items::<S>(text) {
            Err(e) => Err(e),
            Ok(items) => match items_problem::<S>(&items) {
                Some(e) => Err(e),
                None => {
                    let v: Json = Json::Array(items);
                    assert(v@->Array_0 =~= items.deep_view());
                    Ok(v)
                },
            },
        }
    } else {
        parse_json(raw)
    }
}

/// Reads the records of an array.
pub fn read_list_text<S: TextShape>(raw: &str) -> (r: Result<Json, String>)
    ensures
        outcome(r) == list_text::<S>(raw@),
{
    let text: &str = match strip_char(raw, '[') {
        None => {
            return parse_json(raw);
        },
        Some(text) => text,
    };
    let mut items: Vec<Json> = Vec::new();
    assert(items.deep_view() =~= Seq::empty());
    let mut rest: &str = text;
    loop
        invariant
            starts(raw@, '['),
            text@ == raw@.skip(1),
            records_text::<S>(text@, Seq::empty()) == records_text::<S>(rest@, items.deep_view()),
        decreases rest@.len(),
    {
        let t: &str = skip_to_item(rest);
        if strip_char(t, ']').is_some() {
            let v: Json = Json::Array(items);
            assert(v@->Array_0 =~= items.deep_view());
            return Ok(v);
        }
        let (one, behind) = match split_first_value(t) {
            None => {
                return Err(owned("expected value"));
            },
            Some(parts) => parts,
        };
        match read_record_text::<S>(one) {
            Err(e) => {
                return Err(e);
            },
            Ok(v) => {
                if let Some(e) = record_problem::<S>(&v) {
                    return Err(e);
                }
                let ghost before = items.deep_view();
                let ghost added = v@;
                items.push(v);
                assert(items.deep_view() =~= before.push(added));
            },
        }
        rest = behind;
    }
}

/// Reads the fields of the record that a whole text spells.
pub fn read_whole_text<S: TextShape>(text: &str) -> (r: Result<Json, String>)
    ensures
        outcome(r) == whole_text::<S>(text@),
{
    match raw_from_text(text) {
        Err(e) => Err(e),
        Ok(raw) => read_record_text::<S>(raw),
    }
}

} // verus!
