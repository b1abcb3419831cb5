//! What is read from the text of a request, by the parts of the text.
use crate::count_tokens::{
    CountTokensParamsView, CountTokensShape, read_count_tokens, read_count_tokens_text,
};
use crate::json::{JsonView, nested_at_most};
use crate::outside::{first_value, parsed_json, raw_json, without_space};
use crate::reader::{Shape, key_index, lack_error, place, place_is_found, record_error};
use crate::record_laws::{fields_differ, is_given};
use crate::text_reader::{
    TextShape, all_members_text, first_member, items_text, leaf_text, list_text, members_text,
    next_item, record_text, records_text, whole_text,
};
use crate::types::messages::RequestView;
use crate::types::metadata_reader::{ExtensionShape, MetadataShape, ParamsShape};
use crate::types::request_reader::{
    MessageShape, RequestShape, ToolShape, read_request, read_request_text,
};
use vstd::prelude::*;

verus! {

// ---------------------------------------------------------------------------
// Records
// ---------------------------------------------------------------------------

/// Whether an entry is a field of a record, with a value that it may hold.
pub open spec fn is_field<S: Shape>(entry: (Seq<char>, JsonView)) -> bool {
    exists|i: int|
        0 <= i < S::keys().len() && #[trigger] S::keys()[i] == entry.0 && S::field_error(
            i,
            entry.1,
        ) is None
}

/// Whether some entries are fields of a record, none of them twice, and each with a value
/// that it may hold.
pub open spec fn are_fields<S: Shape>(entries: Seq<(Seq<char>, JsonView)>) -> bool {
    &&& forall|n: int| 0 <= n < entries.len() ==> is_field::<S>(#[trigger] entries[n])
    &&& forall|a: int, b: int|
        0 <= a < b < entries.len() ==> (#[trigger] entries[a]).0 != (#[trigger] entries[b]).0
}

proof fn place_is_right(keys: Seq<Seq<char>>, key: Seq<char>)
    requires
        place(keys, key) >= 0,
    ensures
        place(keys, key) < keys.len(),
        keys[place(keys, key)] == key,
    decreases keys.len(),
{
    if keys.len() > 0 && keys.last() != key {
        place_is_right(keys.drop_last(), key);
    }
}

proof fn key_is_new(entries: Seq<(Seq<char>, JsonView)>, key: Seq<char>, k: int)
    requires
        key_index(entries, key) < 0,
        0 <= k < entries.len(),
    ensures
        entries[k].0 != key,
    decreases entries.len(),
{
    if k < entries.len() - 1 {
        key_is_new(entries.drop_last(), key, k);
    } else if entries[k].0 == key {
        assert(entries.last().0 == key);
    }
}

proof fn members_are_fields<S: TextShape>(text: Seq<char>, read: Seq<(Seq<char>, JsonView)>)
    requires
        are_fields::<S>(read),
    ensures
        members_text::<S>(text, read) matches Ok(entries) ==> are_fields::<S>(entries)
            && read.len() <= entries.len() && entries.take(read.len() as int) == read,
    decreases text.len(),
{
    let t = next_item(text);
    assert(read.take(read.len() as int) =~= read);
    if let Some((key, value, rest)) = first_member(t) {
        if rest.len() < text.len() {
            if let Ok(JsonView::String(name)) = parsed_json(key) {
                let i = place(S::keys(), name);
                if i < 0 {
                    members_are_fields::<S>(rest, read);
                } else if key_index(read, name) < 0 {
                    if let Ok(v) = S::field_text(i, value) {
                        if S::field_error(i, v) is None {
                            let longer = read.push((name, v));
                            place_is_right(S::keys(), name);
                            longer_are_fields::<S>(read, name, v, i);
                            members_are_fields::<S>(rest, longer);
                            if let Ok(entries) = members_text::<S>(rest, longer) {
                                assert(entries.take(read.len() as int) =~= entries.take(
                                    longer.len() as int,
                                ).take(read.len() as int));
                                assert(longer.take(read.len() as int) =~= read);
                            }
                        }
                    }
                }
            }
        }
    }
}

/// The object that is read for a record from a text has fields of the record alone, none
/// of them twice, each with a value that it may hold.
pub proof fn records_have_their_fields<S: TextShape>(raw: Seq<char>)
    requires
        raw.len() > 0 && raw[0] == '{',
    ensures
        record_text::<S>(raw) matches Ok(v) ==> v is Object && are_fields::<S>(v->Object_0) && (
        forall|i: int|
            0 <= i < S::keys().len() ==> S::may_lack(i) || is_given(
                v->Object_0,
                #[trigger] S::keys()[i],
            )),
{
    members_are_fields::<S>(raw.skip(1), Seq::empty());
    if let Ok(v) = record_text::<S>(raw) {
        let entries = v->Object_0;
        assert forall|i: int| 0 <= i < S::keys().len() implies S::may_lack(i) || is_given(
            v->Object_0,
            #[trigger] S::keys()[i],
        ) by {
            nothing_lacks::<S>(entries, i, S::keys().len());
            if !S::may_lack(i) {
                key_is_there(entries, S::keys()[i]);
            }
        }
    }
}

proof fn nothing_lacks<S: Shape>(entries: Seq<(Seq<char>, JsonView)>, k: int, n: nat)
    requires
        0 <= k < n <= S::keys().len(),
        lack_error::<S>(entries, n) is None,
    ensures
        S::may_lack(k) || key_index(entries, S::keys()[k]) >= 0,
    decreases n,
{
    if k < n - 1 {
        nothing_lacks::<S>(entries, k, (n - 1) as nat);
    }
}

proof fn key_is_there(entries: Seq<(Seq<char>, JsonView)>, key: Seq<char>)
    requires
        key_index(entries, key) >= 0,
    ensures
        exists|n: int| 0 <= n < entries.len() && (#[trigger] entries[n]).0 == key,
    decreases entries.len(),
{
    if entries.len() > 0 {
        if entries.last().0 == key {
            assert(entries[entries.len() - 1].0 == key);
        } else {
            let rest = entries.drop_last();
            key_is_there(rest, key);
            let n = choose|n: int| 0 <= n < rest.len() && (#[trigger] rest[n]).0 == key;
            assert(entries[n].0 == key);
        }
    }
}

/// A member of an object is read as the next field, where it is one. It is skipped where the
/// record has no such field, and refused where the field was read before.
pub proof fn members_are_read_in_order<S: TextShape>(
    text: Seq<char>,
    read: Seq<(Seq<char>, JsonView)>,
    key: Seq<char>,
    value: Seq<char>,
    rest: Seq<char>,
    name: Seq<char>,
)
    requires
        are_fields::<S>(read),
        next_item(text).len() > 0 && next_item(text)[0] != '}',
        first_member(next_item(text)) == Some((key, value, rest)),
        rest.len() < text.len(),
        parsed_json(key) == Ok::<JsonView, Seq<char>>(JsonView::String(name)),
    ensures
        ({
            let result = members_text::<S>(text, read);
            if forall|i: int| 0 <= i < S::keys().len() ==> #[trigger] S::keys()[i] != name {
                result == members_text::<S>(rest, read)
            } else if exists|n: int| 0 <= n < read.len() && (#[trigger] read[n]).0 == name {
                result == Err::<Seq<(Seq<char>, JsonView)>, Seq<char>>(
                    "duplicate field `"@ + name + "`"@,
                )
            } else {
                result matches Ok(entries) ==> entries.len() > read.len() && entries.take(
                    read.len() as int,
                ) == read && entries[read.len() as int].0 == name && exists|i: int|
                    0 <= i < S::keys().len() && S::keys()[i] == name && #[trigger] S::field_text(
                        i,
                        value,
                    ) == Ok::<JsonView, Seq<char>>(entries[read.len() as int].1)
            }
        }),
{
    let keys = S::keys();
    let i = place(keys, name);
    members_are_fields::<S>(text, read);
    if i >= 0 {
        place_is_right(keys, name);
    }
    if forall|j: int| 0 <= j < S::keys().len() ==> #[trigger] S::keys()[j] != name {
        assert(i < 0);
    } else {
        let j = choose|j: int| 0 <= j < S::keys().len() && #[trigger] S::keys()[j] == name;
        place_is_somewhere(keys, j);
        if exists|n: int| 0 <= n < read.len() && (#[trigger] read[n]).0 == name {
            let n = choose|n: int| 0 <= n < read.len() && (#[trigger] read[n]).0 == name;
            if key_index(read, name) < 0 {
                key_is_new(read, name, n);
            }
        } else {
            if key_index(read, name) >= 0 {
                key_is_there(read, name);
            }
            if let Ok(v) = S::field_text(i, value) {
                if S::field_error(i, v) is None {
                    let longer = read.push((name, v));
                    longer_are_fields::<S>(read, name, v, i);
                    members_are_fields::<S>(rest, longer);
                    if let Ok(entries) = members_text::<S>(rest, longer) {
                        assert(entries.take(longer.len() as int)[read.len() as int] == (name, v));
                    }
                }
            }
        }
    }
}

proof fn place_is_somewhere(keys: Seq<Seq<char>>, j: int)
    requires
        0 <= j < keys.len(),
    ensures
        place(keys, keys[j]) >= 0,
    decreases keys.len(),
{
    if keys.last() != keys[j] {
        place_is_somewhere(keys.drop_last(), j);
    }
}

proof fn longer_are_fields<S: Shape>(
    read: Seq<(Seq<char>, JsonView)>,
    name: Seq<char>,
    v: JsonView,
    i: int,
)
    requires
        are_fields::<S>(read),
        0 <= i < S::keys().len(),
        S::keys()[i] == name,
        S::field_error(i, v) is None,
        key_index(read, name) < 0,
    ensures
        are_fields::<S>(read.push((name, v))),
{
    let longer = read.push((name, v));
    assert forall|n: int| 0 <= n < longer.len() implies is_field::<S>(#[trigger] longer[n]) by {
        if n < read.len() {
            assert(longer[n] == read[n]);
        } else {
            assert(S::keys()[i] == longer[n].0);
        }
    }
    assert forall|a: int, b: int| 0 <= a < b < longer.len() implies (#[trigger] longer[a]).0 != (
    #[trigger] longer[b]).0 by {
        assert(longer[a] == read[a]);
        if b < read.len() {
            assert(longer[b] == read[b]);
        } else {
            key_is_new(read, name, a);
        }
    }
}

/// An object ends at its bracket: what was read is all that is read.
pub proof fn objects_end_at_their_bracket<S: TextShape>(
    text: Seq<char>,
    read: Seq<(Seq<char>, JsonView)>,
)
    requires
        next_item(text).len() > 0,
        next_item(text)[0] == '}',
    ensures
        members_text::<S>(text, read) == Ok::<Seq<(Seq<char>, JsonView)>, Seq<char>>(read),
{
}

// ---------------------------------------------------------------------------
// Parts
// ---------------------------------------------------------------------------

/// A value of any kind is read as the whole value, where it is not nested too deep.
pub proof fn leaves_are_read_whole(raw: Seq<char>, limit: nat)
    ensures
        match parsed_json(raw) {
            Ok(v) => nested_at_most(v, limit) ==> leaf_text(raw, limit) == Ok::<
                JsonView,
                Seq<char>,
            >(v),
            Err(e) => leaf_text(raw, limit) == Err::<JsonView, Seq<char>>(e),
        },
        leaf_text(raw, limit) matches Ok(v) ==> nested_at_most(v, limit),
        parsed_json(raw) is Ok && !nested_at_most(parsed_json(raw)->Ok_0, limit) ==> leaf_text(
            raw,
            limit,
        ) == Err::<JsonView, Seq<char>>("recursion limit exceeded"@),
{
}

proof fn listed_records_are_fine<S: TextShape>(text: Seq<char>, read: Seq<JsonView>)
    requires
        forall|k: int| 0 <= k < read.len() ==> record_error::<S>(#[trigger] read[k]) is None,
    ensures
        records_text::<S>(text, read) matches Ok(items) ==> forall|k: int|
            0 <= k < items.len() ==> record_error::<S>(#[trigger] items[k]) is None,
    decreases text.len(),
{
    let t = next_item(text);
    if let Some((raw, rest)) = first_value(t) {
        if rest.len() < text.len() {
            if let Ok(v) = record_text::<S>(raw) {
                if record_error::<S>(v) is None {
                    let longer = read.push(v);
                    assert forall|k: int| 0 <= k < longer.len() implies record_error::<S>(
                        #[trigger] longer[k],
                    ) is None by {
                        if k < read.len() {
                            assert(longer[k] == read[k]);
                        }
                    }
                    listed_records_are_fine::<S>(rest, longer);
                }
            }
        }
    }
}

/// The typed parts of a request are read as records from their own text: every message and
/// every tool is a record without errors, and so are the metadata, the extension fields and
/// the parameters.
pub proof fn typed_parts_are_records(raw: Seq<char>)
    requires
        raw.len() > 0,
    ensures
        raw[0] == '[' ==> (RequestShape::field_text(1, raw) matches Ok(v) ==> v is Array && forall|
            k: int,
        |
            0 <= k < v->Array_0.len() ==> record_error::<MessageShape>(
                #[trigger] v->Array_0[k],
            ) is None),
        raw[0] == '[' ==> (RequestShape::field_text(9, raw) matches Ok(v) ==> v is Array && forall|
            k: int,
        |
            0 <= k < v->Array_0.len() ==> record_error::<ToolShape>(
                #[trigger] v->Array_0[k],
            ) is None),
        raw[0] == '{' ==> {
            &&& RequestShape::field_text(11, raw) matches Ok(v) ==> v is Object && are_fields::<
                MetadataShape,
            >(v->Object_0)
            &&& CountTokensShape::field_text(1, raw) matches Ok(v) ==> v is Object && are_fields::<
                MetadataShape,
            >(v->Object_0)
            &&& MetadataShape::field_text(1, raw) matches Ok(v) ==> v is Object && are_fields::<
                ExtensionShape,
            >(v->Object_0)
            &&& ExtensionShape::field_text(9, raw) matches Ok(v) ==> v is Object && are_fields::<
                ParamsShape,
            >(v->Object_0)
        },
{
    listed_records_are_fine::<MessageShape>(raw.skip(1), Seq::empty());
    listed_records_are_fine::<ToolShape>(raw.skip(1), Seq::empty());
    if raw[0] == '{' {
        records_have_their_fields::<MetadataShape>(raw);
        records_have_their_fields::<ExtensionShape>(raw);
        records_have_their_fields::<ParamsShape>(raw);
    }
}

/// The other fields of a request hold the values that their texts spell.
pub proof fn other_parts_are_values(i: int, raw: Seq<char>)
    requires
        0 <= i < RequestShape::keys().len(),
        i != 1 && i != 9 && i != 11,
    ensures
        RequestShape::field_text(i, raw) matches Ok(v) ==> parsed_json(raw) == Ok::<
            JsonView,
            Seq<char>,
        >(v),
        parsed_json(raw) matches Ok(v) ==> nested_at_most(v, 126) ==> RequestShape::field_text(
            i,
            raw,
        ) == Ok::<JsonView, Seq<char>>(v),
        CountTokensShape::field_text(0, raw) matches Ok(v) ==> parsed_json(raw) == Ok::<
            JsonView,
            Seq<char>,
        >(v),
{
}

/// The content of a message and the parts of a tool hold the values that their texts spell.
pub proof fn contents_are_values(raw: Seq<char>, i: int)
    requires
        0 <= i < 4,
    ensures
        MessageShape::field_text(1, raw) matches Ok(v) ==> parsed_json(raw) == Ok::<
            JsonView,
            Seq<char>,
        >(v),
        ToolShape::field_text(i, raw) matches Ok(v) ==> parsed_json(raw) == Ok::<
            JsonView,
            Seq<char>,
        >(v),
        parsed_json(raw) matches Ok(v) ==> nested_at_most(v, 124) ==> MessageShape::field_text(
            1,
            raw,
        ) == Ok::<JsonView, Seq<char>>(v) && ToolShape::field_text(i, raw) == Ok::<
            JsonView,
            Seq<char>,
        >(v),
{
}

/// A request that is read from a text is what its fields in the text give, and a text that
/// is no JSON is no request.
pub proof fn requests_are_read_from_their_text(text: Seq<char>)
    ensures
        raw_json(text) is Err ==> read_request_text(text) is Err,
        raw_json(text) matches Ok(raw) ==> match record_text::<RequestShape>(raw) {
            Ok(v) => read_request_text(text) == read_request(v),
            Err(e) => read_request_text(text) == Err::<RequestView, Seq<char>>(e),
        },
{
}

// ---------------------------------------------------------------------------
// Steps
// ---------------------------------------------------------------------------

/// A text without the space at its start is the text behind spaces, tabs and line breaks,
/// and starts with none of them.
pub proof fn space_is_skipped(text: Seq<char>)
    ensures
        ({
            let t = without_space(text);
            let n = text.len() - t.len();
            &&& n >= 0
            &&& t == text.skip(n)
            &&& t.len() > 0 ==> t[0] != ' ' && t[0] != '\n' && t[0] != '\t' && t[0] != '\r'
            &&& forall|k: int|
                0 <= k < n ==> (#[trigger] text[k]) == ' ' || text[k] == '\n' || text[k] == '\t'
                    || text[k] == '\r'
        }),
    decreases text.len(),
{
    if text.len() > 0 && (text[0] == ' ' || text[0] == '\n' || text[0] == '\t' || text[0] == '\r') {
        space_is_skipped(text.skip(1));
        let n = text.len() - without_space(text).len();
        assert(text.skip(1).skip(n - 1) =~= text.skip(n));
        assert forall|k: int| 0 <= k < n implies (#[trigger] text[k]) == ' ' || text[k] == '\n'
            || text[k] == '\t' || text[k] == '\r' by {
            if k > 0 {
                assert(text.skip(1)[k - 1] == text[k]);
            }
        }
    } else {
        assert(text.skip(0) =~= text);
    }
}

/// The next item stands behind space, and behind one comma if there is one.
pub proof fn commas_are_skipped(text: Seq<char>)
    ensures
        ({
            let t = without_space(text);
            if t.len() > 0 && t[0] == ',' {
                next_item(text) == without_space(t.skip(1))
            } else {
                next_item(text) == t
            }
        }),
{
}

/// A member is a key, a colon and a value.
pub proof fn members_have_their_parts(
    text: Seq<char>,
    key: Seq<char>,
    behind: Seq<char>,
    value: Seq<char>,
    rest: Seq<char>,
)
    requires
        first_value(text) == Some((key, behind)),
        without_space(behind).len() > 0,
        without_space(behind)[0] == ':',
        first_value(without_space(behind).skip(1)) == Some((value, rest)),
    ensures
        first_member(text) == Some((key, value, rest)),
{
}

/// A member that is a field, with a value that the field may hold, and was not read before,
/// is read, and the reading goes on behind it.
pub proof fn fields_are_read<S: TextShape>(
    text: Seq<char>,
    read: Seq<(Seq<char>, JsonView)>,
    key: Seq<char>,
    value: Seq<char>,
    rest: Seq<char>,
    i: int,
    v: JsonView,
)
    requires
        fields_differ::<S>(),
        next_item(text).len() > 0 && next_item(text)[0] != '}',
        first_member(next_item(text)) == Some((key, value, rest)),
        rest.len() < text.len(),
        0 <= i < S::keys().len(),
        parsed_json(key) == Ok::<JsonView, Seq<char>>(JsonView::String(S::keys()[i])),
        S::field_text(i, value) == Ok::<JsonView, Seq<char>>(v),
        S::field_error(i, v) is None,
        !is_given(read, S::keys()[i]),
    ensures
        members_text::<S>(text, read) == members_text::<S>(rest, read.push((S::keys()[i], v))),
{
    place_is_found(S::keys(), i);
    if key_index(read, S::keys()[i]) >= 0 {
        key_is_there(read, S::keys()[i]);
    }
}

/// A field whose value cannot be read, or may not stand there, is refused for that.
pub proof fn bad_fields_are_refused<S: TextShape>(
    text: Seq<char>,
    read: Seq<(Seq<char>, JsonView)>,
    key: Seq<char>,
    value: Seq<char>,
    rest: Seq<char>,
    i: int,
)
    requires
        fields_differ::<S>(),
        next_item(text).len() > 0 && next_item(text)[0] != '}',
        first_member(next_item(text)) == Some((key, value, rest)),
        rest.len() < text.len(),
        0 <= i < S::keys().len(),
        parsed_json(key) == Ok::<JsonView, Seq<char>>(JsonView::String(S::keys()[i])),
        !is_given(read, S::keys()[i]),
    ensures
        S::field_text(i, value) matches Err(e) ==> members_text::<S>(text, read) == Err::<
            Seq<(Seq<char>, JsonView)>,
            Seq<char>,
        >(e),
        S::field_text(i, value) matches Ok(v) ==> (S::field_error(i, v) matches Some(e)
            ==> members_text::<S>(text, read) == Err::<Seq<(Seq<char>, JsonView)>, Seq<char>>(e)),
{
    place_is_found(S::keys(), i);
    if key_index(read, S::keys()[i]) >= 0 {
        key_is_there(read, S::keys()[i]);
    }
}

/// An item of an array that is the next field, with a value that the field may hold, is
/// read, and the reading goes on behind it. An item behind the last field is refused.
pub proof fn items_are_read_in_order<S: TextShape>(
    text: Seq<char>,
    read: Seq<JsonView>,
    raw: Seq<char>,
    rest: Seq<char>,
)
    requires
        next_item(text).len() > 0 && next_item(text)[0] != ']',
        first_value(next_item(text)) == Some((raw, rest)),
        rest.len() < text.len(),
    ensures
        read.len() >= S::keys().len() ==> items_text::<S>(text, read) == Err::<
            Seq<JsonView>,
            Seq<char>,
        >("trailing characters"@),
        read.len() < S::keys().len() ==> match S::field_text(read.len() as int, raw) {
            Err(e) => items_text::<S>(text, read) == Err::<Seq<JsonView>, Seq<char>>(e),
            Ok(v) => match S::field_error(read.len() as int, v) {
                Some(e) => items_text::<S>(text, read) == Err::<Seq<JsonView>, Seq<char>>(e),
                None => items_text::<S>(text, read) == items_text::<S>(rest, read.push(v)),
            },
        },
{
}

/// An item of a list of records that is a record without errors is read, and the reading
/// goes on behind it. Any other ends it with its error.
pub proof fn records_are_read_in_order<S: TextShape>(
    text: Seq<char>,
    read: Seq<JsonView>,
    raw: Seq<char>,
    rest: Seq<char>,
)
    requires
        next_item(text).len() > 0 && next_item(text)[0] != ']',
        first_value(next_item(text)) == Some((raw, rest)),
        rest.len() < text.len(),
    ensures
        match record_text::<S>(raw) {
            Err(e) => records_text::<S>(text, read) == Err::<Seq<JsonView>, Seq<char>>(e),
            Ok(v) => match record_error::<S>(v) {
                Some(e) => records_text::<S>(text, read) == Err::<Seq<JsonView>, Seq<char>>(e),
                None => records_text::<S>(text, read) == records_text::<S>(rest, read.push(v)),
            },
        },
{
}

/// An array ends at its bracket: what was read is all that is read.
pub proof fn arrays_end_at_their_bracket<S: TextShape>(text: Seq<char>, read: Seq<JsonView>)
    requires
        next_item(text).len() > 0,
        next_item(text)[0] == ']',
    ensures
        items_text::<S>(text, read) == Ok::<Seq<JsonView>, Seq<char>>(read),
        records_text::<S>(text, read) == Ok::<Seq<JsonView>, Seq<char>>(read),
{
}

/// A member of an object that is kept whole is read whatever its key, also one that was read
/// before.
pub proof fn all_members_are_kept(
    text: Seq<char>,
    limit: nat,
    read: Seq<(Seq<char>, JsonView)>,
    key: Seq<char>,
    value: Seq<char>,
    rest: Seq<char>,
    name: Seq<char>,
    v: JsonView,
)
    requires
        next_item(text).len() > 0 && next_item(text)[0] != '}',
        first_member(next_item(text)) == Some((key, value, rest)),
        rest.len() < text.len(),
        parsed_json(key) == Ok::<JsonView, Seq<char>>(JsonView::String(name)),
        parsed_json(value) == Ok::<JsonView, Seq<char>>(v),
        nested_at_most(v, limit),
    ensures
        all_members_text(text, limit, read) == all_members_text(rest, limit, read.push((name, v))),
{
}

/// An object is read by its members and an array by its items; any other value is read as
/// it is. Nothing that a record must have may be missing.
pub proof fn records_are_read_by_their_bracket<S: TextShape>(raw: Seq<char>)
    requires
        raw.len() > 0,
    ensures
        raw[0] == '{' ==> match members_text::<S>(raw.skip(1), Seq::empty()) {
            Ok(entries) => (forall|i: int|
                0 <= i < S::keys().len() ==> S::may_lack(i) || is_given(
                    entries,
                    #[trigger] S::keys()[i],
                )) ==> record_text::<S>(raw) == Ok::<JsonView, Seq<char>>(
                JsonView::Object(entries),
            ),
            Err(e) => record_text::<S>(raw) == Err::<JsonView, Seq<char>>(e),
        },
        raw[0] == '[' ==> match items_text::<S>(raw.skip(1), Seq::empty()) {
            Ok(items) => record_error::<S>(JsonView::Array(items)) is None ==> record_text::<S>(raw)
                == Ok::<JsonView, Seq<char>>(JsonView::Array(items)),
            Err(e) => record_text::<S>(raw) == Err::<JsonView, Seq<char>>(e),
        },
        raw[0] != '{' && raw[0] != '[' ==> record_text::<S>(raw) == parsed_json(raw),
        raw[0] == '[' ==> match records_text::<S>(raw.skip(1), Seq::empty()) {
            Ok(items) => list_text::<S>(raw) == Ok::<JsonView, Seq<char>>(JsonView::Array(items)),
            Err(e) => list_text::<S>(raw) == Err::<JsonView, Seq<char>>(e),
        },
        raw[0] != '[' ==> list_text::<S>(raw) == parsed_json(raw),
{
    if raw[0] == '{' {
        if let Ok(entries) = members_text::<S>(raw.skip(1), Seq::empty()) {
            if forall|i: int|
                0 <= i < S::keys().len() ==> S::may_lack(i) || is_given(
                    entries,
                    #[trigger] S::keys()[i],
                ) {
                nothing_is_missing::<S>(entries, S::keys().len());
            }
        }
    }
}

proof fn nothing_is_missing<S: Shape>(entries: Seq<(Seq<char>, JsonView)>, n: nat)
    requires
        n <= S::keys().len(),
        forall|i: int|
            0 <= i < S::keys().len() ==> S::may_lack(i) || is_given(
                entries,
                #[trigger] S::keys()[i],
            ),
    ensures
        lack_error::<S>(entries, n) is None,
    decreases n,
{
    if n > 0 {
        nothing_is_missing::<S>(entries, (n - 1) as nat);
        let key = S::keys()[n - 1];
        if is_given(entries, key) {
            let j = choose|j: int| 0 <= j < entries.len() && (#[trigger] entries[j]).0 == key;
            if key_index(entries, key) < 0 {
                key_is_new(entries, key, j);
            }
        }
    }
}

/// A whole text is read as the value that it holds, and refused where it holds none.
pub proof fn texts_hold_one_value<S: TextShape>(text: Seq<char>)
    ensures
        match raw_json(text) {
            Ok(raw) => whole_text::<S>(text) == record_text::<S>(raw),
            Err(e) => whole_text::<S>(text) == Err::<JsonView, Seq<char>>(e),
        },
        match whole_text::<CountTokensShape>(text) {
            Ok(v) => read_count_tokens_text(text) == read_count_tokens(v),
            Err(e) => read_count_tokens_text(text) == Err::<CountTokensParamsView, Seq<char>>(e),
        },
{
}

/// The parts that are typed are read from their own text, wherever they stand.
pub proof fn typed_parts_are_read_from_their_text(raw: Seq<char>)
    ensures
        RequestShape::field_text(1, raw) == list_text::<MessageShape>(raw),
        RequestShape::field_text(9, raw) == list_text::<ToolShape>(raw),
        RequestShape::field_text(11, raw) == record_text::<MetadataShape>(raw),
        CountTokensShape::field_text(1, raw) == record_text::<MetadataShape>(raw),
        MetadataShape::field_text(1, raw) == record_text::<ExtensionShape>(raw),
        ExtensionShape::field_text(9, raw) == record_text::<ParamsShape>(raw),
{
}

} // verus!
