//! What is said of JSON that cannot be read.
use crate::json::{JsonNumberView, JsonView};
use crate::outside::{described_text, parsed_uuid};
use crate::reader::{
    Shape, described, entries_error, entry_error, entry_is_found, entry_is_not_found, items_error,
    key_index, known_entry, lack_error, place_is_found, read_bool, read_i32, read_number, read_text,
    read_texts, read_u32, record_error, unknown_entry,
};
use crate::record_laws::{
    entries_are_given, field_is_given, fields_differ, given, gives_keys_once, is_given,
};
use crate::text::numeral;
use crate::types::block_reader::{
    ToolResultBlockShape, object_tag, read_block, read_cache_control, read_document_source,
    read_image_source, read_tool_choice,
};
use crate::types::metadata_reader::{
    read_extension, read_metadata, read_params, read_text_map, read_uuid,
};
use crate::types::request_reader::{
    SystemBlockShape, read_content, read_message, read_messages, read_request, read_role,
    read_system, read_system_block, read_tool, read_tools,
};
use crate::types::shape_laws::{block_header_fits, system_block_fits, tool_result_block_fits};
use vstd::prelude::*;

verus! {

// ---------------------------------------------------------------------------
// Words
// ---------------------------------------------------------------------------

/// Values are called what serde calls them.
pub proof fn values_are_called_by_kind(v: JsonView)
    ensures
        match v {
            JsonView::Null => described(v) == "null"@,
            JsonView::Bool(true) => described(v) == "boolean `true`"@,
            JsonView::Bool(false) => described(v) == "boolean `false`"@,
            JsonView::Number(JsonNumberView::Unsigned(n)) => described(v) == "integer `"@ + numeral(
                n as nat,
            ) + "`"@,
            JsonView::Number(JsonNumberView::Negative(n)) => n < 0 ==> described(v)
                == "integer `"@ + ("-"@ + numeral((-n) as nat)) + "`"@,
            JsonView::Number(JsonNumberView::Fractional(t)) => described(v)
                == "floating point `"@ + t + "`"@,
            JsonView::String(s) => described(v) == described_text(s),
            JsonView::Array(_) => described(v) == "sequence"@,
            JsonView::Object(_) => described(v) == "map"@,
        },
{
}

/// Whether a message says that a value is of the wrong type.
pub open spec fn is_wrong_type(message: Seq<char>, v: JsonView, expected: Seq<char>) -> bool {
    message == "invalid type: "@ + described(v) + ", expected "@ + expected
}

/// Whether a message says that a value is out of range.
pub open spec fn is_wrong_value(message: Seq<char>, v: JsonView, expected: Seq<char>) -> bool {
    message == "invalid value: "@ + described(v) + ", expected "@ + expected
}

/// A value of the wrong type is refused with its kind and what was expected; an integer that
/// is too large or too small is refused as a value.
pub proof fn wrong_values_are_named(v: JsonView)
    ensures
        read_text(v) matches Err(e) ==> is_wrong_type(e, v, "a string"@),
        read_bool(v) matches Err(e) ==> is_wrong_type(e, v, "a boolean"@),
        read_number(v) matches Err(e) ==> is_wrong_type(e, v, "f32"@),
        read_u32(v) matches Err(e) ==> match v {
            JsonView::Number(JsonNumberView::Unsigned(_)) => is_wrong_value(e, v, "u32"@),
            JsonView::Number(JsonNumberView::Negative(_)) => is_wrong_value(e, v, "u32"@),
            _ => is_wrong_type(e, v, "u32"@),
        },
        read_i32(v) matches Err(e) ==> match v {
            JsonView::Number(JsonNumberView::Unsigned(_)) => is_wrong_value(e, v, "i32"@),
            JsonView::Number(JsonNumberView::Negative(_)) => is_wrong_value(e, v, "i32"@),
            _ => is_wrong_type(e, v, "i32"@),
        },
        !(v is Array) ==> is_wrong_type(read_texts(v)->Err_0, v, "a sequence"@),
        !(v is Array) ==> is_wrong_type(read_messages(v)->Err_0, v, "a sequence"@),
        !(v is Array) ==> is_wrong_type(read_tools(v)->Err_0, v, "a sequence"@),
        !(v is Object) ==> is_wrong_type(read_text_map(v)->Err_0, v, "a map"@),
        !(v is Object || v is String) ==> is_wrong_type(read_role(v)->Err_0, v, "string or map"@),
        !(v is String) ==> is_wrong_type(read_uuid(v)->Err_0, v, "a formatted UUID string"@),
        !(v is Array || v is Object) ==> {
            &&& is_wrong_type(
                read_request(v)->Err_0,
                v,
                "struct AnthropicMessagesParams"@,
            )
            &&& is_wrong_type(read_message(v)->Err_0, v, "struct AnthropicMessageOwned"@)
            &&& is_wrong_type(read_tool(v)->Err_0, v, "struct AnthropicToolOwned"@)
            &&& is_wrong_type(read_metadata(v)->Err_0, v, "struct AnthropicMetadata"@)
            &&& is_wrong_type(
                read_extension(v)->Err_0,
                v,
                "struct AnthropicTensorZeroMetadata"@,
            )
            &&& is_wrong_type(read_params(v)->Err_0, v, "struct InferenceParams"@)
            &&& is_wrong_type(read_block(v)->Err_0, v, "struct BlockHeader"@)
            &&& is_wrong_type(read_system_block(v)->Err_0, v, "struct Helper"@)
            &&& is_wrong_type(
                read_image_source(v)->Err_0,
                v,
                "internally tagged enum AnthropicImageSourceOwned"@,
            )
            &&& is_wrong_type(
                read_document_source(v)->Err_0,
                v,
                "internally tagged enum AnthropicDocumentSourceOwned"@,
            )
        },
        !(v is Object) ==> is_wrong_type(
            read_cache_control(v)->Err_0,
            v,
            "internally tagged enum AnthropicCacheControl"@,
        ),
{
}

// ---------------------------------------------------------------------------
// Records
// ---------------------------------------------------------------------------

proof fn errors_stay<S: Shape>(entries: Seq<(Seq<char>, JsonView)>, n: nat, m: nat)
    requires
        n <= m,
        entries_error::<S>(entries, n) is Some,
    ensures
        entries_error::<S>(entries, m) == entries_error::<S>(entries, n),
    decreases m,
{
    if n < m {
        errors_stay::<S>(entries, n, (m - 1) as nat);
    }
}

proof fn no_errors_before<S: Shape>(entries: Seq<(Seq<char>, JsonView)>, n: nat)
    requires
        n <= entries.len(),
        forall|k: int| 0 <= k < n ==> #[trigger] entry_error::<S>(entries, k) is None,
    ensures
        entries_error::<S>(entries, n) is None,
    decreases n,
{
    if n > 0 {
        no_errors_before::<S>(entries, (n - 1) as nat);
        assert(entry_error::<S>(entries, n - 1) is None);
    }
}

/// Whether an entry is fine: it has the name of no field, or is the first with that name
/// and holds what the field may hold.
pub open spec fn entry_is_fine<S: Shape>(entries: Seq<(Seq<char>, JsonView)>, k: int) -> bool {
    forall|i: int|
        0 <= i < S::keys().len() && #[trigger] S::keys()[i] == entries[k].0 ==> S::field_error(
            i,
            entries[k].1,
        ) is None && forall|j: int| 0 <= j < k ==> (#[trigger] entries[j]).0 != entries[k].0
}

proof fn fine_entries_have_no_error<S: Shape>(entries: Seq<(Seq<char>, JsonView)>, k: int)
    requires
        fields_differ::<S>(),
        0 <= k < entries.len(),
        entry_is_fine::<S>(entries, k),
    ensures
        entry_error::<S>(entries, k) is None,
{
    let keys = S::keys();
    if exists|i: int| 0 <= i < keys.len() && #[trigger] keys[i] == entries[k].0 {
        let i = choose|i: int| 0 <= i < keys.len() && #[trigger] keys[i] == entries[k].0;
        assert(S::keys()[i] == entries[k].0);
        known_entry::<S>(entries, k, i);
    } else {
        unknown_entry::<S>(entries, k);
    }
}

/// Of the entries that are not fine, the first is reported: by the error of its value, or
/// because the field was given before.
pub proof fn the_first_bad_entry_is_reported<S: Shape>(
    entries: Seq<(Seq<char>, JsonView)>,
    n: int,
    i: int,
)
    requires
        fields_differ::<S>(),
        0 <= n < entries.len(),
        0 <= i < S::keys().len(),
        entries[n].0 == S::keys()[i],
        forall|k: int| 0 <= k < n ==> #[trigger] entry_is_fine::<S>(entries, k),
        !entry_is_fine::<S>(entries, n),
    ensures
        ({
            let error = record_error::<S>(JsonView::Object(entries));
            if exists|j: int| 0 <= j < n && (#[trigger] entries[j]).0 == entries[n].0 {
                error == Some("duplicate field `"@ + entries[n].0 + "`"@)
            } else {
                error == S::field_error(i, entries[n].1)
            }
        }),
{
    let keys = S::keys();
    assert forall|k: int| 0 <= k < n implies #[trigger] entry_error::<S>(entries, k) is None by {
        assert(entry_is_fine::<S>(entries, k));
        fine_entries_have_no_error::<S>(entries, k);
    }
    no_errors_before::<S>(entries, n as nat);
    place_is_found(keys, i);
    let before = entries.take(n);
    if exists|j: int| 0 <= j < n && (#[trigger] entries[j]).0 == entries[n].0 {
        let j = choose|j: int| 0 <= j < n && (#[trigger] entries[j]).0 == entries[n].0;
        assert(before[j].0 == entries[n].0);
        found_somewhere(before, j);
    } else {
        assert forall|k: int| 0 <= k < before.len() implies (#[trigger] before[k]).0
            != entries[n].0 by {
            assert(before[k] == entries[k]);
        }
        entry_is_not_found(before, entries[n].0);
        assert forall|a: int|
            0 <= a < S::keys().len() && #[trigger] S::keys()[a] == entries[n].0 implies a == i by {
            if a < i {
                assert(keys[a] != keys[i]);
            } else if i < a {
                assert(keys[i] != keys[a]);
            }
        }
        assert(S::field_error(i, entries[n].1) is Some);
    }
    assert(entry_error::<S>(entries, n) is Some);
    errors_stay::<S>(entries, (n + 1) as nat, entries.len());
}

proof fn found_somewhere(entries: Seq<(Seq<char>, JsonView)>, i: int)
    requires
        0 <= i < entries.len(),
    ensures
        key_index(entries, entries[i].0) >= 0,
    decreases entries.len(),
{
    if entries.last().0 != entries[i].0 {
        found_somewhere(entries.drop_last(), i);
    }
}

proof fn nothing_lacks_before<S: Shape>(entries: Seq<(Seq<char>, JsonView)>, n: nat)
    requires
        n <= S::keys().len(),
        forall|k: int|
            0 <= k < n ==> S::may_lack(k) || is_given(entries, #[trigger] S::keys()[k]),
    ensures
        lack_error::<S>(entries, n) is None,
    decreases n,
{
    if n > 0 {
        nothing_lacks_before::<S>(entries, (n - 1) as nat);
        let key = S::keys()[n - 1];
        if is_given(entries, key) {
            let j = choose|j: int| 0 <= j < entries.len() && (#[trigger] entries[j]).0 == key;
            found_somewhere(entries, j);
        }
    }
}

proof fn lacks_stay<S: Shape>(entries: Seq<(Seq<char>, JsonView)>, n: nat, m: nat)
    requires
        n <= m,
        lack_error::<S>(entries, n) is Some,
    ensures
        lack_error::<S>(entries, m) == lack_error::<S>(entries, n),
    decreases m,
{
    if n < m {
        lacks_stay::<S>(entries, n, (m - 1) as nat);
    }
}

/// Of the fields that an object lacks and must not lack, the first is reported, where its
/// entries are fine.
pub proof fn the_first_lacking_field_is_reported<S: Shape>(
    entries: Seq<(Seq<char>, JsonView)>,
    i: int,
)
    requires
        fields_differ::<S>(),
        forall|k: int| 0 <= k < entries.len() ==> #[trigger] entry_is_fine::<S>(entries, k),
        0 <= i < S::keys().len(),
        !S::may_lack(i),
        !is_given(entries, S::keys()[i]),
        forall|k: int|
            0 <= k < i ==> S::may_lack(k) || is_given(entries, #[trigger] S::keys()[k]),
    ensures
        record_error::<S>(JsonView::Object(entries)) == Some(
            "missing field `"@ + S::keys()[i] + "`"@,
        ),
{
    assert forall|k: int| 0 <= k < entries.len() implies #[trigger] entry_error::<S>(
        entries,
        k,
    ) is None by {
        assert(entry_is_fine::<S>(entries, k));
        fine_entries_have_no_error::<S>(entries, k);
    }
    no_errors_before::<S>(entries, entries.len());
    nothing_lacks_before::<S>(entries, i as nat);
    entry_is_not_found(entries, S::keys()[i]);
    lacks_stay::<S>(entries, (i + 1) as nat, S::keys().len());
}

/// Whether the first `n` items of an array are what the first fields may hold.
pub open spec fn items_fit<S: Shape>(items: Seq<JsonView>, n: int) -> bool {
    forall|k: int| 0 <= k < n ==> S::field_error(k, #[trigger] items[k]) is None
}

proof fn items_are_fine_before<S: Shape>(items: Seq<JsonView>, n: nat)
    requires
        n <= items.len(),
        items_fit::<S>(items, n as int),
    ensures
        items_error::<S>(items, n) is None,
    decreases n,
{
    if n > 0 {
        items_are_fine_before::<S>(items, (n - 1) as nat);
        assert(S::field_error(n - 1, items[n - 1]) is None);
    }
}

proof fn item_errors_stay<S: Shape>(items: Seq<JsonView>, n: nat, m: nat)
    requires
        n <= m,
        items_error::<S>(items, n) is Some,
    ensures
        items_error::<S>(items, m) == items_error::<S>(items, n),
    decreases m,
{
    if n < m {
        item_errors_stay::<S>(items, n, (m - 1) as nat);
    }
}

/// Of the items of an array, the first that a field may not hold is reported by its error.
/// An array that ends before a field without a default is too short, and one that goes on
/// behind the last field is too long.
pub proof fn bad_arrays_are_reported<S: Shape>(items: Seq<JsonView>, n: int)
    requires
        0 <= n <= items.len(),
        n <= S::keys().len(),
        items_fit::<S>(items, n),
    ensures
        n < items.len() && n < S::keys().len() && S::field_error(n, items[n]) is Some
            ==> record_error::<S>(JsonView::Array(items)) == S::field_error(n, items[n]),
        n == items.len() && n < S::keys().len() && !S::has_default(n) ==> record_error::<S>(
            JsonView::Array(items),
        ) == Some(
            "invalid length "@ + numeral(n as nat) + ", expected "@ + (if S::keys().len() == 1 {
                S::title() + " with 1 element"@
            } else {
                S::title() + " with "@ + numeral(S::keys().len()) + " elements"@
            }),
        ),
        n == S::keys().len() && n < items.len() ==> record_error::<S>(JsonView::Array(items))
            == Some(
            "invalid length "@ + numeral(items.len()) + ", expected "@ + S::excess(),
        ),
{
    items_are_fine_before::<S>(items, n as nat);
    if n < S::keys().len() && items_error::<S>(items, (n + 1) as nat) is Some {
        item_errors_stay::<S>(items, (n + 1) as nat, S::keys().len());
    }
}

// ---------------------------------------------------------------------------
// Names
// ---------------------------------------------------------------------------

proof fn tag_errors(e: Seq<(Seq<char>, JsonView)>)
    requires
        gives_keys_once(e),
    ensures
        match given(e, "type"@) {
            None => object_tag(e) == Err::<Seq<char>, Seq<char>>("missing field `"@ + "type"@ + "`"@),
            Some(JsonView::String(name)) => object_tag(e) == Ok::<Seq<char>, Seq<char>>(name),
            Some(v) => object_tag(e) matches Err(message) && is_wrong_type(
                message,
                v,
                "variant identifier"@,
            ),
        },
{
    field_is_given(e, 0, "type"@);
    if is_given(e, "type"@) {
        let n = choose|n: int| 0 <= n < e.len() && (#[trigger] e[n]).0 == "type"@;
        entry_is_found(e, n);
        entries_are_given(e, n);
        let before = e.take(n);
        assert forall|k: int| 0 <= k < before.len() implies (#[trigger] before[k]).0
            != "type"@ by {
            assert(before[k] == e[k]);
            assert(e[k].0 != e[n].0);
        }
        entry_is_not_found(before, "type"@);
    }
}

/// A source or a cache marker without a `type`, or with one that is no text or stands for
/// nothing, is refused for it.
pub proof fn bad_tags_are_named(e: Seq<(Seq<char>, JsonView)>)
    requires
        gives_keys_once(e),
    ensures
        ({
            let v = JsonView::Object(e);
            let kind = given(e, "type"@);
            &&& kind is None ==> {
                &&& read_image_source(v)->Err_0 == "missing field `"@ + "type"@ + "`"@
                &&& read_document_source(v)->Err_0 == "missing field `"@ + "type"@ + "`"@
                &&& read_cache_control(v)->Err_0 == "missing field `"@ + "type"@ + "`"@
            }
            &&& kind matches Some(JsonView::String(name)) ==> {
                &&& name != "base64"@ && name != "url"@ ==> read_image_source(v)->Err_0
                    == "unknown variant `"@ + name + "`, expected "@ + "`base64` or `url`"@
                &&& name != "base64"@ && name != "url"@ ==> read_document_source(v)->Err_0
                    == "unknown variant `"@ + name + "`, expected "@ + "`base64` or `url`"@
                &&& name != "ephemeral"@ ==> read_cache_control(v)->Err_0 == "unknown variant `"@
                    + name + "`, expected "@ + "`ephemeral`"@
            }
            &&& kind is Some && !(kind->0 is String) ==> {
                &&& is_wrong_type(read_image_source(v)->Err_0, kind->0, "variant identifier"@)
                &&& is_wrong_type(read_document_source(v)->Err_0, kind->0, "variant identifier"@)
                &&& is_wrong_type(read_cache_control(v)->Err_0, kind->0, "variant identifier"@)
            }
        }),
{
    tag_errors(e);
}

/// A content block or a block of a system prompt of a kind that is not known is refused by
/// the name of the kind.
pub proof fn unknown_kinds_are_named(e: Seq<(Seq<char>, JsonView)>, kind: Seq<char>)
    requires
        gives_keys_once(e),
        given(e, "type"@) == Some(JsonView::String(kind)),
    ensures
        kind != "text"@ && kind != "image"@ && kind != "document"@ && kind != "tool_use"@ && kind
            != "tool_result"@ && kind != "thinking"@ && kind != "redacted_thinking"@ ==> read_block(
            JsonView::Object(e),
        )->Err_0 == "Unknown content block type: "@ + kind,
        kind != "text"@ && record_error::<SystemBlockShape>(
            JsonView::Object(e),
        ) is None ==> read_system_block(JsonView::Object(e))->Err_0
            == "Unknown system content block type: "@ + kind,
{
    block_header_fits(e);
    system_block_fits(e);
}

/// A system prompt, a message and a tool result say what their content must be.
pub proof fn bad_contents_are_named(v: JsonView)
    requires
        !(v is String || v is Array),
    ensures
        read_system(v)->Err_0 == "system must be a string or array of content blocks"@,
        read_content(v)->Err_0 == "message content must be a string or array of content blocks"@,
{
}

/// A tool choice that cannot be read is refused for what is wrong with it: a name that
/// stands for nothing, a `type` that is missing, no text or not known, or a value that is
/// neither a text nor an object.
pub proof fn bad_choices_are_named(v: JsonView)
    requires
        v matches JsonView::Object(e) ==> gives_keys_once(e),
    ensures
        match v {
            JsonView::String(name) => name != "auto"@ && name != "any"@ && name != "none"@
                ==> read_tool_choice(v)->Err_0 == "Invalid tool choice string: "@ + name
                + ". Expected 'auto', 'any', or 'none'."@,
            JsonView::Object(e) => match given(e, "type"@) {
                None => read_tool_choice(v)->Err_0
                    == "Tool choice must have a 'type' field if it is an object"@,
                Some(JsonView::String(kind)) => kind != "auto"@ && kind != "any"@ && kind
                    != "tool"@ && kind != "none"@ ==> read_tool_choice(v)->Err_0
                    == "Invalid tool choice type: "@ + kind,
                Some(_) => read_tool_choice(v)->Err_0
                    == "Tool choice 'type' field must be a string"@,
            },
            _ => read_tool_choice(v)->Err_0 == "Tool choice must be a string or object"@,
        },
{
    if let JsonView::Object(e) = v {
        field_is_given(e, 0, "type"@);
    }
}

/// A role that cannot be read is refused by its name, or for what stands around it.
pub proof fn bad_roles_are_named(v: JsonView)
    ensures
        match v {
            JsonView::String(name) => name != "user"@ && name != "assistant"@ ==> read_role(
                v,
            )->Err_0 == "unknown variant `"@ + name + "`, expected "@ + "`user` or `assistant`"@,
            JsonView::Object(e) => {
                &&& e.len() != 1 ==> is_wrong_value(
                    read_role(v)->Err_0,
                    v,
                    "map with a single key"@,
                )
                &&& e.len() == 1 && e[0].0 != "user"@ && e[0].0 != "assistant"@ ==> read_role(
                    v,
                )->Err_0 == "unknown variant `"@ + e[0].0 + "`, expected "@
                    + "`user` or `assistant`"@
                &&& e.len() == 1 && (e[0].0 == "user"@ || e[0].0 == "assistant"@) && !(e[0].1
                    is Null) ==> is_wrong_type(read_role(v)->Err_0, e[0].1, "unit"@)
            },
            _ => true,
        },
{
}

/// A text that spells no UUID is refused in the words of the uuid crate.
pub proof fn bad_uuids_are_named(text: Seq<char>)
    ensures
        parsed_uuid(text) matches Err(e) ==> read_uuid(JsonView::String(text))->Err_0
            == "UUID parsing failed: "@ + e,
{
}

/// A tool result whose content is neither a text nor an array is refused for it.
pub proof fn bad_results_are_named(e: Seq<(Seq<char>, JsonView)>)
    requires
        gives_keys_once(e),
        given(e, "type"@) == Some(JsonView::String("tool_result"@)),
        record_error::<ToolResultBlockShape>(
            JsonView::Object(e),
        ) is None,
        !(given(e, "content"@) matches Some(JsonView::String(_))),
        !(given(e, "content"@) matches Some(JsonView::Array(_))),
    ensures
        read_block(JsonView::Object(e))->Err_0 == "tool_result content must be string or array"@,
{
    block_header_fits(e);
    tool_result_block_fits(e);
    reveal_strlit("text");
    reveal_strlit("image");
    reveal_strlit("document");
    reveal_strlit("tool_use");
    reveal_strlit("tool_result");
    assert("text"@.len() == 4);
    assert("image"@.len() == 5);
    assert("document"@.len() == 8);
    assert("tool_use"@.len() == 8);
    assert("tool_result"@.len() == 11);
}

} // verus!
