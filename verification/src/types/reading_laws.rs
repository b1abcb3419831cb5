//! What is read from a request, by what its JSON holds.
//!
//! Each law is of an object that gives no key twice. What is read from it is what it
//! gives under the names of the fields; where that cannot be, nothing is read.
use crate::count_tokens::{CountsShape, read_count_tokens, read_counts};
use crate::inference::ChatCompletionInferenceParamsView;
use crate::json::{JsonNumberView, JsonView};
use crate::model::{collected, collected_all};
use crate::outside::parsed_uuid;
use crate::provider::AnthropicCacheControl;
use crate::reader::{
    Shape, entry_is_found, entry_is_not_found, items_error, read_bool, read_i32, read_number,
    read_text, read_texts, read_u32,
};
use crate::record_laws::{
    array_fields_are_named, arrays_are_records, entries_are_given, field_is_given, fields_differ,
    given, gives_keys_once, is_given, named,
};
use crate::string_map::map_of;
use crate::types::block_reader::{
    Base64DocumentShape, Base64ImageShape, UrlDocumentShape, UrlImageShape, block_results,
    object_tag, read_block, read_cache_control, read_document_source, read_image_source,
    read_tool_choice,
};
use crate::types::messages::{
    AnthropicRoleOwned, AnthropicToolChoiceView, AnthropicToolView, BlockView, ContentView,
    ExtensionView, MessageView, MetadataView, RequestView, SourceView, SystemBlockView, SystemView,
};
use crate::types::metadata_reader::{
    ExtensionShape, MetadataShape, is_known_parameter, read_chat_params, read_extension,
    read_metadata, read_params, read_text_entry, read_text_map,
};
use crate::types::request_reader::{
    MessageShape, RequestShape, SystemBlockShape, ToolShape, read_content, read_message,
    read_messages, read_request, read_role, read_system, read_system_block, read_tool, read_tools,
    request_is_its_fields,
};
use crate::types::shape_laws::{
    base64_document_fits, base64_image_fits, block_header_fits, chat_params_fits, choice_fits,
    count_tokens_fits, counts_fits, document_block_fits, extension_fits, image_block_fits,
    message_fits, metadata_fits, named_choice_fits, params_fits, redacted_block_fits, request_fits,
    system_block_fits, text_block_fits, thinking_block_fits, tool_fits, tool_result_block_fits,
    tool_use_block_fits, url_document_fits, url_image_fits,
};
use vstd::prelude::*;

verus! {

// ---------------------------------------------------------------------------
// Values
// ---------------------------------------------------------------------------

/// Texts, booleans and numbers are read as they are, and nothing else is read as one.
pub proof fn values_are_read(v: JsonView)
    ensures
        match read_text(v) {
            Ok(s) => v == JsonView::String(s),
            Err(_) => !(v is String),
        },
        match read_bool(v) {
            Ok(b) => v == JsonView::Bool(b),
            Err(_) => !(v is Bool),
        },
        match read_number(v) {
            Ok(n) => v == JsonView::Number(n),
            Err(_) => !(v is Number),
        },
        match read_u32(v) {
            Ok(n) => is_natural(v, n),
            Err(_) => forall|n: u32| !#[trigger] is_natural(v, n),
        },
        match read_i32(v) {
            Ok(n) => is_integer(v, n),
            Err(_) => forall|n: i32| !#[trigger] is_integer(v, n),
        },
{
}

/// Whether a value is a natural number.
pub open spec fn is_natural(v: JsonView, n: u32) -> bool {
    v == JsonView::Number(JsonNumberView::Unsigned(n as u64))
}

/// Whether a value is an integer.
pub open spec fn is_integer(v: JsonView, n: i32) -> bool {
    v == JsonView::Number(JsonNumberView::Negative(n as i64)) || n >= 0 && v == JsonView::Number(
        JsonNumberView::Unsigned(n as u64),
    )
}

/// Whether some results hold these values, one for one.
pub open spec fn holds_all<T, E>(results: Seq<Result<T, E>>, values: Seq<T>) -> bool {
    results.len() == values.len() && forall|k: int|
        0 <= k < results.len() ==> #[trigger] results[k] == Ok::<T, E>(values[k])
}

proof fn collected_holds<T, E>(results: Seq<Result<T, E>>)
    ensures
        match collected(results) {
            Ok(values) => holds_all(results, values),
            Err(_) => exists|k: int| 0 <= k < results.len() && (#[trigger] results[k]) is Err,
        },
    decreases results.len(),
{
    collected_all(results);
    if results.len() > 0 {
        let rest = results.drop_last();
        collected_holds(rest);
        if collected(rest) is Err {
            let k = choose|k: int| 0 <= k < rest.len() && (#[trigger] rest[k]) is Err;
            assert(results[k] is Err);
        } else if results.last() is Err {
            assert(results[results.len() - 1] is Err);
        }
    }
}

/// A list of texts is read text by text.
pub proof fn texts_are_read(v: JsonView)
    ensures
        match read_texts(v) {
            Ok(texts) => v is Array && v->Array_0.len() == texts.len() && forall|k: int|
                0 <= k < texts.len() ==> v->Array_0[k] == JsonView::String(#[trigger] texts[k]),
            Err(_) => v is Array ==> exists|k: int|
                0 <= k < v->Array_0.len() && !((#[trigger] v->Array_0[k]) is String),
        },
{
    if let JsonView::Array(items) = v {
        let all = items.map_values(|x: JsonView| read_text(x));
        collected_holds(all);
        match collected(all) {
            Ok(texts) => {
                assert forall|k: int| 0 <= k < texts.len() implies v->Array_0[k]
                    == JsonView::String(#[trigger] texts[k]) by {
                    assert(all[k] == read_text(items[k]));
                }
            },
            Err(_) => {
                let k = choose|k: int| 0 <= k < all.len() && (#[trigger] all[k]) is Err;
                assert(!(items[k] is String));
            },
        }
    }
}

/// Whether an optional text is what is given.
pub open spec fn text_is(x: Option<JsonView>, text: Option<Seq<char>>) -> bool {
    match x {
        None => text is None,
        Some(JsonView::Null) => text is None,
        Some(JsonView::String(s)) => text == Some(s),
        _ => false,
    }
}

/// Whether an optional boolean is what is given.
pub open spec fn flag_is(x: Option<JsonView>, flag: Option<bool>) -> bool {
    match x {
        None => flag is None,
        Some(JsonView::Null) => flag is None,
        Some(JsonView::Bool(b)) => flag == Some(b),
        _ => false,
    }
}

/// Whether an optional number is what is given.
pub open spec fn number_is(x: Option<JsonView>, number: Option<JsonNumberView>) -> bool {
    match x {
        None => number is None,
        Some(JsonView::Null) => number is None,
        Some(JsonView::Number(n)) => number == Some(n),
        _ => false,
    }
}

/// Whether an optional part is what is given, where `read` reads such a part.
pub open spec fn part_is<T>(
    x: Option<JsonView>,
    part: Option<T>,
    read: spec_fn(JsonView) -> Result<T, Seq<char>>,
) -> bool {
    match x {
        None => part is None,
        Some(JsonView::Null) => part is None,
        Some(v) => part is Some && read(v) == Ok::<T, Seq<char>>(part->0),
    }
}

/// Whether a cache marker is what is given.
pub open spec fn marker_is(x: Option<JsonView>, marker: Option<AnthropicCacheControl>) -> bool {
    part_is(x, marker, |v: JsonView| read_cache_control(v))
}

// ---------------------------------------------------------------------------
// Tags and sources
// ---------------------------------------------------------------------------

proof fn tag_is_given(entries: Seq<(Seq<char>, JsonView)>)
    requires
        gives_keys_once(entries),
    ensures
        match object_tag(entries) {
            Ok(name) => given(entries, "type"@) == Some(JsonView::String(name)),
            Err(_) => !(given(entries, "type"@) matches Some(JsonView::String(_))),
        },
{
    field_is_given(entries, 0, "type"@);
    if is_given(entries, "type"@) {
        let n = choose|n: int| 0 <= n < entries.len() && (#[trigger] entries[n]).0 == "type"@;
        entry_is_found(entries, n);
        entries_are_given(entries, n);
        let before = entries.take(n);
        assert forall|k: int| 0 <= k < before.len() implies (#[trigger] before[k]).0
            != "type"@ by {
            assert(before[k] == entries[k]);
            assert(entries[k].0 != entries[n].0);
        }
        entry_is_not_found(before, "type"@);
    }
}

/// A cache marker is an object whose `type` is `ephemeral`.
pub proof fn cache_markers_are_read(v: JsonView)
    requires
        v matches JsonView::Object(entries) ==> gives_keys_once(entries),
    ensures
        read_cache_control(v) is Ok <==> v is Object && given(v->Object_0, "type"@) == Some(
            JsonView::String("ephemeral"@),
        ),
        read_cache_control(v) matches Ok(marker) ==> marker == AnthropicCacheControl::Ephemeral,
{
    if let JsonView::Object(entries) = v {
        tag_is_given(entries);
    }
}

/// Whether a source is what is given: base64 data with its media type, or a URL. The fields
/// may stand in an array, behind the name of the kind.
pub open spec fn source_is(v: JsonView, source: SourceView) -> bool {
    match (v, source) {
        (JsonView::Object(e), SourceView::Base64 { media_type, data }) => {
            &&& given(e, "type"@) == Some(JsonView::String("base64"@))
            &&& given(e, "media_type"@) == Some(JsonView::String(media_type))
            &&& given(e, "data"@) == Some(JsonView::String(data))
        },
        (JsonView::Object(e), SourceView::Url { url }) => {
            &&& given(e, "type"@) == Some(JsonView::String("url"@))
            &&& given(e, "url"@) == Some(JsonView::String(url))
        },
        (JsonView::Array(items), SourceView::Base64 { media_type, data }) => {
            &&& items.len() == 3
            &&& items[0] == JsonView::String("base64"@)
            &&& items[1] == JsonView::String(media_type)
            &&& items[2] == JsonView::String(data)
        },
        (JsonView::Array(items), SourceView::Url { url }) => {
            &&& items.len() == 2
            &&& items[0] == JsonView::String("url"@)
            &&& items[1] == JsonView::String(url)
        },
        _ => false,
    }
}

proof fn source_names_differ()
    ensures
        "base64"@ != "url"@,
{
    reveal_strlit("base64");
    reveal_strlit("url");
    assert("base64"@.len() == 6);
    assert("url"@.len() == 3);
}

/// The source of an image is read as it is given, and nothing else is read as one.
pub proof fn image_sources_are_read(v: JsonView)
    requires
        v matches JsonView::Object(entries) ==> gives_keys_once(entries),
    ensures
        match read_image_source(v) {
            Ok(source) => source_is(v, source),
            Err(_) => forall|source: SourceView| !#[trigger] source_is(v, source),
        },
{
    source_names_differ();
    match v {
        JsonView::Object(entries) => {
            tag_is_given(entries);
            base64_image_fits(entries);
            url_image_fits(entries);
        },
        JsonView::Array(items) => {
            if items.len() > 0 {
                let rest = items.skip(1);
                reveal_with_fuel(items_error, 3);
                assert(Base64ImageShape::keys().len() == 2);
                assert(UrlImageShape::keys().len() == 1);
                assert forall|k: int| 0 <= k < rest.len() implies rest[k] == items[k + 1] by {
                }
            }
        },
        _ => {},
    }
}

/// The source of a document is read as it is given, and nothing else is read as one.
pub proof fn document_sources_are_read(v: JsonView)
    requires
        v matches JsonView::Object(entries) ==> gives_keys_once(entries),
    ensures
        match read_document_source(v) {
            Ok(source) => source_is(v, source),
            Err(_) => forall|source: SourceView| !#[trigger] source_is(v, source),
        },
{
    source_names_differ();
    match v {
        JsonView::Object(entries) => {
            tag_is_given(entries);
            base64_document_fits(entries);
            url_document_fits(entries);
        },
        JsonView::Array(items) => {
            if items.len() > 0 {
                let rest = items.skip(1);
                reveal_with_fuel(items_error, 3);
                assert(Base64DocumentShape::keys().len() == 2);
                assert(UrlDocumentShape::keys().len() == 1);
                assert forall|k: int| 0 <= k < rest.len() implies rest[k] == items[k + 1] by {
                }
            }
        },
        _ => {},
    }
}

// ---------------------------------------------------------------------------
// Tool choice
// ---------------------------------------------------------------------------

/// Whether a tool choice is what is given: a name alone, or an object whose `type` is the
/// name of the kind.
pub open spec fn choice_is(v: JsonView, choice: AnthropicToolChoiceView) -> bool {
    match v {
        JsonView::String(name) => match choice {
            AnthropicToolChoiceView::Auto { disable_parallel_tool_use } => name == "auto"@
                && disable_parallel_tool_use is None,
            AnthropicToolChoiceView::Any { disable_parallel_tool_use } => name == "any"@
                && disable_parallel_tool_use is None,
            AnthropicToolChoiceView::NoTool { disable_parallel_tool_use } => name == "none"@
                && disable_parallel_tool_use is None,
            AnthropicToolChoiceView::Tool { .. } => false,
        },
        JsonView::Object(e) => {
            let kind = given(e, "type"@);
            let parallel = given(e, "disable_parallel_tool_use"@);
            match choice {
                AnthropicToolChoiceView::Auto { disable_parallel_tool_use } => kind == Some(
                    JsonView::String("auto"@),
                ) && flag_is(parallel, disable_parallel_tool_use),
                AnthropicToolChoiceView::Any { disable_parallel_tool_use } => kind == Some(
                    JsonView::String("any"@),
                ) && flag_is(parallel, disable_parallel_tool_use),
                AnthropicToolChoiceView::NoTool { disable_parallel_tool_use } => kind == Some(
                    JsonView::String("none"@),
                ) && flag_is(parallel, disable_parallel_tool_use),
                AnthropicToolChoiceView::Tool { name, disable_parallel_tool_use } => kind == Some(
                    JsonView::String("tool"@),
                ) && given(e, "name"@) == Some(JsonView::String(name)) && flag_is(
                    parallel,
                    disable_parallel_tool_use,
                ),
            }
        },
        _ => false,
    }
}

proof fn choice_names_differ()
    ensures
        "auto"@ != "any"@,
        "auto"@ != "none"@,
        "auto"@ != "tool"@,
        "any"@ != "none"@,
        "any"@ != "tool"@,
        "none"@ != "tool"@,
{
    reveal_strlit("auto");
    reveal_strlit("any");
    reveal_strlit("none");
    reveal_strlit("tool");
    assert("auto"@.len() == 4);
    assert("any"@.len() == 3);
    assert("none"@.len() == 4);
    assert("tool"@.len() == 4);
    assert("auto"@[0] == 'a');
    assert("none"@[0] == 'n');
    assert("tool"@[0] == 't');
}

/// A tool choice is read as the kind that it names, and nothing else is read as one.
pub proof fn tool_choices_are_read(v: JsonView)
    requires
        v matches JsonView::Object(entries) ==> gives_keys_once(entries),
    ensures
        match read_tool_choice(v) {
            Ok(choice) => choice_is(v, choice),
            Err(_) => forall|choice: AnthropicToolChoiceView| !#[trigger] choice_is(v, choice),
        },
{
    choice_names_differ();
    if let JsonView::Object(entries) = v {
        field_is_given(entries, 0, "type"@);
        choice_fits(entries);
        named_choice_fits(entries);
        field_is_given(entries, 0, "disable_parallel_tool_use"@);
    }
}

/// A name alone is read as an object that has only that `type`.
pub proof fn names_are_read_as_objects(name: Seq<char>)
    requires
        name == "auto"@ || name == "any"@ || name == "none"@,
    ensures
        read_tool_choice(JsonView::String(name)) is Ok,
        read_tool_choice(JsonView::String(name)) == read_tool_choice(
            JsonView::Object(seq![("type"@, JsonView::String(name))]),
        ),
{
    choice_names_differ();
    let entries = seq![("type"@, JsonView::String(name))];
    let v = JsonView::Object(entries);
    tool_choices_are_read(v);
    tool_choices_are_read(JsonView::String(name));
    entries_are_given(entries, 0);
    reveal_strlit("type");
    reveal_strlit("disable_parallel_tool_use");
    assert("type"@.len() == 4);
    assert("disable_parallel_tool_use"@.len() == 25);
    assert(!is_given(entries, "disable_parallel_tool_use"@));
    if name == "auto"@ {
        assert(choice_is(v, AnthropicToolChoiceView::Auto { disable_parallel_tool_use: None }));
    } else if name == "any"@ {
        assert(choice_is(v, AnthropicToolChoiceView::Any { disable_parallel_tool_use: None }));
    } else {
        assert(choice_is(v, AnthropicToolChoiceView::NoTool { disable_parallel_tool_use: None }));
    }
}

// ---------------------------------------------------------------------------
// Content blocks
// ---------------------------------------------------------------------------

/// Whether the content of a tool result is what is given: a text, or blocks.
pub open spec fn result_content_is(x: Option<JsonView>, content: Seq<BlockView>) -> bool {
    match x {
        Some(JsonView::String(s)) => content.len() == 1 && content[0] == (BlockView::Text {
            text: s,
            cache_control: None,
        }),
        Some(JsonView::Array(items)) => items.len() == content.len() && forall|k: int|
            0 <= k < items.len() ==> read_block(#[trigger] items[k]) == Ok::<
                BlockView,
                Seq<char>,
            >(content[k]),
        _ => false,
    }
}

/// Whether a content block is what an object gives.
pub open spec fn block_is(e: Seq<(Seq<char>, JsonView)>, block: BlockView) -> bool {
    let kind = given(e, "type"@);
    let marker = given(e, "cache_control"@);
    match block {
        BlockView::Text { text, cache_control } => {
            &&& kind == Some(JsonView::String("text"@))
            &&& given(e, "text"@) == Some(JsonView::String(text))
            &&& marker_is(marker, cache_control)
        },
        BlockView::Image { cache_control, source } => {
            &&& kind == Some(JsonView::String("image"@))
            &&& given(e, "source"@) is Some
            &&& read_image_source(given(e, "source"@)->0) == Ok::<SourceView, Seq<char>>(source)
            &&& marker_is(marker, cache_control)
        },
        BlockView::Document { cache_control, source } => {
            &&& kind == Some(JsonView::String("document"@))
            &&& given(e, "source"@) is Some
            &&& read_document_source(given(e, "source"@)->0) == Ok::<SourceView, Seq<char>>(source)
            &&& marker_is(marker, cache_control)
        },
        BlockView::ToolUse { id, name, input, cache_control } => {
            &&& kind == Some(JsonView::String("tool_use"@))
            &&& given(e, "id"@) == Some(JsonView::String(id))
            &&& given(e, "name"@) == Some(JsonView::String(name))
            &&& given(e, "input"@) == Some(input)
            &&& marker_is(marker, cache_control)
        },
        BlockView::ToolResult { tool_use_id, content, is_error, cache_control } => {
            &&& kind == Some(JsonView::String("tool_result"@))
            &&& given(e, "tool_use_id"@) == Some(JsonView::String(tool_use_id))
            &&& result_content_is(given(e, "content"@), content)
            &&& flag_is(given(e, "is_error"@), is_error)
            &&& marker_is(marker, cache_control)
        },
        BlockView::Thinking { thinking, signature } => {
            &&& kind == Some(JsonView::String("thinking"@))
            &&& given(e, "thinking"@) == Some(JsonView::String(thinking))
            &&& given(e, "signature"@) == Some(JsonView::String(signature))
        },
        BlockView::RedactedThinking { data } => {
            &&& kind == Some(JsonView::String("redacted_thinking"@))
            &&& given(e, "data"@) == Some(JsonView::String(data))
        },
    }
}

proof fn kinds_differ()
    ensures
        "text"@ != "image"@,
        "text"@ != "document"@,
        "text"@ != "tool_use"@,
        "text"@ != "tool_result"@,
        "text"@ != "thinking"@,
        "text"@ != "redacted_thinking"@,
        "image"@ != "document"@,
        "image"@ != "tool_use"@,
        "image"@ != "tool_result"@,
        "image"@ != "thinking"@,
        "image"@ != "redacted_thinking"@,
        "document"@ != "tool_use"@,
        "document"@ != "tool_result"@,
        "document"@ != "thinking"@,
        "document"@ != "redacted_thinking"@,
        "tool_use"@ != "tool_result"@,
        "tool_use"@ != "thinking"@,
        "tool_use"@ != "redacted_thinking"@,
        "tool_result"@ != "thinking"@,
        "tool_result"@ != "redacted_thinking"@,
        "thinking"@ != "redacted_thinking"@,
{
    reveal_strlit("text");
    reveal_strlit("image");
    reveal_strlit("document");
    reveal_strlit("tool_use");
    reveal_strlit("tool_result");
    reveal_strlit("thinking");
    reveal_strlit("redacted_thinking");
    assert("text"@.len() == 4);
    assert("image"@.len() == 5);
    assert("document"@.len() == 8);
    assert("tool_use"@.len() == 8);
    assert("tool_result"@.len() == 11);
    assert("thinking"@.len() == 8);
    assert("redacted_thinking"@.len() == 17);
    assert("document"@[1] == 'o' && "document"@[0] == 'd');
    assert("tool_use"@[1] == 'o' && "tool_use"@[0] == 't');
    assert("thinking"@[1] == 'h');
}

proof fn result_blocks_are_read(items: Seq<JsonView>)
    ensures
        match collected(block_results(items)) {
            Ok(content) => result_content_is(Some(JsonView::Array(items)), content),
            Err(_) => forall|content: Seq<BlockView>|
                !#[trigger] result_content_is(Some(JsonView::Array(items)), content),
        },
        forall|content: Seq<BlockView>| #[trigger]
            result_content_is(Some(JsonView::Array(items)), content) ==> collected(
                block_results(items),
            ) == Ok::<Seq<BlockView>, Seq<char>>(content),
{
    let all = block_results(items);
    collected_holds(all);
    assert forall|k: int| 0 <= k < items.len() implies #[trigger] all[k] == read_block(
        items[k],
    ) by {
    }
    match collected(all) {
        Ok(found) => {
            assert forall|k: int| 0 <= k < items.len() implies read_block(#[trigger] items[k])
                == Ok::<BlockView, Seq<char>>(found[k]) by {
                assert(all[k] == Ok::<BlockView, Seq<char>>(found[k]));
            }
            assert forall|content: Seq<BlockView>| #[trigger]
                result_content_is(Some(JsonView::Array(items)), content) implies found
                == content by {
                assert forall|k: int| 0 <= k < found.len() implies found[k] == content[k] by {
                    assert(read_block(items[k]) == Ok::<BlockView, Seq<char>>(content[k]));
                }
                assert(found =~= content);
            }
        },
        Err(_) => {
            let k = choose|k: int| 0 <= k < all.len() && (#[trigger] all[k]) is Err;
            assert forall|content: Seq<BlockView>| !#[trigger] result_content_is(
                Some(JsonView::Array(items)),
                content,
            ) by {
                assert(read_block(items[k]) is Err);
            }
        },
    }
}

/// A content block is read as the kind that its `type` names, with the fields that it
/// gives, and nothing else is read as one.
#[verifier::rlimit(40)]
pub proof fn blocks_are_read(e: Seq<(Seq<char>, JsonView)>)
    requires
        gives_keys_once(e),
    ensures
        match read_block(JsonView::Object(e)) {
            Ok(block) => block_is(e, block),
            Err(_) => forall|block: BlockView| !#[trigger] block_is(e, block),
        },
{
    kinds_differ();
    block_header_fits(e);
    let v = JsonView::Object(e);
    match given(e, "type"@) {
        Some(JsonView::String(kind)) => {
            if kind == "text"@ {
                text_block_fits(e);
            } else if kind == "image"@ {
                image_block_fits(e);
            } else if kind == "document"@ {
                document_block_fits(e);
            } else if kind == "tool_use"@ {
                tool_use_block_fits(e);
            } else if kind == "tool_result"@ {
                tool_result_block_fits(e);
                result_is_read(e);
            } else if kind == "thinking"@ {
                thinking_block_fits(e);
            } else if kind == "redacted_thinking"@ {
                redacted_block_fits(e);
            }
        },
        _ => {},
    }
}

proof fn result_is_read(e: Seq<(Seq<char>, JsonView)>)
    requires
        gives_keys_once(e),
        given(e, "type"@) == Some(JsonView::String("tool_result"@)),
    ensures
        match read_block(JsonView::Object(e)) {
            Ok(block) => block_is(e, block),
            Err(_) => forall|block: BlockView| !#[trigger] block_is(e, block),
        },
{
    kinds_differ();
    block_header_fits(e);
    tool_result_block_fits(e);
    match given(e, "content"@) {
        Some(JsonView::Array(items)) => {
            result_blocks_are_read(items);
            if let Err(_) = read_block(JsonView::Object(e)) {
                assert forall|block: BlockView| !#[trigger] block_is(e, block) by {
                    if block_is(e, block) {
                        assert(result_content_is(
                            Some(JsonView::Array(items)),
                            block->ToolResult_content,
                        ));
                    }
                }
            }
        },
        _ => {},
    }
}

// ---------------------------------------------------------------------------
// System prompt and messages
// ---------------------------------------------------------------------------

/// Whether a block of a system prompt is what an object gives. Its text may be left out.
pub open spec fn system_block_is(e: Seq<(Seq<char>, JsonView)>, block: SystemBlockView) -> bool {
    &&& given(e, "type"@) == Some(JsonView::String("text"@))
    &&& match given(e, "text"@) {
        Some(JsonView::String(text)) => block.text == text,
        Some(_) => false,
        None => block.text == Seq::<char>::empty(),
    }
    &&& marker_is(given(e, "cache_control"@), block.cache_control)
}

/// A block of a system prompt is read as it is given, and nothing else is read as one.
pub proof fn system_blocks_are_read(e: Seq<(Seq<char>, JsonView)>)
    requires
        gives_keys_once(e),
    ensures
        match read_system_block(JsonView::Object(e)) {
            Ok(block) => system_block_is(e, block),
            Err(_) => forall|block: SystemBlockView| !#[trigger] system_block_is(e, block),
        },
{
    system_block_fits(e);
}

/// A system prompt is a text, or blocks that are read one by one.
pub proof fn system_prompts_are_read(v: JsonView)
    ensures
        match read_system(v) {
            Ok(SystemView::String(s)) => v == JsonView::String(s),
            Ok(SystemView::Blocks(blocks)) => v is Array && v->Array_0.len() == blocks.len()
                && forall|k: int|
                0 <= k < blocks.len() ==> read_system_block(v->Array_0[k]) == Ok::<
                    SystemBlockView,
                    Seq<char>,
                >(#[trigger] blocks[k]),
            Err(_) => !(v is String) && (v is Array ==> exists|k: int|
                0 <= k < v->Array_0.len() && read_system_block(
                    #[trigger] v->Array_0[k],
                ) is Err),
        },
{
    if let JsonView::Array(items) = v {
        let all = items.map_values(|x: JsonView| read_system_block(x));
        collected_holds(all);
        match collected(all) {
            Ok(blocks) => {
                assert forall|k: int| 0 <= k < blocks.len() implies read_system_block(
                    v->Array_0[k],
                ) == Ok::<SystemBlockView, Seq<char>>(#[trigger] blocks[k]) by {
                    assert(all[k] == read_system_block(items[k]));
                }
            },
            Err(_) => {
                let k = choose|k: int| 0 <= k < all.len() && (#[trigger] all[k]) is Err;
                assert(read_system_block(v->Array_0[k]) is Err);
            },
        }
    }
}

/// Whether a role is what is given: its name, or an object with the name as its only key
/// and `null` under it.
pub open spec fn role_is(v: JsonView, role: AnthropicRoleOwned) -> bool {
    let name = match role {
        AnthropicRoleOwned::User => "user"@,
        AnthropicRoleOwned::Assistant => "assistant"@,
    };
    match v {
        JsonView::String(s) => s == name,
        JsonView::Object(e) => e.len() == 1 && e[0] == (name, JsonView::Null),
        _ => false,
    }
}

/// A role is read as it is named, and nothing else is read as one.
pub proof fn roles_are_read(v: JsonView)
    ensures
        match read_role(v) {
            Ok(role) => role_is(v, role),
            Err(_) => forall|role: AnthropicRoleOwned| !#[trigger] role_is(v, role),
        },
        forall|role: AnthropicRoleOwned| #[trigger]
            role_is(v, role) ==> read_role(v) == Ok::<AnthropicRoleOwned, Seq<char>>(role),
{
    reveal_strlit("user");
    reveal_strlit("assistant");
    assert("user"@.len() == 4);
    assert("assistant"@.len() == 9);
}

/// The content of a message is a text, or blocks that are read one by one.
pub proof fn contents_are_read(v: JsonView)
    ensures
        match read_content(v) {
            Ok(ContentView::String(s)) => v == JsonView::String(s),
            Ok(ContentView::Blocks(blocks)) => v is Array && v->Array_0.len() == blocks.len()
                && forall|k: int|
                0 <= k < blocks.len() ==> read_block(v->Array_0[k]) == Ok::<BlockView, Seq<char>>(
                    #[trigger] blocks[k],
                ),
            Err(_) => !(v is String) && (v is Array ==> exists|k: int|
                0 <= k < v->Array_0.len() && read_block(#[trigger] v->Array_0[k]) is Err),
        },
{
    if let JsonView::Array(items) = v {
        let all = block_results(items);
        collected_holds(all);
        match collected(all) {
            Ok(blocks) => {
                assert forall|k: int| 0 <= k < blocks.len() implies read_block(v->Array_0[k])
                    == Ok::<BlockView, Seq<char>>(#[trigger] blocks[k]) by {
                    assert(all[k] == read_block(items[k]));
                }
            },
            Err(_) => {
                let k = choose|k: int| 0 <= k < all.len() && (#[trigger] all[k]) is Err;
                assert(read_block(v->Array_0[k]) is Err);
            },
        }
    }
}

/// Whether a message is what an object gives. Its content may be left out.
pub open spec fn message_is(e: Seq<(Seq<char>, JsonView)>, message: MessageView) -> bool {
    &&& given(e, "role"@) is Some
    &&& read_role(given(e, "role"@)->0) == Ok::<AnthropicRoleOwned, Seq<char>>(message.role)
    &&& match given(e, "content"@) {
        Some(v) => read_content(v) == Ok::<ContentView, Seq<char>>(message.content),
        None => message.content == ContentView::String(Seq::empty()),
    }
}

/// A message is read as it is given, and nothing else is read as one.
pub proof fn messages_are_read(e: Seq<(Seq<char>, JsonView)>)
    requires
        gives_keys_once(e),
    ensures
        match read_message(JsonView::Object(e)) {
            Ok(message) => message_is(e, message),
            Err(_) => forall|message: MessageView| !#[trigger] message_is(e, message),
        },
{
    message_fits(e);
}

/// A list of messages is read message by message, and a list of tools tool by tool.
pub proof fn lists_are_read(v: JsonView)
    ensures
        match read_messages(v) {
            Ok(messages) => v is Array && v->Array_0.len() == messages.len() && forall|k: int|
                0 <= k < messages.len() ==> read_message(v->Array_0[k]) == Ok::<
                    MessageView,
                    Seq<char>,
                >(#[trigger] messages[k]),
            Err(_) => v is Array ==> exists|k: int|
                0 <= k < v->Array_0.len() && read_message(#[trigger] v->Array_0[k]) is Err,
        },
        match read_tools(v) {
            Ok(tools) => v is Array && v->Array_0.len() == tools.len() && forall|k: int|
                0 <= k < tools.len() ==> read_tool(v->Array_0[k]) == Ok::<
                    AnthropicToolView,
                    Seq<char>,
                >(#[trigger] tools[k]),
            Err(_) => v is Array ==> exists|k: int|
                0 <= k < v->Array_0.len() && read_tool(#[trigger] v->Array_0[k]) is Err,
        },
{
    if let JsonView::Array(items) = v {
        let all = items.map_values(|x: JsonView| read_message(x));
        collected_holds(all);
        match collected(all) {
            Ok(messages) => {
                assert forall|k: int| 0 <= k < messages.len() implies read_message(v->Array_0[k])
                    == Ok::<MessageView, Seq<char>>(#[trigger] messages[k]) by {
                    assert(all[k] == read_message(items[k]));
                }
            },
            Err(_) => {
                let k = choose|k: int| 0 <= k < all.len() && (#[trigger] all[k]) is Err;
                assert(read_message(v->Array_0[k]) is Err);
            },
        }
        let every = items.map_values(|x: JsonView| read_tool(x));
        collected_holds(every);
        match collected(every) {
            Ok(tools) => {
                assert forall|k: int| 0 <= k < tools.len() implies read_tool(v->Array_0[k]) == Ok::<
                    AnthropicToolView,
                    Seq<char>,
                >(#[trigger] tools[k]) by {
                    assert(every[k] == read_tool(items[k]));
                }
            },
            Err(_) => {
                let k = choose|k: int| 0 <= k < every.len() && (#[trigger] every[k]) is Err;
                assert(read_tool(v->Array_0[k]) is Err);
            },
        }
    }
}

/// Whether a tool definition is what an object gives.
pub open spec fn tool_is(e: Seq<(Seq<char>, JsonView)>, tool: AnthropicToolView) -> bool {
    &&& given(e, "name"@) == Some(JsonView::String(tool.name))
    &&& text_is(given(e, "description"@), tool.description)
    &&& given(e, "input_schema"@) == Some(tool.parameters)
    &&& flag_is(given(e, "strict"@), tool.strict)
    &&& marker_is(given(e, "cache_control"@), tool.cache_control)
}

/// A tool definition is read as it is given, and nothing else is read as one.
pub proof fn tools_are_read(e: Seq<(Seq<char>, JsonView)>)
    requires
        gives_keys_once(e),
    ensures
        match read_tool(JsonView::Object(e)) {
            Ok(tool) => tool_is(e, tool),
            Err(_) => forall|tool: AnthropicToolView| !#[trigger] tool_is(e, tool),
        },
{
    tool_fits(e);
}

// ---------------------------------------------------------------------------
// Metadata
// ---------------------------------------------------------------------------

proof fn map_holds(pairs: Seq<(Seq<char>, Seq<char>)>, key: Seq<char>)
    requires
        forall|i: int, j: int|
            0 <= i < j < pairs.len() ==> (#[trigger] pairs[i]).0 != (#[trigger] pairs[j]).0,
    ensures
        map_of(pairs).dom().contains(key) <==> exists|k: int|
            0 <= k < pairs.len() && (#[trigger] pairs[k]).0 == key,
        forall|k: int|
            0 <= k < pairs.len() && (#[trigger] pairs[k]).0 == key ==> map_of(pairs)[key]
                == pairs[k].1,
    decreases pairs.len(),
{
    if pairs.len() > 0 {
        let rest = pairs.drop_last();
        let last = pairs.len() - 1;
        assert forall|i: int, j: int| 0 <= i < j < rest.len() implies (#[trigger] rest[i]).0 != (
        #[trigger] rest[j]).0 by {
            assert(pairs[i].0 != pairs[j].0);
        }
        map_holds(rest, key);
        assert forall|k: int| 0 <= k < pairs.len() && (#[trigger] pairs[k]).0 == key implies map_of(
            pairs,
        )[key] == pairs[k].1 by {
            if k < last {
                assert(rest[k] == pairs[k]);
                assert(pairs[k].0 != pairs[last].0);
            }
        }
        if map_of(pairs).dom().contains(key) {
            if pairs[last].0 != key {
                let k = choose|k: int| 0 <= k < rest.len() && (#[trigger] rest[k]).0 == key;
                assert(pairs[k].0 == key);
            }
        }
        if exists|k: int| 0 <= k < pairs.len() && (#[trigger] pairs[k]).0 == key {
            let k = choose|k: int| 0 <= k < pairs.len() && (#[trigger] pairs[k]).0 == key;
            if k < last {
                assert(rest[k].0 == key);
            }
        }
    }
}

/// Whether a map of texts is what an object gives.
pub open spec fn map_is(e: Seq<(Seq<char>, JsonView)>, map: Map<Seq<char>, Seq<char>>) -> bool {
    forall|key: Seq<char>|
        #![trigger map.dom().contains(key)]
        match given(e, key) {
            Some(JsonView::String(text)) => map.dom().contains(key) && map[key] == text,
            Some(_) => false,
            None => !map.dom().contains(key),
        }
}

/// A map of texts is read entry by entry; where an entry is no text, nothing is read.
pub proof fn maps_are_read(e: Seq<(Seq<char>, JsonView)>)
    requires
        gives_keys_once(e),
    ensures
        match read_text_map(JsonView::Object(e)) {
            Ok(map) => map_is(e, map),
            Err(_) => exists|n: int| 0 <= n < e.len() && !((#[trigger] e[n]).1 is String),
        },
{
    let all = e.map_values(|x: (Seq<char>, JsonView)| read_text_entry(x));
    collected_holds(all);
    match collected(all) {
        Ok(pairs) => {
            assert forall|k: int| 0 <= k < e.len() implies (#[trigger] e[k]).1 is String
                && pairs[k] == (e[k].0, e[k].1->String_0) by {
                assert(all[k] == read_text_entry(e[k]));
            }
            assert forall|i: int, j: int| 0 <= i < j < pairs.len() implies (#[trigger] pairs[i]).0
                != (#[trigger] pairs[j]).0 by {
                assert(e[i].0 != e[j].0);
            }
            let map = map_of(pairs);
            assert forall|key: Seq<char>|
                #![trigger map.dom().contains(key)]
                match given(e, key) {
                    Some(JsonView::String(text)) => map.dom().contains(key) && map[key] == text,
                    Some(_) => false,
                    None => !map.dom().contains(key),
                } by {
                map_holds(pairs, key);
                if is_given(e, key) {
                    let n = choose|n: int| 0 <= n < e.len() && (#[trigger] e[n]).0 == key;
                    entries_are_given(e, n);
                    assert(pairs[n].0 == key);
                } else {
                    if map.dom().contains(key) {
                        let n = choose|n: int| 0 <= n < pairs.len() && (#[trigger] pairs[n]).0
                            == key;
                        assert(e[n].0 == key);
                    }
                }
            }
        },
        Err(_) => {
            let n = choose|n: int| 0 <= n < all.len() && (#[trigger] all[n]) is Err;
            assert(!(e[n].1 is String));
        },
    }
}

/// Whether a map of texts is what is given, empty where it is left out.
pub open spec fn map_or_empty(x: Option<JsonView>, map: Map<Seq<char>, Seq<char>>) -> bool {
    match x {
        Some(v) => read_text_map(v) == Ok::<Map<Seq<char>, Seq<char>>, Seq<char>>(map),
        None => map == Map::<Seq<char>, Seq<char>>::empty(),
    }
}

/// Whether an episode is what is given: a text that spells a UUID.
pub open spec fn uuid_is(x: Option<JsonView>, id: Option<u128>) -> bool {
    match x {
        None => id is None,
        Some(JsonView::Null) => id is None,
        Some(JsonView::String(text)) => id is Some && parsed_uuid(text) == Ok::<u128, Seq<char>>(
            id->0,
        ),
        _ => false,
    }
}

/// Whether the extension fields are what an object gives.
pub open spec fn extension_is(e: Seq<(Seq<char>, JsonView)>, x: ExtensionView) -> bool {
    &&& uuid_is(given(e, "episode_id"@), x.episode_id)
    &&& text_is(given(e, "variant_name"@), x.variant_name)
    &&& map_or_empty(given(e, "tags"@), x.tags)
    &&& match given(e, "cache_options"@) {
        None => x.cache_options is None,
        Some(JsonView::Null) => x.cache_options is None,
        Some(v) => x.cache_options == Some(v),
    }
    &&& x.extra_body == given(e, "extra_body"@)
    &&& x.extra_headers == given(e, "extra_headers"@)
    &&& flag_is(given(e, "dryrun"@), x.dryrun)
    &&& text_is(given(e, "namespace"@), x.namespace)
    &&& map_or_empty(given(e, "credentials"@), x.credentials)
    &&& part_is(given(e, "params"@), x.params, |v: JsonView| read_params(v))
    &&& flag_is(given(e, "include_raw_usage"@), x.include_raw_usage)
}

/// The extension fields are read as they are given, and nothing else is read as them.
#[verifier::rlimit(40)]
pub proof fn extensions_are_read(e: Seq<(Seq<char>, JsonView)>)
    requires
        gives_keys_once(e),
    ensures
        match read_extension(JsonView::Object(e)) {
            Ok(x) => extension_is(e, x),
            Err(_) => forall|x: ExtensionView| !#[trigger] extension_is(e, x),
        },
{
    extension_fits(e);
}

/// Whether the metadata is what an object gives.
pub open spec fn metadata_is(e: Seq<(Seq<char>, JsonView)>, metadata: MetadataView) -> bool {
    &&& text_is(given(e, "user_id"@), metadata.user_id)
    &&& part_is(given(e, "tensorzero"@), metadata.tensorzero, |v: JsonView| read_extension(v))
}

/// The metadata is read as it is given, and nothing else is read as it.
pub proof fn metadata_are_read(e: Seq<(Seq<char>, JsonView)>)
    requires
        gives_keys_once(e),
    ensures
        match read_metadata(JsonView::Object(e)) {
            Ok(metadata) => metadata_is(e, metadata),
            Err(_) => forall|metadata: MetadataView| !#[trigger] metadata_is(e, metadata),
        },
{
    metadata_fits(e);
}

/// Whether the parameters of a chat completion are what an object gives. Those that are
/// not known are carried as they came.
pub open spec fn chat_params_are(
    e: Seq<(Seq<char>, JsonView)>,
    params: ChatCompletionInferenceParamsView,
) -> bool {
    &&& number_is(given(e, "temperature"@), params.temperature)
    &&& part_is(given(e, "max_tokens"@), params.max_tokens, |v: JsonView| read_u32(v))
    &&& number_is(given(e, "top_p"@), params.top_p)
    &&& part_is(given(e, "stop_sequences"@), params.stop_sequences, |v: JsonView| read_texts(v))
    &&& forall|key: Seq<char>, v: JsonView|
        params.other.contains((key, v)) <==> #[trigger] e.contains((key, v)) && key
            != "temperature"@ && key != "max_tokens"@ && key != "top_p"@ && key
            != "stop_sequences"@
}

proof fn filter_keeps<A>(all: Seq<A>, keep: spec_fn(A) -> bool, x: A)
    ensures
        all.filter(keep).contains(x) <==> all.contains(x) && keep(x),
    decreases all.len(),
{
    reveal(Seq::filter);
    if all.len() > 0 {
        let rest = all.drop_last();
        filter_keeps(rest, keep, x);
        let kept = rest.filter(keep);
        if rest.contains(x) {
            let i = choose|i: int| 0 <= i < rest.len() && rest[i] == x;
            assert(all[i] == x);
        }
        if all.contains(x) {
            let i = choose|i: int| 0 <= i < all.len() && all[i] == x;
            if i < rest.len() {
                assert(rest[i] == x);
            }
        }
        if keep(all.last()) {
            let longer = kept.push(all.last());
            if kept.contains(x) {
                let i = choose|i: int| 0 <= i < kept.len() && kept[i] == x;
                assert(longer[i] == x);
            }
            assert(longer[kept.len() as int] == all.last());
            if longer.contains(x) {
                let i = choose|i: int| 0 <= i < longer.len() && longer[i] == x;
                if i < kept.len() {
                    assert(kept[i] == x);
                } else {
                    assert(all[all.len() - 1] == x);
                }
            }
        }
    }
}

/// The parameters of a chat completion are read as they are given.
pub proof fn chat_params_are_read(e: Seq<(Seq<char>, JsonView)>)
    requires
        gives_keys_once(e),
    ensures
        match read_chat_params(JsonView::Object(e)) {
            Ok(params) => chat_params_are(e, params),
            Err(_) => forall|params: ChatCompletionInferenceParamsView|
                !#[trigger] chat_params_are(e, params),
        },
{
    chat_params_fits(e);
    if let Ok(params) = read_chat_params(JsonView::Object(e)) {
        let keep = |x: (Seq<char>, JsonView)| !is_known_parameter(x.0);
        assert forall|key: Seq<char>, v: JsonView|
            params.other.contains((key, v)) <==> #[trigger] e.contains((key, v)) && key
                != "temperature"@ && key != "max_tokens"@ && key != "top_p"@ && key
                != "stop_sequences"@ by {
            filter_keeps(e, keep, (key, v));
        }
    }
}

/// The parameters of an inference are those of its chat completion, which may be left out.
pub proof fn params_are_read(e: Seq<(Seq<char>, JsonView)>)
    requires
        gives_keys_once(e),
    ensures
        match read_params(JsonView::Object(e)) {
            Ok(params) => match given(e, "chat_completion"@) {
                Some(v) => read_chat_params(v) == Ok::<
                    ChatCompletionInferenceParamsView,
                    Seq<char>,
                >(params.chat_completion),
                None => {
                    let chat = params.chat_completion;
                    &&& chat.temperature is None
                    &&& chat.max_tokens is None
                    &&& chat.top_p is None
                    &&& chat.stop_sequences is None
                    &&& chat.other.len() == 0
                },
            },
            Err(_) => given(e, "chat_completion"@) matches Some(v) && read_chat_params(v) is Err,
        },
{
    params_fits(e);
}

// ---------------------------------------------------------------------------
// Requests
// ---------------------------------------------------------------------------

/// Whether the first half of a request is what an object gives.
pub open spec fn request_head_is(e: Seq<(Seq<char>, JsonView)>, request: RequestView) -> bool {
    &&& given(e, "model"@) == Some(JsonView::String(request.model))
    &&& given(e, "messages"@) is Some
    &&& read_messages(given(e, "messages"@)->0) == Ok::<Seq<MessageView>, Seq<char>>(
        request.messages,
    )
    &&& match given(e, "system"@) {
        Some(v) => read_system(v) == Ok::<SystemView, Seq<char>>(request.system),
        None => request.system == SystemView::String(Seq::empty()),
    }
    &&& given(e, "max_tokens"@) is Some
    &&& read_u32(given(e, "max_tokens"@)->0) == Ok::<u32, Seq<char>>(request.max_tokens)
    &&& number_is(given(e, "temperature"@), request.temperature)
    &&& number_is(given(e, "top_p"@), request.top_p)
    &&& part_is(given(e, "top_k"@), request.top_k, |v: JsonView| read_i32(v))
}

/// Whether the second half of a request is what an object gives.
pub open spec fn request_tail_is(e: Seq<(Seq<char>, JsonView)>, request: RequestView) -> bool {
    &&& part_is(
        given(e, "stop_sequences"@),
        request.stop_sequences,
        |v: JsonView| read_texts(v),
    )
    &&& match given(e, "stream"@) {
        Some(JsonView::Bool(b)) => request.stream == b,
        Some(_) => false,
        None => !request.stream,
    }
    &&& part_is(given(e, "tools"@), request.tools, |v: JsonView| read_tools(v))
    &&& part_is(given(e, "tool_choice"@), request.tool_choice, |v: JsonView| read_tool_choice(v))
    &&& part_is(given(e, "metadata"@), request.metadata, |v: JsonView| read_metadata(v))
    &&& text_is(given(e, "service_tier"@), request.service_tier)
    &&& text_is(given(e, "container"@), request.container)
}

/// A request is read as it is given, and nothing else is read as one.
#[verifier::rlimit(60)]
pub proof fn requests_are_read(e: Seq<(Seq<char>, JsonView)>)
    requires
        gives_keys_once(e),
    ensures
        match read_request(JsonView::Object(e)) {
            Ok(request) => request_head_is(e, request) && request_tail_is(e, request),
            Err(_) => forall|request: RequestView|
                !(#[trigger] request_head_is(e, request) && request_tail_is(e, request)),
        },
{
    request_fits(e);
}

/// A request to count tokens is read as it is given; of its other fields nothing is read.
pub proof fn count_requests_are_read(e: Seq<(Seq<char>, JsonView)>)
    requires
        gives_keys_once(e),
    ensures
        match read_count_tokens(JsonView::Object(e)) {
            Ok(params) => {
                &&& given(e, "model"@) == Some(JsonView::String(params.model))
                &&& part_is(
                    given(e, "metadata"@),
                    params.metadata,
                    |v: JsonView| read_metadata(v),
                )
            },
            Err(_) => !(given(e, "model"@) matches Some(JsonView::String(_))) || (given(
                e,
                "metadata"@,
            ) matches Some(v) && !(v is Null) && read_metadata(v) is Err),
        },
{
    count_tokens_fits(e);
}

/// Whether a count is what is given, zero where it is left out.
pub open spec fn count_is(x: Option<JsonView>, n: u32) -> bool {
    match x {
        Some(v) => is_natural(v, n),
        None => n == 0,
    }
}

/// The counts of a provider are read as they are given. Those of the cache may be left out.
pub proof fn counts_are_read(e: Seq<(Seq<char>, JsonView)>)
    requires
        gives_keys_once(e),
    ensures
        match read_counts(JsonView::Object(e)) {
            Ok(counts) => {
                &&& given(e, "input_tokens"@) is Some
                &&& count_is(given(e, "input_tokens"@), counts.input_tokens)
                &&& count_is(
                    given(e, "cache_creation_input_tokens"@),
                    counts.cache_creation_input_tokens,
                )
                &&& count_is(given(e, "cache_read_input_tokens"@), counts.cache_read_input_tokens)
            },
            Err(_) => given(e, "input_tokens"@) is None || (forall|n: u32|
                !#[trigger] count_is(given(e, "input_tokens"@), n)) || (forall|n: u32|
                !#[trigger] count_is(given(e, "cache_creation_input_tokens"@), n)) || (forall|
                n: u32,
            | !#[trigger] count_is(given(e, "cache_read_input_tokens"@), n)),
        },
{
    counts_fits(e);
    if given(e, "input_tokens"@) is Some {
        values_are_read(given(e, "input_tokens"@)->0);
    }
    if given(e, "cache_creation_input_tokens"@) is Some {
        values_are_read(given(e, "cache_creation_input_tokens"@)->0);
    }
    if given(e, "cache_read_input_tokens"@) is Some {
        values_are_read(given(e, "cache_read_input_tokens"@)->0);
    }
}

// ---------------------------------------------------------------------------
// Arrays
// ---------------------------------------------------------------------------

/// Whether two readings give the same, or both give nothing.
pub open spec fn agree<T>(a: Result<T, Seq<char>>, b: Result<T, Seq<char>>) -> bool {
    match (a, b) {
        (Ok(x), Ok(y)) => x == y,
        (Err(_), Err(_)) => true,
        _ => false,
    }
}

/// A block of a system prompt in an array is read as the object that gives the items by name.
pub proof fn system_block_arrays_are_read(items: Seq<JsonView>)
    requires
        items.len() == 3,
    ensures
        agree(
            read_system_block(JsonView::Array(items)),
            read_system_block(JsonView::Object(named::<SystemBlockShape>(items))),
        ),
{
    reveal_strlit("type");
    reveal_strlit("text");
    reveal_strlit("cache_control");
    assert("type"@.len() == 4);
    assert("text"@.len() == 4);
    assert("cache_control"@.len() == 13);
    assert("type"@[1] == 'y');
    assert("text"@[1] == 'e');
    let keys = SystemBlockShape::keys();
    assert(keys[0] == "type"@ && keys[1] == "text"@ && keys[2] == "cache_control"@);
    assert(fields_differ::<SystemBlockShape>());
    arrays_are_records::<SystemBlockShape>(items);
    let a = JsonView::Array(items);
    let b = JsonView::Object(named::<SystemBlockShape>(items));
    array_fields_are_named::<SystemBlockShape>(items, 0);
    array_fields_are_named::<SystemBlockShape>(items, 1);
    array_fields_are_named::<SystemBlockShape>(items, 2);
}

/// A message in an array is read as the object that gives the items by name.
pub proof fn message_arrays_are_read(items: Seq<JsonView>)
    requires
        items.len() == 2,
    ensures
        agree(
            read_message(JsonView::Array(items)),
            read_message(JsonView::Object(named::<MessageShape>(items))),
        ),
{
    reveal_strlit("role");
    reveal_strlit("content");
    assert("role"@.len() == 4);
    assert("content"@.len() == 7);
    let keys = MessageShape::keys();
    assert(keys[0] == "role"@ && keys[1] == "content"@);
    assert(fields_differ::<MessageShape>());
    arrays_are_records::<MessageShape>(items);
    let a = JsonView::Array(items);
    let b = JsonView::Object(named::<MessageShape>(items));
    array_fields_are_named::<MessageShape>(items, 0);
    array_fields_are_named::<MessageShape>(items, 1);
}

/// A tool definition in an array is read as the object that gives the items by name.
pub proof fn tool_arrays_are_read(items: Seq<JsonView>)
    requires
        items.len() == 5,
    ensures
        agree(
            read_tool(JsonView::Array(items)),
            read_tool(JsonView::Object(named::<ToolShape>(items))),
        ),
{
    reveal_strlit("name");
    reveal_strlit("description");
    reveal_strlit("input_schema");
    reveal_strlit("strict");
    reveal_strlit("cache_control");
    assert("name"@.len() == 4);
    assert("description"@.len() == 11);
    assert("input_schema"@.len() == 12);
    assert("strict"@.len() == 6);
    assert("cache_control"@.len() == 13);
    let keys = ToolShape::keys();
    assert(keys[0] == "name"@ && keys[1] == "description"@ && keys[2] == "input_schema"@ && keys[3] == "strict"@ && keys[4] == "cache_control"@);
    assert(fields_differ::<ToolShape>());
    arrays_are_records::<ToolShape>(items);
    let a = JsonView::Array(items);
    let b = JsonView::Object(named::<ToolShape>(items));
    array_fields_are_named::<ToolShape>(items, 0);
    array_fields_are_named::<ToolShape>(items, 1);
    array_fields_are_named::<ToolShape>(items, 2);
    array_fields_are_named::<ToolShape>(items, 3);
    array_fields_are_named::<ToolShape>(items, 4);
}

/// Metadata in an array are read as the object that gives the items by name.
pub proof fn metadata_arrays_are_read(items: Seq<JsonView>)
    requires
        items.len() == 2,
    ensures
        agree(
            read_metadata(JsonView::Array(items)),
            read_metadata(JsonView::Object(named::<MetadataShape>(items))),
        ),
{
    reveal_strlit("user_id");
    reveal_strlit("tensorzero");
    assert("user_id"@.len() == 7);
    assert("tensorzero"@.len() == 10);
    let keys = MetadataShape::keys();
    assert(keys[0] == "user_id"@ && keys[1] == "tensorzero"@);
    assert(fields_differ::<MetadataShape>());
    arrays_are_records::<MetadataShape>(items);
    let a = JsonView::Array(items);
    let b = JsonView::Object(named::<MetadataShape>(items));
    array_fields_are_named::<MetadataShape>(items, 0);
    array_fields_are_named::<MetadataShape>(items, 1);
}

/// The extension fields in an array are read as the object that gives the items by name.
#[verifier::rlimit(40)]
pub proof fn extension_arrays_are_read(items: Seq<JsonView>)
    requires
        items.len() == 11,
    ensures
        agree(
            read_extension(JsonView::Array(items)),
            read_extension(JsonView::Object(named::<ExtensionShape>(items))),
        ),
{
    reveal_strlit("episode_id");
    reveal_strlit("variant_name");
    reveal_strlit("tags");
    reveal_strlit("cache_options");
    reveal_strlit("extra_body");
    reveal_strlit("extra_headers");
    reveal_strlit("dryrun");
    reveal_strlit("namespace");
    reveal_strlit("credentials");
    reveal_strlit("params");
    reveal_strlit("include_raw_usage");
    assert("episode_id"@.len() == 10);
    assert("variant_name"@.len() == 12);
    assert("tags"@.len() == 4);
    assert("cache_options"@.len() == 13);
    assert("extra_body"@.len() == 10);
    assert("extra_headers"@.len() == 13);
    assert("dryrun"@.len() == 6);
    assert("namespace"@.len() == 9);
    assert("credentials"@.len() == 11);
    assert("params"@.len() == 6);
    assert("include_raw_usage"@.len() == 17);
    assert("episode_id"@[1] == 'p');
    assert("extra_body"@[1] == 'x');
    assert("cache_options"@[0] == 'c');
    assert("extra_headers"@[0] == 'e');
    assert("dryrun"@[0] == 'd');
    assert("params"@[0] == 'p');
    let keys = ExtensionShape::keys();
    assert(keys[0] == "episode_id"@ && keys[1] == "variant_name"@ && keys[2] == "tags"@ && keys[3] == "cache_options"@ && keys[4] == "extra_body"@ && keys[5] == "extra_headers"@ && keys[6] == "dryrun"@ && keys[7] == "namespace"@ && keys[8] == "credentials"@ && keys[9] == "params"@ && keys[10] == "include_raw_usage"@);
    assert(fields_differ::<ExtensionShape>());
    arrays_are_records::<ExtensionShape>(items);
    let a = JsonView::Array(items);
    let b = JsonView::Object(named::<ExtensionShape>(items));
    array_fields_are_named::<ExtensionShape>(items, 0);
    array_fields_are_named::<ExtensionShape>(items, 1);
    array_fields_are_named::<ExtensionShape>(items, 2);
    array_fields_are_named::<ExtensionShape>(items, 3);
    array_fields_are_named::<ExtensionShape>(items, 4);
    array_fields_are_named::<ExtensionShape>(items, 5);
    array_fields_are_named::<ExtensionShape>(items, 6);
    array_fields_are_named::<ExtensionShape>(items, 7);
    array_fields_are_named::<ExtensionShape>(items, 8);
    array_fields_are_named::<ExtensionShape>(items, 9);
    array_fields_are_named::<ExtensionShape>(items, 10);
}

/// A request in an array is read as the object that gives the items by name.
#[verifier::rlimit(40)]
pub proof fn request_arrays_are_read(items: Seq<JsonView>)
    requires
        items.len() == 14,
    ensures
        agree(
            read_request(JsonView::Array(items)),
            read_request(JsonView::Object(named::<RequestShape>(items))),
        ),
{
    reveal_strlit("model");
    reveal_strlit("messages");
    reveal_strlit("system");
    reveal_strlit("max_tokens");
    reveal_strlit("temperature");
    reveal_strlit("top_p");
    reveal_strlit("top_k");
    reveal_strlit("stop_sequences");
    reveal_strlit("stream");
    reveal_strlit("tools");
    reveal_strlit("tool_choice");
    reveal_strlit("metadata");
    reveal_strlit("service_tier");
    reveal_strlit("container");
    assert("model"@.len() == 5);
    assert("messages"@.len() == 8);
    assert("system"@.len() == 6);
    assert("max_tokens"@.len() == 10);
    assert("temperature"@.len() == 11);
    assert("top_p"@.len() == 5);
    assert("top_k"@.len() == 5);
    assert("stop_sequences"@.len() == 14);
    assert("stream"@.len() == 6);
    assert("tools"@.len() == 5);
    assert("tool_choice"@.len() == 11);
    assert("metadata"@.len() == 8);
    assert("service_tier"@.len() == 12);
    assert("container"@.len() == 9);
    assert("model"@[0] == 'm');
    assert("top_p"@[0] == 't');
    assert("top_k"@[0] == 't');
    assert("tools"@[0] == 't');
    assert("messages"@[2] == 's');
    assert("metadata"@[2] == 't');
    assert("system"@[1] == 'y');
    assert("stream"@[1] == 't');
    assert("temperature"@[1] == 'e');
    assert("tool_choice"@[1] == 'o');
    assert("top_p"@[4] == 'p');
    assert("top_k"@[4] == 'k');
    assert("top_p"@[2] == 'p');
    assert("tools"@[2] == 'o');
    assert("top_k"@[2] == 'p');
    let keys = RequestShape::keys();
    assert(keys[0] == "model"@ && keys[1] == "messages"@ && keys[2] == "system"@ && keys[3] == "max_tokens"@ && keys[4] == "temperature"@ && keys[5] == "top_p"@ && keys[6] == "top_k"@ && keys[7] == "stop_sequences"@ && keys[8] == "stream"@ && keys[9] == "tools"@ && keys[10] == "tool_choice"@ && keys[11] == "metadata"@ && keys[12] == "service_tier"@ && keys[13] == "container"@);
    assert(fields_differ::<RequestShape>());
    arrays_are_records::<RequestShape>(items);
    let a = JsonView::Array(items);
    let b = JsonView::Object(named::<RequestShape>(items));
    array_fields_are_named::<RequestShape>(items, 0);
    array_fields_are_named::<RequestShape>(items, 1);
    array_fields_are_named::<RequestShape>(items, 2);
    array_fields_are_named::<RequestShape>(items, 3);
    array_fields_are_named::<RequestShape>(items, 4);
    array_fields_are_named::<RequestShape>(items, 5);
    array_fields_are_named::<RequestShape>(items, 6);
    array_fields_are_named::<RequestShape>(items, 7);
    array_fields_are_named::<RequestShape>(items, 8);
    array_fields_are_named::<RequestShape>(items, 9);
    array_fields_are_named::<RequestShape>(items, 10);
    array_fields_are_named::<RequestShape>(items, 11);
    array_fields_are_named::<RequestShape>(items, 12);
    array_fields_are_named::<RequestShape>(items, 13);
    request_is_its_fields(a, b);
}

/// The counts of a provider in an array are read as the object that gives the items by name.
pub proof fn counts_arrays_are_read(items: Seq<JsonView>)
    requires
        items.len() == 3,
    ensures
        agree(
            read_counts(JsonView::Array(items)),
            read_counts(JsonView::Object(named::<CountsShape>(items))),
        ),
{
    reveal_strlit("input_tokens");
    reveal_strlit("cache_creation_input_tokens");
    reveal_strlit("cache_read_input_tokens");
    assert("input_tokens"@.len() == 12);
    assert("cache_creation_input_tokens"@.len() == 27);
    assert("cache_read_input_tokens"@.len() == 23);
    let keys = CountsShape::keys();
    assert(keys[0] == "input_tokens"@ && keys[1] == "cache_creation_input_tokens"@ && keys[2] == "cache_read_input_tokens"@);
    assert(fields_differ::<CountsShape>());
    arrays_are_records::<CountsShape>(items);
    let a = JsonView::Array(items);
    let b = JsonView::Object(named::<CountsShape>(items));
    array_fields_are_named::<CountsShape>(items, 0);
    array_fields_are_named::<CountsShape>(items, 1);
    array_fields_are_named::<CountsShape>(items, 2);
}

} // verus!
