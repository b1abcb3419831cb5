//! The fields of each record, by what an object gives under their names.
use crate::count_tokens::{CountTokensShape, CountsShape};
use crate::json::JsonView;
use crate::reader::{Shape, field, record_error};
use crate::record_laws::{field_is_given, fits, given, gives_keys_once, records_fit};
use crate::types::block_reader::{
    Base64DocumentShape, Base64ImageShape, BlockHeaderShape, ChoiceShape, DocumentBlockShape,
    ImageBlockShape, NamedChoiceShape, RedactedBlockShape, TextBlockShape, ThinkingBlockShape,
    ToolResultBlockShape, ToolUseBlockShape, UrlDocumentShape, UrlImageShape,
};
use crate::types::metadata_reader::{ChatParamsShape, ExtensionShape, MetadataShape, ParamsShape};
use crate::types::request_reader::{MessageShape, RequestShape, SystemBlockShape, ToolShape};
use vstd::prelude::*;

verus! {

pub(crate) proof fn block_header_fits(entries: Seq<(Seq<char>, JsonView)>)
    requires
        gives_keys_once(entries),
    ensures
        record_error::<BlockHeaderShape>(JsonView::Object(entries)) is None <==> fits::<BlockHeaderShape>(0, given(entries, "type"@)),
        field(JsonView::Object(entries), 0, "type"@) == given(entries, "type"@),
{
    let keys = BlockHeaderShape::keys();
    assert(keys[0] == "type"@);
    records_fit::<BlockHeaderShape>(entries);
    field_is_given(entries, 0, "type"@);
    assert(given(entries, keys[0]) == given(entries, "type"@));
    if fits::<BlockHeaderShape>(0, given(entries, keys[0])) {
        assert forall|i: int| 0 <= i < BlockHeaderShape::keys().len() implies fits::<BlockHeaderShape>(
            i,
            given(entries, #[trigger] BlockHeaderShape::keys()[i]),
        ) by {
            assert(i == 0);
        }
    }
}

pub(crate) proof fn text_block_fits(entries: Seq<(Seq<char>, JsonView)>)
    requires
        gives_keys_once(entries),
    ensures
        record_error::<TextBlockShape>(JsonView::Object(entries)) is None <==> fits::<TextBlockShape>(0, given(entries, "text"@))
            && fits::<TextBlockShape>(1, given(entries, "cache_control"@)),
        field(JsonView::Object(entries), 0, "text"@) == given(entries, "text"@),
        field(JsonView::Object(entries), 1, "cache_control"@) == given(entries, "cache_control"@),
{
    reveal_strlit("text");
    reveal_strlit("cache_control");
    assert("text"@.len() == 4);
    assert("cache_control"@.len() == 13);
    let keys = TextBlockShape::keys();
    assert(keys[0] == "text"@ && keys[1] == "cache_control"@);
    records_fit::<TextBlockShape>(entries);
    field_is_given(entries, 0, "text"@);
    field_is_given(entries, 1, "cache_control"@);
    assert(given(entries, keys[0]) == given(entries, "text"@));
    assert(given(entries, keys[1]) == given(entries, "cache_control"@));
    if fits::<TextBlockShape>(0, given(entries, keys[0])) && fits::<TextBlockShape>(1, given(entries, keys[1])) {
        assert forall|i: int| 0 <= i < TextBlockShape::keys().len() implies fits::<TextBlockShape>(
            i,
            given(entries, #[trigger] TextBlockShape::keys()[i]),
        ) by {
            assert(i == 0 || i == 1);
        }
    }
}

pub(crate) proof fn image_block_fits(entries: Seq<(Seq<char>, JsonView)>)
    requires
        gives_keys_once(entries),
    ensures
        record_error::<ImageBlockShape>(JsonView::Object(entries)) is None <==> fits::<ImageBlockShape>(0, given(entries, "cache_control"@))
            && fits::<ImageBlockShape>(1, given(entries, "source"@)),
        field(JsonView::Object(entries), 0, "cache_control"@) == given(entries, "cache_control"@),
        field(JsonView::Object(entries), 1, "source"@) == given(entries, "source"@),
{
    reveal_strlit("cache_control");
    reveal_strlit("source");
    assert("cache_control"@.len() == 13);
    assert("source"@.len() == 6);
    let keys = ImageBlockShape::keys();
    assert(keys[0] == "cache_control"@ && keys[1] == "source"@);
    records_fit::<ImageBlockShape>(entries);
    field_is_given(entries, 0, "cache_control"@);
    field_is_given(entries, 1, "source"@);
    assert(given(entries, keys[0]) == given(entries, "cache_control"@));
    assert(given(entries, keys[1]) == given(entries, "source"@));
    if fits::<ImageBlockShape>(0, given(entries, keys[0])) && fits::<ImageBlockShape>(1, given(entries, keys[1])) {
        assert forall|i: int| 0 <= i < ImageBlockShape::keys().len() implies fits::<ImageBlockShape>(
            i,
            given(entries, #[trigger] ImageBlockShape::keys()[i]),
        ) by {
            assert(i == 0 || i == 1);
        }
    }
}

pub(crate) proof fn document_block_fits(entries: Seq<(Seq<char>, JsonView)>)
    requires
        gives_keys_once(entries),
    ensures
        record_error::<DocumentBlockShape>(JsonView::Object(entries)) is None <==> fits::<DocumentBlockShape>(0, given(entries, "cache_control"@))
            && fits::<DocumentBlockShape>(1, given(entries, "source"@)),
        field(JsonView::Object(entries), 0, "cache_control"@) == given(entries, "cache_control"@),
        field(JsonView::Object(entries), 1, "source"@) == given(entries, "source"@),
{
    reveal_strlit("cache_control");
    reveal_strlit("source");
    assert("cache_control"@.len() == 13);
    assert("source"@.len() == 6);
    let keys = DocumentBlockShape::keys();
    assert(keys[0] == "cache_control"@ && keys[1] == "source"@);
    records_fit::<DocumentBlockShape>(entries);
    field_is_given(entries, 0, "cache_control"@);
    field_is_given(entries, 1, "source"@);
    assert(given(entries, keys[0]) == given(entries, "cache_control"@));
    assert(given(entries, keys[1]) == given(entries, "source"@));
    if fits::<DocumentBlockShape>(0, given(entries, keys[0])) && fits::<DocumentBlockShape>(1, given(entries, keys[1])) {
        assert forall|i: int| 0 <= i < DocumentBlockShape::keys().len() implies fits::<DocumentBlockShape>(
            i,
            given(entries, #[trigger] DocumentBlockShape::keys()[i]),
        ) by {
            assert(i == 0 || i == 1);
        }
    }
}

pub(crate) proof fn tool_use_block_fits(entries: Seq<(Seq<char>, JsonView)>)
    requires
        gives_keys_once(entries),
    ensures
        record_error::<ToolUseBlockShape>(JsonView::Object(entries)) is None <==> fits::<ToolUseBlockShape>(0, given(entries, "id"@))
            && fits::<ToolUseBlockShape>(1, given(entries, "name"@))
            && fits::<ToolUseBlockShape>(2, given(entries, "input"@))
            && fits::<ToolUseBlockShape>(3, given(entries, "cache_control"@)),
        field(JsonView::Object(entries), 0, "id"@) == given(entries, "id"@),
        field(JsonView::Object(entries), 1, "name"@) == given(entries, "name"@),
        field(JsonView::Object(entries), 2, "input"@) == given(entries, "input"@),
        field(JsonView::Object(entries), 3, "cache_control"@) == given(entries, "cache_control"@),
{
    reveal_strlit("id");
    reveal_strlit("name");
    reveal_strlit("input");
    reveal_strlit("cache_control");
    assert("id"@.len() == 2);
    assert("name"@.len() == 4);
    assert("input"@.len() == 5);
    assert("cache_control"@.len() == 13);
    let keys = ToolUseBlockShape::keys();
    assert(keys[0] == "id"@ && keys[1] == "name"@ && keys[2] == "input"@ && keys[3] == "cache_control"@);
    records_fit::<ToolUseBlockShape>(entries);
    field_is_given(entries, 0, "id"@);
    field_is_given(entries, 1, "name"@);
    field_is_given(entries, 2, "input"@);
    field_is_given(entries, 3, "cache_control"@);
    assert(given(entries, keys[0]) == given(entries, "id"@));
    assert(given(entries, keys[1]) == given(entries, "name"@));
    assert(given(entries, keys[2]) == given(entries, "input"@));
    assert(given(entries, keys[3]) == given(entries, "cache_control"@));
    if fits::<ToolUseBlockShape>(0, given(entries, keys[0])) && fits::<ToolUseBlockShape>(1, given(entries, keys[1])) && fits::<ToolUseBlockShape>(2, given(entries, keys[2])) && fits::<ToolUseBlockShape>(3, given(entries, keys[3])) {
        assert forall|i: int| 0 <= i < ToolUseBlockShape::keys().len() implies fits::<ToolUseBlockShape>(
            i,
            given(entries, #[trigger] ToolUseBlockShape::keys()[i]),
        ) by {
            assert(i == 0 || i == 1 || i == 2 || i == 3);
        }
    }
}

pub(crate) proof fn tool_result_block_fits(entries: Seq<(Seq<char>, JsonView)>)
    requires
        gives_keys_once(entries),
    ensures
        record_error::<ToolResultBlockShape>(JsonView::Object(entries)) is None <==> fits::<ToolResultBlockShape>(0, given(entries, "tool_use_id"@))
            && fits::<ToolResultBlockShape>(1, given(entries, "content"@))
            && fits::<ToolResultBlockShape>(2, given(entries, "is_error"@))
            && fits::<ToolResultBlockShape>(3, given(entries, "cache_control"@)),
        field(JsonView::Object(entries), 0, "tool_use_id"@) == given(entries, "tool_use_id"@),
        field(JsonView::Object(entries), 1, "content"@) == given(entries, "content"@),
        field(JsonView::Object(entries), 2, "is_error"@) == given(entries, "is_error"@),
        field(JsonView::Object(entries), 3, "cache_control"@) == given(entries, "cache_control"@),
{
    reveal_strlit("tool_use_id");
    reveal_strlit("content");
    reveal_strlit("is_error");
    reveal_strlit("cache_control");
    assert("tool_use_id"@.len() == 11);
    assert("content"@.len() == 7);
    assert("is_error"@.len() == 8);
    assert("cache_control"@.len() == 13);
    let keys = ToolResultBlockShape::keys();
    assert(keys[0] == "tool_use_id"@ && keys[1] == "content"@ && keys[2] == "is_error"@ && keys[3] == "cache_control"@);
    records_fit::<ToolResultBlockShape>(entries);
    field_is_given(entries, 0, "tool_use_id"@);
    field_is_given(entries, 1, "content"@);
    field_is_given(entries, 2, "is_error"@);
    field_is_given(entries, 3, "cache_control"@);
    assert(given(entries, keys[0]) == given(entries, "tool_use_id"@));
    assert(given(entries, keys[1]) == given(entries, "content"@));
    assert(given(entries, keys[2]) == given(entries, "is_error"@));
    assert(given(entries, keys[3]) == given(entries, "cache_control"@));
    if fits::<ToolResultBlockShape>(0, given(entries, keys[0])) && fits::<ToolResultBlockShape>(1, given(entries, keys[1])) && fits::<ToolResultBlockShape>(2, given(entries, keys[2])) && fits::<ToolResultBlockShape>(3, given(entries, keys[3])) {
        assert forall|i: int| 0 <= i < ToolResultBlockShape::keys().len() implies fits::<ToolResultBlockShape>(
            i,
            given(entries, #[trigger] ToolResultBlockShape::keys()[i]),
        ) by {
            assert(i == 0 || i == 1 || i == 2 || i == 3);
        }
    }
}

pub(crate) proof fn thinking_block_fits(entries: Seq<(Seq<char>, JsonView)>)
    requires
        gives_keys_once(entries),
    ensures
        record_error::<ThinkingBlockShape>(JsonView::Object(entries)) is None <==> fits::<ThinkingBlockShape>(0, given(entries, "thinking"@))
            && fits::<ThinkingBlockShape>(1, given(entries, "signature"@)),
        field(JsonView::Object(entries), 0, "thinking"@) == given(entries, "thinking"@),
        field(JsonView::Object(entries), 1, "signature"@) == given(entries, "signature"@),
{
    reveal_strlit("thinking");
    reveal_strlit("signature");
    assert("thinking"@.len() == 8);
    assert("signature"@.len() == 9);
    let keys = ThinkingBlockShape::keys();
    assert(keys[0] == "thinking"@ && keys[1] == "signature"@);
    records_fit::<ThinkingBlockShape>(entries);
    field_is_given(entries, 0, "thinking"@);
    field_is_given(entries, 1, "signature"@);
    assert(given(entries, keys[0]) == given(entries, "thinking"@));
    assert(given(entries, keys[1]) == given(entries, "signature"@));
    if fits::<ThinkingBlockShape>(0, given(entries, keys[0])) && fits::<ThinkingBlockShape>(1, given(entries, keys[1])) {
        assert forall|i: int| 0 <= i < ThinkingBlockShape::keys().len() implies fits::<ThinkingBlockShape>(
            i,
            given(entries, #[trigger] ThinkingBlockShape::keys()[i]),
        ) by {
            assert(i == 0 || i == 1);
        }
    }
}

pub(crate) proof fn redacted_block_fits(entries: Seq<(Seq<char>, JsonView)>)
    requires
        gives_keys_once(entries),
    ensures
        record_error::<RedactedBlockShape>(JsonView::Object(entries)) is None <==> fits::<RedactedBlockShape>(0, given(entries, "data"@)),
        field(JsonView::Object(entries), 0, "data"@) == given(entries, "data"@),
{
    let keys = RedactedBlockShape::keys();
    assert(keys[0] == "data"@);
    records_fit::<RedactedBlockShape>(entries);
    field_is_given(entries, 0, "data"@);
    assert(given(entries, keys[0]) == given(entries, "data"@));
    if fits::<RedactedBlockShape>(0, given(entries, keys[0])) {
        assert forall|i: int| 0 <= i < RedactedBlockShape::keys().len() implies fits::<RedactedBlockShape>(
            i,
            given(entries, #[trigger] RedactedBlockShape::keys()[i]),
        ) by {
            assert(i == 0);
        }
    }
}

pub(crate) proof fn base64_image_fits(entries: Seq<(Seq<char>, JsonView)>)
    requires
        gives_keys_once(entries),
    ensures
        record_error::<Base64ImageShape>(JsonView::Object(entries)) is None <==> fits::<Base64ImageShape>(0, given(entries, "media_type"@))
            && fits::<Base64ImageShape>(1, given(entries, "data"@)),
        field(JsonView::Object(entries), 0, "media_type"@) == given(entries, "media_type"@),
        field(JsonView::Object(entries), 1, "data"@) == given(entries, "data"@),
{
    reveal_strlit("media_type");
    reveal_strlit("data");
    assert("media_type"@.len() == 10);
    assert("data"@.len() == 4);
    let keys = Base64ImageShape::keys();
    assert(keys[0] == "media_type"@ && keys[1] == "data"@);
    records_fit::<Base64ImageShape>(entries);
    field_is_given(entries, 0, "media_type"@);
    field_is_given(entries, 1, "data"@);
    assert(given(entries, keys[0]) == given(entries, "media_type"@));
    assert(given(entries, keys[1]) == given(entries, "data"@));
    if fits::<Base64ImageShape>(0, given(entries, keys[0])) && fits::<Base64ImageShape>(1, given(entries, keys[1])) {
        assert forall|i: int| 0 <= i < Base64ImageShape::keys().len() implies fits::<Base64ImageShape>(
            i,
            given(entries, #[trigger] Base64ImageShape::keys()[i]),
        ) by {
            assert(i == 0 || i == 1);
        }
    }
}

pub(crate) proof fn url_image_fits(entries: Seq<(Seq<char>, JsonView)>)
    requires
        gives_keys_once(entries),
    ensures
        record_error::<UrlImageShape>(JsonView::Object(entries)) is None <==> fits::<UrlImageShape>(0, given(entries, "url"@)),
        field(JsonView::Object(entries), 0, "url"@) == given(entries, "url"@),
{
    let keys = UrlImageShape::keys();
    assert(keys[0] == "url"@);
    records_fit::<UrlImageShape>(entries);
    field_is_given(entries, 0, "url"@);
    assert(given(entries, keys[0]) == given(entries, "url"@));
    if fits::<UrlImageShape>(0, given(entries, keys[0])) {
        assert forall|i: int| 0 <= i < UrlImageShape::keys().len() implies fits::<UrlImageShape>(
            i,
            given(entries, #[trigger] UrlImageShape::keys()[i]),
        ) by {
            assert(i == 0);
        }
    }
}

pub(crate) proof fn base64_document_fits(entries: Seq<(Seq<char>, JsonView)>)
    requires
        gives_keys_once(entries),
    ensures
        record_error::<Base64DocumentShape>(JsonView::Object(entries)) is None <==> fits::<Base64DocumentShape>(0, given(entries, "media_type"@))
            && fits::<Base64DocumentShape>(1, given(entries, "data"@)),
        field(JsonView::Object(entries), 0, "media_type"@) == given(entries, "media_type"@),
        field(JsonView::Object(entries), 1, "data"@) == given(entries, "data"@),
{
    reveal_strlit("media_type");
    reveal_strlit("data");
    assert("media_type"@.len() == 10);
    assert("data"@.len() == 4);
    let keys = Base64DocumentShape::keys();
    assert(keys[0] == "media_type"@ && keys[1] == "data"@);
    records_fit::<Base64DocumentShape>(entries);
    field_is_given(entries, 0, "media_type"@);
    field_is_given(entries, 1, "data"@);
    assert(given(entries, keys[0]) == given(entries, "media_type"@));
    assert(given(entries, keys[1]) == given(entries, "data"@));
    if fits::<Base64DocumentShape>(0, given(entries, keys[0])) && fits::<Base64DocumentShape>(1, given(entries, keys[1])) {
        assert forall|i: int| 0 <= i < Base64DocumentShape::keys().len() implies fits::<Base64DocumentShape>(
            i,
            given(entries, #[trigger] Base64DocumentShape::keys()[i]),
        ) by {
            assert(i == 0 || i == 1);
        }
    }
}

pub(crate) proof fn url_document_fits(entries: Seq<(Seq<char>, JsonView)>)
    requires
        gives_keys_once(entries),
    ensures
        record_error::<UrlDocumentShape>(JsonView::Object(entries)) is None <==> fits::<UrlDocumentShape>(0, given(entries, "url"@)),
        field(JsonView::Object(entries), 0, "url"@) == given(entries, "url"@),
{
    let keys = UrlDocumentShape::keys();
    assert(keys[0] == "url"@);
    records_fit::<UrlDocumentShape>(entries);
    field_is_given(entries, 0, "url"@);
    assert(given(entries, keys[0]) == given(entries, "url"@));
    if fits::<UrlDocumentShape>(0, given(entries, keys[0])) {
        assert forall|i: int| 0 <= i < UrlDocumentShape::keys().len() implies fits::<UrlDocumentShape>(
            i,
            given(entries, #[trigger] UrlDocumentShape::keys()[i]),
        ) by {
            assert(i == 0);
        }
    }
}

pub(crate) proof fn choice_fits(entries: Seq<(Seq<char>, JsonView)>)
    requires
        gives_keys_once(entries),
    ensures
        record_error::<ChoiceShape>(JsonView::Object(entries)) is None <==> fits::<ChoiceShape>(0, given(entries, "disable_parallel_tool_use"@)),
        field(JsonView::Object(entries), 0, "disable_parallel_tool_use"@) == given(entries, "disable_parallel_tool_use"@),
{
    let keys = ChoiceShape::keys();
    assert(keys[0] == "disable_parallel_tool_use"@);
    records_fit::<ChoiceShape>(entries);
    field_is_given(entries, 0, "disable_parallel_tool_use"@);
    assert(given(entries, keys[0]) == given(entries, "disable_parallel_tool_use"@));
    if fits::<ChoiceShape>(0, given(entries, keys[0])) {
        assert forall|i: int| 0 <= i < ChoiceShape::keys().len() implies fits::<ChoiceShape>(
            i,
            given(entries, #[trigger] ChoiceShape::keys()[i]),
        ) by {
            assert(i == 0);
        }
    }
}

pub(crate) proof fn named_choice_fits(entries: Seq<(Seq<char>, JsonView)>)
    requires
        gives_keys_once(entries),
    ensures
        record_error::<NamedChoiceShape>(JsonView::Object(entries)) is None <==> fits::<NamedChoiceShape>(0, given(entries, "name"@))
            && fits::<NamedChoiceShape>(1, given(entries, "disable_parallel_tool_use"@)),
        field(JsonView::Object(entries), 0, "name"@) == given(entries, "name"@),
        field(JsonView::Object(entries), 1, "disable_parallel_tool_use"@) == given(entries, "disable_parallel_tool_use"@),
{
    reveal_strlit("name");
    reveal_strlit("disable_parallel_tool_use");
    assert("name"@.len() == 4);
    assert("disable_parallel_tool_use"@.len() == 25);
    let keys = NamedChoiceShape::keys();
    assert(keys[0] == "name"@ && keys[1] == "disable_parallel_tool_use"@);
    records_fit::<NamedChoiceShape>(entries);
    field_is_given(entries, 0, "name"@);
    field_is_given(entries, 1, "disable_parallel_tool_use"@);
    assert(given(entries, keys[0]) == given(entries, "name"@));
    assert(given(entries, keys[1]) == given(entries, "disable_parallel_tool_use"@));
    if fits::<NamedChoiceShape>(0, given(entries, keys[0])) && fits::<NamedChoiceShape>(1, given(entries, keys[1])) {
        assert forall|i: int| 0 <= i < NamedChoiceShape::keys().len() implies fits::<NamedChoiceShape>(
            i,
            given(entries, #[trigger] NamedChoiceShape::keys()[i]),
        ) by {
            assert(i == 0 || i == 1);
        }
    }
}

pub(crate) proof fn system_block_fits(entries: Seq<(Seq<char>, JsonView)>)
    requires
        gives_keys_once(entries),
    ensures
        record_error::<SystemBlockShape>(JsonView::Object(entries)) is None <==> fits::<SystemBlockShape>(0, given(entries, "type"@))
            && fits::<SystemBlockShape>(1, given(entries, "text"@))
            && fits::<SystemBlockShape>(2, given(entries, "cache_control"@)),
        field(JsonView::Object(entries), 0, "type"@) == given(entries, "type"@),
        field(JsonView::Object(entries), 1, "text"@) == given(entries, "text"@),
        field(JsonView::Object(entries), 2, "cache_control"@) == given(entries, "cache_control"@),
{
    reveal_strlit("type");
    reveal_strlit("text");
    reveal_strlit("cache_control");
    assert("type"@.len() == 4);
    assert("text"@.len() == 4);
    assert("cache_control"@.len() == 13);
    assert("type"@[1] == 'y');
    assert("text"@[1] == 'e');
    let keys = SystemBlockShape::keys();
    assert(keys[0] == "type"@ && keys[1] == "text"@ && keys[2] == "cache_control"@);
    records_fit::<SystemBlockShape>(entries);
    field_is_given(entries, 0, "type"@);
    field_is_given(entries, 1, "text"@);
    field_is_given(entries, 2, "cache_control"@);
    assert(given(entries, keys[0]) == given(entries, "type"@));
    assert(given(entries, keys[1]) == given(entries, "text"@));
    assert(given(entries, keys[2]) == given(entries, "cache_control"@));
    if fits::<SystemBlockShape>(0, given(entries, keys[0])) && fits::<SystemBlockShape>(1, given(entries, keys[1])) && fits::<SystemBlockShape>(2, given(entries, keys[2])) {
        assert forall|i: int| 0 <= i < SystemBlockShape::keys().len() implies fits::<SystemBlockShape>(
            i,
            given(entries, #[trigger] SystemBlockShape::keys()[i]),
        ) by {
            assert(i == 0 || i == 1 || i == 2);
        }
    }
}

pub(crate) proof fn message_fits(entries: Seq<(Seq<char>, JsonView)>)
    requires
        gives_keys_once(entries),
    ensures
        record_error::<MessageShape>(JsonView::Object(entries)) is None <==> fits::<MessageShape>(0, given(entries, "role"@))
            && fits::<MessageShape>(1, given(entries, "content"@)),
        field(JsonView::Object(entries), 0, "role"@) == given(entries, "role"@),
        field(JsonView::Object(entries), 1, "content"@) == given(entries, "content"@),
{
    reveal_strlit("role");
    reveal_strlit("content");
    assert("role"@.len() == 4);
    assert("content"@.len() == 7);
    let keys = MessageShape::keys();
    assert(keys[0] == "role"@ && keys[1] == "content"@);
    records_fit::<MessageShape>(entries);
    field_is_given(entries, 0, "role"@);
    field_is_given(entries, 1, "content"@);
    assert(given(entries, keys[0]) == given(entries, "role"@));
    assert(given(entries, keys[1]) == given(entries, "content"@));
    if fits::<MessageShape>(0, given(entries, keys[0])) && fits::<MessageShape>(1, given(entries, keys[1])) {
        assert forall|i: int| 0 <= i < MessageShape::keys().len() implies fits::<MessageShape>(
            i,
            given(entries, #[trigger] MessageShape::keys()[i]),
        ) by {
            assert(i == 0 || i == 1);
        }
    }
}

pub(crate) proof fn tool_fits(entries: Seq<(Seq<char>, JsonView)>)
    requires
        gives_keys_once(entries),
    ensures
        record_error::<ToolShape>(JsonView::Object(entries)) is None <==> fits::<ToolShape>(0, given(entries, "name"@))
            && fits::<ToolShape>(1, given(entries, "description"@))
            && fits::<ToolShape>(2, given(entries, "input_schema"@))
            && fits::<ToolShape>(3, given(entries, "strict"@))
            && fits::<ToolShape>(4, given(entries, "cache_control"@)),
        field(JsonView::Object(entries), 0, "name"@) == given(entries, "name"@),
        field(JsonView::Object(entries), 1, "description"@) == given(entries, "description"@),
        field(JsonView::Object(entries), 2, "input_schema"@) == given(entries, "input_schema"@),
        field(JsonView::Object(entries), 3, "strict"@) == given(entries, "strict"@),
        field(JsonView::Object(entries), 4, "cache_control"@) == given(entries, "cache_control"@),
{
    reveal_strlit("name");
    reveal_strlit("description");
    reveal_strlit("input_schema");
    reveal_strlit("strict");
    reveal_strlit("cache_control");
    assert("name"@.len() == 4);
    assert("description"@.len() == 11);
    assert("input_schema"@.len() == 12);
    assert("strict"@.len() == 6);
    assert("cache_control"@.len() == 13);
    let keys = ToolShape::keys();
    assert(keys[0] == "name"@ && keys[1] == "description"@ && keys[2] == "input_schema"@ && keys[3] == "strict"@ && keys[4] == "cache_control"@);
    records_fit::<ToolShape>(entries);
    field_is_given(entries, 0, "name"@);
    field_is_given(entries, 1, "description"@);
    field_is_given(entries, 2, "input_schema"@);
    field_is_given(entries, 3, "strict"@);
    field_is_given(entries, 4, "cache_control"@);
    assert(given(entries, keys[0]) == given(entries, "name"@));
    assert(given(entries, keys[1]) == given(entries, "description"@));
    assert(given(entries, keys[2]) == given(entries, "input_schema"@));
    assert(given(entries, keys[3]) == given(entries, "strict"@));
    assert(given(entries, keys[4]) == given(entries, "cache_control"@));
    if fits::<ToolShape>(0, given(entries, keys[0])) && fits::<ToolShape>(1, given(entries, keys[1])) && fits::<ToolShape>(2, given(entries, keys[2])) && fits::<ToolShape>(3, given(entries, keys[3])) && fits::<ToolShape>(4, given(entries, keys[4])) {
        assert forall|i: int| 0 <= i < ToolShape::keys().len() implies fits::<ToolShape>(
            i,
            given(entries, #[trigger] ToolShape::keys()[i]),
        ) by {
            assert(i == 0 || i == 1 || i == 2 || i == 3 || i == 4);
        }
    }
}

pub(crate) proof fn metadata_fits(entries: Seq<(Seq<char>, JsonView)>)
    requires
        gives_keys_once(entries),
    ensures
        record_error::<MetadataShape>(JsonView::Object(entries)) is None <==> fits::<MetadataShape>(0, given(entries, "user_id"@))
            && fits::<MetadataShape>(1, given(entries, "tensorzero"@)),
        field(JsonView::Object(entries), 0, "user_id"@) == given(entries, "user_id"@),
        field(JsonView::Object(entries), 1, "tensorzero"@) == given(entries, "tensorzero"@),
{
    reveal_strlit("user_id");
    reveal_strlit("tensorzero");
    assert("user_id"@.len() == 7);
    assert("tensorzero"@.len() == 10);
    let keys = MetadataShape::keys();
    assert(keys[0] == "user_id"@ && keys[1] == "tensorzero"@);
    records_fit::<MetadataShape>(entries);
    field_is_given(entries, 0, "user_id"@);
    field_is_given(entries, 1, "tensorzero"@);
    assert(given(entries, keys[0]) == given(entries, "user_id"@));
    assert(given(entries, keys[1]) == given(entries, "tensorzero"@));
    if fits::<MetadataShape>(0, given(entries, keys[0])) && fits::<MetadataShape>(1, given(entries, keys[1])) {
        assert forall|i: int| 0 <= i < MetadataShape::keys().len() implies fits::<MetadataShape>(
            i,
            given(entries, #[trigger] MetadataShape::keys()[i]),
        ) by {
            assert(i == 0 || i == 1);
        }
    }
}

#[verifier::rlimit(40)]
pub(crate) proof fn extension_fits(entries: Seq<(Seq<char>, JsonView)>)
    requires
        gives_keys_once(entries),
    ensures
        record_error::<ExtensionShape>(JsonView::Object(entries)) is None <==> fits::<ExtensionShape>(0, given(entries, "episode_id"@))
            && fits::<ExtensionShape>(1, given(entries, "variant_name"@))
            && fits::<ExtensionShape>(2, given(entries, "tags"@))
            && fits::<ExtensionShape>(3, given(entries, "cache_options"@))
            && fits::<ExtensionShape>(4, given(entries, "extra_body"@))
            && fits::<ExtensionShape>(5, given(entries, "extra_headers"@))
            && fits::<ExtensionShape>(6, given(entries, "dryrun"@))
            && fits::<ExtensionShape>(7, given(entries, "namespace"@))
            && fits::<ExtensionShape>(8, given(entries, "credentials"@))
            && fits::<ExtensionShape>(9, given(entries, "params"@))
            && fits::<ExtensionShape>(10, given(entries, "include_raw_usage"@)),
        field(JsonView::Object(entries), 0, "episode_id"@) == given(entries, "episode_id"@),
        field(JsonView::Object(entries), 1, "variant_name"@) == given(entries, "variant_name"@),
        field(JsonView::Object(entries), 2, "tags"@) == given(entries, "tags"@),
        field(JsonView::Object(entries), 3, "cache_options"@) == given(entries, "cache_options"@),
        field(JsonView::Object(entries), 4, "extra_body"@) == given(entries, "extra_body"@),
        field(JsonView::Object(entries), 5, "extra_headers"@) == given(entries, "extra_headers"@),
        field(JsonView::Object(entries), 6, "dryrun"@) == given(entries, "dryrun"@),
        field(JsonView::Object(entries), 7, "namespace"@) == given(entries, "namespace"@),
        field(JsonView::Object(entries), 8, "credentials"@) == given(entries, "credentials"@),
        field(JsonView::Object(entries), 9, "params"@) == given(entries, "params"@),
        field(JsonView::Object(entries), 10, "include_raw_usage"@) == given(entries, "include_raw_usage"@),
{
    reveal_strlit("episode_id");
    reveal_strlit("variant_name");
    reveal_strlit("tags");
    reveal_strlit("cache_options");
    reveal_strlit("extra_body");
    reveal_strlit("extra_headers");
    reveal_strlit("dryrun");
    reveal_strlit("namespace");
    reveal_strlit("credentials");
    reveal_strlit("params");
    reveal_strlit("include_raw_usage");
    assert("episode_id"@.len() == 10);
    assert("variant_name"@.len() == 12);
    assert("tags"@.len() == 4);
    assert("cache_options"@.len() == 13);
    assert("extra_body"@.len() == 10);
    assert("extra_headers"@.len() == 13);
    assert("dryrun"@.len() == 6);
    assert("namespace"@.len() == 9);
    assert("credentials"@.len() == 11);
    assert("params"@.len() == 6);
    assert("include_raw_usage"@.len() == 17);
    assert("episode_id"@[1] == 'p');
    assert("extra_body"@[1] == 'x');
    assert("cache_options"@[0] == 'c');
    assert("extra_headers"@[0] == 'e');
    assert("dryrun"@[0] == 'd');
    assert("params"@[0] == 'p');
    let keys = ExtensionShape::keys();
    assert(keys[0] == "episode_id"@ && keys[1] == "variant_name"@ && keys[2] == "tags"@ && keys[3] == "cache_options"@ && keys[4] == "extra_body"@ && keys[5] == "extra_headers"@ && keys[6] == "dryrun"@ && keys[7] == "namespace"@ && keys[8] == "credentials"@ && keys[9] == "params"@ && keys[10] == "include_raw_usage"@);
    records_fit::<ExtensionShape>(entries);
    field_is_given(entries, 0, "episode_id"@);
    field_is_given(entries, 1, "variant_name"@);
    field_is_given(entries, 2, "tags"@);
    field_is_given(entries, 3, "cache_options"@);
    field_is_given(entries, 4, "extra_body"@);
    field_is_given(entries, 5, "extra_headers"@);
    field_is_given(entries, 6, "dryrun"@);
    field_is_given(entries, 7, "namespace"@);
    field_is_given(entries, 8, "credentials"@);
    field_is_given(entries, 9, "params"@);
    field_is_given(entries, 10, "include_raw_usage"@);
    assert(given(entries, keys[0]) == given(entries, "episode_id"@));
    assert(given(entries, keys[1]) == given(entries, "variant_name"@));
    assert(given(entries, keys[2]) == given(entries, "tags"@));
    assert(given(entries, keys[3]) == given(entries, "cache_options"@));
    assert(given(entries, keys[4]) == given(entries, "extra_body"@));
    assert(given(entries, keys[5]) == given(entries, "extra_headers"@));
    assert(given(entries, keys[6]) == given(entries, "dryrun"@));
    assert(given(entries, keys[7]) == given(entries, "namespace"@));
    assert(given(entries, keys[8]) == given(entries, "credentials"@));
    assert(given(entries, keys[9]) == given(entries, "params"@));
    assert(given(entries, keys[10]) == given(entries, "include_raw_usage"@));
    if fits::<ExtensionShape>(0, given(entries, keys[0])) && fits::<ExtensionShape>(1, given(entries, keys[1])) && fits::<ExtensionShape>(2, given(entries, keys[2])) && fits::<ExtensionShape>(3, given(entries, keys[3])) && fits::<ExtensionShape>(4, given(entries, keys[4])) && fits::<ExtensionShape>(5, given(entries, keys[5])) && fits::<ExtensionShape>(6, given(entries, keys[6])) && fits::<ExtensionShape>(7, given(entries, keys[7])) && fits::<ExtensionShape>(8, given(entries, keys[8])) && fits::<ExtensionShape>(9, given(entries, keys[9])) && fits::<ExtensionShape>(10, given(entries, keys[10])) {
        assert forall|i: int| 0 <= i < ExtensionShape::keys().len() implies fits::<ExtensionShape>(
            i,
            given(entries, #[trigger] ExtensionShape::keys()[i]),
        ) by {
            assert(i == 0 || i == 1 || i == 2 || i == 3 || i == 4 || i == 5 || i == 6 || i == 7 || i == 8 || i == 9 || i == 10);
        }
    }
}

pub(crate) proof fn chat_params_fits(entries: Seq<(Seq<char>, JsonView)>)
    requires
        gives_keys_once(entries),
    ensures
        record_error::<ChatParamsShape>(JsonView::Object(entries)) is None <==> fits::<ChatParamsShape>(0, given(entries, "temperature"@))
            && fits::<ChatParamsShape>(1, given(entries, "max_tokens"@))
            && fits::<ChatParamsShape>(2, given(entries, "top_p"@))
            && fits::<ChatParamsShape>(3, given(entries, "stop_sequences"@)),
        field(JsonView::Object(entries), 0, "temperature"@) == given(entries, "temperature"@),
        field(JsonView::Object(entries), 1, "max_tokens"@) == given(entries, "max_tokens"@),
        field(JsonView::Object(entries), 2, "top_p"@) == given(entries, "top_p"@),
        field(JsonView::Object(entries), 3, "stop_sequences"@) == given(entries, "stop_sequences"@),
{
    reveal_strlit("temperature");
    reveal_strlit("max_tokens");
    reveal_strlit("top_p");
    reveal_strlit("stop_sequences");
    assert("temperature"@.len() == 11);
    assert("max_tokens"@.len() == 10);
    assert("top_p"@.len() == 5);
    assert("stop_sequences"@.len() == 14);
    let keys = ChatParamsShape::keys();
    assert(keys[0] == "temperature"@ && keys[1] == "max_tokens"@ && keys[2] == "top_p"@ && keys[3] == "stop_sequences"@);
    records_fit::<ChatParamsShape>(entries);
    field_is_given(entries, 0, "temperature"@);
    field_is_given(entries, 1, "max_tokens"@);
    field_is_given(entries, 2, "top_p"@);
    field_is_given(entries, 3, "stop_sequences"@);
    assert(given(entries, keys[0]) == given(entries, "temperature"@));
    assert(given(entries, keys[1]) == given(entries, "max_tokens"@));
    assert(given(entries, keys[2]) == given(entries, "top_p"@));
    assert(given(entries, keys[3]) == given(entries, "stop_sequences"@));
    if fits::<ChatParamsShape>(0, given(entries, keys[0])) && fits::<ChatParamsShape>(1, given(entries, keys[1])) && fits::<ChatParamsShape>(2, given(entries, keys[2])) && fits::<ChatParamsShape>(3, given(entries, keys[3])) {
        assert forall|i: int| 0 <= i < ChatParamsShape::keys().len() implies fits::<ChatParamsShape>(
            i,
            given(entries, #[trigger] ChatParamsShape::keys()[i]),
        ) by {
            assert(i == 0 || i == 1 || i == 2 || i == 3);
        }
    }
}

pub(crate) proof fn params_fits(entries: Seq<(Seq<char>, JsonView)>)
    requires
        gives_keys_once(entries),
    ensures
        record_error::<ParamsShape>(JsonView::Object(entries)) is None <==> fits::<ParamsShape>(0, given(entries, "chat_completion"@)),
        field(JsonView::Object(entries), 0, "chat_completion"@) == given(entries, "chat_completion"@),
{
    let keys = ParamsShape::keys();
    assert(keys[0] == "chat_completion"@);
    records_fit::<ParamsShape>(entries);
    field_is_given(entries, 0, "chat_completion"@);
    assert(given(entries, keys[0]) == given(entries, "chat_completion"@));
    if fits::<ParamsShape>(0, given(entries, keys[0])) {
        assert forall|i: int| 0 <= i < ParamsShape::keys().len() implies fits::<ParamsShape>(
            i,
            given(entries, #[trigger] ParamsShape::keys()[i]),
        ) by {
            assert(i == 0);
        }
    }
}

#[verifier::rlimit(40)]
pub(crate) proof fn request_fits(entries: Seq<(Seq<char>, JsonView)>)
    requires
        gives_keys_once(entries),
    ensures
        record_error::<RequestShape>(JsonView::Object(entries)) is None <==> fits::<RequestShape>(0, given(entries, "model"@))
            && fits::<RequestShape>(1, given(entries, "messages"@))
            && fits::<RequestShape>(2, given(entries, "system"@))
            && fits::<RequestShape>(3, given(entries, "max_tokens"@))
            && fits::<RequestShape>(4, given(entries, "temperature"@))
            && fits::<RequestShape>(5, given(entries, "top_p"@))
            && fits::<RequestShape>(6, given(entries, "top_k"@))
            && fits::<RequestShape>(7, given(entries, "stop_sequences"@))
            && fits::<RequestShape>(8, given(entries, "stream"@))
            && fits::<RequestShape>(9, given(entries, "tools"@))
            && fits::<RequestShape>(10, given(entries, "tool_choice"@))
            && fits::<RequestShape>(11, given(entries, "metadata"@))
            && fits::<RequestShape>(12, given(entries, "service_tier"@))
            && fits::<RequestShape>(13, given(entries, "container"@)),
        field(JsonView::Object(entries), 0, "model"@) == given(entries, "model"@),
        field(JsonView::Object(entries), 1, "messages"@) == given(entries, "messages"@),
        field(JsonView::Object(entries), 2, "system"@) == given(entries, "system"@),
        field(JsonView::Object(entries), 3, "max_tokens"@) == given(entries, "max_tokens"@),
        field(JsonView::Object(entries), 4, "temperature"@) == given(entries, "temperature"@),
        field(JsonView::Object(entries), 5, "top_p"@) == given(entries, "top_p"@),
        field(JsonView::Object(entries), 6, "top_k"@) == given(entries, "top_k"@),
        field(JsonView::Object(entries), 7, "stop_sequences"@) == given(entries, "stop_sequences"@),
        field(JsonView::Object(entries), 8, "stream"@) == given(entries, "stream"@),
        field(JsonView::Object(entries), 9, "tools"@) == given(entries, "tools"@),
        field(JsonView::Object(entries), 10, "tool_choice"@) == given(entries, "tool_choice"@),
        field(JsonView::Object(entries), 11, "metadata"@) == given(entries, "metadata"@),
        field(JsonView::Object(entries), 12, "service_tier"@) == given(entries, "service_tier"@),
        field(JsonView::Object(entries), 13, "container"@) == given(entries, "container"@),
{
    reveal_strlit("model");
    reveal_strlit("messages");
    reveal_strlit("system");
    reveal_strlit("max_tokens");
    reveal_strlit("temperature");
    reveal_strlit("top_p");
    reveal_strlit("top_k");
    reveal_strlit("stop_sequences");
    reveal_strlit("stream");
    reveal_strlit("tools");
    reveal_strlit("tool_choice");
    reveal_strlit("metadata");
    reveal_strlit("service_tier");
    reveal_strlit("container");
    assert("model"@.len() == 5);
    assert("messages"@.len() == 8);
    assert("system"@.len() == 6);
    assert("max_tokens"@.len() == 10);
    assert("temperature"@.len() == 11);
    assert("top_p"@.len() == 5);
    assert("top_k"@.len() == 5);
    assert("stop_sequences"@.len() == 14);
    assert("stream"@.len() == 6);
    assert("tools"@.len() == 5);
    assert("tool_choice"@.len() == 11);
    assert("metadata"@.len() == 8);
    assert("service_tier"@.len() == 12);
    assert("container"@.len() == 9);
    assert("model"@[0] == 'm');
    assert("top_p"@[0] == 't');
    assert("top_k"@[0] == 't');
    assert("tools"@[0] == 't');
    assert("messages"@[2] == 's');
    assert("metadata"@[2] == 't');
    assert("system"@[1] == 'y');
    assert("stream"@[1] == 't');
    assert("temperature"@[1] == 'e');
    assert("tool_choice"@[1] == 'o');
    assert("top_p"@[4] == 'p');
    assert("top_k"@[4] == 'k');
    assert("top_p"@[2] == 'p');
    assert("tools"@[2] == 'o');
    assert("top_k"@[2] == 'p');
    let keys = RequestShape::keys();
    assert(keys[0] == "model"@ && keys[1] == "messages"@ && keys[2] == "system"@ && keys[3] == "max_tokens"@ && keys[4] == "temperature"@ && keys[5] == "top_p"@ && keys[6] == "top_k"@ && keys[7] == "stop_sequences"@ && keys[8] == "stream"@ && keys[9] == "tools"@ && keys[10] == "tool_choice"@ && keys[11] == "metadata"@ && keys[12] == "service_tier"@ && keys[13] == "container"@);
    records_fit::<RequestShape>(entries);
    field_is_given(entries, 0, "model"@);
    field_is_given(entries, 1, "messages"@);
    field_is_given(entries, 2, "system"@);
    field_is_given(entries, 3, "max_tokens"@);
    field_is_given(entries, 4, "temperature"@);
    field_is_given(entries, 5, "top_p"@);
    field_is_given(entries, 6, "top_k"@);
    field_is_given(entries, 7, "stop_sequences"@);
    field_is_given(entries, 8, "stream"@);
    field_is_given(entries, 9, "tools"@);
    field_is_given(entries, 10, "tool_choice"@);
    field_is_given(entries, 11, "metadata"@);
    field_is_given(entries, 12, "service_tier"@);
    field_is_given(entries, 13, "container"@);
    assert(given(entries, keys[0]) == given(entries, "model"@));
    assert(given(entries, keys[1]) == given(entries, "messages"@));
    assert(given(entries, keys[2]) == given(entries, "system"@));
    assert(given(entries, keys[3]) == given(entries, "max_tokens"@));
    assert(given(entries, keys[4]) == given(entries, "temperature"@));
    assert(given(entries, keys[5]) == given(entries, "top_p"@));
    assert(given(entries, keys[6]) == given(entries, "top_k"@));
    assert(given(entries, keys[7]) == given(entries, "stop_sequences"@));
    assert(given(entries, keys[8]) == given(entries, "stream"@));
    assert(given(entries, keys[9]) == given(entries, "tools"@));
    assert(given(entries, keys[10]) == given(entries, "tool_choice"@));
    assert(given(entries, keys[11]) == given(entries, "metadata"@));
    assert(given(entries, keys[12]) == given(entries, "service_tier"@));
    assert(given(entries, keys[13]) == given(entries, "container"@));
    if fits::<RequestShape>(0, given(entries, keys[0])) && fits::<RequestShape>(1, given(entries, keys[1])) && fits::<RequestShape>(2, given(entries, keys[2])) && fits::<RequestShape>(3, given(entries, keys[3])) && fits::<RequestShape>(4, given(entries, keys[4])) && fits::<RequestShape>(5, given(entries, keys[5])) && fits::<RequestShape>(6, given(entries, keys[6])) && fits::<RequestShape>(7, given(entries, keys[7])) && fits::<RequestShape>(8, given(entries, keys[8])) && fits::<RequestShape>(9, given(entries, keys[9])) && fits::<RequestShape>(10, given(entries, keys[10])) && fits::<RequestShape>(11, given(entries, keys[11])) && fits::<RequestShape>(12, given(entries, keys[12])) && fits::<RequestShape>(13, given(entries, keys[13])) {
        assert forall|i: int| 0 <= i < RequestShape::keys().len() implies fits::<RequestShape>(
            i,
            given(entries, #[trigger] RequestShape::keys()[i]),
        ) by {
            assert(i == 0 || i == 1 || i == 2 || i == 3 || i == 4 || i == 5 || i == 6 || i == 7 || i == 8 || i == 9 || i == 10 || i == 11 || i == 12 || i == 13);
        }
    }
}

#[verifier::rlimit(40)]
pub(crate) proof fn count_tokens_fits(entries: Seq<(Seq<char>, JsonView)>)
    requires
        gives_keys_once(entries),
    ensures
        record_error::<CountTokensShape>(JsonView::Object(entries)) is None <==> fits::<CountTokensShape>(0, given(entries, "model"@))
            && fits::<CountTokensShape>(1, given(entries, "metadata"@)),
        field(JsonView::Object(entries), 0, "model"@) == given(entries, "model"@),
        field(JsonView::Object(entries), 1, "metadata"@) == given(entries, "metadata"@),
{
    reveal_strlit("model");
    reveal_strlit("metadata");
    assert("model"@.len() == 5);
    assert("metadata"@.len() == 8);
    let keys = CountTokensShape::keys();
    assert(keys[0] == "model"@ && keys[1] == "metadata"@);
    records_fit::<CountTokensShape>(entries);
    field_is_given(entries, 0, "model"@);
    field_is_given(entries, 1, "metadata"@);
    assert(given(entries, keys[0]) == given(entries, "model"@));
    assert(given(entries, keys[1]) == given(entries, "metadata"@));
    if fits::<CountTokensShape>(0, given(entries, keys[0])) && fits::<CountTokensShape>(1, given(entries, keys[1])) {
        assert forall|i: int| 0 <= i < CountTokensShape::keys().len() implies fits::<CountTokensShape>(
            i,
            given(entries, #[trigger] CountTokensShape::keys()[i]),
        ) by {
            assert(i == 0 || i == 1);
        }
    }
}

pub(crate) proof fn counts_fits(entries: Seq<(Seq<char>, JsonView)>)
    requires
        gives_keys_once(entries),
    ensures
        record_error::<CountsShape>(JsonView::Object(entries)) is None <==> fits::<CountsShape>(0, given(entries, "input_tokens"@))
            && fits::<CountsShape>(1, given(entries, "cache_creation_input_tokens"@))
            && fits::<CountsShape>(2, given(entries, "cache_read_input_tokens"@)),
        field(JsonView::Object(entries), 0, "input_tokens"@) == given(entries, "input_tokens"@),
        field(JsonView::Object(entries), 1, "cache_creation_input_tokens"@) == given(entries, "cache_creation_input_tokens"@),
        field(JsonView::Object(entries), 2, "cache_read_input_tokens"@) == given(entries, "cache_read_input_tokens"@),
{
    reveal_strlit("input_tokens");
    reveal_strlit("cache_creation_input_tokens");
    reveal_strlit("cache_read_input_tokens");
    assert("input_tokens"@.len() == 12);
    assert("cache_creation_input_tokens"@.len() == 27);
    assert("cache_read_input_tokens"@.len() == 23);
    let keys = CountsShape::keys();
    assert(keys[0] == "input_tokens"@ && keys[1] == "cache_creation_input_tokens"@ && keys[2] == "cache_read_input_tokens"@);
    records_fit::<CountsShape>(entries);
    field_is_given(entries, 0, "input_tokens"@);
    field_is_given(entries, 1, "cache_creation_input_tokens"@);
    field_is_given(entries, 2, "cache_read_input_tokens"@);
    assert(given(entries, keys[0]) == given(entries, "input_tokens"@));
    assert(given(entries, keys[1]) == given(entries, "cache_creation_input_tokens"@));
    assert(given(entries, keys[2]) == given(entries, "cache_read_input_tokens"@));
    if fits::<CountsShape>(0, given(entries, keys[0])) && fits::<CountsShape>(1, given(entries, keys[1])) && fits::<CountsShape>(2, given(entries, keys[2])) {
        assert forall|i: int| 0 <= i < CountsShape::keys().len() implies fits::<CountsShape>(
            i,
            given(entries, #[trigger] CountsShape::keys()[i]),
        ) by {
            assert(i == 0 || i == 1 || i == 2);
        }
    }
}

} // verus!
