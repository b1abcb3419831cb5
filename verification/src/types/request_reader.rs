//! Reading requests out of JSON.
use crate::json::{Json, JsonEntry, JsonView};
use crate::model::{collected, collected_next, outcome, so_far};
use crate::provider::AnthropicCacheControl;
use crate::reader::{
    Shape, any_at, bad_value, error_of, error_unless_null, field, held, mismatch, optional_bool_at,
    optional_number_at, optional_text_at, place, problem_of, problem_unless_null, read_bool,
    read_i32, read_number, read_text, read_texts, read_u32, record_error, record_problem, text_at,
    unknown_fields_are_ignored, value_held,
};
use crate::text::{joined, owned, same_text};
use crate::text_reader::{
    TextShape, leaf_text, list_text, object_text, read_leaf_text, read_list_text, read_object_text,
    read_record_text, read_whole_text, record_text, whole_text,
};
use crate::types::block_reader::{
    cache_control_at, read_blocks, read_cache_control, read_tool_choice, unknown_variant,
    unknown_variant_message,
};
use crate::types::messages::{
    AnthropicContentBlockOwned, AnthropicMessageContentOwned, AnthropicMessageOwned,
    AnthropicMessagesParams, AnthropicMetadata, AnthropicRoleOwned, AnthropicSystem,
    AnthropicSystemContentBlockOwned, AnthropicToolChoiceOwned, AnthropicToolOwned,
    AnthropicToolView, ContentView, MessageView, RequestView, SystemBlockView, SystemView,
};
use crate::types::metadata_reader::{MetadataShape, read_metadata};
use vstd::prelude::*;

verus! {

// ---------------------------------------------------------------------------
// System prompt
// ---------------------------------------------------------------------------

/// The fields of a content block of a system prompt. Its text may be left out.
pub struct SystemBlockShape;

impl Shape for SystemBlockShape {
    open spec fn title() -> Seq<char> {
        "struct Helper"@
    }

    open spec fn keys() -> Seq<Seq<char>> {
        seq!["type"@, "text"@, "cache_control"@]
    }

    open spec fn may_lack(i: int) -> bool {
        i != 0
    }

    open spec fn has_default(i: int) -> bool {
        i != 0
    }

    open spec fn field_error(i: int, v: JsonView) -> Option<Seq<char>> {
        if i == 0 {
            error_of(read_text(v))
        } else if i == 1 {
            error_of(read_text(v))
        } else {
            error_unless_null(v, read_cache_control(v))
        }
    }

    open spec fn excess() -> Seq<char> {
        "fewer elements in array"@
    }

    fn title_text() -> &'static str {
        "struct Helper"
    }

    fn excess_text() -> &'static str {
        "fewer elements in array"
    }

    fn key_count() -> usize {
        3
    }

    fn rule(i: usize) -> (&'static str, bool, bool) {
        if i == 0 {
            ("type", false, false)
        } else if i == 1 {
            ("text", true, true)
        } else {
            ("cache_control", true, true)
        }
    }

    fn field_problem(i: usize, v: &Json) -> Option<String> {
        if i == 0 {
            problem_of(v.read_text())
        } else if i == 1 {
            problem_of(v.read_text())
        } else {
            problem_unless_null(v, AnthropicCacheControl::from_value(v))
        }
    }
}

/// A content block of a system prompt.
pub open spec fn read_system_block(v: JsonView) -> Result<SystemBlockView, Seq<char>> {
    match record_error::<SystemBlockShape>(v) {
        Some(e) => Err(e),
        None => if text_at(v, 0, "type"@) == "text"@ {
            Ok(
                SystemBlockView {
                    text: text_at(v, 1, "text"@),
                    cache_control: cache_control_at(v, 2),
                },
            )
        } else {
            Err("Unknown system content block type: "@ + text_at(v, 0, "type"@))
        },
    }
}

/// A system prompt: a text, or an array of content blocks.
pub open spec fn read_system(v: JsonView) -> Result<SystemView, Seq<char>> {
    match v {
        JsonView::String(s) => Ok(SystemView::String(s)),
        JsonView::Array(items) => match collected(
            items.map_values(|x: JsonView| read_system_block(x)),
        ) {
            Err(e) => Err(e),
            Ok(blocks) => Ok(SystemView::Blocks(blocks)),
        },
        _ => Err("system must be a string or array of content blocks"@),
    }
}

impl AnthropicSystemContentBlockOwned {
    /// Reads a content block of a system prompt.
    pub fn from_value(value: &Json) -> (r: Result<AnthropicSystemContentBlockOwned, String>)
        ensures
            outcome(r) == read_system_block(value@),
    {
        if let Some(e) = record_problem::<SystemBlockShape>(value) {
            return Err(e);
        }
        let name: String = value.text_at(0, "type");
        if same_text(name.as_str(), "text") {
            Ok(
                AnthropicSystemContentBlockOwned::Text {
                    text: value.text_at(1, "text"),
                    cache_control: AnthropicCacheControl::at(value, 2),
                },
            )
        } else {
            Err(joined("Unknown system content block type: ", name.as_str()))
        }
    }

    fn list_from_values(items: &Vec<Json>) -> (r: Result<
        Vec<AnthropicSystemContentBlockOwned>,
        String,
    >)
        ensures
            outcome(r) == collected(
                items.deep_view().map_values(|x: JsonView| read_system_block(x)),
            ),
    {
        let ghost all = items.deep_view().map_values(|x: JsonView| read_system_block(x));
        let mut blocks: Vec<AnthropicSystemContentBlockOwned> = Vec::new();
        assert(blocks.deep_view() =~= Seq::empty());
        let n: usize = items.len();
        for i in 0..n
            invariant
                n == items@.len(),
                all == items.deep_view().map_values(|x: JsonView| read_system_block(x)),
                so_far(all, i as int, blocks.deep_view()),
        {
            let block: Result<AnthropicSystemContentBlockOwned, String> = Self::from_value(
                &items[i],
            );
            proof {
                collected_next(all, i as int, blocks.deep_view());
                assert(all[i as int] == outcome(block));
            }
            match block {
                Ok(block) => {
                    let ghost before = blocks.deep_view();
                    blocks.push(block);
                    assert(blocks.deep_view() =~= before.push(block.deep_view()));
                },
                Err(e) => {
                    return Err(e);
                },
            }
        }
        assert(all.take(n as int) =~= all);
        Ok(blocks)
    }
}

/// Reads a system prompt.
pub fn deserialize_system(value: &Json) -> (r: Result<AnthropicSystem, String>)
    ensures
        outcome(r) == read_system(value@),
{
    match value {
        Json::String(s) => Ok(AnthropicSystem::String(s.clone())),
        Json::Array(items) => {
            assert(value@->Array_0 =~= items.deep_view());
            match AnthropicSystemContentBlockOwned::list_from_values(items) {
                Err(e) => Err(e),
                Ok(blocks) => Ok(AnthropicSystem::Blocks(blocks)),
            }
        },
        _ => Err(owned("system must be a string or array of content blocks")),
    }
}

// ---------------------------------------------------------------------------
// Messages
// ---------------------------------------------------------------------------

/// A role, by its name. An object with the name as its only key, and `null`
/// under it, stands for the name.
pub open spec fn read_role(v: JsonView) -> Result<AnthropicRoleOwned, Seq<char>> {
    match v {
        JsonView::String(name) => role_named(name),
        JsonView::Object(entries) => if entries.len() != 1 {
            Err(bad_value(v, "map with a single key"@))
        } else {
            match role_named(entries[0].0) {
                Err(e) => Err(e),
                Ok(role) => if entries[0].1 is Null {
                    Ok(role)
                } else {
                    Err(mismatch(entries[0].1, "unit"@))
                },
            }
        },
        _ => Err(mismatch(v, "string or map"@)),
    }
}

/// The role with a name.
pub open spec fn role_named(name: Seq<char>) -> Result<AnthropicRoleOwned, Seq<char>> {
    if name == "user"@ {
        Ok(AnthropicRoleOwned::User)
    } else if name == "assistant"@ {
        Ok(AnthropicRoleOwned::Assistant)
    } else {
        Err(unknown_variant(name, "`user` or `assistant`"@))
    }
}

/// The content of a message: a text, or an array of content blocks.
pub open spec fn read_content(v: JsonView) -> Result<ContentView, Seq<char>> {
    match v {
        JsonView::String(s) => Ok(ContentView::String(s)),
        JsonView::Array(items) => match read_blocks(items) {
            Err(e) => Err(e),
            Ok(blocks) => Ok(ContentView::Blocks(blocks)),
        },
        _ => Err("message content must be a string or array of content blocks"@),
    }
}

/// The fields of a message. Its content may be left out.
pub struct MessageShape;

impl Shape for MessageShape {
    open spec fn title() -> Seq<char> {
        "struct AnthropicMessageOwned"@
    }

    open spec fn keys() -> Seq<Seq<char>> {
        seq!["role"@, "content"@]
    }

    open spec fn may_lack(i: int) -> bool {
        i == 1
    }

    open spec fn has_default(i: int) -> bool {
        i == 1
    }

    open spec fn field_error(i: int, v: JsonView) -> Option<Seq<char>> {
        if i == 0 {
            error_of(read_role(v))
        } else {
            error_of(read_content(v))
        }
    }

    open spec fn excess() -> Seq<char> {
        "fewer elements in array"@
    }

    fn title_text() -> &'static str {
        "struct AnthropicMessageOwned"
    }

    fn excess_text() -> &'static str {
        "fewer elements in array"
    }

    fn key_count() -> usize {
        2
    }

    fn rule(i: usize) -> (&'static str, bool, bool) {
        if i == 0 {
            ("role", false, false)
        } else {
            ("content", true, true)
        }
    }

    fn field_problem(i: usize, v: &Json) -> Option<String> {
        if i == 0 {
            problem_of(AnthropicRoleOwned::from_value(v))
        } else {
            problem_of(deserialize_message_content(v))
        }
    }
}

impl TextShape for MessageShape {
    open spec fn field_text(i: int, raw: Seq<char>) -> Result<JsonView, Seq<char>> {
        if i == 0 {
            object_text(raw, 123)
        } else {
            leaf_text(raw, 124)
        }
    }

    fn read_field_text(i: usize, raw: &str) -> Result<Json, String> {
        if i == 0 {
            read_object_text(raw, 123)
        } else {
            read_leaf_text(raw, 124)
        }
    }
}

/// A message. Its content is an empty text where it is left out.
pub open spec fn read_message(v: JsonView) -> Result<MessageView, Seq<char>> {
    match record_error::<MessageShape>(v) {
        Some(e) => Err(e),
        None => match read_role(any_at(v, 0, "role"@)) {
            Err(e) => Err(e),
            Ok(role) => Ok(
                MessageView {
                    role,
                    content: match read_content(any_at(v, 1, "content"@)) {
                        Ok(content) => content,
                        Err(_) => ContentView::String(Seq::empty()),
                    },
                },
            ),
        },
    }
}

/// Some messages.
pub open spec fn read_messages(v: JsonView) -> Result<Seq<MessageView>, Seq<char>> {
    match v {
        JsonView::Array(items) => collected(items.map_values(|x: JsonView| read_message(x))),
        _ => Err(mismatch(v, "a sequence"@)),
    }
}

impl AnthropicRoleOwned {
    fn named(name: &str) -> (r: Result<AnthropicRoleOwned, String>)
        ensures
            outcome(r) == role_named(name@),
    {
        if same_text(name, "user") {
            Ok(AnthropicRoleOwned::User)
        } else if same_text(name, "assistant") {
            Ok(AnthropicRoleOwned::Assistant)
        } else {
            Err(unknown_variant_message(name, "`user` or `assistant`"))
        }
    }

    /// Reads a role.
    pub fn from_value(value: &Json) -> (r: Result<AnthropicRoleOwned, String>)
        ensures
            outcome(r) == read_role(value@),
    {
        match value {
            Json::String(s) => Self::named(s.as_str()),
            Json::Object(entries) => {
                if entries.len() != 1 {
                    return Err(value.bad_value("map with a single key"));
                }
                let entry: &JsonEntry = &entries[0];
                assert(value@->Object_0[0] == entry.deep_view());
                match Self::named(entry.key.as_str()) {
                    Err(e) => Err(e),
                    Ok(role) => match entry.value {
                        Json::Null => Ok(role),
                        _ => Err(entry.value.mismatch("unit")),
                    },
                }
            },
            _ => Err(value.mismatch("string or map")),
        }
    }
}

/// Reads the content of a message.
pub fn deserialize_message_content(value: &Json) -> (r: Result<
    AnthropicMessageContentOwned,
    String,
>)
    ensures
        outcome(r) == read_content(value@),
{
    match value {
        Json::String(s) => Ok(AnthropicMessageContentOwned::String(s.clone())),
        Json::Array(items) => {
            assert(value@->Array_0 =~= items.deep_view());
            match AnthropicContentBlockOwned::list_from_values(items) {
                Err(e) => Err(e),
                Ok(blocks) => Ok(AnthropicMessageContentOwned::Blocks(blocks)),
            }
        },
        _ => Err(owned("message content must be a string or array of content blocks")),
    }
}

impl AnthropicMessageOwned {
    /// Reads a message.
    pub fn from_value(value: &Json) -> (r: Result<AnthropicMessageOwned, String>)
        ensures
            outcome(r) == read_message(value@),
    {
        if let Some(e) = record_problem::<MessageShape>(value) {
            return Err(e);
        }
        let role: AnthropicRoleOwned = match AnthropicRoleOwned::from_value(
            value.any_ref(0, "role"),
        ) {
            Err(e) => {
                return Err(e);
            },
            Ok(role) => role,
        };
        let content: AnthropicMessageContentOwned = match deserialize_message_content(
            value.any_ref(1, "content"),
        ) {
            Ok(content) => content,
            Err(_) => AnthropicMessageContentOwned::default(),
        };
        Ok(AnthropicMessageOwned { role, content })
    }

    /// Reads some messages.
    pub fn list_from_value(value: &Json) -> (r: Result<Vec<AnthropicMessageOwned>, String>)
        ensures
            outcome(r) == read_messages(value@),
    {
        let items: &Vec<Json> = match value {
            Json::Array(items) => items,
            _ => {
                return Err(value.mismatch("a sequence"));
            },
        };
        assert(value@->Array_0 =~= items.deep_view());
        let ghost all = items.deep_view().map_values(|x: JsonView| read_message(x));
        let mut messages: Vec<AnthropicMessageOwned> = Vec::new();
        assert(messages.deep_view() =~= Seq::empty());
        let n: usize = items.len();
        for i in 0..n
            invariant
                n == items@.len(),
                all == items.deep_view().map_values(|x: JsonView| read_message(x)),
                read_messages(value@) == collected(all),
                so_far(all, i as int, messages.deep_view()),
        {
            let message: Result<AnthropicMessageOwned, String> = Self::from_value(&items[i]);
            proof {
                collected_next(all, i as int, messages.deep_view());
                assert(all[i as int] == outcome(message));
            }
            match message {
                Ok(message) => {
                    let ghost before = messages.deep_view();
                    messages.push(message);
                    assert(messages.deep_view() =~= before.push(message.deep_view()));
                },
                Err(e) => {
                    return Err(e);
                },
            }
        }
        assert(all.take(n as int) =~= all);
        Ok(messages)
    }
}

// ---------------------------------------------------------------------------
// Tools
// ---------------------------------------------------------------------------

/// The fields of a tool definition.
pub struct ToolShape;

impl Shape for ToolShape {
    open spec fn title() -> Seq<char> {
        "struct AnthropicToolOwned"@
    }

    open spec fn keys() -> Seq<Seq<char>> {
        seq!["name"@, "description"@, "input_schema"@, "strict"@, "cache_control"@]
    }

    open spec fn may_lack(i: int) -> bool {
        i != 0 && i != 2
    }

    open spec fn has_default(i: int) -> bool {
        i == 3
    }

    open spec fn field_error(i: int, v: JsonView) -> Option<Seq<char>> {
        if i == 0 {
            error_of(read_text(v))
        } else if i == 1 {
            error_unless_null(v, read_text(v))
        } else if i == 2 {
            None
        } else if i == 3 {
            error_unless_null(v, read_bool(v))
        } else {
            error_unless_null(v, read_cache_control(v))
        }
    }

    open spec fn excess() -> Seq<char> {
        "fewer elements in array"@
    }

    fn title_text() -> &'static str {
        "struct AnthropicToolOwned"
    }

    fn excess_text() -> &'static str {
        "fewer elements in array"
    }

    fn key_count() -> usize {
        5
    }

    fn rule(i: usize) -> (&'static str, bool, bool) {
        if i == 0 {
            ("name", false, false)
        } else if i == 1 {
            ("description", true, false)
        } else if i == 2 {
            ("input_schema", false, false)
        } else if i == 3 {
            ("strict", true, true)
        } else {
            ("cache_control", true, false)
        }
    }

    fn field_problem(i: usize, v: &Json) -> Option<String> {
        if i == 0 {
            problem_of(v.read_text())
        } else if i == 1 {
            problem_unless_null(v, v.read_text())
        } else if i == 2 {
            None
        } else if i == 3 {
            problem_unless_null(v, v.read_bool())
        } else {
            problem_unless_null(v, AnthropicCacheControl::from_value(v))
        }
    }
}

impl TextShape for ToolShape {
    open spec fn field_text(i: int, raw: Seq<char>) -> Result<JsonView, Seq<char>> {
        if i == 4 {
            object_text(raw, 123)
        } else {
            leaf_text(raw, 124)
        }
    }

    fn read_field_text(i: usize, raw: &str) -> Result<Json, String> {
        if i == 4 {
            read_object_text(raw, 123)
        } else {
            read_leaf_text(raw, 124)
        }
    }
}

/// A tool definition.
pub open spec fn read_tool(v: JsonView) -> Result<AnthropicToolView, Seq<char>> {
    match record_error::<ToolShape>(v) {
        Some(e) => Err(e),
        None => Ok(
            AnthropicToolView {
                name: text_at(v, 0, "name"@),
                description: optional_text_at(v, 1, "description"@),
                parameters: any_at(v, 2, "input_schema"@),
                strict: optional_bool_at(v, 3, "strict"@),
                cache_control: cache_control_at(v, 4),
            },
        ),
    }
}

/// Some tool definitions.
pub open spec fn read_tools(v: JsonView) -> Result<Seq<AnthropicToolView>, Seq<char>> {
    match v {
        JsonView::Array(items) => collected(items.map_values(|x: JsonView| read_tool(x))),
        _ => Err(mismatch(v, "a sequence"@)),
    }
}

impl AnthropicToolOwned {
    /// Reads a tool definition.
    pub fn from_value(value: &Json) -> (r: Result<AnthropicToolOwned, String>)
        ensures
            outcome(r) == read_tool(value@),
    {
        match record_problem::<ToolShape>(value) {
            Some(e) => Err(e),
            None => Ok(
                AnthropicToolOwned {
                    name: value.text_at(0, "name"),
                    description: value.optional_text_at(1, "description"),
                    parameters: value.any_at(2, "input_schema"),
                    strict: value.optional_bool_at(3, "strict"),
                    cache_control: AnthropicCacheControl::at(value, 4),
                },
            ),
        }
    }

    /// Reads some tool definitions.
    pub fn list_from_value(value: &Json) -> (r: Result<Vec<AnthropicToolOwned>, String>)
        ensures
            outcome(r) == read_tools(value@),
    {
        let items: &Vec<Json> = match value {
            Json::Array(items) => items,
            _ => {
                return Err(value.mismatch("a sequence"));
            },
        };
        assert(value@->Array_0 =~= items.deep_view());
        let ghost all = items.deep_view().map_values(|x: JsonView| read_tool(x));
        let mut tools: Vec<AnthropicToolOwned> = Vec::new();
        assert(tools.deep_view() =~= Seq::empty());
        let n: usize = items.len();
        for i in 0..n
            invariant
                n == items@.len(),
                all == items.deep_view().map_values(|x: JsonView| read_tool(x)),
                read_tools(value@) == collected(all),
                so_far(all, i as int, tools.deep_view()),
        {
            let tool: Result<AnthropicToolOwned, String> = Self::from_value(&items[i]);
            proof {
                collected_next(all, i as int, tools.deep_view());
                assert(all[i as int] == outcome(tool));
            }
            match tool {
                Ok(tool) => {
                    let ghost before = tools.deep_view();
                    tools.push(tool);
                    assert(tools.deep_view() =~= before.push(tool.deep_view()));
                },
                Err(e) => {
                    return Err(e);
                },
            }
        }
        assert(all.take(n as int) =~= all);
        Ok(tools)
    }
}

// ---------------------------------------------------------------------------
// Requests
// ---------------------------------------------------------------------------

/// The fields of the body of a request.
pub struct RequestShape;

impl Shape for RequestShape {
    open spec fn title() -> Seq<char> {
        "struct AnthropicMessagesParams"@
    }

    open spec fn keys() -> Seq<Seq<char>> {
        seq![
            "model"@,
            "messages"@,
            "system"@,
            "max_tokens"@,
            "temperature"@,
            "top_p"@,
            "top_k"@,
            "stop_sequences"@,
            "stream"@,
            "tools"@,
            "tool_choice"@,
            "metadata"@,
            "service_tier"@,
            "container"@,
        ]
    }

    open spec fn may_lack(i: int) -> bool {
        i != 0 && i != 1 && i != 3
    }

    open spec fn has_default(i: int) -> bool {
        i != 0 && i != 1 && i != 3
    }

    open spec fn field_error(i: int, v: JsonView) -> Option<Seq<char>> {
        if i == 0 {
            error_of(read_text(v))
        } else if i == 1 {
            error_of(read_messages(v))
        } else if i == 2 {
            error_of(read_system(v))
        } else if i == 3 {
            error_of(read_u32(v))
        } else if i == 4 {
            error_unless_null(v, read_number(v))
        } else if i == 5 {
            error_unless_null(v, read_number(v))
        } else if i == 6 {
            error_unless_null(v, read_i32(v))
        } else if i == 7 {
            error_unless_null(v, read_texts(v))
        } else if i == 8 {
            error_of(read_bool(v))
        } else if i == 9 {
            error_unless_null(v, read_tools(v))
        } else if i == 10 {
            error_unless_null(v, read_tool_choice(v))
        } else if i == 11 {
            error_unless_null(v, read_metadata(v))
        } else if i == 12 {
            error_unless_null(v, read_text(v))
        } else {
            error_unless_null(v, read_text(v))
        }
    }

    open spec fn excess() -> Seq<char> {
        "fewer elements in array"@
    }

    fn title_text() -> &'static str {
        "struct AnthropicMessagesParams"
    }

    fn excess_text() -> &'static str {
        "fewer elements in array"
    }

    fn key_count() -> usize {
        14
    }

    fn rule(i: usize) -> (&'static str, bool, bool) {
        if i == 0 {
            ("model", false, false)
        } else if i == 1 {
            ("messages", false, false)
        } else if i == 2 {
            ("system", true, true)
        } else if i == 3 {
            ("max_tokens", false, false)
        } else if i == 4 {
            ("temperature", true, true)
        } else if i == 5 {
            ("top_p", true, true)
        } else if i == 6 {
            ("top_k", true, true)
        } else if i == 7 {
            ("stop_sequences", true, true)
        } else if i == 8 {
            ("stream", true, true)
        } else if i == 9 {
            ("tools", true, true)
        } else if i == 10 {
            ("tool_choice", true, true)
        } else if i == 11 {
            ("metadata", true, true)
        } else if i == 12 {
            ("service_tier", true, true)
        } else {
            ("container", true, true)
        }
    }

    fn field_problem(i: usize, v: &Json) -> Option<String> {
        if i == 0 {
            problem_of(v.read_text())
        } else if i == 1 {
            problem_of(AnthropicMessageOwned::list_from_value(v))
        } else if i == 2 {
            problem_of(deserialize_system(v))
        } else if i == 3 {
            problem_of(v.read_u32())
        } else if i == 4 {
            problem_unless_null(v, v.read_number())
        } else if i == 5 {
            problem_unless_null(v, v.read_number())
        } else if i == 6 {
            problem_unless_null(v, v.read_i32())
        } else if i == 7 {
            problem_unless_null(v, v.read_texts())
        } else if i == 8 {
            problem_of(v.read_bool())
        } else if i == 9 {
            problem_unless_null(v, AnthropicToolOwned::list_from_value(v))
        } else if i == 10 {
            problem_unless_null(v, AnthropicToolChoiceOwned::deserialize(v))
        } else if i == 11 {
            problem_unless_null(v, AnthropicMetadata::from_value(v))
        } else if i == 12 {
            problem_unless_null(v, v.read_text())
        } else {
            problem_unless_null(v, v.read_text())
        }
    }
}

impl TextShape for RequestShape {
    open spec fn field_text(i: int, raw: Seq<char>) -> Result<JsonView, Seq<char>> {
        if i == 1 {
            list_text::<MessageShape>(raw)
        } else if i == 9 {
            list_text::<ToolShape>(raw)
        } else if i == 11 {
            record_text::<MetadataShape>(raw)
        } else {
            leaf_text(raw, 126)
        }
    }

    fn read_field_text(i: usize, raw: &str) -> Result<Json, String> {
        if i == 1 {
            read_list_text::<MessageShape>(raw)
        } else if i == 9 {
            read_list_text::<ToolShape>(raw)
        } else if i == 11 {
            read_record_text::<MetadataShape>(raw)
        } else {
            read_leaf_text(raw, 126)
        }
    }
}

/// The request whose fields a record without errors holds. What is left out is empty.
pub open spec fn request_of(v: JsonView) -> RequestView {
    RequestView {
        model: text_at(v, 0, "model"@),
        messages: match read_messages(any_at(v, 1, "messages"@)) {
            Ok(messages) => messages,
            Err(_) => Seq::empty(),
        },
        system: match read_system(any_at(v, 2, "system"@)) {
            Ok(system) => system,
            Err(_) => SystemView::String(Seq::empty()),
        },
        max_tokens: match read_u32(any_at(v, 3, "max_tokens"@)) {
            Ok(n) => n,
            Err(_) => 0,
        },
        temperature: optional_number_at(v, 4, "temperature"@),
        top_p: optional_number_at(v, 5, "top_p"@),
        top_k: held(read_i32(any_at(v, 6, "top_k"@))),
        stop_sequences: held(read_texts(any_at(v, 7, "stop_sequences"@))),
        stream: optional_bool_at(v, 8, "stream"@) == Some(true),
        tools: held(read_tools(any_at(v, 9, "tools"@))),
        tool_choice: held(read_tool_choice(any_at(v, 10, "tool_choice"@))),
        metadata: held(read_metadata(any_at(v, 11, "metadata"@))),
        service_tier: optional_text_at(v, 12, "service_tier"@),
        container: optional_text_at(v, 13, "container"@),
    }
}

/// The body of a request.
pub open spec fn read_request(v: JsonView) -> Result<RequestView, Seq<char>> {
    match record_error::<RequestShape>(v) {
        Some(e) => Err(e),
        None => Ok(request_of(v)),
    }
}

/// The fields of a request, one by one.
proof fn same_request_fields(a: JsonView, b: JsonView)
    requires
        forall|i: nat, k: int|
            0 <= k < RequestShape::keys().len() ==> #[trigger] field(
                a,
                i,
                RequestShape::keys()[k],
            ) == field(b, i, RequestShape::keys()[k]),
    ensures
        field(a, 0, "model"@) == field(b, 0, "model"@),
        field(a, 1, "messages"@) == field(b, 1, "messages"@),
        field(a, 2, "system"@) == field(b, 2, "system"@),
        field(a, 3, "max_tokens"@) == field(b, 3, "max_tokens"@),
        field(a, 4, "temperature"@) == field(b, 4, "temperature"@),
        field(a, 5, "top_p"@) == field(b, 5, "top_p"@),
        field(a, 6, "top_k"@) == field(b, 6, "top_k"@),
        field(a, 7, "stop_sequences"@) == field(b, 7, "stop_sequences"@),
        field(a, 8, "stream"@) == field(b, 8, "stream"@),
        field(a, 9, "tools"@) == field(b, 9, "tools"@),
        field(a, 10, "tool_choice"@) == field(b, 10, "tool_choice"@),
        field(a, 11, "metadata"@) == field(b, 11, "metadata"@),
        field(a, 12, "service_tier"@) == field(b, 12, "service_tier"@),
        field(a, 13, "container"@) == field(b, 13, "container"@),
{
    assert(field(a, 0, RequestShape::keys()[0]) == field(b, 0, RequestShape::keys()[0]));
    assert(field(a, 1, RequestShape::keys()[1]) == field(b, 1, RequestShape::keys()[1]));
    assert(field(a, 2, RequestShape::keys()[2]) == field(b, 2, RequestShape::keys()[2]));
    assert(field(a, 3, RequestShape::keys()[3]) == field(b, 3, RequestShape::keys()[3]));
    assert(field(a, 4, RequestShape::keys()[4]) == field(b, 4, RequestShape::keys()[4]));
    assert(field(a, 5, RequestShape::keys()[5]) == field(b, 5, RequestShape::keys()[5]));
    assert(field(a, 6, RequestShape::keys()[6]) == field(b, 6, RequestShape::keys()[6]));
    assert(field(a, 7, RequestShape::keys()[7]) == field(b, 7, RequestShape::keys()[7]));
    assert(field(a, 8, RequestShape::keys()[8]) == field(b, 8, RequestShape::keys()[8]));
    assert(field(a, 9, RequestShape::keys()[9]) == field(b, 9, RequestShape::keys()[9]));
    assert(field(a, 10, RequestShape::keys()[10]) == field(b, 10, RequestShape::keys()[10]));
    assert(field(a, 11, RequestShape::keys()[11]) == field(b, 11, RequestShape::keys()[11]));
    assert(field(a, 12, RequestShape::keys()[12]) == field(b, 12, RequestShape::keys()[12]));
    assert(field(a, 13, RequestShape::keys()[13]) == field(b, 13, RequestShape::keys()[13]));
}

/// Records with the same fields are the same request.
#[verifier::rlimit(40)]
pub(crate) proof fn request_is_its_fields(a: JsonView, b: JsonView)
    requires
        field(a, 0, "model"@) == field(b, 0, "model"@),
        field(a, 1, "messages"@) == field(b, 1, "messages"@),
        field(a, 2, "system"@) == field(b, 2, "system"@),
        field(a, 3, "max_tokens"@) == field(b, 3, "max_tokens"@),
        field(a, 4, "temperature"@) == field(b, 4, "temperature"@),
        field(a, 5, "top_p"@) == field(b, 5, "top_p"@),
        field(a, 6, "top_k"@) == field(b, 6, "top_k"@),
        field(a, 7, "stop_sequences"@) == field(b, 7, "stop_sequences"@),
        field(a, 8, "stream"@) == field(b, 8, "stream"@),
        field(a, 9, "tools"@) == field(b, 9, "tools"@),
        field(a, 10, "tool_choice"@) == field(b, 10, "tool_choice"@),
        field(a, 11, "metadata"@) == field(b, 11, "metadata"@),
        field(a, 12, "service_tier"@) == field(b, 12, "service_tier"@),
        field(a, 13, "container"@) == field(b, 13, "container"@),
    ensures
        request_of(a) == request_of(b),
{
}

/// What stands in a field that a request does not have changes nothing.
pub proof fn other_fields_change_no_request(entries: Seq<(Seq<char>, JsonView)>, n: int)
    requires
        0 <= n < entries.len(),
        place(RequestShape::keys(), entries[n].0) < 0,
    ensures
        read_request(JsonView::Object(entries.remove(n))) == read_request(
            JsonView::Object(entries),
        ),
{
    let small = JsonView::Object(entries.remove(n));
    let large = JsonView::Object(entries);
    unknown_fields_are_ignored::<RequestShape>(entries, n);
    same_request_fields(small, large);
    request_is_its_fields(small, large);
}

/// The body of a request, by its text.
pub open spec fn read_request_text(text: Seq<char>) -> Result<RequestView, Seq<char>> {
    match whole_text::<RequestShape>(text) {
        Err(e) => Err(e),
        Ok(v) => read_request(v),
    }
}

impl AnthropicMessagesParams {
    /// Reads the body of a request.
    pub fn from_value(value: &Json) -> (r: Result<AnthropicMessagesParams, String>)
        ensures
            outcome(r) == read_request(value@),
    {
        if let Some(e) = record_problem::<RequestShape>(value) {
            return Err(e);
        }
        let messages: Vec<AnthropicMessageOwned> = match AnthropicMessageOwned::list_from_value(
            value.any_ref(1, "messages"),
        ) {
            Ok(messages) => messages,
            Err(_) => Vec::new(),
        };
        assert(messages.deep_view() =~= request_of(value@).messages);
        let system: AnthropicSystem = match deserialize_system(value.any_ref(2, "system")) {
            Ok(system) => system,
            Err(_) => AnthropicSystem::default(),
        };
        let max_tokens: u32 = match value.any_ref(3, "max_tokens").read_u32() {
            Ok(n) => n,
            Err(_) => 0,
        };
        let stream: bool = match value.optional_bool_at(8, "stream") {
            Some(b) => b,
            None => false,
        };
        Ok(
            AnthropicMessagesParams {
                model: value.text_at(0, "model"),
                messages,
                system,
                max_tokens,
                temperature: value.optional_number_at(4, "temperature"),
                top_p: value.optional_number_at(5, "top_p"),
                top_k: value_held(value.any_ref(6, "top_k").read_i32()),
                stop_sequences: value_held(value.any_ref(7, "stop_sequences").read_texts()),
                stream,
                tools: value_held(AnthropicToolOwned::list_from_value(value.any_ref(9, "tools"))),
                tool_choice: value_held(
                    AnthropicToolChoiceOwned::deserialize(value.any_ref(10, "tool_choice")),
                ),
                metadata: value_held(AnthropicMetadata::from_value(value.any_ref(11, "metadata"))),
                service_tier: value.optional_text_at(12, "service_tier"),
                container: value.optional_text_at(13, "container"),
            },
        )
    }

    /// Reads the text of a request. A field that is given twice is an error; what
    /// stands in a field that a request does not have is skipped.
    pub fn from_text(text: &str) -> (r: Result<AnthropicMessagesParams, String>)
        ensures
            outcome(r) == read_request_text(text@),
    {
        match read_whole_text::<RequestShape>(text) {
            Err(e) => Err(e),
            Ok(value) => Self::from_value(&value),
        }
    }
}

} // verus!
