//! Reading content blocks and tool choices out of JSON.
use crate::json::{Json, JsonEntry, JsonView};
use crate::model::{collected, collected_next, outcome, so_far};
use crate::provider::AnthropicCacheControl;
use crate::reader::{
    Shape, any_at, error_of, error_unless_null, field, field_is_smaller, find_key,
    key_index, mismatch, missing, missing_field, optional_bool_at, problem_of, problem_unless_null,
    read_bool, read_text, record_error, record_problem, repeated, repeated_field, text_at,
};
use crate::text::{joined, owned, same_text};
use crate::types::messages::{
    AnthropicContentBlockOwned, AnthropicDocumentSourceOwned, AnthropicImageSourceOwned,
    AnthropicToolChoiceOwned, AnthropicToolChoiceView, BlockView, SourceView,
};
use vstd::prelude::*;

verus! {

// ---------------------------------------------------------------------------
// Tags
// ---------------------------------------------------------------------------

/// The message for a name that stands for none of the expected variants.
pub open spec fn unknown_variant(name: Seq<char>, expected: Seq<char>) -> Seq<char> {
    "unknown variant `"@ + name + "`, expected "@ + expected
}

/// The message for a name that stands for none of the expected variants.
pub fn unknown_variant_message(name: &str, expected: &str) -> (r: String)
    ensures
        r@ == unknown_variant(name@, expected@),
{
    let start: String = joined("unknown variant `", name);
    let middle: String = joined(start.as_str(), "`, expected ");
    joined(middle.as_str(), expected)
}

/// The name in the `type` field of an object.
pub open spec fn object_tag(entries: Seq<(Seq<char>, JsonView)>) -> Result<Seq<char>, Seq<char>> {
    let i = key_index(entries, "type"@);
    if i < 0 {
        Err(missing("type"@))
    } else if key_index(entries.take(i), "type"@) >= 0 {
        Err(repeated("type"@))
    } else {
        tag_name(entries[i].1)
    }
}

/// The name of a variant.
pub open spec fn tag_name(v: JsonView) -> Result<Seq<char>, Seq<char>> {
    match v {
        JsonView::String(name) => Ok(name),
        _ => Err(mismatch(v, "variant identifier"@)),
    }
}

fn read_object_tag(entries: &Vec<JsonEntry>) -> (r: Result<String, String>)
    ensures
        outcome(r) == object_tag(entries.deep_view()),
{
    assert(entries.deep_view().take(entries@.len() as int) =~= entries.deep_view());
    let i: usize = match find_key(entries, entries.len(), "type") {
        None => {
            return Err(missing_field("type"));
        },
        Some(i) => i,
    };
    if find_key(entries, i, "type").is_some() {
        return Err(repeated_field("type"));
    }
    assert(entries.deep_view()[i as int].1 == entries@[i as int].value@);
    read_tag_name(&entries[i].value)
}

fn read_tag_name(value: &Json) -> (r: Result<String, String>)
    ensures
        outcome(r) == tag_name(value@),
{
    match value {
        Json::String(name) => Ok(name.clone()),
        _ => Err(value.mismatch("variant identifier")),
    }
}

/// A cache marker: an object whose `type` is `ephemeral`.
pub open spec fn read_cache_control(v: JsonView) -> Result<AnthropicCacheControl, Seq<char>> {
    match v {
        JsonView::Object(entries) => match object_tag(entries) {
            Err(e) => Err(e),
            Ok(name) => if name == "ephemeral"@ {
                Ok(AnthropicCacheControl::Ephemeral)
            } else {
                Err(unknown_variant(name, "`ephemeral`"@))
            },
        },
        _ => Err(mismatch(v, "internally tagged enum AnthropicCacheControl"@)),
    }
}

/// The cache marker of a record without errors.
pub open spec fn cache_control_at(v: JsonView, position: nat) -> Option<AnthropicCacheControl> {
    match read_cache_control(any_at(v, position, "cache_control"@)) {
        Ok(marker) => Some(marker),
        Err(_) => None,
    }
}

impl AnthropicCacheControl {
    /// Reads a cache marker.
    pub fn from_value(value: &Json) -> (r: Result<AnthropicCacheControl, String>)
        ensures
            outcome(r) == read_cache_control(value@),
    {
        match value {
            Json::Object(entries) => {
                assert(value@->Object_0 =~= entries.deep_view());
                match read_object_tag(entries) {
                    Err(e) => Err(e),
                    Ok(name) => if same_text(name.as_str(), "ephemeral") {
                        Ok(AnthropicCacheControl::Ephemeral)
                    } else {
                        Err(unknown_variant_message(name.as_str(), "`ephemeral`"))
                    },
                }
            },
            _ => Err(value.mismatch("internally tagged enum AnthropicCacheControl")),
        }
    }

    /// The cache marker of a record without errors.
    pub fn at(value: &Json, position: usize) -> (r: Option<AnthropicCacheControl>)
        ensures
            r == cache_control_at(value@, position as nat),
    {
        match value.field(position, "cache_control") {
            Some(x) => match Self::from_value(x) {
                Ok(marker) => Some(marker),
                Err(_) => None,
            },
            None => None,
        }
    }
}

// ---------------------------------------------------------------------------
// Sources
// ---------------------------------------------------------------------------

/// The fields of an image that is given in base64.
pub struct Base64ImageShape;

impl Shape for Base64ImageShape {
    open spec fn title() -> Seq<char> {
        "struct variant AnthropicImageSourceOwned::Base64"@
    }

    open spec fn keys() -> Seq<Seq<char>> {
        seq!["media_type"@, "data"@]
    }

    open spec fn may_lack(i: int) -> bool {
        false
    }

    open spec fn has_default(i: int) -> bool {
        false
    }

    open spec fn field_error(i: int, v: JsonView) -> Option<Seq<char>> {
        error_of(read_text(v))
    }

    open spec fn excess() -> Seq<char> {
        "2 elements in sequence"@
    }

    fn title_text() -> &'static str {
        "struct variant AnthropicImageSourceOwned::Base64"
    }

    fn excess_text() -> &'static str {
        "2 elements in sequence"
    }

    fn key_count() -> usize {
        2
    }

    fn rule(i: usize) -> (&'static str, bool, bool) {
        if i == 0 {
            ("media_type", false, false)
        } else {
            ("data", false, false)
        }
    }

    fn field_problem(_i: usize, v: &Json) -> Option<String> {
        problem_of(v.read_text())
    }
}

/// The fields of an image that is given by its URL.
pub struct UrlImageShape;

impl Shape for UrlImageShape {
    open spec fn title() -> Seq<char> {
        "struct variant AnthropicImageSourceOwned::Url"@
    }

    open spec fn keys() -> Seq<Seq<char>> {
        seq!["url"@]
    }

    open spec fn may_lack(i: int) -> bool {
        false
    }

    open spec fn has_default(i: int) -> bool {
        false
    }

    open spec fn field_error(i: int, v: JsonView) -> Option<Seq<char>> {
        error_of(read_text(v))
    }

    open spec fn excess() -> Seq<char> {
        "1 element in sequence"@
    }

    fn title_text() -> &'static str {
        "struct variant AnthropicImageSourceOwned::Url"
    }

    fn excess_text() -> &'static str {
        "1 element in sequence"
    }

    fn key_count() -> usize {
        1
    }

    fn rule(_i: usize) -> (&'static str, bool, bool) {
        ("url", false, false)
    }

    fn field_problem(_i: usize, v: &Json) -> Option<String> {
        problem_of(v.read_text())
    }
}

/// The fields of a document that is given in base64.
pub struct Base64DocumentShape;

impl Shape for Base64DocumentShape {
    open spec fn title() -> Seq<char> {
        "struct variant AnthropicDocumentSourceOwned::Base64"@
    }

    open spec fn keys() -> Seq<Seq<char>> {
        seq!["media_type"@, "data"@]
    }

    open spec fn may_lack(i: int) -> bool {
        false
    }

    open spec fn has_default(i: int) -> bool {
        false
    }

    open spec fn field_error(i: int, v: JsonView) -> Option<Seq<char>> {
        error_of(read_text(v))
    }

    open spec fn excess() -> Seq<char> {
        "2 elements in sequence"@
    }

    fn title_text() -> &'static str {
        "struct variant AnthropicDocumentSourceOwned::Base64"
    }

    fn excess_text() -> &'static str {
        "2 elements in sequence"
    }

    fn key_count() -> usize {
        2
    }

    fn rule(i: usize) -> (&'static str, bool, bool) {
        if i == 0 {
            ("media_type", false, false)
        } else {
            ("data", false, false)
        }
    }

    fn field_problem(_i: usize, v: &Json) -> Option<String> {
        problem_of(v.read_text())
    }
}

/// The fields of a document that is given by its URL.
pub struct UrlDocumentShape;

impl Shape for UrlDocumentShape {
    open spec fn title() -> Seq<char> {
        "struct variant AnthropicDocumentSourceOwned::Url"@
    }

    open spec fn keys() -> Seq<Seq<char>> {
        seq!["url"@]
    }

    open spec fn may_lack(i: int) -> bool {
        false
    }

    open spec fn has_default(i: int) -> bool {
        false
    }

    open spec fn field_error(i: int, v: JsonView) -> Option<Seq<char>> {
        error_of(read_text(v))
    }

    open spec fn excess() -> Seq<char> {
        "1 element in sequence"@
    }

    fn title_text() -> &'static str {
        "struct variant AnthropicDocumentSourceOwned::Url"
    }

    fn excess_text() -> &'static str {
        "1 element in sequence"
    }

    fn key_count() -> usize {
        1
    }

    fn rule(_i: usize) -> (&'static str, bool, bool) {
        ("url", false, false)
    }

    fn field_problem(_i: usize, v: &Json) -> Option<String> {
        problem_of(v.read_text())
    }
}

/// The name in front of the fields of a source, and the fields.
pub open spec fn tagged(v: JsonView, title: Seq<char>) -> Result<
    (Seq<char>, JsonView),
    Seq<char>,
> {
    match v {
        JsonView::Object(entries) => match object_tag(entries) {
            Err(e) => Err(e),
            Ok(name) => Ok((name, v)),
        },
        JsonView::Array(items) => if items.len() == 0 {
            Err(missing("type"@))
        } else {
            match tag_name(items[0]) {
                Err(e) => Err(e),
                Ok(name) => Ok((name, JsonView::Array(items.skip(1)))),
            }
        },
        _ => Err(mismatch(v, title)),
    }
}

fn read_tagged(value: &Json, title: &str) -> (r: Result<(String, Json), String>)
    ensures
        outcome(r) == tagged(value@, title@),
{
    match value {
        Json::Object(entries) => {
            assert(value@->Object_0 =~= entries.deep_view());
            match read_object_tag(entries) {
                Err(e) => Err(e),
                Ok(name) => Ok((name, value.duplicate())),
            }
        },
        Json::Array(items) => {
            assert(value@->Array_0 =~= items.deep_view());
            if items.len() == 0 {
                return Err(missing_field("type"));
            }
            match read_tag_name(&items[0]) {
                Err(e) => Err(e),
                Ok(name) => {
                    let mut rest: Vec<Json> = Vec::new();
                    assert(rest.deep_view() =~= items.deep_view().skip(1).take(0));
                    let n: usize = items.len();
                    for i in 1..n
                        invariant
                            n == items@.len(),
                            rest.deep_view() == items.deep_view().skip(1).take(i - 1),
                    {
                        let ghost before = rest.deep_view();
                        rest.push(items[i].duplicate());
                        assert(rest.deep_view() =~= before.push(items@[i as int]@));
                        assert(rest.deep_view() =~= items.deep_view().skip(1).take(i as int));
                    }
                    assert(rest.deep_view() =~= items.deep_view().skip(1));
                    let fields: Json = Json::Array(rest);
                    assert(fields@->Array_0 =~= rest.deep_view());
                    Ok((name, fields))
                },
            }
        },
        _ => Err(value.mismatch(title)),
    }
}

/// The source that a name and fields give, where `S` and `U` are the fields of the two
/// kinds.
pub open spec fn source_of<S: Shape, U: Shape>(name: Seq<char>, fields: JsonView) -> Result<
    SourceView,
    Seq<char>,
> {
    if name == "base64"@ {
        match record_error::<S>(fields) {
            Some(e) => Err(e),
            None => Ok(
                SourceView::Base64 {
                    media_type: text_at(fields, 0, "media_type"@),
                    data: text_at(fields, 1, "data"@),
                },
            ),
        }
    } else if name == "url"@ {
        match record_error::<U>(fields) {
            Some(e) => Err(e),
            None => Ok(SourceView::Url { url: text_at(fields, 0, "url"@) }),
        }
    } else {
        Err(unknown_variant(name, "`base64` or `url`"@))
    }
}

/// The source of an image.
pub open spec fn read_image_source(v: JsonView) -> Result<SourceView, Seq<char>> {
    match tagged(v, "internally tagged enum AnthropicImageSourceOwned"@) {
        Err(e) => Err(e),
        Ok((name, fields)) => source_of::<Base64ImageShape, UrlImageShape>(name, fields),
    }
}

/// The source of a document.
pub open spec fn read_document_source(v: JsonView) -> Result<SourceView, Seq<char>> {
    match tagged(v, "internally tagged enum AnthropicDocumentSourceOwned"@) {
        Err(e) => Err(e),
        Ok((name, fields)) => source_of::<Base64DocumentShape, UrlDocumentShape>(name, fields),
    }
}

impl AnthropicImageSourceOwned {
    /// Reads the source of an image.
    pub fn from_value(value: &Json) -> (r: Result<AnthropicImageSourceOwned, String>)
        ensures
            outcome(r) == read_image_source(value@),
    {
        let (name, fields) = match read_tagged(
            value,
            "internally tagged enum AnthropicImageSourceOwned",
        ) {
            Err(e) => {
                return Err(e);
            },
            Ok(parts) => parts,
        };
        if same_text(name.as_str(), "base64") {
            match record_problem::<Base64ImageShape>(&fields) {
                Some(e) => Err(e),
                None => Ok(
                    AnthropicImageSourceOwned::Base64 {
                        media_type: fields.text_at(0, "media_type"),
                        data: fields.text_at(1, "data"),
                    },
                ),
            }
        } else if same_text(name.as_str(), "url") {
            match record_problem::<UrlImageShape>(&fields) {
                Some(e) => Err(e),
                None => Ok(AnthropicImageSourceOwned::Url { url: fields.text_at(0, "url") }),
            }
        } else {
            Err(unknown_variant_message(name.as_str(), "`base64` or `url`"))
        }
    }
}

impl AnthropicDocumentSourceOwned {
    /// Reads the source of a document.
    pub fn from_value(value: &Json) -> (r: Result<AnthropicDocumentSourceOwned, String>)
        ensures
            outcome(r) == read_document_source(value@),
    {
        let (name, fields) = match read_tagged(
            value,
            "internally tagged enum AnthropicDocumentSourceOwned",
        ) {
            Err(e) => {
                return Err(e);
            },
            Ok(parts) => parts,
        };
        if same_text(name.as_str(), "base64") {
            match record_problem::<Base64DocumentShape>(&fields) {
                Some(e) => Err(e),
                None => Ok(
                    AnthropicDocumentSourceOwned::Base64 {
                        media_type: fields.text_at(0, "media_type"),
                        data: fields.text_at(1, "data"),
                    },
                ),
            }
        } else if same_text(name.as_str(), "url") {
            match record_problem::<UrlDocumentShape>(&fields) {
                Some(e) => Err(e),
                None => Ok(AnthropicDocumentSourceOwned::Url { url: fields.text_at(0, "url") }),
            }
        } else {
            Err(unknown_variant_message(name.as_str(), "`base64` or `url`"))
        }
    }
}

// ---------------------------------------------------------------------------
// Content blocks
// ---------------------------------------------------------------------------

/// What every content block has.
pub struct BlockHeaderShape;

impl Shape for BlockHeaderShape {
    open spec fn title() -> Seq<char> {
        "struct BlockHeader"@
    }

    open spec fn keys() -> Seq<Seq<char>> {
        seq!["type"@]
    }

    open spec fn may_lack(i: int) -> bool {
        false
    }

    open spec fn has_default(i: int) -> bool {
        false
    }

    open spec fn field_error(i: int, v: JsonView) -> Option<Seq<char>> {
        error_of(read_text(v))
    }

    open spec fn excess() -> Seq<char> {
        "fewer elements in array"@
    }

    fn title_text() -> &'static str {
        "struct BlockHeader"
    }

    fn excess_text() -> &'static str {
        "fewer elements in array"
    }

    fn key_count() -> usize {
        1
    }

    fn rule(_i: usize) -> (&'static str, bool, bool) {
        ("type", false, false)
    }

    fn field_problem(_i: usize, v: &Json) -> Option<String> {
        problem_of(v.read_text())
    }
}

/// The fields of a text block.
pub struct TextBlockShape;

impl Shape for TextBlockShape {
    open spec fn title() -> Seq<char> {
        "struct TextBlock"@
    }

    open spec fn keys() -> Seq<Seq<char>> {
        seq!["text"@, "cache_control"@]
    }

    open spec fn may_lack(i: int) -> bool {
        i == 1
    }

    open spec fn has_default(i: int) -> bool {
        i == 1
    }

    open spec fn field_error(i: int, v: JsonView) -> Option<Seq<char>> {
        if i == 0 {
            error_of(read_text(v))
        } else {
            error_unless_null(v, read_cache_control(v))
        }
    }

    open spec fn excess() -> Seq<char> {
        "fewer elements in array"@
    }

    fn title_text() -> &'static str {
        "struct TextBlock"
    }

    fn excess_text() -> &'static str {
        "fewer elements in array"
    }

    fn key_count() -> usize {
        2
    }

    fn rule(i: usize) -> (&'static str, bool, bool) {
        if i == 0 {
            ("text", false, false)
        } else {
            ("cache_control", true, true)
        }
    }

    fn field_problem(i: usize, v: &Json) -> Option<String> {
        if i == 0 {
            problem_of(v.read_text())
        } else {
            problem_unless_null(v, AnthropicCacheControl::from_value(v))
        }
    }
}

/// The fields of an image block.
pub struct ImageBlockShape;

impl Shape for ImageBlockShape {
    open spec fn title() -> Seq<char> {
        "struct ImageBlock"@
    }

    open spec fn keys() -> Seq<Seq<char>> {
        seq!["cache_control"@, "source"@]
    }

    open spec fn may_lack(i: int) -> bool {
        i == 0
    }

    open spec fn has_default(i: int) -> bool {
        i == 0
    }

    open spec fn field_error(i: int, v: JsonView) -> Option<Seq<char>> {
        if i == 0 {
            error_unless_null(v, read_cache_control(v))
        } else {
            error_of(read_image_source(v))
        }
    }

    open spec fn excess() -> Seq<char> {
        "fewer elements in array"@
    }

    fn title_text() -> &'static str {
        "struct ImageBlock"
    }

    fn excess_text() -> &'static str {
        "fewer elements in array"
    }

    fn key_count() -> usize {
        2
    }

    fn rule(i: usize) -> (&'static str, bool, bool) {
        if i == 0 {
            ("cache_control", true, true)
        } else {
            ("source", false, false)
        }
    }

    fn field_problem(i: usize, v: &Json) -> Option<String> {
        if i == 0 {
            problem_unless_null(v, AnthropicCacheControl::from_value(v))
        } else {
            problem_of(AnthropicImageSourceOwned::from_value(v))
        }
    }
}

/// The fields of a document block.
pub struct DocumentBlockShape;

impl Shape for DocumentBlockShape {
    open spec fn title() -> Seq<char> {
        "struct DocumentBlock"@
    }

    open spec fn keys() -> Seq<Seq<char>> {
        seq!["cache_control"@, "source"@]
    }

    open spec fn may_lack(i: int) -> bool {
        i == 0
    }

    open spec fn has_default(i: int) -> bool {
        i == 0
    }

    open spec fn field_error(i: int, v: JsonView) -> Option<Seq<char>> {
        if i == 0 {
            error_unless_null(v, read_cache_control(v))
        } else {
            error_of(read_document_source(v))
        }
    }

    open spec fn excess() -> Seq<char> {
        "fewer elements in array"@
    }

    fn title_text() -> &'static str {
        "struct DocumentBlock"
    }

    fn excess_text() -> &'static str {
        "fewer elements in array"
    }

    fn key_count() -> usize {
        2
    }

    fn rule(i: usize) -> (&'static str, bool, bool) {
        if i == 0 {
            ("cache_control", true, true)
        } else {
            ("source", false, false)
        }
    }

    fn field_problem(i: usize, v: &Json) -> Option<String> {
        if i == 0 {
            problem_unless_null(v, AnthropicCacheControl::from_value(v))
        } else {
            problem_of(AnthropicDocumentSourceOwned::from_value(v))
        }
    }
}

/// The fields of a call of a tool.
pub struct ToolUseBlockShape;

impl Shape for ToolUseBlockShape {
    open spec fn title() -> Seq<char> {
        "struct ToolUseBlock"@
    }

    open spec fn keys() -> Seq<Seq<char>> {
        seq!["id"@, "name"@, "input"@, "cache_control"@]
    }

    open spec fn may_lack(i: int) -> bool {
        i == 3
    }

    open spec fn has_default(i: int) -> bool {
        i == 3
    }

    open spec fn field_error(i: int, v: JsonView) -> Option<Seq<char>> {
        if i == 0 {
            error_of(read_text(v))
        } else if i == 1 {
            error_of(read_text(v))
        } else if i == 2 {
            None
        } else {
            error_unless_null(v, read_cache_control(v))
        }
    }

    open spec fn excess() -> Seq<char> {
        "fewer elements in array"@
    }

    fn title_text() -> &'static str {
        "struct ToolUseBlock"
    }

    fn excess_text() -> &'static str {
        "fewer elements in array"
    }

    fn key_count() -> usize {
        4
    }

    fn rule(i: usize) -> (&'static str, bool, bool) {
        if i == 0 {
            ("id", false, false)
        } else if i == 1 {
            ("name", false, false)
        } else if i == 2 {
            ("input", false, false)
        } else {
            ("cache_control", true, true)
        }
    }

    fn field_problem(i: usize, v: &Json) -> Option<String> {
        if i == 0 {
            problem_of(v.read_text())
        } else if i == 1 {
            problem_of(v.read_text())
        } else if i == 2 {
            None
        } else {
            problem_unless_null(v, AnthropicCacheControl::from_value(v))
        }
    }
}

/// The fields of the result of a tool.
pub struct ToolResultBlockShape;

impl Shape for ToolResultBlockShape {
    open spec fn title() -> Seq<char> {
        "struct ToolResultBlock"@
    }

    open spec fn keys() -> Seq<Seq<char>> {
        seq!["tool_use_id"@, "content"@, "is_error"@, "cache_control"@]
    }

    open spec fn may_lack(i: int) -> bool {
        i != 0
    }

    open spec fn has_default(i: int) -> bool {
        i != 0
    }

    open spec fn field_error(i: int, v: JsonView) -> Option<Seq<char>> {
        if i == 0 {
            error_of(read_text(v))
        } else if i == 1 {
            None
        } else if i == 2 {
            error_unless_null(v, read_bool(v))
        } else {
            error_unless_null(v, read_cache_control(v))
        }
    }

    open spec fn excess() -> Seq<char> {
        "fewer elements in array"@
    }

    fn title_text() -> &'static str {
        "struct ToolResultBlock"
    }

    fn excess_text() -> &'static str {
        "fewer elements in array"
    }

    fn key_count() -> usize {
        4
    }

    fn rule(i: usize) -> (&'static str, bool, bool) {
        if i == 0 {
            ("tool_use_id", false, false)
        } else if i == 1 {
            ("content", true, true)
        } else if i == 2 {
            ("is_error", true, true)
        } else {
            ("cache_control", true, true)
        }
    }

    fn field_problem(i: usize, v: &Json) -> Option<String> {
        if i == 0 {
            problem_of(v.read_text())
        } else if i == 1 {
            None
        } else if i == 2 {
            problem_unless_null(v, v.read_bool())
        } else {
            problem_unless_null(v, AnthropicCacheControl::from_value(v))
        }
    }
}

/// The fields of a thought.
pub struct ThinkingBlockShape;

impl Shape for ThinkingBlockShape {
    open spec fn title() -> Seq<char> {
        "struct ThinkingBlock"@
    }

    open spec fn keys() -> Seq<Seq<char>> {
        seq!["thinking"@, "signature"@]
    }

    open spec fn may_lack(i: int) -> bool {
        false
    }

    open spec fn has_default(i: int) -> bool {
        false
    }

    open spec fn field_error(i: int, v: JsonView) -> Option<Seq<char>> {
        error_of(read_text(v))
    }

    open spec fn excess() -> Seq<char> {
        "fewer elements in array"@
    }

    fn title_text() -> &'static str {
        "struct ThinkingBlock"
    }

    fn excess_text() -> &'static str {
        "fewer elements in array"
    }

    fn key_count() -> usize {
        2
    }

    fn rule(i: usize) -> (&'static str, bool, bool) {
        if i == 0 {
            ("thinking", false, false)
        } else {
            ("signature", false, false)
        }
    }

    fn field_problem(_i: usize, v: &Json) -> Option<String> {
        problem_of(v.read_text())
    }
}

/// The fields of a thought that only the provider can read.
pub struct RedactedBlockShape;

impl Shape for RedactedBlockShape {
    open spec fn title() -> Seq<char> {
        "struct RedactedThinkingBlock"@
    }

    open spec fn keys() -> Seq<Seq<char>> {
        seq!["data"@]
    }

    open spec fn may_lack(i: int) -> bool {
        false
    }

    open spec fn has_default(i: int) -> bool {
        false
    }

    open spec fn field_error(i: int, v: JsonView) -> Option<Seq<char>> {
        error_of(read_text(v))
    }

    open spec fn excess() -> Seq<char> {
        "fewer elements in array"@
    }

    fn title_text() -> &'static str {
        "struct RedactedThinkingBlock"
    }

    fn excess_text() -> &'static str {
        "fewer elements in array"
    }

    fn key_count() -> usize {
        1
    }

    fn rule(_i: usize) -> (&'static str, bool, bool) {
        ("data", false, false)
    }

    fn field_problem(_i: usize, v: &Json) -> Option<String> {
        problem_of(v.read_text())
    }
}

/// The `type` of a content block.
pub open spec fn block_type(v: JsonView) -> Result<Seq<char>, Seq<char>> {
    match record_error::<BlockHeaderShape>(v) {
        Some(e) => Err(e),
        None => Ok(text_at(v, 0, "type"@)),
    }
}

/// A text block.
pub open spec fn read_text_block(v: JsonView) -> Result<BlockView, Seq<char>> {
    match record_error::<TextBlockShape>(v) {
        Some(e) => Err(e),
        None => Ok(
            BlockView::Text { text: text_at(v, 0, "text"@), cache_control: cache_control_at(v, 1) },
        ),
    }
}

/// An image block.
pub open spec fn read_image_block(v: JsonView) -> Result<BlockView, Seq<char>> {
    match record_error::<ImageBlockShape>(v) {
        Some(e) => Err(e),
        None => match read_image_source(any_at(v, 1, "source"@)) {
            Err(e) => Err(e),
            Ok(source) => Ok(BlockView::Image { cache_control: cache_control_at(v, 0), source }),
        },
    }
}

/// A document block.
pub open spec fn read_document_block(v: JsonView) -> Result<BlockView, Seq<char>> {
    match record_error::<DocumentBlockShape>(v) {
        Some(e) => Err(e),
        None => match read_document_source(any_at(v, 1, "source"@)) {
            Err(e) => Err(e),
            Ok(source) => Ok(BlockView::Document { cache_control: cache_control_at(v, 0), source }),
        },
    }
}

/// A call of a tool.
pub open spec fn read_tool_use_block(v: JsonView) -> Result<BlockView, Seq<char>> {
    match record_error::<ToolUseBlockShape>(v) {
        Some(e) => Err(e),
        None => Ok(
            BlockView::ToolUse {
                id: text_at(v, 0, "id"@),
                name: text_at(v, 1, "name"@),
                input: any_at(v, 2, "input"@),
                cache_control: cache_control_at(v, 3),
            },
        ),
    }
}

/// A thought.
pub open spec fn read_thinking_block(v: JsonView) -> Result<BlockView, Seq<char>> {
    match record_error::<ThinkingBlockShape>(v) {
        Some(e) => Err(e),
        None => Ok(
            BlockView::Thinking {
                thinking: text_at(v, 0, "thinking"@),
                signature: text_at(v, 1, "signature"@),
            },
        ),
    }
}

/// A thought that only the provider can read.
pub open spec fn read_redacted_block(v: JsonView) -> Result<BlockView, Seq<char>> {
    match record_error::<RedactedBlockShape>(v) {
        Some(e) => Err(e),
        None => Ok(BlockView::RedactedThinking { data: text_at(v, 0, "data"@) }),
    }
}

/// The result of a tool, with the content that was read.
pub open spec fn tool_result_block(v: JsonView, content: Seq<BlockView>) -> BlockView {
    BlockView::ToolResult {
        tool_use_id: text_at(v, 0, "tool_use_id"@),
        content,
        is_error: optional_bool_at(v, 2, "is_error"@),
        cache_control: cache_control_at(v, 3),
    }
}

/// A content block of a message.
pub open spec fn read_block(v: JsonView) -> Result<BlockView, Seq<char>>
    decreases v,
    via read_block_decreases
{
    match block_type(v) {
        Err(e) => Err(e),
        Ok(name) => if name == "text"@ {
            read_text_block(v)
        } else if name == "image"@ {
            read_image_block(v)
        } else if name == "document"@ {
            read_document_block(v)
        } else if name == "tool_use"@ {
            read_tool_use_block(v)
        } else if name == "tool_result"@ {
            match record_error::<ToolResultBlockShape>(v) {
                Some(e) => Err(e),
                None => match field(v, 1, "content"@) {
                    Some(JsonView::Array(items)) => match collected(block_results(items)) {
                        Err(e) => Err(e),
                        Ok(content) => Ok(tool_result_block(v, content)),
                    },
                    Some(JsonView::String(text)) => Ok(
                        tool_result_block(v, seq![BlockView::Text { text, cache_control: None }]),
                    ),
                    _ => Err("tool_result content must be string or array"@),
                },
            }
        } else if name == "thinking"@ {
            read_thinking_block(v)
        } else if name == "redacted_thinking"@ {
            read_redacted_block(v)
        } else {
            Err("Unknown content block type: "@ + name)
        },
    }
}

#[via_fn]
proof fn read_block_decreases(v: JsonView) {
    field_is_smaller(v, 1, "content"@);
}

/// Each of some content blocks.
pub open spec fn block_results(items: Seq<JsonView>) -> Seq<Result<BlockView, Seq<char>>>
    decreases items,
{
    Seq::new(
        items.len(),
        |i: int|
            if 0 <= i < items.len() {
                read_block(items[i])
            } else {
                Err(Seq::empty())
            },
    )
}

/// Some content blocks.
pub open spec fn read_blocks(items: Seq<JsonView>) -> Result<Seq<BlockView>, Seq<char>> {
    collected(block_results(items))
}

impl AnthropicContentBlockOwned {
    fn text_from(value: &Json) -> (r: Result<AnthropicContentBlockOwned, String>)
        ensures
            outcome(r) == read_text_block(value@),
    {
        match record_problem::<TextBlockShape>(value) {
            Some(e) => Err(e),
            None => Ok(
                AnthropicContentBlockOwned::Text {
                    text: value.text_at(0, "text"),
                    cache_control: AnthropicCacheControl::at(value, 1),
                },
            ),
        }
    }

    fn image_from(value: &Json) -> (r: Result<AnthropicContentBlockOwned, String>)
        ensures
            outcome(r) == read_image_block(value@),
    {
        match record_problem::<ImageBlockShape>(value) {
            Some(e) => Err(e),
            None => match AnthropicImageSourceOwned::from_value(
                value.any_ref(1, "source"),
            ) {
                Err(e) => Err(e),
                Ok(source) => Ok(
                    AnthropicContentBlockOwned::Image {
                        cache_control: AnthropicCacheControl::at(value, 0),
                        source,
                    },
                ),
            },
        }
    }

    fn document_from(value: &Json) -> (r: Result<AnthropicContentBlockOwned, String>)
        ensures
            outcome(r) == read_document_block(value@),
    {
        match record_problem::<DocumentBlockShape>(value) {
            Some(e) => Err(e),
            None => match AnthropicDocumentSourceOwned::from_value(
                value.any_ref(1, "source"),
            ) {
                Err(e) => Err(e),
                Ok(source) => Ok(
                    AnthropicContentBlockOwned::Document {
                        cache_control: AnthropicCacheControl::at(value, 0),
                        source,
                    },
                ),
            },
        }
    }

    fn tool_use_from(value: &Json) -> (r: Result<AnthropicContentBlockOwned, String>)
        ensures
            outcome(r) == read_tool_use_block(value@),
    {
        match record_problem::<ToolUseBlockShape>(value) {
            Some(e) => Err(e),
            None => Ok(
                AnthropicContentBlockOwned::ToolUse {
                    id: value.text_at(0, "id"),
                    name: value.text_at(1, "name"),
                    input: value.any_at(2, "input"),
                    cache_control: AnthropicCacheControl::at(value, 3),
                },
            ),
        }
    }

    fn thinking_from(value: &Json) -> (r: Result<AnthropicContentBlockOwned, String>)
        ensures
            outcome(r) == read_thinking_block(value@),
    {
        match record_problem::<ThinkingBlockShape>(value) {
            Some(e) => Err(e),
            None => Ok(
                AnthropicContentBlockOwned::Thinking {
                    thinking: value.text_at(0, "thinking"),
                    signature: value.text_at(1, "signature"),
                },
            ),
        }
    }

    fn redacted_from(value: &Json) -> (r: Result<AnthropicContentBlockOwned, String>)
        ensures
            outcome(r) == read_redacted_block(value@),
    {
        match record_problem::<RedactedBlockShape>(value) {
            Some(e) => Err(e),
            None => Ok(
                AnthropicContentBlockOwned::RedactedThinking { data: value.text_at(0, "data") },
            ),
        }
    }

    fn tool_result_with(value: &Json, content: Vec<AnthropicContentBlockOwned>) -> (r:
        AnthropicContentBlockOwned)
        ensures
            r.deep_view() == tool_result_block(value@, content.deep_view()),
    {
        let block: AnthropicContentBlockOwned = AnthropicContentBlockOwned::ToolResult {
            tool_use_id: value.text_at(0, "tool_use_id"),
            content,
            is_error: value.optional_bool_at(2, "is_error"),
            cache_control: AnthropicCacheControl::at(value, 3),
        };
        assert(block.deep_view()->ToolResult_content =~= content.deep_view());
        block
    }

    fn block_type(value: &Json) -> (r: Result<String, String>)
        ensures
            outcome(r) == block_type(value@),
    {
        match record_problem::<BlockHeaderShape>(value) {
            Some(e) => Err(e),
            None => Ok(value.text_at(0, "type")),
        }
    }

    /// Reads a content block.
    pub fn from_value(value: &Json) -> (r: Result<AnthropicContentBlockOwned, String>)
        ensures
            outcome(r) == read_block(value@),
        decreases value,
    {
        let name: String = match Self::block_type(value) {
            Err(e) => {
                return Err(e);
            },
            Ok(name) => name,
        };
        if same_text(name.as_str(), "text") {
            Self::text_from(value)
        } else if same_text(name.as_str(), "image") {
            Self::image_from(value)
        } else if same_text(name.as_str(), "document") {
            Self::document_from(value)
        } else if same_text(name.as_str(), "tool_use") {
            Self::tool_use_from(value)
        } else if same_text(name.as_str(), "tool_result") {
            if let Some(e) = record_problem::<ToolResultBlockShape>(value) {
                return Err(e);
            }
            match value.field(1, "content") {
                Some(Json::Array(items)) => {
                    assert(field(value@, 1, "content"@)->0->Array_0 =~= items.deep_view());
                    match Self::list_from_values(items) {
                        Err(e) => Err(e),
                        Ok(content) => Ok(Self::tool_result_with(value, content)),
                    }
                },
                Some(Json::String(text)) => {
                    let content: Vec<AnthropicContentBlockOwned> = vec![
                        AnthropicContentBlockOwned::Text { text: text.clone(), cache_control: None },
                    ];
                    assert(content@[0].model() == BlockView::Text {
                        text: text@,
                        cache_control: None,
                    });
                    assert(content.deep_view() =~= seq![
                        BlockView::Text { text: text@, cache_control: None },
                    ]);
                    Ok(Self::tool_result_with(value, content))
                },
                _ => Err(owned("tool_result content must be string or array")),
            }
        } else if same_text(name.as_str(), "thinking") {
            Self::thinking_from(value)
        } else if same_text(name.as_str(), "redacted_thinking") {
            Self::redacted_from(value)
        } else {
            Err(joined("Unknown content block type: ", name.as_str()))
        }
    }

    /// Reads some content blocks.
    pub fn list_from_values(items: &Vec<Json>) -> (r: Result<
        Vec<AnthropicContentBlockOwned>,
        String,
    >)
        ensures
            outcome(r) == read_blocks(items.deep_view()),
        decreases items,
    {
        let ghost views = items.deep_view();
        let ghost all = block_results(views);
        let mut blocks: Vec<AnthropicContentBlockOwned> = Vec::new();
        assert(blocks.deep_view() =~= Seq::empty());
        let n: usize = items.len();
        for i in 0..n
            invariant
                n == items@.len(),
                views == items.deep_view(),
                all.len() == n,
                forall|k: int| 0 <= k < n ==> #[trigger] all[k] == read_block(views[k]),
                so_far(all, i as int, blocks.deep_view()),
                all == block_results(views),
                decreases_to!(items => items@),
        {
            assert(decreases_to!(items@ => items@[i as int]));
            let block: Result<AnthropicContentBlockOwned, String> = Self::from_value(&items[i]);
            proof {
                collected_next(all, i as int, blocks.deep_view());
                assert(all[i as int] == outcome(block));
            }
            match block {
                Ok(block) => {
                    let ghost before = blocks.deep_view();
                    blocks.push(block);
                    assert(blocks.deep_view() =~= before.push(block.deep_view()));
                },
                Err(e) => {
                    return Err(e);
                },
            }
        }
        assert(all.take(n as int) =~= all);
        Ok(blocks)
    }
}

// ---------------------------------------------------------------------------
// Tool choice
// ---------------------------------------------------------------------------

/// The fields of a tool choice that names no tool.
pub struct ChoiceShape;

impl Shape for ChoiceShape {
    open spec fn title() -> Seq<char> {
        "struct Helper"@
    }

    open spec fn keys() -> Seq<Seq<char>> {
        seq!["disable_parallel_tool_use"@]
    }

    open spec fn may_lack(i: int) -> bool {
        true
    }

    open spec fn has_default(i: int) -> bool {
        true
    }

    open spec fn field_error(i: int, v: JsonView) -> Option<Seq<char>> {
        error_unless_null(v, read_bool(v))
    }

    open spec fn excess() -> Seq<char> {
        "fewer elements in array"@
    }

    fn title_text() -> &'static str {
        "struct Helper"
    }

    fn excess_text() -> &'static str {
        "fewer elements in array"
    }

    fn key_count() -> usize {
        1
    }

    fn rule(_i: usize) -> (&'static str, bool, bool) {
        ("disable_parallel_tool_use", true, true)
    }

    fn field_problem(_i: usize, v: &Json) -> Option<String> {
        problem_unless_null(v, v.read_bool())
    }
}

/// The fields of a tool choice that names a tool.
pub struct NamedChoiceShape;

impl Shape for NamedChoiceShape {
    open spec fn title() -> Seq<char> {
        "struct Helper"@
    }

    open spec fn keys() -> Seq<Seq<char>> {
        seq!["name"@, "disable_parallel_tool_use"@]
    }

    open spec fn may_lack(i: int) -> bool {
        i == 1
    }

    open spec fn has_default(i: int) -> bool {
        i == 1
    }

    open spec fn field_error(i: int, v: JsonView) -> Option<Seq<char>> {
        if i == 0 {
            error_of(read_text(v))
        } else {
            error_unless_null(v, read_bool(v))
        }
    }

    open spec fn excess() -> Seq<char> {
        "fewer elements in array"@
    }

    fn title_text() -> &'static str {
        "struct Helper"
    }

    fn excess_text() -> &'static str {
        "fewer elements in array"
    }

    fn key_count() -> usize {
        2
    }

    fn rule(i: usize) -> (&'static str, bool, bool) {
        if i == 0 {
            ("name", false, false)
        } else {
            ("disable_parallel_tool_use", true, true)
        }
    }

    fn field_problem(i: usize, v: &Json) -> Option<String> {
        if i == 0 {
            problem_of(v.read_text())
        } else {
            problem_unless_null(v, v.read_bool())
        }
    }
}

/// A tool choice: a name, or an object with a `type`.
pub open spec fn read_tool_choice(v: JsonView) -> Result<AnthropicToolChoiceView, Seq<char>> {
    match v {
        JsonView::String(name) => if name == "auto"@ {
            Ok(AnthropicToolChoiceView::Auto { disable_parallel_tool_use: None })
        } else if name == "any"@ {
            Ok(AnthropicToolChoiceView::Any { disable_parallel_tool_use: None })
        } else if name == "none"@ {
            Ok(AnthropicToolChoiceView::NoTool { disable_parallel_tool_use: None })
        } else {
            Err(
                "Invalid tool choice string: "@ + name
                    + ". Expected 'auto', 'any', or 'none'."@,
            )
        },
        JsonView::Object(_) => match field(v, 0, "type"@) {
            None => Err("Tool choice must have a 'type' field if it is an object"@),
            Some(JsonView::String(name)) => {
                let parallel = optional_bool_at(v, 0, "disable_parallel_tool_use"@);
                if name == "auto"@ {
                    match record_error::<ChoiceShape>(v) {
                        Some(e) => Err(e),
                        None => Ok(
                            AnthropicToolChoiceView::Auto { disable_parallel_tool_use: parallel },
                        ),
                    }
                } else if name == "any"@ {
                    match record_error::<ChoiceShape>(v) {
                        Some(e) => Err(e),
                        None => Ok(
                            AnthropicToolChoiceView::Any { disable_parallel_tool_use: parallel },
                        ),
                    }
                } else if name == "tool"@ {
                    match record_error::<NamedChoiceShape>(v) {
                        Some(e) => Err(e),
                        None => Ok(
                            AnthropicToolChoiceView::Tool {
                                name: text_at(v, 0, "name"@),
                                disable_parallel_tool_use: parallel,
                            },
                        ),
                    }
                } else if name == "none"@ {
                    match record_error::<ChoiceShape>(v) {
                        Some(e) => Err(e),
                        None => Ok(
                            AnthropicToolChoiceView::NoTool { disable_parallel_tool_use: parallel },
                        ),
                    }
                } else {
                    Err("Invalid tool choice type: "@ + name)
                }
            },
            Some(_) => Err("Tool choice 'type' field must be a string"@),
        },
        _ => Err("Tool choice must be a string or object"@),
    }
}

impl AnthropicToolChoiceOwned {
    /// Reads a tool choice.
    pub fn deserialize(value: &Json) -> (r: Result<AnthropicToolChoiceOwned, String>)
        ensures
            outcome(r) == read_tool_choice(value@),
    {
        match value {
            Json::String(name) => if same_text(name.as_str(), "auto") {
                Ok(AnthropicToolChoiceOwned::Auto { disable_parallel_tool_use: None })
            } else if same_text(name.as_str(), "any") {
                Ok(AnthropicToolChoiceOwned::Any { disable_parallel_tool_use: None })
            } else if same_text(name.as_str(), "none") {
                Ok(AnthropicToolChoiceOwned::NoTool { disable_parallel_tool_use: None })
            } else {
                let start: String = joined("Invalid tool choice string: ", name.as_str());
                Err(joined(start.as_str(), ". Expected 'auto', 'any', or 'none'."))
            },
            Json::Object(_) => match value.field(0, "type") {
                None => Err(owned("Tool choice must have a 'type' field if it is an object")),
                Some(Json::String(name)) => Self::of_type(value, name.as_str()),
                Some(_) => Err(owned("Tool choice 'type' field must be a string")),
            },
            _ => Err(owned("Tool choice must be a string or object")),
        }
    }

    fn of_type(value: &Json, name: &str) -> (r: Result<AnthropicToolChoiceOwned, String>)
        requires
            value@ is Object,
            field(value@, 0, "type"@) == Some(JsonView::String(name@)),
        ensures
            outcome(r) == read_tool_choice(value@),
    {
        let parallel: Option<bool> = value.optional_bool_at(0, "disable_parallel_tool_use");
        if same_text(name, "auto") {
            match record_problem::<ChoiceShape>(value) {
                Some(e) => Err(e),
                None => Ok(AnthropicToolChoiceOwned::Auto { disable_parallel_tool_use: parallel }),
            }
        } else if same_text(name, "any") {
            match record_problem::<ChoiceShape>(value) {
                Some(e) => Err(e),
                None => Ok(AnthropicToolChoiceOwned::Any { disable_parallel_tool_use: parallel }),
            }
        } else if same_text(name, "tool") {
            match record_problem::<NamedChoiceShape>(value) {
                Some(e) => Err(e),
                None => Ok(
                    AnthropicToolChoiceOwned::Tool {
                        name: value.text_at(0, "name"),
                        disable_parallel_tool_use: parallel,
                    },
                ),
            }
        } else if same_text(name, "none") {
            match record_problem::<ChoiceShape>(value) {
                Some(e) => Err(e),
                None => Ok(AnthropicToolChoiceOwned::NoTool { disable_parallel_tool_use: parallel }),
            }
        } else {
            Err(joined("Invalid tool choice type: ", name))
        }
    }
}

} // verus!
