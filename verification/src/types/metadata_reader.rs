//! Reading the metadata of requests out of JSON.
use crate::inference::{
    ChatCompletionInferenceParams, ChatCompletionInferenceParamsView, InferenceParams,
    InferenceParamsView,
};
use crate::json::{Json, JsonEntry, JsonView};
use crate::model::{collected, collected_next, outcome, so_far};
use crate::outside::{parsed_uuid, uuid_from_text};
use crate::reader::{
    Shape, any_at, error_of, error_unless_null, field, held, mismatch, optional_at,
    optional_bool_at, optional_number_at, optional_text_at, problem_of, problem_unless_null,
    read_bool, read_number, read_text, read_texts, read_u32, record_error, record_problem, value_held,
};
use crate::string_map::{StringMap, map_of};
use crate::text::{joined, same_text};
use crate::text_reader::{
    TextShape, leaf_text, object_text, read_leaf_text, read_object_text, read_record_text,
    record_text,
};
use crate::types::messages::{
    AnthropicMetadata, AnthropicTensorZeroMetadata, ExtensionView, MetadataView,
};
use vstd::prelude::*;

verus! {

// ---------------------------------------------------------------------------
// Parts
// ---------------------------------------------------------------------------

/// An entry of a map of texts.
pub open spec fn read_text_entry(entry: (Seq<char>, JsonView)) -> Result<
    (Seq<char>, Seq<char>),
    Seq<char>,
> {
    match read_text(entry.1) {
        Ok(s) => Ok((entry.0, s)),
        Err(e) => Err(e),
    }
}

/// A map of texts.
pub open spec fn read_text_map(v: JsonView) -> Result<Map<Seq<char>, Seq<char>>, Seq<char>> {
    match v {
        JsonView::Object(entries) => match collected(
            entries.map_values(|e: (Seq<char>, JsonView)| read_text_entry(e)),
        ) {
            Err(e) => Err(e),
            Ok(pairs) => Ok(map_of(pairs)),
        },
        _ => Err(mismatch(v, "a map"@)),
    }
}

/// The map of texts in a field of a record without errors: empty where it is left out.
pub open spec fn text_map_at(v: JsonView, position: nat, key: Seq<char>) -> Map<
    Seq<char>,
    Seq<char>,
> {
    match read_text_map(any_at(v, position, key)) {
        Ok(map) => map,
        Err(_) => Map::empty(),
    }
}

impl StringMap {
    /// Reads a map of texts.
    pub fn from_value(value: &Json) -> (r: Result<StringMap, String>)
        ensures
            outcome(r) == read_text_map(value@),
    {
        let entries: &Vec<JsonEntry> = match value {
            Json::Object(entries) => entries,
            _ => {
                return Err(value.mismatch("a map"));
            },
        };
        assert(value@->Object_0 =~= entries.deep_view());
        let ghost all = entries.deep_view().map_values(
            |e: (Seq<char>, JsonView)| read_text_entry(e),
        );
        let mut map: StringMap = StringMap::new();
        let ghost mut pairs: Seq<(Seq<char>, Seq<char>)> = Seq::empty();
        let n: usize = entries.len();
        for i in 0..n
            invariant
                n == entries@.len(),
                all == entries.deep_view().map_values(
                    |e: (Seq<char>, JsonView)| read_text_entry(e),
                ),
                value@ == JsonView::Object(entries.deep_view()),
                so_far(all, i as int, pairs),
                map@ == map_of(pairs),
        {
            let entry: &JsonEntry = &entries[i];
            proof {
                collected_next(all, i as int, pairs);
                assert(all[i as int] == read_text_entry(entry.deep_view()));
            }
            match entry.value.read_text() {
                Ok(s) => {
                    proof {
                        let longer = pairs.push((entry.key@, s@));
                        assert(longer.drop_last() =~= pairs);
                        pairs = longer;
                    }
                    map = map.with(entry.key.clone(), s);
                },
                Err(e) => {
                    return Err(e);
                },
            }
        }
        assert(all.take(n as int) =~= all);
        Ok(map)
    }

    fn at(value: &Json, position: usize, key: &str) -> (r: StringMap)
        ensures
            r@ == text_map_at(value@, position as nat, key@),
    {
        match Self::from_value(value.any_ref(position, key)) {
            Ok(map) => map,
            Err(_) => StringMap::new(),
        }
    }
}

/// A UUID, given what its text was parsed into.
pub open spec fn uuid_or_error(parsed: Result<u128, Seq<char>>) -> Result<u128, Seq<char>> {
    match parsed {
        Ok(id) => Ok(id),
        Err(e) => Err("UUID parsing failed: "@ + e),
    }
}

/// A UUID, given what its text was parsed into.
pub fn uuid_or_message(parsed: Result<u128, String>) -> (r: Result<u128, String>)
    ensures
        outcome(r) == uuid_or_error(outcome(parsed)),
{
    match parsed {
        Ok(id) => Ok(id),
        Err(e) => Err(joined("UUID parsing failed: ", e.as_str())),
    }
}

/// A UUID.
pub open spec fn read_uuid(v: JsonView) -> Result<u128, Seq<char>> {
    match v {
        JsonView::String(text) => uuid_or_error(parsed_uuid(text)),
        _ => Err(mismatch(v, "a formatted UUID string"@)),
    }
}

impl Json {
    /// Reads a UUID.
    pub fn read_uuid(&self) -> (r: Result<u128, String>)
        ensures
            outcome(r) == read_uuid(self@),
    {
        match self {
            Json::String(text) => uuid_or_message(uuid_from_text(text.as_str())),
            _ => Err(self.mismatch("a formatted UUID string")),
        }
    }

    /// A copy of a field that is carried as it came.
    fn carried(&self, position: usize, key: &str) -> (r: Option<Json>)
        ensures
            r.deep_view() == field(self@, position as nat, key@),
    {
        match self.field(position, key) {
            Some(x) => Some(x.duplicate()),
            None => None,
        }
    }
}

// ---------------------------------------------------------------------------
// Inference parameters
// ---------------------------------------------------------------------------

/// The names of the parameters that are read; any other is carried as it came.
pub open spec fn is_known_parameter(key: Seq<char>) -> bool {
    key == "temperature"@ || key == "max_tokens"@ || key == "top_p"@ || key == "stop_sequences"@
}

/// The entries with other parameters.
pub open spec fn other_parameters(entries: Seq<(Seq<char>, JsonView)>) -> Seq<
    (Seq<char>, JsonView),
> {
    entries.filter(|e: (Seq<char>, JsonView)| !is_known_parameter(e.0))
}

/// Parameters of a chat completion that say nothing.
pub open spec fn no_chat_params() -> ChatCompletionInferenceParamsView {
    ChatCompletionInferenceParamsView {
        temperature: None,
        max_tokens: None,
        top_p: None,
        stop_sequences: None,
        other: Seq::empty(),
    }
}

/// The parameters of a chat completion that are read.
pub struct ChatParamsShape;

impl Shape for ChatParamsShape {
    open spec fn title() -> Seq<char> {
        "struct ChatCompletionInferenceParams"@
    }

    open spec fn keys() -> Seq<Seq<char>> {
        seq!["temperature"@, "max_tokens"@, "top_p"@, "stop_sequences"@]
    }

    open spec fn may_lack(i: int) -> bool {
        true
    }

    open spec fn has_default(i: int) -> bool {
        true
    }

    open spec fn field_error(i: int, v: JsonView) -> Option<Seq<char>> {
        if i == 0 {
            error_unless_null(v, read_number(v))
        } else if i == 1 {
            error_unless_null(v, read_u32(v))
        } else if i == 2 {
            error_unless_null(v, read_number(v))
        } else {
            error_unless_null(v, read_texts(v))
        }
    }

    open spec fn excess() -> Seq<char> {
        "fewer elements in array"@
    }

    fn title_text() -> &'static str {
        "struct ChatCompletionInferenceParams"
    }

    fn excess_text() -> &'static str {
        "fewer elements in array"
    }

    fn key_count() -> usize {
        4
    }

    fn rule(i: usize) -> (&'static str, bool, bool) {
        if i == 0 {
            ("temperature", true, true)
        } else if i == 1 {
            ("max_tokens", true, true)
        } else if i == 2 {
            ("top_p", true, true)
        } else {
            ("stop_sequences", true, true)
        }
    }

    fn field_problem(i: usize, v: &Json) -> Option<String> {
        if i == 0 {
            problem_unless_null(v, v.read_number())
        } else if i == 1 {
            problem_unless_null(v, v.read_u32())
        } else if i == 2 {
            problem_unless_null(v, v.read_number())
        } else {
            problem_unless_null(v, v.read_texts())
        }
    }
}

/// The parameters of a chat completion.
pub open spec fn read_chat_params(v: JsonView) -> Result<
    ChatCompletionInferenceParamsView,
    Seq<char>,
> {
    match v {
        JsonView::Object(entries) => match record_error::<ChatParamsShape>(v) {
            Some(e) => Err(e),
            None => Ok(
                ChatCompletionInferenceParamsView {
                    temperature: optional_number_at(v, 0, "temperature"@),
                    max_tokens: held(read_u32(any_at(v, 1, "max_tokens"@))),
                    top_p: optional_number_at(v, 2, "top_p"@),
                    stop_sequences: held(read_texts(any_at(v, 3, "stop_sequences"@))),
                    other: other_parameters(entries),
                },
            ),
        },
        _ => Err(mismatch(v, "struct ChatCompletionInferenceParams"@)),
    }
}

/// The parameters of an inference.
pub struct ParamsShape;

impl Shape for ParamsShape {
    open spec fn title() -> Seq<char> {
        "struct InferenceParams"@
    }

    open spec fn keys() -> Seq<Seq<char>> {
        seq!["chat_completion"@]
    }

    open spec fn may_lack(i: int) -> bool {
        true
    }

    open spec fn has_default(i: int) -> bool {
        true
    }

    open spec fn field_error(i: int, v: JsonView) -> Option<Seq<char>> {
        error_of(read_chat_params(v))
    }

    open spec fn excess() -> Seq<char> {
        "fewer elements in array"@
    }

    fn title_text() -> &'static str {
        "struct InferenceParams"
    }

    fn excess_text() -> &'static str {
        "fewer elements in array"
    }

    fn key_count() -> usize {
        1
    }

    fn rule(_i: usize) -> (&'static str, bool, bool) {
        ("chat_completion", true, true)
    }

    fn field_problem(_i: usize, v: &Json) -> Option<String> {
        problem_of(ChatCompletionInferenceParams::from_value(v))
    }
}

impl TextShape for ParamsShape {
    open spec fn field_text(i: int, raw: Seq<char>) -> Result<JsonView, Seq<char>> {
        object_text(raw, 122)
    }

    fn read_field_text(_i: usize, raw: &str) -> Result<Json, String> {
        read_object_text(raw, 122)
    }
}

/// The parameters of an inference.
pub open spec fn read_params(v: JsonView) -> Result<InferenceParamsView, Seq<char>> {
    match record_error::<ParamsShape>(v) {
        Some(e) => Err(e),
        None => Ok(
            InferenceParamsView {
                chat_completion: match read_chat_params(any_at(v, 0, "chat_completion"@)) {
                    Ok(params) => params,
                    Err(_) => no_chat_params(),
                },
            },
        ),
    }
}

fn read_other_parameters(entries: &Vec<JsonEntry>) -> (r: Vec<JsonEntry>)
    ensures
        r.deep_view() == other_parameters(entries.deep_view()),
{
    let ghost all = entries.deep_view();
    let ghost keep = |e: (Seq<char>, JsonView)| !is_known_parameter(e.0);
    let mut other: Vec<JsonEntry> = Vec::new();
    let n: usize = entries.len();
    assert(other.deep_view() =~= all.take(0).filter(keep)) by {
        reveal(Seq::filter);
    }
    for i in 0..n
        invariant
            n == entries@.len(),
            all == entries.deep_view(),
            keep == (|e: (Seq<char>, JsonView)| !is_known_parameter(e.0)),
            other.deep_view() == all.take(i as int).filter(keep),
    {
        let entry: &JsonEntry = &entries[i];
        let key: &str = entry.key.as_str();
        let ghost before = other.deep_view();
        assert(all.take(i + 1).drop_last() =~= all.take(i as int));
        assert(all.take(i + 1).last() == entry.deep_view());
        if !(same_text(key, "temperature") || same_text(key, "max_tokens") || same_text(
            key,
            "top_p",
        ) || same_text(key, "stop_sequences")) {
            other.push(JsonEntry { key: entry.key.clone(), value: entry.value.duplicate() });
            assert(other.deep_view() =~= before.push(entry.deep_view()));
        }
        assert(other.deep_view() == all.take(i + 1).filter(keep)) by {
            reveal(Seq::filter);
        }
    }
    assert(all.take(n as int) =~= all);
    other
}

impl ChatCompletionInferenceParams {
    /// Reads the parameters of a chat completion.
    pub fn from_value(value: &Json) -> (r: Result<ChatCompletionInferenceParams, String>)
        ensures
            outcome(r) == read_chat_params(value@),
    {
        let entries: &Vec<JsonEntry> = match value {
            Json::Object(entries) => entries,
            _ => {
                return Err(value.mismatch("struct ChatCompletionInferenceParams"));
            },
        };
        assert(value@->Object_0 =~= entries.deep_view());
        match record_problem::<ChatParamsShape>(value) {
            Some(e) => Err(e),
            None => Ok(
                ChatCompletionInferenceParams {
                    temperature: value.optional_number_at(0, "temperature"),
                    max_tokens: value_held(value.any_ref(1, "max_tokens").read_u32()),
                    top_p: value.optional_number_at(2, "top_p"),
                    stop_sequences: value_held(value.any_ref(3, "stop_sequences").read_texts()),
                    other: read_other_parameters(entries),
                },
            ),
        }
    }
}

impl Default for ChatCompletionInferenceParams {
    fn default() -> (r: ChatCompletionInferenceParams)
        ensures
            r.deep_view() == no_chat_params(),
    {
        let r: ChatCompletionInferenceParams = ChatCompletionInferenceParams {
            temperature: None,
            max_tokens: None,
            top_p: None,
            stop_sequences: None,
            other: Vec::new(),
        };
        assert(r.deep_view().other =~= Seq::empty());
        r
    }
}

impl InferenceParams {
    /// Reads the parameters of an inference.
    pub fn from_value(value: &Json) -> (r: Result<InferenceParams, String>)
        ensures
            outcome(r) == read_params(value@),
    {
        match record_problem::<ParamsShape>(value) {
            Some(e) => Err(e),
            None => match ChatCompletionInferenceParams::from_value(
                value.any_ref(0, "chat_completion"),
            ) {
                Ok(chat_completion) => Ok(InferenceParams { chat_completion }),
                Err(_) => Ok(
                    InferenceParams { chat_completion: ChatCompletionInferenceParams::default() },
                ),
            },
        }
    }
}

// ---------------------------------------------------------------------------
// Metadata
// ---------------------------------------------------------------------------

/// The fields under `metadata.tensorzero`.
pub struct ExtensionShape;

impl Shape for ExtensionShape {
    open spec fn title() -> Seq<char> {
        "struct AnthropicTensorZeroMetadata"@
    }

    open spec fn keys() -> Seq<Seq<char>> {
        seq![
            "episode_id"@,
            "variant_name"@,
            "tags"@,
            "cache_options"@,
            "extra_body"@,
            "extra_headers"@,
            "dryrun"@,
            "namespace"@,
            "credentials"@,
            "params"@,
            "include_raw_usage"@,
        ]
    }

    open spec fn may_lack(i: int) -> bool {
        true
    }

    open spec fn has_default(i: int) -> bool {
        i != 0 && i != 1 && i != 3 && i != 7
    }

    open spec fn field_error(i: int, v: JsonView) -> Option<Seq<char>> {
        if i == 0 {
            error_unless_null(v, read_uuid(v))
        } else if i == 1 {
            error_unless_null(v, read_text(v))
        } else if i == 2 {
            error_of(read_text_map(v))
        } else if i == 3 {
            None
        } else if i == 4 {
            None
        } else if i == 5 {
            None
        } else if i == 6 {
            error_unless_null(v, read_bool(v))
        } else if i == 7 {
            error_unless_null(v, read_text(v))
        } else if i == 8 {
            error_of(read_text_map(v))
        } else if i == 9 {
            error_unless_null(v, read_params(v))
        } else {
            error_unless_null(v, read_bool(v))
        }
    }

    open spec fn excess() -> Seq<char> {
        "fewer elements in array"@
    }

    fn title_text() -> &'static str {
        "struct AnthropicTensorZeroMetadata"
    }

    fn excess_text() -> &'static str {
        "fewer elements in array"
    }

    fn key_count() -> usize {
        11
    }

    fn rule(i: usize) -> (&'static str, bool, bool) {
        if i == 0 {
            ("episode_id", true, false)
        } else if i == 1 {
            ("variant_name", true, false)
        } else if i == 2 {
            ("tags", true, true)
        } else if i == 3 {
            ("cache_options", true, false)
        } else if i == 4 {
            ("extra_body", true, true)
        } else if i == 5 {
            ("extra_headers", true, true)
        } else if i == 6 {
            ("dryrun", true, true)
        } else if i == 7 {
            ("namespace", true, false)
        } else if i == 8 {
            ("credentials", true, true)
        } else if i == 9 {
            ("params", true, true)
        } else {
            ("include_raw_usage", true, true)
        }
    }

    fn field_problem(i: usize, v: &Json) -> Option<String> {
        if i == 0 {
            problem_unless_null(v, v.read_uuid())
        } else if i == 1 {
            problem_unless_null(v, v.read_text())
        } else if i == 2 {
            problem_of(StringMap::from_value(v))
        } else if i == 3 {
            None
        } else if i == 4 {
            None
        } else if i == 5 {
            None
        } else if i == 6 {
            problem_unless_null(v, v.read_bool())
        } else if i == 7 {
            problem_unless_null(v, v.read_text())
        } else if i == 8 {
            problem_of(StringMap::from_value(v))
        } else if i == 9 {
            problem_unless_null(v, InferenceParams::from_value(v))
        } else {
            problem_unless_null(v, v.read_bool())
        }
    }
}

impl TextShape for ExtensionShape {
    open spec fn field_text(i: int, raw: Seq<char>) -> Result<JsonView, Seq<char>> {
        if i == 9 {
            record_text::<ParamsShape>(raw)
        } else {
            leaf_text(raw, 124)
        }
    }

    fn read_field_text(i: usize, raw: &str) -> Result<Json, String> {
        if i == 9 {
            read_record_text::<ParamsShape>(raw)
        } else {
            read_leaf_text(raw, 124)
        }
    }
}

/// The extension fields under `metadata.tensorzero`.
pub open spec fn read_extension(v: JsonView) -> Result<ExtensionView, Seq<char>> {
    match record_error::<ExtensionShape>(v) {
        Some(e) => Err(e),
        None => Ok(
            ExtensionView {
                episode_id: held(read_uuid(any_at(v, 0, "episode_id"@))),
                variant_name: optional_text_at(v, 1, "variant_name"@),
                tags: text_map_at(v, 2, "tags"@),
                cache_options: optional_at(v, 3, "cache_options"@),
                extra_body: field(v, 4, "extra_body"@),
                extra_headers: field(v, 5, "extra_headers"@),
                dryrun: optional_bool_at(v, 6, "dryrun"@),
                namespace: optional_text_at(v, 7, "namespace"@),
                credentials: text_map_at(v, 8, "credentials"@),
                params: held(read_params(any_at(v, 9, "params"@))),
                include_raw_usage: optional_bool_at(v, 10, "include_raw_usage"@),
            },
        ),
    }
}

/// The fields of `metadata`.
pub struct MetadataShape;

impl Shape for MetadataShape {
    open spec fn title() -> Seq<char> {
        "struct AnthropicMetadata"@
    }

    open spec fn keys() -> Seq<Seq<char>> {
        seq!["user_id"@, "tensorzero"@]
    }

    open spec fn may_lack(i: int) -> bool {
        true
    }

    open spec fn has_default(i: int) -> bool {
        i == 1
    }

    open spec fn field_error(i: int, v: JsonView) -> Option<Seq<char>> {
        if i == 0 {
            error_unless_null(v, read_text(v))
        } else {
            error_unless_null(v, read_extension(v))
        }
    }

    open spec fn excess() -> Seq<char> {
        "fewer elements in array"@
    }

    fn title_text() -> &'static str {
        "struct AnthropicMetadata"
    }

    fn excess_text() -> &'static str {
        "fewer elements in array"
    }

    fn key_count() -> usize {
        2
    }

    fn rule(i: usize) -> (&'static str, bool, bool) {
        if i == 0 {
            ("user_id", true, false)
        } else {
            ("tensorzero", true, true)
        }
    }

    fn field_problem(i: usize, v: &Json) -> Option<String> {
        if i == 0 {
            problem_unless_null(v, v.read_text())
        } else {
            problem_unless_null(v, AnthropicTensorZeroMetadata::from_value(v))
        }
    }
}

impl TextShape for MetadataShape {
    open spec fn field_text(i: int, raw: Seq<char>) -> Result<JsonView, Seq<char>> {
        if i == 1 {
            record_text::<ExtensionShape>(raw)
        } else {
            leaf_text(raw, 125)
        }
    }

    fn read_field_text(i: usize, raw: &str) -> Result<Json, String> {
        if i == 1 {
            read_record_text::<ExtensionShape>(raw)
        } else {
            read_leaf_text(raw, 125)
        }
    }
}

/// The `metadata` of a request.
pub open spec fn read_metadata(v: JsonView) -> Result<MetadataView, Seq<char>> {
    match record_error::<MetadataShape>(v) {
        Some(e) => Err(e),
        None => Ok(
            MetadataView {
                user_id: optional_text_at(v, 0, "user_id"@),
                tensorzero: held(read_extension(any_at(v, 1, "tensorzero"@))),
            },
        ),
    }
}

impl AnthropicTensorZeroMetadata {
    /// Reads the extension fields.
    pub fn from_value(value: &Json) -> (r: Result<AnthropicTensorZeroMetadata, String>)
        ensures
            outcome(r) == read_extension(value@),
    {
        match record_problem::<ExtensionShape>(value) {
            Some(e) => Err(e),
            None => Ok(
                AnthropicTensorZeroMetadata {
                    episode_id: value_held(value.any_ref(0, "episode_id").read_uuid()),
                    variant_name: value.optional_text_at(1, "variant_name"),
                    tags: StringMap::at(value, 2, "tags"),
                    cache_options: value.optional_at(3, "cache_options"),
                    extra_body: value.carried(4, "extra_body"),
                    extra_headers: value.carried(5, "extra_headers"),
                    dryrun: value.optional_bool_at(6, "dryrun"),
                    namespace: value.optional_text_at(7, "namespace"),
                    credentials: StringMap::at(value, 8, "credentials"),
                    params: value_held(InferenceParams::from_value(value.any_ref(9, "params"))),
                    include_raw_usage: value.optional_bool_at(10, "include_raw_usage"),
                },
            ),
        }
    }
}

impl AnthropicMetadata {
    /// Reads the metadata of a request.
    pub fn from_value(value: &Json) -> (r: Result<AnthropicMetadata, String>)
        ensures
            outcome(r) == read_metadata(value@),
    {
        match record_problem::<MetadataShape>(value) {
            Some(e) => Err(e),
            None => Ok(
                AnthropicMetadata {
                    user_id: value.optional_text_at(0, "user_id"),
                    tensorzero: value_held(
                        AnthropicTensorZeroMetadata::from_value(value.any_ref(1, "tensorzero")),
                    ),
                },
            ),
        }
    }
}

} // verus!
