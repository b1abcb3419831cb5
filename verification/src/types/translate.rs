//! Turns requests into requests to the inference engine.
use crate::error::{Error, invalid};
use crate::inference::{
    Base64File, Base64FileView, File, FileView, InputMessageContent, InputMessageContentView, Text,
    TextView, Thought, ThoughtView, ToolCall, ToolCallView, ToolChoice, ToolChoiceView, ToolResult,
    ToolResultView, Unknown, UnknownView, UrlFile, UrlFileView,
};
use crate::json::{Json, JsonView};
use crate::model::{collected, collected_next, nonempty, nonempty_text, outcome, so_far};
use crate::outside::{
    json_text, mime_from_text, parsed_mime, parsed_url, print_json, reads_back, url_from_text,
};
use crate::provider::AnthropicCacheControl;
use crate::string_map::StringMap;
use crate::text::{joined, owned, same_text};
use crate::types::messages::{
    AnthropicContentBlockOwned, AnthropicDocumentSourceOwned, AnthropicImageSourceOwned,
    AnthropicToolChoiceOwned, AnthropicToolChoiceView, BlockView, SourceView, block_kind,
};
use vstd::prelude::*;

verus! {

// ---------------------------------------------------------------------------
// Files
// ---------------------------------------------------------------------------

/// The engine's refusal to take base64 data as a file.
#[derive(Debug)]
pub struct Base64Refusal {
    pub media_type: String,
    pub data: String,
    pub reason: String,
}

pub struct RefusalView {
    pub media_type: Seq<char>,
    pub data: Seq<char>,
    pub reason: Seq<char>,
}

impl DeepView for Base64Refusal {
    type V = RefusalView;

    open spec fn deep_view(&self) -> RefusalView {
        RefusalView { media_type: self.media_type@, data: self.data@, reason: self.reason@ }
    }
}

/// Why the engine refuses this data, if it does: the first reason that it gave.
pub open spec fn refusal_of(
    refusals: Seq<RefusalView>,
    media_type: Seq<char>,
    data: Seq<char>,
) -> Option<Seq<char>>
    decreases refusals.len(),
{
    if refusals.len() == 0 {
        None
    } else if refusals[0].media_type == media_type && refusals[0].data == data {
        Some(refusals[0].reason)
    } else {
        refusal_of(refusals.skip(1), media_type, data)
    }
}

fn find_refusal<'a>(refusals: &'a Vec<Base64Refusal>, media_type: &str, data: &str) -> (r: Option<
    &'a String,
>)
    ensures
        match r {
            Some(reason) => refusal_of(refusals.deep_view(), media_type@, data@) == Some(reason@),
            None => refusal_of(refusals.deep_view(), media_type@, data@) is None,
        },
{
    let ghost all = refusals.deep_view();
    let n: usize = refusals.len();
    assert(all.skip(0) =~= all);
    for i in 0..n
        invariant
            n == refusals@.len(),
            all == refusals.deep_view(),
            refusal_of(all, media_type@, data@) == refusal_of(
                all.skip(i as int),
                media_type@,
                data@,
            ),
    {
        let refusal: &Base64Refusal = &refusals[i];
        assert(all.skip(i as int)[0] == refusal.deep_view());
        assert(all.skip(i as int).skip(1) =~= all.skip(i + 1));
        if same_text(refusal.media_type.as_str(), media_type) && same_text(
            refusal.data.as_str(),
            data,
        ) {
            return Some(&refusal.reason);
        }
    }
    None
}

/// A text in backquotes behind a label.
pub open spec fn quoted(label: Seq<char>, text: Seq<char>) -> Seq<char> {
    label + "`"@ + text + "`"@
}

fn quoted_text(label: &str, text: &str) -> (r: String)
    ensures
        r@ == quoted(label@, text@),
{
    let open: String = joined(label, "`");
    let middle: String = joined(open.as_str(), text);
    joined(middle.as_str(), "`")
}

/// A file from base64 data, given the MIME type that its media type spells.
pub open spec fn base64_file(
    mime: Option<Seq<char>>,
    media_type: Seq<char>,
    data: Seq<char>,
    refusals: Seq<RefusalView>,
    bad_mime: Seq<char>,
    bad_data: Seq<char>,
) -> Result<FileView, Seq<char>> {
    match mime {
        None => Err(quoted(bad_mime, media_type)),
        Some(mime_type) => match refusal_of(refusals, media_type, data) {
            Some(reason) => Err(bad_data + reason),
            None => Ok(
                FileView::Base64(
                    Base64FileView {
                        source_url: None,
                        mime_type,
                        data,
                        detail: None,
                        filename: None,
                    },
                ),
            ),
        },
    }
}

/// A file at a URL, given the URL that the text spells.
pub open spec fn url_file(
    parsed: Option<Seq<char>>,
    url: Seq<char>,
    bad_url: Seq<char>,
) -> Result<FileView, Seq<char>> {
    match parsed {
        None => Err(quoted(bad_url, url)),
        Some(found) => Ok(
            FileView::Url(
                UrlFileView { url: found, mime_type: None, detail: None, filename: None },
            ),
        ),
    }
}

/// The file of an image.
pub open spec fn image_file(source: SourceView, refusals: Seq<RefusalView>) -> Result<
    FileView,
    Seq<char>,
> {
    match source {
        SourceView::Base64 { media_type, data } => base64_file(
            parsed_mime(media_type),
            media_type,
            data,
            refusals,
            "Invalid MIME type in base64 image: "@,
            "Invalid base64 image data: "@,
        ),
        SourceView::Url { url } => url_file(
            parsed_url(url),
            url,
            "Invalid URL in image content block: "@,
        ),
    }
}

/// The file of a document.
pub open spec fn document_file(source: SourceView, refusals: Seq<RefusalView>) -> Result<
    FileView,
    Seq<char>,
> {
    match source {
        SourceView::Base64 { media_type, data } => base64_file(
            parsed_mime(media_type),
            media_type,
            data,
            refusals,
            "Invalid MIME type in base64 document: "@,
            "Invalid base64 document data: "@,
        ),
        SourceView::Url { url } => url_file(
            parsed_url(url),
            url,
            "Invalid URL in document content block: "@,
        ),
    }
}

/// A file from base64 data, given the MIME type that its media type spells.
pub fn make_base64_file(
    mime: Option<String>,
    media_type: &str,
    data: &str,
    refusals: &Vec<Base64Refusal>,
    bad_mime: &str,
    bad_data: &str,
) -> (r: Result<File, String>)
    ensures
        outcome(r) == base64_file(
            mime.deep_view(),
            media_type@,
            data@,
            refusals.deep_view(),
            bad_mime@,
            bad_data@,
        ),
{
    match mime {
        None => Err(quoted_text(bad_mime, media_type)),
        Some(mime_type) => match find_refusal(refusals, media_type, data) {
            Some(reason) => Err(joined(bad_data, reason.as_str())),
            None => Ok(
                File::Base64(
                    Base64File {
                        source_url: None,
                        mime_type,
                        data: owned(data),
                        detail: None,
                        filename: None,
                    },
                ),
            ),
        },
    }
}

/// A file at a URL, given the URL that the text spells.
pub fn make_url_file(parsed: Option<String>, url: &str, bad_url: &str) -> (r: Result<File, String>)
    ensures
        outcome(r) == url_file(parsed.deep_view(), url@, bad_url@),
{
    match parsed {
        None => Err(quoted_text(bad_url, url)),
        Some(found) => Ok(
            File::Url(UrlFile { url: found, mime_type: None, detail: None, filename: None }),
        ),
    }
}

impl AnthropicImageSourceOwned {
    fn file(&self, refusals: &Vec<Base64Refusal>) -> (r: Result<File, String>)
        ensures
            outcome(r) == image_file(self.deep_view(), refusals.deep_view()),
    {
        match self {
            AnthropicImageSourceOwned::Base64 { media_type, data } => make_base64_file(
                mime_from_text(media_type.as_str()),
                media_type.as_str(),
                data.as_str(),
                refusals,
                "Invalid MIME type in base64 image: ",
                "Invalid base64 image data: ",
            ),
            AnthropicImageSourceOwned::Url { url } => make_url_file(
                url_from_text(url.as_str()),
                url.as_str(),
                "Invalid URL in image content block: ",
            ),
        }
    }
}

impl AnthropicDocumentSourceOwned {
    fn file(&self, refusals: &Vec<Base64Refusal>) -> (r: Result<File, String>)
        ensures
            outcome(r) == document_file(self.deep_view(), refusals.deep_view()),
    {
        match self {
            AnthropicDocumentSourceOwned::Base64 { media_type, data } => make_base64_file(
                mime_from_text(media_type.as_str()),
                media_type.as_str(),
                data.as_str(),
                refusals,
                "Invalid MIME type in base64 document: ",
                "Invalid base64 document data: ",
            ),
            AnthropicDocumentSourceOwned::Url { url } => make_url_file(
                url_from_text(url.as_str()),
                url.as_str(),
                "Invalid URL in document content block: ",
            ),
        }
    }
}

// ---------------------------------------------------------------------------
// Content blocks
// ---------------------------------------------------------------------------

/// A text behind others, on a line of its own.
pub open spec fn with_line(text: Seq<char>, line: Seq<char>) -> Seq<char> {
    if text.len() == 0 {
        line
    } else {
        text + "\n"@ + line
    }
}

/// The text of a tool result. Only text blocks are supported in it.
pub open spec fn tool_result_text(content: Seq<BlockView>) -> Result<Seq<char>, Seq<char>>
    decreases content.len(),
{
    if content.len() == 0 {
        Ok(Seq::empty())
    } else {
        match tool_result_text(content.drop_last()) {
            Err(e) => Err(e),
            Ok(text) => match content.last() {
                BlockView::Text { text: line, .. } => Ok(with_line(text, line)),
                other => Err(unsupported_in_tool_result(other)),
            },
        }
    }
}

/// The message for a block that a tool result cannot hold.
pub open spec fn unsupported_in_tool_result(block: BlockView) -> Seq<char> {
    "Unsupported content block type '"@ + block_kind(block)
        + "' inside tool_result; only Text blocks are supported"@
}

proof fn tool_result_stops(content: Seq<BlockView>, n: int)
    requires
        0 <= n < content.len(),
        tool_result_text(content.take(n + 1)) is Err,
    ensures
        tool_result_text(content) == tool_result_text(content.take(n + 1)),
    decreases content.len(),
{
    if n + 1 == content.len() {
        assert(content.take(n + 1) =~= content);
    } else {
        assert(content.drop_last().take(n + 1) =~= content.take(n + 1));
        tool_result_stops(content.drop_last(), n);
    }
}

fn make_tool_result_text(content: &Vec<AnthropicContentBlockOwned>) -> (r: Result<String, String>)
    ensures
        outcome(r) == tool_result_text(content.deep_view()),
{
    let ghost all = content.deep_view();
    let mut text: String = String::new();
    let n: usize = content.len();
    assert(text@ =~= Seq::empty());
    for i in 0..n
        invariant
            n == content@.len(),
            all == content.deep_view(),
            tool_result_text(all.take(i as int)) matches Ok(t) && t == text@,
    {
        assert(all.take(i + 1).drop_last() =~= all.take(i as int));
        assert(all.take(i + 1).last() == content@[i as int].deep_view());
        match &content[i] {
            AnthropicContentBlockOwned::Text { text: line, .. } => {
                if text.as_str().is_empty() {
                    text = line.clone();
                } else {
                    let broken: String = joined(text.as_str(), "\n");
                    text = joined(broken.as_str(), line.as_str());
                }
            },
            other => {
                let start: String = joined("Unsupported content block type '", other.kind());
                proof {
                    tool_result_stops(all, i as int);
                }
                return Err(
                    joined(
                        start.as_str(),
                        "' inside tool_result; only Text blocks are supported",
                    ),
                );
            },
        }
    }
    assert(all.take(n as int) =~= all);
    Ok(text)
}

/// What a content block of a message becomes. A tool result carries only the ID
/// of the call, so its name comes from the calls in the conversation.
pub open spec fn content_of(
    block: BlockView,
    names: Map<Seq<char>, Seq<char>>,
    refusals: Seq<RefusalView>,
) -> Result<InputMessageContentView, Seq<char>> {
    match block {
        BlockView::Text { text, .. } => Ok(InputMessageContentView::Text(TextView { text })),
        BlockView::Thinking { thinking, signature } => Ok(
            InputMessageContentView::Thought(
                ThoughtView {
                    text: nonempty(thinking),
                    signature: nonempty(signature),
                    summary: None,
                    provider_type: None,
                    extra_data: None,
                },
            ),
        ),
        BlockView::RedactedThinking { data } => Ok(
            InputMessageContentView::Unknown(
                UnknownView { data: JsonView::String(data), model_name: None, provider_name: None },
            ),
        ),
        BlockView::ToolUse { id, name, input, .. } => Ok(
            InputMessageContentView::ToolCall(
                ToolCallView { id, name, arguments: json_text(input) },
            ),
        ),
        BlockView::ToolResult { tool_use_id, content, .. } => match tool_result_text(content) {
            Err(e) => Err(e),
            Ok(result) => Ok(
                InputMessageContentView::ToolResult(
                    ToolResultView {
                        id: tool_use_id,
                        name: if names.dom().contains(tool_use_id) {
                            names[tool_use_id]
                        } else {
                            Seq::empty()
                        },
                        result,
                    },
                ),
            ),
        },
        BlockView::Image { source, .. } => match image_file(source, refusals) {
            Err(e) => Err(e),
            Ok(file) => Ok(InputMessageContentView::File(file)),
        },
        BlockView::Document { source, .. } => match document_file(source, refusals) {
            Err(e) => Err(e),
            Ok(file) => Ok(InputMessageContentView::File(file)),
        },
    }
}

/// What each of some content blocks becomes.
pub open spec fn content_results(
    blocks: Seq<BlockView>,
    names: Map<Seq<char>, Seq<char>>,
    refusals: Seq<RefusalView>,
) -> Seq<Result<InputMessageContentView, Seq<char>>> {
    blocks.map_values(|b: BlockView| content_of(b, names, refusals))
}

/// The cache marker on a content block. Thoughts carry none.
pub open spec fn marker_on(block: BlockView) -> Option<AnthropicCacheControl> {
    match block {
        BlockView::Text { cache_control, .. } => cache_control,
        BlockView::Image { cache_control, .. } => cache_control,
        BlockView::Document { cache_control, .. } => cache_control,
        BlockView::ToolUse { cache_control, .. } => cache_control,
        BlockView::ToolResult { cache_control, .. } => cache_control,
        BlockView::Thinking { .. } => None,
        BlockView::RedactedThinking { .. } => None,
    }
}

/// A cache marker and the place of the block that it stands on.
#[derive(Clone, Copy, Debug, PartialEq, Eq, Structural)]
pub struct Marked {
    pub index: usize,
    pub marker: AnthropicCacheControl,
}

impl DeepView for Marked {
    type V = Marked;

    open spec fn deep_view(&self) -> Marked {
        *self
    }
}

/// The cache markers among these, each with its place.
pub open spec fn marked(markers: Seq<Option<AnthropicCacheControl>>) -> Seq<Marked>
    decreases markers.len(),
{
    if markers.len() == 0 {
        Seq::empty()
    } else {
        let before = marked(markers.drop_last());
        match markers.last() {
            Some(marker) => before.push(Marked { index: (markers.len() - 1) as usize, marker }),
            None => before,
        }
    }
}

/// The cache markers on some content blocks.
pub open spec fn markers_on(blocks: Seq<BlockView>) -> Seq<Option<AnthropicCacheControl>> {
    blocks.map_values(|b: BlockView| marker_on(b))
}

impl AnthropicContentBlockOwned {
    /// The cache marker on this block.
    pub fn marker(&self) -> (r: Option<AnthropicCacheControl>)
        ensures
            r == marker_on(self.deep_view()),
    {
        match self {
            AnthropicContentBlockOwned::Text { cache_control, .. } => *cache_control,
            AnthropicContentBlockOwned::Image { cache_control, .. } => *cache_control,
            AnthropicContentBlockOwned::Document { cache_control, .. } => *cache_control,
            AnthropicContentBlockOwned::ToolUse { cache_control, .. } => *cache_control,
            AnthropicContentBlockOwned::ToolResult { cache_control, .. } => *cache_control,
            AnthropicContentBlockOwned::Thinking { .. } => None,
            AnthropicContentBlockOwned::RedactedThinking { .. } => None,
        }
    }

    /// What this block becomes.
    fn content(&self, names: &StringMap, refusals: &Vec<Base64Refusal>) -> (r: Result<
        InputMessageContent,
        String,
    >)
        ensures
            outcome(r) == content_of(self.deep_view(), names@, refusals.deep_view()),
            self.deep_view() matches BlockView::ToolUse { input, .. } ==> reads_back(input),
    {
        match self {
            AnthropicContentBlockOwned::Text { text, .. } => Ok(
                InputMessageContent::Text(Text { text: text.clone() }),
            ),
            AnthropicContentBlockOwned::Thinking { thinking, signature } => Ok(
                InputMessageContent::Thought(
                    Thought {
                        text: nonempty_text(thinking.as_str()),
                        signature: nonempty_text(signature.as_str()),
                        summary: None,
                        provider_type: None,
                        extra_data: None,
                    },
                ),
            ),
            AnthropicContentBlockOwned::RedactedThinking { data } => Ok(
                InputMessageContent::Unknown(
                    Unknown {
                        data: Json::String(data.clone()),
                        model_name: None,
                        provider_name: None,
                    },
                ),
            ),
            AnthropicContentBlockOwned::ToolUse { id, name, input, .. } => Ok(
                InputMessageContent::ToolCall(
                    ToolCall {
                        id: id.clone(),
                        name: name.clone(),
                        arguments: print_json(input),
                    },
                ),
            ),
            AnthropicContentBlockOwned::ToolResult { tool_use_id, content, .. } => {
                assert(self.deep_view()->ToolResult_content =~= content.deep_view());
                match make_tool_result_text(content) {
                    Err(e) => Err(e),
                    Ok(result) => {
                        let name: String = match names.get(tool_use_id.as_str()) {
                            Some(name) => name.clone(),
                            None => String::new(),
                        };
                        Ok(
                            InputMessageContent::ToolResult(
                                ToolResult { id: tool_use_id.clone(), name, result },
                            ),
                        )
                    },
                }
            },
            AnthropicContentBlockOwned::Image { source, .. } => match source.file(refusals) {
                Err(e) => Err(e),
                Ok(file) => Ok(InputMessageContent::File(file)),
            },
            AnthropicContentBlockOwned::Document { source, .. } => match source.file(refusals) {
                Err(e) => Err(e),
                Ok(file) => Ok(InputMessageContent::File(file)),
            },
        }
    }
}

/// What some content blocks become, and the cache markers on them. The first block
/// that cannot be translated fails the request. The arguments of a tool call read
/// as its input.
pub fn blocks_into_input_content(
    blocks: &Vec<AnthropicContentBlockOwned>,
    tool_use_name_map: &StringMap,
    refusals: &Vec<Base64Refusal>,
) -> (r: Result<(Vec<InputMessageContent>, Vec<Marked>), Error>)
    ensures
        match (
            r,
            collected(
                content_results(blocks.deep_view(), tool_use_name_map@, refusals.deep_view()),
            ),
        ) {
            (Ok((content, spans)), Ok(expected)) => content.deep_view() == expected
                && spans.deep_view() == marked(markers_on(blocks.deep_view())),
            (Err(error), Err(message)) => error.deep_view() == invalid(message),
            _ => false,
        },
        r is Ok ==> forall|k: int|
            0 <= k < blocks.deep_view().len() && (#[trigger] blocks.deep_view()[k]) is ToolUse
                ==> reads_back(blocks.deep_view()[k]->ToolUse_input),
{
    let ghost views = blocks.deep_view();
    let ghost all = content_results(views, tool_use_name_map@, refusals.deep_view());
    let ghost markers = markers_on(views);
    let mut result: Vec<InputMessageContent> = Vec::new();
    let mut spans: Vec<Marked> = Vec::new();
    assert(result.deep_view() =~= Seq::empty());
    assert(spans.deep_view() =~= Seq::empty());
    let n: usize = blocks.len();
    for content_idx in 0..n
        invariant
            n == blocks@.len(),
            views == blocks.deep_view(),
            all == content_results(views, tool_use_name_map@, refusals.deep_view()),
            markers == markers_on(views),
            so_far(all, content_idx as int, result.deep_view()),
            spans.deep_view() == marked(markers.take(content_idx as int)),
            forall|k: int|
                0 <= k < content_idx && (#[trigger] views[k]) is ToolUse ==> reads_back(
                    views[k]->ToolUse_input,
                ),
    {
        let block: &AnthropicContentBlockOwned = &blocks[content_idx];
        let content: Result<InputMessageContent, String> = block.content(
            tool_use_name_map,
            refusals,
        );
        proof {
            collected_next(all, content_idx as int, result.deep_view());
            assert(all[content_idx as int] == outcome(content));
            assert(markers.take(content_idx + 1).drop_last() =~= markers.take(content_idx as int));
            assert(markers.take(content_idx + 1).last() == marker_on(block.deep_view()));
        }
        if let Some(marker) = block.marker() {
            let ghost before = spans.deep_view();
            spans.push(Marked { index: content_idx, marker });
            assert(spans.deep_view() =~= before.push(Marked { index: content_idx, marker }));
        }
        match content {
            Ok(content) => {
                let ghost before = result.deep_view();
                result.push(content);
                assert(result.deep_view() =~= before.push(content.deep_view()));
            },
            Err(message) => {
                return Err(Error::invalid_request(message));
            },
        }
    }
    assert(all.take(n as int) =~= all);
    assert(markers.take(n as int) =~= markers);
    Ok((result, spans))
}

// ---------------------------------------------------------------------------
// Tool choice
// ---------------------------------------------------------------------------

/// What a tool choice becomes.
pub open spec fn tool_choice_of(choice: AnthropicToolChoiceView) -> ToolChoiceView {
    match choice {
        AnthropicToolChoiceView::Auto { .. } => ToolChoiceView::Auto,
        AnthropicToolChoiceView::Any { .. } => ToolChoiceView::Required,
        AnthropicToolChoiceView::Tool { name, .. } => ToolChoiceView::Specific(name),
        AnthropicToolChoiceView::NoTool { .. } => ToolChoiceView::NoTool,
    }
}

/// What a tool choice becomes.
pub fn tool_choice_owned_to_internal(choice: AnthropicToolChoiceOwned) -> (r: ToolChoice)
    ensures
        r.deep_view() == tool_choice_of(choice.deep_view()),
{
    match choice {
        AnthropicToolChoiceOwned::Auto { .. } => ToolChoice::Auto,
        AnthropicToolChoiceOwned::Any { .. } => ToolChoice::Required,
        AnthropicToolChoiceOwned::Tool { name, .. } => ToolChoice::Specific(name),
        AnthropicToolChoiceOwned::NoTool { .. } => ToolChoice::NoTool,
    }
}

} // verus!
