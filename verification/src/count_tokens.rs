//! The decisions of `POST /v1/messages/count_tokens`.
//!
//! [`plan_count_tokens`] says which provider to ask and what to send,
//! [`count_tokens_url`] where to send it, and [`count_tokens_reply`] what to
//! answer.
use crate::error::{
    AnthropicErrorBody, AnthropicErrorResponse, ErrorResponseView, NOT_IMPLEMENTED, error_body,
    fault_response, invalid_response,
};
use crate::json::{Json, JsonEntry, JsonView, count_json};
use crate::model::outcome;
use crate::outside::{
    joined_url, parse_json, parsed_json, parsed_url, path_fits, path_of_url, url_from_text, url_join,
    url_path, url_set_path, url_with_path,
};
use crate::reader::{
    Shape, any_at, entry_is_found, entry_value, error_of, error_unless_null, find_entry, held,
    known_entry, mismatch, problem_of, problem_unless_null, read_text, read_u32, record_error,
    record_is_fine, record_problem, text_at, value_held,
};
use crate::string_map::StringMap;
use crate::text::{after_prefix, joined, owned, same_text, starts_with, strip_prefix};
use crate::text_reader::{
    TextShape, leaf_text, read_leaf_text, read_record_text, read_whole_text, record_text,
    whole_text,
};
use crate::types::messages::{AnthropicMetadata, MetadataView};
use crate::types::metadata_reader::{MetadataShape, read_metadata};
use vstd::prelude::*;
use vstd::string::*;

verus! {

// ---------------------------------------------------------------------------
// Request
// ---------------------------------------------------------------------------

/// What a request to count tokens says to the gateway.
#[derive(Debug)]
pub struct AnthropicCountTokensParams {
    pub model: String,
    pub metadata: Option<AnthropicMetadata>,
}

pub struct CountTokensParamsView {
    pub model: Seq<char>,
    pub metadata: Option<MetadataView>,
}

impl DeepView for AnthropicCountTokensParams {
    type V = CountTokensParamsView;

    open spec fn deep_view(&self) -> CountTokensParamsView {
        CountTokensParamsView { model: self.model@, metadata: self.metadata.deep_view() }
    }
}

/// The fields of a request to count tokens that are read.
pub struct CountTokensShape;

impl Shape for CountTokensShape {
    open spec fn title() -> Seq<char> {
        "struct AnthropicCountTokensParams"@
    }

    open spec fn keys() -> Seq<Seq<char>> {
        seq!["model"@, "metadata"@]
    }

    open spec fn may_lack(i: int) -> bool {
        i == 1
    }

    open spec fn has_default(i: int) -> bool {
        i == 1
    }

    open spec fn field_error(i: int, v: JsonView) -> Option<Seq<char>> {
        if i == 0 {
            error_of(read_text(v))
        } else {
            error_unless_null(v, read_metadata(v))
        }
    }

    open spec fn excess() -> Seq<char> {
        "fewer elements in array"@
    }

    fn title_text() -> &'static str {
        "struct AnthropicCountTokensParams"
    }

    fn excess_text() -> &'static str {
        "fewer elements in array"
    }

    fn key_count() -> usize {
        2
    }

    fn rule(i: usize) -> (&'static str, bool, bool) {
        if i == 0 {
            ("model", false, false)
        } else {
            ("metadata", true, true)
        }
    }

    fn field_problem(i: usize, v: &Json) -> Option<String> {
        if i == 0 {
            problem_of(v.read_text())
        } else {
            problem_unless_null(v, AnthropicMetadata::from_value(v))
        }
    }
}

impl TextShape for CountTokensShape {
    open spec fn field_text(i: int, raw: Seq<char>) -> Result<JsonView, Seq<char>> {
        if i == 1 {
            record_text::<MetadataShape>(raw)
        } else {
            leaf_text(raw, 126)
        }
    }

    fn read_field_text(i: usize, raw: &str) -> Result<Json, String> {
        if i == 1 {
            read_record_text::<MetadataShape>(raw)
        } else {
            read_leaf_text(raw, 126)
        }
    }
}

/// A request to count tokens.
pub open spec fn read_count_tokens(v: JsonView) -> Result<CountTokensParamsView, Seq<char>> {
    if v is Object {
        match record_error::<CountTokensShape>(v) {
            Some(e) => Err(e),
            None => Ok(
                CountTokensParamsView {
                    model: text_at(v, 0, "model"@),
                    metadata: held(read_metadata(any_at(v, 1, "metadata"@))),
                },
            ),
        }
    } else {
        Err(mismatch(v, CountTokensShape::title()))
    }
}

/// A request to count tokens, by its text.
pub open spec fn read_count_tokens_text(text: Seq<char>) -> Result<
    CountTokensParamsView,
    Seq<char>,
> {
    match whole_text::<CountTokensShape>(text) {
        Err(e) => Err(e),
        Ok(v) => read_count_tokens(v),
    }
}

impl AnthropicCountTokensParams {
    /// Reads a request to count tokens.
    pub fn from_value(value: &Json) -> (r: Result<AnthropicCountTokensParams, String>)
        ensures
            outcome(r) == read_count_tokens(value@),
    {
        match value {
            Json::Object(_) => match record_problem::<CountTokensShape>(value) {
                Some(e) => Err(e),
                None => Ok(
                    AnthropicCountTokensParams {
                        model: value.text_at(0, "model"),
                        metadata: value_held(
                            AnthropicMetadata::from_value(value.any_ref(1, "metadata")),
                        ),
                    },
                ),
            },
            _ => Err(value.mismatch(CountTokensShape::title_text())),
        }
    }

    /// Reads the text of a request to count tokens.
    pub fn from_text(text: &str) -> (r: Result<AnthropicCountTokensParams, String>)
        ensures
            outcome(r) == read_count_tokens_text(text@),
    {
        match read_whole_text::<CountTokensShape>(text) {
            Err(e) => Err(e),
            Ok(value) => Self::from_value(&value),
        }
    }
}

// ---------------------------------------------------------------------------
// Configuration
// ---------------------------------------------------------------------------

/// How a provider is reached.
#[derive(Debug)]
pub enum ProviderConfig {
    Anthropic { model_name: String, base_url: String },
    GcpVertexAnthropic,
    Other { provider_type: String },
}

pub enum ProviderView {
    Anthropic { model_name: Seq<char>, base_url: Seq<char> },
    GcpVertexAnthropic,
    Other { provider_type: Seq<char> },
}

impl DeepView for ProviderConfig {
    type V = ProviderView;

    open spec fn deep_view(&self) -> ProviderView {
        match self {
            ProviderConfig::Anthropic { model_name, base_url } => ProviderView::Anthropic {
                model_name: model_name@,
                base_url: base_url@,
            },
            ProviderConfig::GcpVertexAnthropic => ProviderView::GcpVertexAnthropic,
            ProviderConfig::Other { provider_type } => ProviderView::Other {
                provider_type: provider_type@,
            },
        }
    }
}

/// A provider and its name.
#[derive(Debug)]
pub struct ProviderEntry {
    pub name: String,
    pub config: ProviderConfig,
}

impl DeepView for ProviderEntry {
    type V = (Seq<char>, ProviderView);

    open spec fn deep_view(&self) -> (Seq<char>, ProviderView) {
        (self.name@, self.config.deep_view())
    }
}

/// A model: the order in which its providers are tried, and the providers.
#[derive(Debug)]
pub struct ModelConfig {
    pub routing: Vec<String>,
    pub providers: Vec<ProviderEntry>,
}

pub struct ModelView {
    pub routing: Seq<Seq<char>>,
    pub providers: Seq<(Seq<char>, ProviderView)>,
}

impl DeepView for ModelConfig {
    type V = ModelView;

    open spec fn deep_view(&self) -> ModelView {
        ModelView { routing: self.routing.deep_view(), providers: self.providers.deep_view() }
    }
}

/// A model and its name.
#[derive(Debug)]
pub struct ModelEntry {
    pub name: String,
    pub config: ModelConfig,
}

impl DeepView for ModelEntry {
    type V = (Seq<char>, ModelView);

    open spec fn deep_view(&self) -> (Seq<char>, ModelView) {
        (self.name@, self.config.deep_view())
    }
}

/// What stands under a name: the first entry with it.
pub open spec fn under<T>(entries: Seq<(Seq<char>, T)>, name: Seq<char>) -> Option<T>
    decreases entries.len(),
{
    if entries.len() == 0 {
        None
    } else if entries[0].0 == name {
        Some(entries[0].1)
    } else {
        under(entries.skip(1), name)
    }
}

fn find_model<'a>(models: &'a Vec<ModelEntry>, name: &str) -> (r: Option<&'a ModelConfig>)
    ensures
        match r {
            Some(config) => under(models.deep_view(), name@) == Some(config.deep_view()),
            None => under(models.deep_view(), name@) is None,
        },
{
    let ghost all = models.deep_view();
    let n: usize = models.len();
    assert(all.skip(0) =~= all);
    for i in 0..n
        invariant
            n == models@.len(),
            all == models.deep_view(),
            under(all, name@) == under(all.skip(i as int), name@),
    {
        assert(all.skip(i as int)[0] == models@[i as int].deep_view());
        assert(all.skip(i as int).skip(1) =~= all.skip(i + 1));
        if same_text(models[i].name.as_str(), name) {
            return Some(&models[i].config);
        }
    }
    None
}

fn find_provider<'a>(providers: &'a Vec<ProviderEntry>, name: &str) -> (r: Option<
    &'a ProviderConfig,
>)
    ensures
        match r {
            Some(config) => under(providers.deep_view(), name@) == Some(config.deep_view()),
            None => under(providers.deep_view(), name@) is None,
        },
{
    let ghost all = providers.deep_view();
    let n: usize = providers.len();
    assert(all.skip(0) =~= all);
    for i in 0..n
        invariant
            n == providers@.len(),
            all == providers.deep_view(),
            under(all, name@) == under(all.skip(i as int), name@),
    {
        assert(all.skip(i as int)[0] == providers@[i as int].deep_view());
        assert(all.skip(i as int).skip(1) =~= all.skip(i + 1));
        if same_text(providers[i].name.as_str(), name) {
            return Some(&providers[i].config);
        }
    }
    None
}

// ---------------------------------------------------------------------------
// Plan
// ---------------------------------------------------------------------------

/// The response for a feature that is not implemented.
pub open spec fn unimplemented_response(message: Seq<char>) -> ErrorResponseView {
    ErrorResponseView {
        body: error_body("not_implemented_error"@, message),
        status: NOT_IMPLEMENTED,
    }
}

fn not_implemented(message: &str) -> (r: AnthropicErrorResponse)
    ensures
        r.deep_view() == unimplemented_response(message@),
{
    AnthropicErrorResponse::unimplemented(AnthropicErrorBody::unimplemented(message))
}

/// The response to a failure on the way to the provider.
pub fn upstream_failure(message: &str) -> (r: AnthropicErrorResponse)
    ensures
        r.deep_view() == fault_response(message@),
{
    AnthropicErrorResponse::internal_error(AnthropicErrorBody::api_error(message))
}

/// The model that a request to count tokens names. Functions have no tokens to
/// count.
pub open spec fn model_to_count(model: Seq<char>) -> Result<Seq<char>, ErrorResponseView> {
    match after_prefix(model, "tensorzero::model_name::"@) {
        Some(name) => Ok(name),
        None => if starts_with(model, "tensorzero::function_name::"@) {
            Err(
                unimplemented_response(
                    "count_tokens is not supported for function routes in Phase 3"@,
                ),
            )
        } else {
            Ok(model)
        },
    }
}

/// The model that a request to count tokens names.
pub fn resolve_model(model: &str) -> (r: Result<String, AnthropicErrorResponse>)
    ensures
        outcome(r) == model_to_count(model@),
{
    match strip_prefix(model, "tensorzero::model_name::") {
        Some(name) => Ok(name),
        None => match strip_prefix(model, "tensorzero::function_name::") {
            Some(_) => Err(
                not_implemented("count_tokens is not supported for function routes in Phase 3"),
            ),
            None => Ok(owned(model)),
        },
    }
}

/// The provider that counts the tokens for a model, with its name: the first that the
/// model is routed to.
pub open spec fn provider_for(models: Seq<(Seq<char>, ModelView)>, model: Seq<char>) -> Result<
    (Seq<char>, ProviderView),
    ErrorResponseView,
> {
    match under(models, model) {
        None => Err(invalid_response("Model '"@ + model + "' not found"@)),
        Some(config) => if config.routing.len() == 0 {
            Err(fault_response("Model has no providers configured"@))
        } else {
            match under(config.providers, config.routing[0]) {
                None => Err(
                    fault_response(
                        "Provider '"@ + config.routing[0] + "' not found for model '"@ + model
                            + "'"@,
                    ),
                ),
                Some(provider) => Ok((config.routing[0], provider)),
            }
        },
    }
}

fn choose_provider<'a>(models: &'a Vec<ModelEntry>, model: &str) -> (r: Result<
    (&'a String, &'a ProviderConfig),
    AnthropicErrorResponse,
>)
    ensures
        match (r, provider_for(models.deep_view(), model@)) {
            (Ok((name, provider)), Ok(expected)) => (name@, provider.deep_view()) == expected,
            (Err(response), Err(expected)) => response.deep_view() == expected,
            _ => false,
        },
{
    let config: &ModelConfig = match find_model(models, model) {
        None => {
            let start: String = joined("Model '", model);
            let message: String = joined(start.as_str(), "' not found");
            return Err(AnthropicErrorResponse::bad_request_msg(message.as_str()));
        },
        Some(config) => config,
    };
    if config.routing.len() == 0 {
        assert(config.deep_view().routing.len() == 0);
        return Err(upstream_failure("Model has no providers configured"));
    }
    let name: &String = &config.routing[0];
    assert(config.deep_view().routing[0] == name@);
    match find_provider(&config.providers, name.as_str()) {
        None => {
            let start: String = joined("Provider '", name.as_str());
            let middle: String = joined(start.as_str(), "' not found for model '");
            let end: String = joined(middle.as_str(), model);
            let message: String = joined(end.as_str(), "'");
            Err(upstream_failure(message.as_str()))
        },
        Some(provider) => Ok((name, provider)),
    }
}

/// The model and the provider that count the tokens for a request, by their names.
#[derive(Debug)]
pub struct CountTokensTarget {
    pub model: String,
    pub provider: String,
}

pub struct TargetView {
    pub model: Seq<char>,
    pub provider: Seq<char>,
}

impl DeepView for CountTokensTarget {
    type V = TargetView;

    open spec fn deep_view(&self) -> TargetView {
        TargetView { model: self.model@, provider: self.provider@ }
    }
}

/// The model and the provider that count the tokens for a request that names `model`.
pub open spec fn target_of(models: Seq<(Seq<char>, ModelView)>, model: Seq<char>) -> Result<
    TargetView,
    ErrorResponseView,
> {
    match model_to_count(model) {
        Err(response) => Err(response),
        Ok(name) => match provider_for(models, name) {
            Err(response) => Err(response),
            Ok((provider, _)) => Ok(TargetView { model: name, provider }),
        },
    }
}

/// The model and the provider that count the tokens for a request that names `model`:
/// the name without the prefix that marks models, and the first provider that the model
/// is routed to.
pub fn count_tokens_target(models: &Vec<ModelEntry>, model: &str) -> (r: Result<
    CountTokensTarget,
    AnthropicErrorResponse,
>)
    ensures
        outcome(r) == target_of(models.deep_view(), model@),
        r matches Ok(target) ==> {
            &&& target.model@ == (match after_prefix(model@, "tensorzero::model_name::"@) {
                Some(name) => name,
                None => model@,
            })
            &&& under(models.deep_view(), target.model@) matches Some(config)
                && config.routing.len() > 0 && target.provider@ == config.routing[0]
        },
{
    let name: String = match resolve_model(model) {
        Err(response) => {
            return Err(response);
        },
        Ok(name) => name,
    };
    match choose_provider(models, name.as_str()) {
        Err(response) => Err(response),
        Ok((provider, _)) => {
            let provider: String = provider.clone();
            Ok(CountTokensTarget { model: name, provider })
        },
    }
}

/// An entry of the request that is passed on, where it is there.
pub open spec fn passed_on(body: JsonView, key: Seq<char>) -> Seq<(Seq<char>, JsonView)> {
    match body {
        JsonView::Object(entries) => match entry_value(entries, key) {
            Some(value) => seq![(key, value)],
            None => Seq::empty(),
        },
        _ => Seq::empty(),
    }
}

/// The body that is sent to the provider: its own name for the model, and those
/// parts of the request that it needs.
pub open spec fn upstream_body(model_name: Seq<char>, body: JsonView) -> JsonView {
    JsonView::Object(
        seq![("model"@, JsonView::String(model_name))] + passed_on(body, "messages"@) + passed_on(
            body,
            "system"@,
        ) + passed_on(body, "tools"@),
    )
}

fn pass_on(entries: &mut Vec<JsonEntry>, body: &Json, key: &str)
    ensures
        final(entries).deep_view() == old(entries).deep_view() + passed_on(body@, key@),
{
    let ghost before = entries.deep_view();
    if let Json::Object(fields) = body {
        assert(body@->Object_0 =~= fields.deep_view());
        if let Some(value) = find_entry(fields, key) {
            entries.push(JsonEntry::new(key, value.duplicate()));
            assert(entries.deep_view() =~= before + seq![(key@, value@)]);
            return ;
        }
    }
    assert(before + Seq::empty() =~= before);
}

fn make_upstream_body(model_name: &str, body: &Json) -> (r: Json)
    ensures
        r@ == upstream_body(model_name@, body@),
{
    let mut entries: Vec<JsonEntry> = vec![JsonEntry::new("model", Json::text(model_name))];
    assert(entries.deep_view() =~= seq![("model"@, JsonView::String(model_name@))]);
    pass_on(&mut entries, body, "messages");
    pass_on(&mut entries, body, "system");
    pass_on(&mut entries, body, "tools");
    Json::object(entries)
}

/// A request to a provider to count tokens. The provider's API key comes from
/// its configuration or from `credentials`.
#[derive(Debug)]
pub struct CountTokensPlan {
    pub model: String,
    pub provider: String,
    pub base_url: String,
    pub credentials: StringMap,
    pub body: Json,
}

pub struct PlanView {
    pub model: Seq<char>,
    pub provider: Seq<char>,
    pub base_url: Seq<char>,
    pub credentials: Map<Seq<char>, Seq<char>>,
    pub body: JsonView,
}

impl DeepView for CountTokensPlan {
    type V = PlanView;

    open spec fn deep_view(&self) -> PlanView {
        PlanView {
            model: self.model@,
            provider: self.provider@,
            base_url: self.base_url@,
            credentials: self.credentials@,
            body: self.body@,
        }
    }
}

/// The credentials that a request brings along.
pub open spec fn credentials_of(metadata: Option<MetadataView>) -> Map<Seq<char>, Seq<char>> {
    match metadata {
        Some(m) => match m.tensorzero {
            Some(extension) => extension.credentials,
            None => Map::empty(),
        },
        None => Map::empty(),
    }
}

/// The message for a provider that cannot count tokens.
pub open spec fn cannot_count(provider_type: Seq<char>) -> Seq<char> {
    "count_tokens is not supported for provider '"@ + provider_type
        + "'; only Anthropic-family providers support count_tokens"@
}

/// The request to a provider that a request to count tokens leads to, or the
/// response where it leads to none.
pub open spec fn plan_for(
    models: Seq<(Seq<char>, ModelView)>,
    params: CountTokensParamsView,
    body: JsonView,
) -> Result<PlanView, ErrorResponseView> {
    match model_to_count(params.model) {
        Err(response) => Err(response),
        Ok(model) => match provider_for(models, model) {
            Err(response) => Err(response),
            Ok((provider, ProviderView::Anthropic { model_name, base_url })) => Ok(
                PlanView {
                    model,
                    provider,
                    base_url,
                    credentials: credentials_of(params.metadata),
                    body: upstream_body(model_name, body),
                },
            ),
            Ok((_, ProviderView::GcpVertexAnthropic)) => Err(
                unimplemented_response(
                    "count_tokens is not supported for GCP Vertex Anthropic in Phase 3"@,
                ),
            ),
            Ok((_, ProviderView::Other { provider_type })) => Err(
                unimplemented_response(cannot_count(provider_type)),
            ),
        },
    }
}

/// The request to a provider that the value of a request leads to.
pub open spec fn plan_of(models: Seq<(Seq<char>, ModelView)>, body: JsonView) -> Result<
    PlanView,
    ErrorResponseView,
> {
    match read_count_tokens(body) {
        Err(e) => Err(invalid_response("Invalid request body: "@ + e)),
        Ok(params) => plan_for(models, params, body),
    }
}

/// The request to a provider that the text of a request leads to. What is passed on
/// is taken from the whole text, read as one value.
pub open spec fn plan_of_text(models: Seq<(Seq<char>, ModelView)>, text: Seq<char>) -> Result<
    PlanView,
    ErrorResponseView,
> {
    match read_count_tokens_text(text) {
        Err(e) => Err(invalid_response("Invalid request body: "@ + e)),
        Ok(params) => match parsed_json(text) {
            Err(e) => Err(fault_response(e)),
            Ok(body) => plan_for(models, params, body),
        },
    }
}

fn invalid_body(message: &str) -> (r: AnthropicErrorResponse)
    ensures
        r.deep_view() == invalid_response("Invalid request body: "@ + message@),
{
    AnthropicErrorResponse::bad_request_msg(joined("Invalid request body: ", message).as_str())
}

/// The request to a provider that a request to count tokens leads to.
pub fn plan_with_params(
    models: &Vec<ModelEntry>,
    params: AnthropicCountTokensParams,
    body: &Json,
) -> (r: Result<CountTokensPlan, AnthropicErrorResponse>)
    ensures
        outcome(r) == plan_for(models.deep_view(), params.deep_view(), body@),
{
    let model: String = match resolve_model(params.model.as_str()) {
        Err(response) => {
            return Err(response);
        },
        Ok(model) => model,
    };
    let (provider, config) = match choose_provider(models, model.as_str()) {
        Err(response) => {
            return Err(response);
        },
        Ok(chosen) => chosen,
    };
    match config {
        ProviderConfig::Anthropic { model_name, base_url } => {
            let credentials: StringMap = match params.metadata {
                Some(metadata) => match metadata.tensorzero {
                    Some(extension) => extension.credentials,
                    None => StringMap::new(),
                },
                None => StringMap::new(),
            };
            Ok(
                CountTokensPlan {
                    model,
                    provider: provider.clone(),
                    base_url: base_url.clone(),
                    credentials,
                    body: make_upstream_body(model_name.as_str(), body),
                },
            )
        },
        ProviderConfig::GcpVertexAnthropic => Err(
            not_implemented("count_tokens is not supported for GCP Vertex Anthropic in Phase 3"),
        ),
        ProviderConfig::Other { provider_type } => {
            let start: String = joined(
                "count_tokens is not supported for provider '",
                provider_type.as_str(),
            );
            let message: String = joined(
                start.as_str(),
                "'; only Anthropic-family providers support count_tokens",
            );
            Err(not_implemented(message.as_str()))
        },
    }
}

/// The request to a provider that the value of a request leads to.
pub fn plan_count_tokens(models: &Vec<ModelEntry>, body: &Json) -> (r: Result<
    CountTokensPlan,
    AnthropicErrorResponse,
>)
    ensures
        outcome(r) == plan_of(models.deep_view(), body@),
{
    match AnthropicCountTokensParams::from_value(body) {
        Err(e) => Err(invalid_body(e.as_str())),
        Ok(params) => plan_with_params(models, params, body),
    }
}

/// The request to a provider that the text of a request leads to.
pub fn plan_count_tokens_text(models: &Vec<ModelEntry>, text: &str) -> (r: Result<
    CountTokensPlan,
    AnthropicErrorResponse,
>)
    ensures
        outcome(r) == plan_of_text(models.deep_view(), text@),
{
    match AnthropicCountTokensParams::from_text(text) {
        Err(e) => Err(invalid_body(e.as_str())),
        Ok(params) => match parse_json(text) {
            Err(e) => Err(upstream_failure(e.as_str())),
            Ok(body) => plan_with_params(models, params, &body),
        },
    }
}

/// A plan names the model and the provider that count the tokens.
pub proof fn plan_names_the_target(
    models: Seq<(Seq<char>, ModelView)>,
    params: CountTokensParamsView,
    body: JsonView,
)
    ensures
        plan_for(models, params, body) matches Ok(plan) ==> target_of(models, params.model) == Ok::<
            TargetView,
            ErrorResponseView,
        >(TargetView { model: plan.model, provider: plan.provider }),
{
}

// ---------------------------------------------------------------------------
// URL
// ---------------------------------------------------------------------------

/// Whether a path lacks a slash at its end.
pub open spec fn lacks_slash(path: Seq<char>) -> bool {
    path.len() == 0 || path.last() != '/'
}

/// Whether a path lacks a slash at its end.
pub fn path_lacks_slash(path: &str) -> (r: bool)
    ensures
        r == lacks_slash(path@),
{
    let n: usize = path.unicode_len();
    n == 0 || path.get_char(n - 1) != '/'
}

/// The base URL with a slash at the end of its path.
pub open spec fn base_with_slash(base_url: Seq<char>) -> Seq<char> {
    match path_of_url(base_url) {
        Some(path) => if lacks_slash(path) {
            match url_with_path(base_url, path + "/"@) {
                Some(url) => url,
                None => base_url,
            }
        } else {
            base_url
        },
        None => base_url,
    }
}

/// Where a provider counts tokens: `messages/count_tokens` below its base URL.
pub open spec fn url_to_count(base_url: Seq<char>) -> Result<Seq<char>, ErrorResponseView> {
    match joined_url(base_with_slash(base_url), "messages/count_tokens"@) {
        Ok(url) => Ok(url),
        Err(e) => Err(fault_response(e)),
    }
}

/// Whether the url crate can put a slash at the end of the path of a base URL.
pub open spec fn slash_fits(base_url: Seq<char>) -> bool {
    match path_of_url(base_url) {
        Some(path) => path_fits(parsed_url(base_url), path.len() + 1),
        None => true,
    }
}

/// Where a provider counts tokens.
pub fn count_tokens_url(base_url: &str) -> (r: Result<String, AnthropicErrorResponse>)
    requires
        slash_fits(base_url@),
    ensures
        outcome(r) == url_to_count(base_url@),
{
    let mut base: String = owned(base_url);
    if let Some(path) = url_path(base_url) {
        if path_lacks_slash(path.as_str()) {
            let slashed_path: String = joined(path.as_str(), "/");
            proof {
                reveal_strlit("/");
            }
            if let Some(slashed) = url_set_path(base_url, slashed_path.as_str()) {
                base = slashed;
            }
        }
    }
    match url_join(base.as_str(), "messages/count_tokens") {
        Ok(url) => Ok(url),
        Err(e) => Err(upstream_failure(e.as_str())),
    }
}

/// Whether a path of so many characters fits into a URL of so many.
pub fn length_fits(url_len: usize, path_len: usize) -> (r: bool)
    ensures
        r == (url_len + 12 * path_len + 4 <= u32::MAX),
{
    let limit: u64 = 0xffff_ffff;
    url_len as u64 <= limit && path_len as u64 <= limit && url_len as u64 + 12 * (path_len as u64)
        + 4 <= limit
}

/// Where a provider counts tokens, or nothing where the url crate cannot put a slash
/// at the end of the base URL's path.
pub fn try_count_tokens_url(base_url: &str) -> (r: Option<
    Result<String, AnthropicErrorResponse>,
>)
    ensures
        match r {
            Some(url) => slash_fits(base_url@) && outcome(url) == url_to_count(base_url@),
            None => !slash_fits(base_url@),
        },
{
    if let Some(path) = url_path(base_url) {
        if let Some(url) = url_from_text(base_url) {
            let path_len: usize = path.as_str().unicode_len();
            if path_len == usize::MAX || !length_fits(url.as_str().unicode_len(), path_len + 1) {
                return None;
            }
        }
    }
    Some(count_tokens_url(base_url))
}

// ---------------------------------------------------------------------------
// Reply
// ---------------------------------------------------------------------------

/// How many tokens there are.
#[derive(Clone, Copy, Debug, PartialEq, Eq, Structural)]
pub struct AnthropicCountTokensResponse {
    pub input_tokens: u32,
    pub cache_creation_input_tokens: u32,
    pub cache_read_input_tokens: u32,
}

impl DeepView for AnthropicCountTokensResponse {
    type V = AnthropicCountTokensResponse;

    open spec fn deep_view(&self) -> AnthropicCountTokensResponse {
        *self
    }
}

/// The counts that a provider answers with.
pub struct CountsShape;

impl Shape for CountsShape {
    open spec fn title() -> Seq<char> {
        "struct AnthropicCountTokensResponse"@
    }

    open spec fn keys() -> Seq<Seq<char>> {
        seq!["input_tokens"@, "cache_creation_input_tokens"@, "cache_read_input_tokens"@]
    }

    open spec fn may_lack(i: int) -> bool {
        i != 0
    }

    open spec fn has_default(i: int) -> bool {
        i != 0
    }

    open spec fn field_error(i: int, v: JsonView) -> Option<Seq<char>> {
        error_of(read_u32(v))
    }

    open spec fn excess() -> Seq<char> {
        "fewer elements in array"@
    }

    fn title_text() -> &'static str {
        "struct AnthropicCountTokensResponse"
    }

    fn excess_text() -> &'static str {
        "fewer elements in array"
    }

    fn key_count() -> usize {
        3
    }

    fn rule(i: usize) -> (&'static str, bool, bool) {
        if i == 0 {
            ("input_tokens", false, false)
        } else if i == 1 {
            ("cache_creation_input_tokens", true, true)
        } else {
            ("cache_read_input_tokens", true, true)
        }
    }

    fn field_problem(_i: usize, v: &Json) -> Option<String> {
        problem_of(v.read_u32())
    }
}

impl TextShape for CountsShape {
    open spec fn field_text(i: int, raw: Seq<char>) -> Result<JsonView, Seq<char>> {
        leaf_text(raw, 126)
    }

    fn read_field_text(_i: usize, raw: &str) -> Result<Json, String> {
        read_leaf_text(raw, 126)
    }
}

/// The count in a field of a record without errors: zero where it is left out.
pub open spec fn count_at(v: JsonView, position: nat, key: Seq<char>) -> u32 {
    match read_u32(any_at(v, position, key)) {
        Ok(n) => n,
        Err(_) => 0,
    }
}

/// The counts that a provider answers with.
pub open spec fn read_counts(v: JsonView) -> Result<AnthropicCountTokensResponse, Seq<char>> {
    match record_error::<CountsShape>(v) {
        Some(e) => Err(e),
        None => Ok(
            AnthropicCountTokensResponse {
                input_tokens: count_at(v, 0, "input_tokens"@),
                cache_creation_input_tokens: count_at(v, 1, "cache_creation_input_tokens"@),
                cache_read_input_tokens: count_at(v, 2, "cache_read_input_tokens"@),
            },
        ),
    }
}

fn read_count_at(value: &Json, position: usize, key: &str) -> (r: u32)
    ensures
        r == count_at(value@, position as nat, key@),
{
    match value.any_ref(position, key).read_u32() {
        Ok(n) => n,
        Err(_) => 0,
    }
}

/// The JSON form of the counts.
pub open spec fn counts_json(counts: AnthropicCountTokensResponse) -> JsonView {
    JsonView::Object(
        seq![
            ("input_tokens"@, count_json(counts.input_tokens as nat)),
            (
                "cache_creation_input_tokens"@,
                count_json(counts.cache_creation_input_tokens as nat),
            ),
            ("cache_read_input_tokens"@, count_json(counts.cache_read_input_tokens as nat)),
        ],
    )
}

impl AnthropicCountTokensResponse {
    /// Reads the counts that a provider answers with.
    pub fn from_value(value: &Json) -> (r: Result<AnthropicCountTokensResponse, String>)
        ensures
            outcome(r) == read_counts(value@),
    {
        match record_problem::<CountsShape>(value) {
            Some(e) => Err(e),
            None => Ok(
                AnthropicCountTokensResponse {
                    input_tokens: read_count_at(value, 0, "input_tokens"),
                    cache_creation_input_tokens: read_count_at(
                        value,
                        1,
                        "cache_creation_input_tokens",
                    ),
                    cache_read_input_tokens: read_count_at(value, 2, "cache_read_input_tokens"),
                },
            ),
        }
    }

    /// The JSON form of the counts.
    pub fn to_json(&self) -> (r: Json)
        ensures
            r@ == counts_json(*self),
    {
        let entries: Vec<JsonEntry> = vec![
            JsonEntry::new("input_tokens", Json::count(self.input_tokens as usize)),
            JsonEntry::new(
                "cache_creation_input_tokens",
                Json::count(self.cache_creation_input_tokens as usize),
            ),
            JsonEntry::new(
                "cache_read_input_tokens",
                Json::count(self.cache_read_input_tokens as usize),
            ),
        ];
        assert(entries.deep_view() =~= counts_json(*self)->Object_0);
        Json::object(entries)
    }
}

/// What is answered when a provider answers with a status and a text, given what
/// was read from the text: its counts, or its text as an error. What the
/// provider refuses is the client's fault; any other failure is not.
pub open spec fn reply_with(status: u16, text: Seq<char>, read: Result<JsonView, Seq<char>>) -> Result<
    AnthropicCountTokensResponse,
    ErrorResponseView,
> {
    if 200 <= status < 300 {
        match read {
            Err(e) => Err(fault_response(e)),
            Ok(v) => match read_counts(v) {
                Err(e) => Err(fault_response(e)),
                Ok(counts) => Ok(counts),
            },
        }
    } else if 400 <= status < 500 {
        Err(invalid_response(text))
    } else {
        Err(fault_response(text))
    }
}

/// What is answered when a provider answers with a status and a text, given what
/// was read from the text.
pub fn count_tokens_reply_with(status: u16, text: &str, read: Result<Json, String>) -> (r: Result<
    AnthropicCountTokensResponse,
    AnthropicErrorResponse,
>)
    ensures
        outcome(r) == reply_with(status, text@, outcome(read)),
{
    if 200 <= status && status < 300 {
        match read {
            Err(e) => Err(upstream_failure(e.as_str())),
            Ok(value) => match AnthropicCountTokensResponse::from_value(&value) {
                Err(e) => Err(upstream_failure(e.as_str())),
                Ok(counts) => Ok(counts),
            },
        }
    } else if 400 <= status && status < 500 {
        Err(AnthropicErrorResponse::bad_request_msg(text))
    } else {
        Err(upstream_failure(text))
    }
}

/// What is answered when a provider answers with a status and a text.
pub fn count_tokens_reply(status: u16, text: &str) -> (r: Result<
    AnthropicCountTokensResponse,
    AnthropicErrorResponse,
>)
    ensures
        outcome(r) == reply_with(status, text@, whole_text::<CountsShape>(text@)),
{
    count_tokens_reply_with(status, text, read_whole_text::<CountsShape>(text))
}

/// What a provider counts reaches the client unchanged.
pub proof fn counts_are_kept(counts: AnthropicCountTokensResponse)
    ensures
        read_counts(counts_json(counts)) == Ok::<AnthropicCountTokensResponse, Seq<char>>(counts),
{
    let v = counts_json(counts);
    let entries = v->Object_0;
    reveal_strlit("input_tokens");
    reveal_strlit("cache_creation_input_tokens");
    reveal_strlit("cache_read_input_tokens");
    assert("input_tokens"@.len() == 12);
    assert("cache_creation_input_tokens"@.len() == 27);
    assert("cache_read_input_tokens"@.len() == 23);
    let keys = CountsShape::keys();
    assert(keys[0] == "input_tokens"@ && keys[1] == "cache_creation_input_tokens"@ && keys[2]
        == "cache_read_input_tokens"@);
    entry_is_found(entries, 0);
    entry_is_found(entries, 1);
    entry_is_found(entries, 2);
    known_entry::<CountsShape>(entries, 0, 0);
    known_entry::<CountsShape>(entries, 1, 1);
    known_entry::<CountsShape>(entries, 2, 2);
    record_is_fine::<CountsShape>(entries);
}

} // verus!
