//! What holds of every request to count tokens.
use crate::count_tokens::{
    AnthropicCountTokensResponse, CountTokensParamsView, ModelView, ProviderView, TargetView,
    model_to_count, passed_on, plan_for, plan_of, plan_of_text, read_count_tokens,
    read_count_tokens_text, read_counts, reply_with, target_of, under, url_to_count,
};
use crate::error::ErrorResponseView;
use crate::json::JsonView;
use crate::outside::{joined_url, parsed_json, path_of_url, url_with_path};
use crate::reader::{entry_is_found, entry_is_not_found};
use crate::record_laws::gives_keys_once;
use crate::types::form_laws::{member, no_member};
use vstd::prelude::*;

verus! {

// ---------------------------------------------------------------------------
// Lookups
// ---------------------------------------------------------------------------

/// Whether an entry is the first with its name.
pub open spec fn is_first<T>(entries: Seq<(Seq<char>, T)>, k: int) -> bool {
    0 <= k < entries.len() && forall|j: int|
        0 <= j < k ==> (#[trigger] entries[j]).0 != entries[k].0
}

/// An entry is found by its name, wherever in the table it stands.
pub proof fn entries_are_found<T>(entries: Seq<(Seq<char>, T)>, k: int)
    requires
        is_first(entries, k),
    ensures
        under(entries, entries[k].0) == Some(entries[k].1),
    decreases entries.len(),
{
    if k > 0 {
        let rest = entries.skip(1);
        assert(rest[k - 1] == entries[k]);
        assert forall|j: int| 0 <= j < k - 1 implies (#[trigger] rest[j]).0 != rest[k - 1].0 by {
            assert(rest[j] == entries[j + 1]);
        }
        entries_are_found(rest, k - 1);
        assert(entries[0].0 != entries[k].0);
    }
}

/// A name is found if and only if an entry has it, and what is found is what stands under
/// that name.
pub proof fn only_entries_are_found<T>(entries: Seq<(Seq<char>, T)>, name: Seq<char>)
    ensures
        under(entries, name) is Some <==> exists|k: int|
            0 <= k < entries.len() && (#[trigger] entries[k]).0 == name,
        under(entries, name) matches Some(x) ==> exists|k: int|
            0 <= k < entries.len() && #[trigger] entries[k] == (name, x),
    decreases entries.len(),
{
    if entries.len() > 0 {
        let rest = entries.skip(1);
        only_entries_are_found(rest, name);
        if entries[0].0 == name {
            assert(entries[0] == (name, entries[0].1));
        } else {
            if let Some(x) = under(rest, name) {
                let k = choose|k: int| 0 <= k < rest.len() && #[trigger] rest[k] == (name, x);
                assert(entries[k + 1] == (name, x));
            }
            if exists|k: int| 0 <= k < entries.len() && (#[trigger] entries[k]).0 == name {
                let k = choose|k: int| 0 <= k < entries.len() && (#[trigger] entries[k]).0 == name;
                assert(rest[k - 1].0 == name);
            }
        }
    }
}

// ---------------------------------------------------------------------------
// Plans
// ---------------------------------------------------------------------------

/// Whether a text starts with a prefix.
pub open spec fn has_prefix(text: Seq<char>, prefix: Seq<char>) -> bool {
    exists|rest: Seq<char>| text == #[trigger] (prefix + rest)
}

/// Whether a model name of a request stands for a configured model: it is the name behind
/// the prefix that marks models, or the name itself.
pub open spec fn stands_for_model(model: Seq<char>, name: Seq<char>) -> bool {
    model == "tensorzero::model_name::"@ + name || (model == name && !has_prefix(
        model,
        "tensorzero::model_name::"@,
    ) && !has_prefix(model, "tensorzero::function_name::"@))
}

proof fn prefix_is_seen(text: Seq<char>, prefix: Seq<char>)
    ensures
        has_prefix(text, prefix) <==> prefix.len() <= text.len() && text.subrange(
            0,
            prefix.len() as int,
        ) == prefix,
{
    if prefix.len() <= text.len() && text.subrange(0, prefix.len() as int) == prefix {
        assert(text =~= prefix + text.skip(prefix.len() as int));
    }
    if has_prefix(text, prefix) {
        let rest = choose|rest: Seq<char>| text == #[trigger] (prefix + rest);
        assert(text.subrange(0, prefix.len() as int) =~= prefix);
    }
}

proof fn model_is_resolved(model: Seq<char>, name: Seq<char>)
    requires
        stands_for_model(model, name),
    ensures
        model_to_count(model) == Ok::<Seq<char>, ErrorResponseView>(name),
{
    let p = "tensorzero::model_name::"@;
    prefix_is_seen(model, p);
    prefix_is_seen(model, "tensorzero::function_name::"@);
    if model == p + name {
        assert(model.subrange(0, p.len() as int) =~= p);
        assert(model.subrange(p.len() as int, model.len() as int) =~= name);
    }
}

/// The credentials that come with a request.
pub open spec fn credentials_in(params: CountTokensParamsView) -> Option<
    Map<Seq<char>, Seq<char>>,
> {
    match params.metadata {
        Some(metadata) => match metadata.tensorzero {
            Some(extension) => Some(extension.credentials),
            None => None,
        },
        None => None,
    }
}

/// A request that names a configured model, wherever in the configuration it stands, is
/// planned if the first provider that the model is routed to is an Anthropic one. The plan
/// names the model and the provider, and has the provider's base URL and the credentials
/// of the request.
pub proof fn configured_models_are_planned(
    models: Seq<(Seq<char>, ModelView)>,
    i: int,
    j: int,
    params: CountTokensParamsView,
    body: JsonView,
)
    requires
        is_first(models, i),
        stands_for_model(params.model, models[i].0),
        models[i].1.routing.len() > 0,
        is_first(models[i].1.providers, j),
        models[i].1.providers[j].0 == models[i].1.routing[0],
        models[i].1.providers[j].1 is Anthropic,
    ensures
        plan_for(models, params, body) is Ok,
        ({
            let plan = plan_for(models, params, body)->Ok_0;
            &&& plan.model == models[i].0
            &&& plan.provider == models[i].1.routing[0]
            &&& plan.base_url == models[i].1.providers[j].1->base_url
            &&& match credentials_in(params) {
                Some(own) => plan.credentials == own,
                None => forall|key: Seq<char>| !(#[trigger] plan.credentials.dom().contains(key)),
            }
            &&& member(
                plan.body,
                "model"@,
                JsonView::String(models[i].1.providers[j].1->model_name),
            )
        }),
        target_of(models, params.model) == Ok::<TargetView, ErrorResponseView>(
            TargetView { model: models[i].0, provider: models[i].1.routing[0] },
        ),
{
    model_is_resolved(params.model, models[i].0);
    entries_are_found(models, i);
    entries_are_found(models[i].1.providers, j);
    let plan = plan_for(models, params, body)->Ok_0;
    body_names_the_model(models, params, body);
}

proof fn body_keys_differ()
    ensures
        "model"@ != "messages"@,
        "model"@ != "system"@,
        "model"@ != "tools"@,
        "messages"@ != "system"@,
        "messages"@ != "tools"@,
        "system"@ != "tools"@,
{
    reveal_strlit("model");
    reveal_strlit("messages");
    reveal_strlit("system");
    reveal_strlit("tools");
    assert("model"@.len() == 5);
    assert("messages"@.len() == 8);
    assert("system"@.len() == 6);
    assert("tools"@.len() == 5);
    assert("model"@[0] == 'm');
    assert("tools"@[0] == 't');
}

proof fn body_names_the_model(
    models: Seq<(Seq<char>, ModelView)>,
    params: CountTokensParamsView,
    body: JsonView,
)
    ensures
        plan_for(models, params, body) matches Ok(plan) ==> plan.body is Object
            && plan.body->Object_0.len() > 0 && plan.body->Object_0[0].0 == "model"@
            && plan.body->Object_0[0].1 is String && member(
            plan.body,
            "model"@,
            plan.body->Object_0[0].1,
        ),
{
    body_keys_differ();
    if let Ok(plan) = plan_for(models, params, body) {
        let entries = plan.body->Object_0;
        assert(entries[0] == ("model"@, entries[0].1));
        assert forall|k: int| 0 < k < entries.len() implies (#[trigger] entries[k]).0 != "model"@ by {
        }
    }
}

/// The provider is sent the messages, the system prompt and the tools of the request as they
/// are, where the request has them, its own name for the model, and nothing else.
pub proof fn what_is_needed_is_passed_on(
    models: Seq<(Seq<char>, ModelView)>,
    params: CountTokensParamsView,
    entries: Seq<(Seq<char>, JsonView)>,
    key: Seq<char>,
)
    requires
        plan_for(models, params, JsonView::Object(entries)) is Ok,
        gives_keys_once(entries),
        key != "model"@,
    ensures
        ({
            let sent = plan_for(models, params, JsonView::Object(entries))->Ok_0.body;
            let passed = key == "messages"@ || key == "system"@ || key == "tools"@;
            &&& forall|k: int|
                0 <= k < entries.len() && (#[trigger] entries[k]).0 == key && passed ==> member(
                    sent,
                    key,
                    entries[k].1,
                )
            &&& (forall|k: int| 0 <= k < entries.len() ==> (#[trigger] entries[k]).0 != key)
                ==> no_member(sent, key)
            &&& !passed ==> no_member(sent, key)
        }),
{
    body_keys_differ();
    let v = JsonView::Object(entries);
    let sent = plan_for(models, params, v)->Ok_0.body->Object_0;
    assert forall|k: int|
        0 <= k < entries.len() && (#[trigger] entries[k]).0 == key && (key == "messages"@ || key
            == "system"@ || key == "tools"@) implies member(
        JsonView::Object(sent),
        key,
        entries[k].1,
    ) by {
        entry_is_found(entries, k);
        let messages = passed_on(v, "messages"@);
        let system = passed_on(v, "system"@);
        let tools = passed_on(v, "tools"@);
        let x = (key, entries[k].1);
        if key == "messages"@ {
            assert(messages == seq![x]);
            assert(sent[1] == x);
        } else if key == "system"@ {
            assert(system == seq![x]);
            assert(sent[1 + messages.len() as int] == x);
        } else {
            assert(tools == seq![x]);
            assert(sent[1 + messages.len() as int + system.len()] == x);
        }
    }
    if forall|k: int| 0 <= k < entries.len() ==> (#[trigger] entries[k]).0 != key {
        entry_is_not_found(entries, key);
    }
}

// ---------------------------------------------------------------------------
// Refusals
// ---------------------------------------------------------------------------

/// Whether a response refuses a request with a status, a type and a message.
pub open spec fn refuses(
    response: ErrorResponseView,
    status: u16,
    error_type: Seq<char>,
    message: Seq<char>,
) -> bool {
    &&& response.status == status
    &&& response.body.body_type == "error"@
    &&& response.body.error_type == Some(error_type)
    &&& response.body.message == message
}

/// A request for a function is not implemented.
pub proof fn functions_are_not_counted(
    models: Seq<(Seq<char>, ModelView)>,
    params: CountTokensParamsView,
    body: JsonView,
    name: Seq<char>,
)
    requires
        params.model == "tensorzero::function_name::"@ + name,
    ensures
        plan_for(models, params, body) matches Err(response) && refuses(
            response,
            501,
            "not_implemented_error"@,
            "count_tokens is not supported for function routes in Phase 3"@,
        ),
{
    let f = "tensorzero::function_name::"@;
    let m = "tensorzero::model_name::"@;
    let model = params.model;
    reveal_strlit("tensorzero::function_name::");
    reveal_strlit("tensorzero::model_name::");
    assert(f[12] == 'f');
    assert(m[12] == 'm');
    assert(model.subrange(0, f.len() as int) =~= f);
    assert(model[12] == 'f');
    if model.len() >= m.len() {
        assert(model.subrange(0, m.len() as int)[12] == model[12]);
    }
}

/// A model that is not configured is the client's mistake.
pub proof fn unknown_models_are_refused(
    models: Seq<(Seq<char>, ModelView)>,
    params: CountTokensParamsView,
    body: JsonView,
    name: Seq<char>,
)
    requires
        stands_for_model(params.model, name),
        forall|k: int| 0 <= k < models.len() ==> (#[trigger] models[k]).0 != name,
    ensures
        plan_for(models, params, body) matches Err(response) && refuses(
            response,
            400,
            "invalid_request_error"@,
            "Model '"@ + name + "' not found"@,
        ),
{
    model_is_resolved(params.model, name);
    only_entries_are_found(models, name);
}

/// A model that cannot be routed is the gateway's fault.
pub proof fn models_without_provider_are_faults(
    models: Seq<(Seq<char>, ModelView)>,
    i: int,
    params: CountTokensParamsView,
    body: JsonView,
)
    requires
        is_first(models, i),
        stands_for_model(params.model, models[i].0),
        models[i].1.routing.len() > 0 ==> forall|k: int|
            0 <= k < models[i].1.providers.len() ==> (#[trigger] models[i].1.providers[k]).0
                != models[i].1.routing[0],
    ensures
        plan_for(models, params, body) matches Err(response) && refuses(
            response,
            500,
            "api_error"@,
            if models[i].1.routing.len() == 0 {
                "Model has no providers configured"@
            } else {
                "Provider '"@ + models[i].1.routing[0] + "' not found for model '"@ + models[i].0
                    + "'"@
            },
        ),
{
    model_is_resolved(params.model, models[i].0);
    entries_are_found(models, i);
    if models[i].1.routing.len() > 0 {
        only_entries_are_found(models[i].1.providers, models[i].1.routing[0]);
    }
}

/// Only an Anthropic provider counts tokens; any other is not implemented.
pub proof fn other_providers_do_not_count(
    models: Seq<(Seq<char>, ModelView)>,
    i: int,
    j: int,
    params: CountTokensParamsView,
    body: JsonView,
)
    requires
        is_first(models, i),
        stands_for_model(params.model, models[i].0),
        models[i].1.routing.len() > 0,
        is_first(models[i].1.providers, j),
        models[i].1.providers[j].0 == models[i].1.routing[0],
        !(models[i].1.providers[j].1 is Anthropic),
    ensures
        plan_for(models, params, body) matches Err(response) && refuses(
            response,
            501,
            "not_implemented_error"@,
            match models[i].1.providers[j].1 {
                ProviderView::Other { provider_type } =>
                    "count_tokens is not supported for provider '"@ + provider_type
                    + "'; only Anthropic-family providers support count_tokens"@,
                _ => "count_tokens is not supported for GCP Vertex Anthropic in Phase 3"@,
            },
        ),
{
    model_is_resolved(params.model, models[i].0);
    entries_are_found(models, i);
    entries_are_found(models[i].1.providers, j);
}

/// A body that cannot be read is the client's mistake; one that can be read but not passed
/// on is not. Any other body is planned by what was read of it and passed on as it is.
pub proof fn bodies_are_read_first(models: Seq<(Seq<char>, ModelView)>, text: Seq<char>)
    ensures
        match read_count_tokens_text(text) {
            Err(e) => plan_of_text(models, text) matches Err(response) && refuses(
                response,
                400,
                "invalid_request_error"@,
                "Invalid request body: "@ + e,
            ),
            Ok(params) => match parsed_json(text) {
                Err(e) => plan_of_text(models, text) matches Err(response) && refuses(
                    response,
                    500,
                    "api_error"@,
                    e,
                ),
                Ok(body) => plan_of_text(models, text) == plan_for(models, params, body),
            },
        },
{
}

/// A value that is no request is the client's mistake. Any other is planned by what was read
/// of it and passed on as it is.
pub proof fn values_are_read_first(models: Seq<(Seq<char>, ModelView)>, body: JsonView)
    ensures
        match read_count_tokens(body) {
            Err(e) => plan_of(models, body) matches Err(response) && refuses(
                response,
                400,
                "invalid_request_error"@,
                "Invalid request body: "@ + e,
            ),
            Ok(params) => plan_of(models, body) == plan_for(models, params, body),
        },
{
}

// ---------------------------------------------------------------------------
// URL and reply
// ---------------------------------------------------------------------------

/// Tokens are counted at `messages/count_tokens` below the base URL. A path that does not
/// end in a slash is given one first, so that its last part is kept.
pub proof fn tokens_are_counted_below_the_base(base_url: Seq<char>, base: Seq<char>)
    requires
        match path_of_url(base_url) {
            Some(path) => if path.len() > 0 && path[path.len() - 1] == '/' {
                base == base_url
            } else {
                url_with_path(base_url, path + seq!['/']) == Some(base)
            },
            None => base == base_url,
        },
    ensures
        match joined_url(base, "messages/count_tokens"@) {
            Ok(url) => url_to_count(base_url) == Ok::<Seq<char>, ErrorResponseView>(url),
            Err(e) => url_to_count(base_url) matches Err(response) && refuses(
                response,
                500,
                "api_error"@,
                e,
            ),
        },
{
    reveal_strlit("/");
    assert("/"@ =~= seq!['/']);
}

/// A success is answered with the counts of the provider, and is the provider's fault where
/// it has none. What the provider refuses is the client's mistake; any other failure is
/// not. The message is what the provider said.
pub proof fn replies_follow_the_status(
    status: u16,
    text: Seq<char>,
    read: Result<JsonView, Seq<char>>,
)
    ensures
        ({
            let reply = reply_with(status, text, read);
            &&& 200 <= status < 300 ==> match read {
                Err(e) => reply matches Err(response) && refuses(response, 500, "api_error"@, e),
                Ok(v) => match read_counts(v) {
                    Err(e) => reply matches Err(response) && refuses(
                        response,
                        500,
                        "api_error"@,
                        e,
                    ),
                    Ok(counts) => reply == Ok::<AnthropicCountTokensResponse, ErrorResponseView>(
                        counts,
                    ),
                },
            }
            &&& 400 <= status < 500 ==> (reply matches Err(response) && refuses(
                response,
                400,
                "invalid_request_error"@,
                text,
            ))
            &&& status < 200 || 300 <= status < 400 || status >= 500 ==> (reply matches Err(
                response,
            ) && refuses(response, 500, "api_error"@, text))
        }),
{
}

} // verus!
