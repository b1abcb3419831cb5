//! The routes of the endpoint.
//!
//! `/anthropic/v1/messages` is the canonical path; `/v1/messages` is an alias that
//! clients reach without configuration.
use vstd::prelude::*;

verus! {

/// What a route does.
#[derive(Clone, Copy, Debug, PartialEq, Eq, Structural)]
pub enum Endpoint {
    Messages,
    CountTokens,
}

/// A path and what is done there on `POST`.
#[derive(Clone, Copy, Debug)]
pub struct Route {
    pub path: &'static str,
    pub endpoint: Endpoint,
}

impl DeepView for Route {
    type V = (Seq<char>, Endpoint);

    open spec fn deep_view(&self) -> (Seq<char>, Endpoint) {
        (self.path@, self.endpoint)
    }
}

/// The routes of the endpoint.
#[derive(Debug)]
pub struct RouteHandlers {
    pub routes: Vec<Route>,
}

/// The paths of the endpoint.
pub open spec fn anthropic_routes() -> Seq<(Seq<char>, Endpoint)> {
    seq![
        ("/anthropic/v1/messages"@, Endpoint::Messages),
        ("/anthropic/v1/messages/count_tokens"@, Endpoint::CountTokens),
        ("/v1/messages"@, Endpoint::Messages),
        ("/v1/messages/count_tokens"@, Endpoint::CountTokens),
    ]
}

/// Builds the routes of the endpoint.
pub fn build_anthropic_compatible_routes() -> (r: RouteHandlers)
    ensures
        r.routes.deep_view() == anthropic_routes(),
{
    let routes: Vec<Route> = vec![
        Route { path: "/anthropic/v1/messages", endpoint: Endpoint::Messages },
        Route { path: "/anthropic/v1/messages/count_tokens", endpoint: Endpoint::CountTokens },
        Route { path: "/v1/messages", endpoint: Endpoint::Messages },
        Route { path: "/v1/messages/count_tokens", endpoint: Endpoint::CountTokens },
    ];
    assert(routes.deep_view() =~= anthropic_routes());
    RouteHandlers { routes }
}

/// The canonical path of an endpoint and its alias lead to the same endpoint.
pub proof fn aliases_agree(path: Seq<char>, endpoint: Endpoint)
    requires
        path == "/v1/messages"@ || path == "/v1/messages/count_tokens"@,
    ensures
        anthropic_routes().contains((path, endpoint)) <==> anthropic_routes().contains(
            ("/anthropic"@ + path, endpoint),
        ),
{
    reveal_strlit("/anthropic");
    reveal_strlit("/v1/messages");
    reveal_strlit("/v1/messages/count_tokens");
    reveal_strlit("/anthropic/v1/messages");
    reveal_strlit("/anthropic/v1/messages/count_tokens");
    let routes = anthropic_routes();
    assert("/anthropic"@ + "/v1/messages"@ =~= "/anthropic/v1/messages"@);
    assert("/anthropic"@ + "/v1/messages/count_tokens"@ =~= "/anthropic/v1/messages/count_tokens"@);
    assert("/v1/messages"@.len() == 12);
    assert("/v1/messages/count_tokens"@.len() == 25);
    assert("/anthropic/v1/messages"@.len() == 22);
    assert("/anthropic/v1/messages/count_tokens"@.len() == 35);
    assert(routes[0] == ("/anthropic/v1/messages"@, Endpoint::Messages));
    assert(routes[1] == ("/anthropic/v1/messages/count_tokens"@, Endpoint::CountTokens));
    assert(routes[2] == ("/v1/messages"@, Endpoint::Messages));
    assert(routes[3] == ("/v1/messages/count_tokens"@, Endpoint::CountTokens));
}

/// Both paths of each endpoint lead to it, and no other path leads anywhere.
pub proof fn routes_lead_to_their_endpoints(path: Seq<char>, endpoint: Endpoint)
    ensures
        anthropic_routes().contains((path, endpoint)) <==> match endpoint {
            Endpoint::Messages => path == "/anthropic/v1/messages"@ || path == "/v1/messages"@,
            Endpoint::CountTokens => path == "/anthropic/v1/messages/count_tokens"@ || path
                == "/v1/messages/count_tokens"@,
        },
{
    let routes = anthropic_routes();
    assert(routes[0] == ("/anthropic/v1/messages"@, Endpoint::Messages));
    assert(routes[1] == ("/anthropic/v1/messages/count_tokens"@, Endpoint::CountTokens));
    assert(routes[2] == ("/v1/messages"@, Endpoint::Messages));
    assert(routes[3] == ("/v1/messages/count_tokens"@, Endpoint::CountTokens));
}

} // verus!
