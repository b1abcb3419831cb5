use anthropic_compatible::routes::{Endpoint, build_anthropic_compatible_routes};

#[test]
fn test_route_count() {
    let handlers = build_anthropic_compatible_routes();
    assert_eq!(handlers.routes.len(), 4);
}

#[test]
fn both_paths_of_an_endpoint_lead_to_it() {
    let handlers = build_anthropic_compatible_routes();
    let at = |path: &str| {
        handlers
            .routes
            .iter()
            .find(|r| r.path == path)
            .map(|r| r.endpoint)
    };
    assert_eq!(at("/v1/messages"), Some(Endpoint::Messages));
    assert_eq!(at("/anthropic/v1/messages"), Some(Endpoint::Messages));
    assert_eq!(at("/v1/messages/count_tokens"), Some(Endpoint::CountTokens));
    assert_eq!(
        at("/anthropic/v1/messages/count_tokens"),
        Some(Endpoint::CountTokens)
    );
}
