use anthropic_compatible::error::{
    AnthropicError, AnthropicErrorBody, AnthropicErrorResponse, Error, ErrorDetails,
};
use anthropic_compatible::json::{Json, JsonEntry};
use anthropic_compatible::outside::{parse_json, print_json};

#[test]
fn test_invalid_request_error() {
    let body = AnthropicErrorBody::invalid_request("bad input");
    let serialized = print_json(&body.to_json());
    let parsed = parse_json(&serialized).unwrap();
    assert_eq!(
        parsed,
        Json::object(vec![
            JsonEntry::new(
                "error",
                Json::object(vec![
                    JsonEntry::new("message", Json::text("bad input")),
                    JsonEntry::new("type", Json::text("invalid_request_error")),
                ]),
            ),
            JsonEntry::new("type", Json::text("error")),
        ])
    );
}

#[test]
fn test_unauthorized_error() {
    let body = AnthropicErrorBody::authentication_error("no token");
    assert_eq!(body.error.error_type, Some("authentication_error"));
}

#[test]
fn test_unimplemented_error() {
    let body = AnthropicErrorBody::unimplemented("not yet");
    assert_eq!(body.error.error_type, Some("not_implemented_error"));
}

#[test]
fn test_from_error_server_error_maps_to_500() {
    let error = Error::new(ErrorDetails::InternalError {
        message: "something broke".to_string(),
    });
    let response: AnthropicErrorResponse = error.into();
    assert_eq!(response.1, 500);
    assert_eq!(response.0.error.error_type, Some("api_error"));
}

#[test]
fn test_from_error_not_implemented_maps_to_501() {
    let error = Error::new(ErrorDetails::NotImplemented {
        message: "not yet done".to_string(),
    });
    let response: AnthropicErrorResponse = error.into();
    assert_eq!(response.1, 501);
    assert_eq!(response.0.error.error_type, Some("not_implemented_error"));
}

#[test]
fn test_from_error_client_error_remains_400() {
    let error = Error::new(ErrorDetails::InvalidRequest {
        message: "bad field".to_string(),
    });
    let response: AnthropicErrorResponse = error.into();
    assert_eq!(response.1, 400);
    assert_eq!(response.0.error.error_type, Some("invalid_request_error"));
}

fn engine_error(status: u16) -> AnthropicErrorResponse {
    AnthropicErrorResponse::from(Error::new(ErrorDetails::Engine {
        status,
        message: "as it was said".to_string(),
    }))
}

#[test]
fn every_status_has_its_category() {
    let expected = [
        (401, 401, "authentication_error"),
        (403, 403, "permission_error"),
        (429, 429, "rate_limit_error"),
        (503, 529, "overloaded_error"),
        (501, 501, "not_implemented_error"),
        (408, 504, "api_error"),
        (504, 504, "api_error"),
        (500, 500, "api_error"),
        (502, 500, "api_error"),
        (400, 400, "invalid_request_error"),
        (404, 400, "invalid_request_error"),
        (422, 400, "invalid_request_error"),
    ];
    for (internal, status, name) in expected {
        let response = engine_error(internal);
        assert_eq!(response.1, status, "internal status {internal}");
        assert_eq!(response.0.error.error_type, Some(name));
        assert_eq!(response.0.error.message, "as it was said");
        assert_eq!(response.0.body_type, "error");
    }
}

#[test]
fn constructors_set_status_and_type() {
    let body = || AnthropicErrorBody::api_error("m");
    assert_eq!(AnthropicErrorResponse::bad_request(body()).1, 400);
    assert_eq!(AnthropicErrorResponse::unauthorized(body()).1, 401);
    assert_eq!(AnthropicErrorResponse::forbidden(body()).1, 403);
    assert_eq!(AnthropicErrorResponse::rate_limited(body()).1, 429);
    assert_eq!(AnthropicErrorResponse::internal_error(body()).1, 500);
    assert_eq!(AnthropicErrorResponse::unimplemented(body()).1, 501);
    assert_eq!(AnthropicErrorResponse::timed_out(body()).1, 504);
    assert_eq!(AnthropicErrorResponse::overloaded(body()).1, 529);
    let response = AnthropicErrorResponse::bad_request_msg("wrong");
    assert_eq!(response.1, 400);
    assert_eq!(response.0.error.message, "wrong");
    assert_eq!(response.0.error.error_type, Some("invalid_request_error"));
    assert_eq!(
        AnthropicErrorBody::permission_error("m").error.error_type,
        Some("permission_error")
    );
    assert_eq!(
        AnthropicErrorBody::rate_limit_error("m").error.error_type,
        Some("rate_limit_error")
    );
    assert_eq!(
        AnthropicErrorBody::overloaded_error("m").error.error_type,
        Some("overloaded_error")
    );
}

#[test]
fn a_missing_type_is_left_out() {
    let body = AnthropicErrorBody {
        body_type: "error",
        error: AnthropicError {
            message: "m".to_string(),
            error_type: None,
        },
    };
    assert_eq!(
        print_json(&body.to_json()),
        r#"{"error":{"message":"m"},"type":"error"}"#
    );
}
