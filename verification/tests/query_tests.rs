use websearch::query::{
    build_request, classify_response, default_config, default_patterns, FetchOutcome,
    QueryConfig, RequestShape,
};

#[test]
fn url_shape_concatenates_endpoint_and_query() {
    let config = default_config();
    let plan = build_request(&config, "rust verification");
    assert_eq!(plan.url, "https://html.duckduckgo.com/html?q=rust verification");
    assert!(plan.body.is_none());
}

#[test]
fn json_shape_carries_the_query_in_the_body() {
    let config = QueryConfig {
        endpoint: String::from("https://example.test/search"),
        shape: RequestShape::JsonBody,
        timeout_ms: 1000,
    };
    let plan = build_request(&config, "plain");
    assert_eq!(plan.url, "https://example.test/search");
    assert_eq!(plan.body.as_deref(), Some("{\"q\":\"plain\"}"));
}

#[test]
fn json_body_escapes_special_characters() {
    let config = QueryConfig {
        endpoint: String::from("https://example.test/search"),
        shape: RequestShape::JsonBody,
        timeout_ms: 1000,
    };
    let plan = build_request(&config, "a\"b\\c\nd\re\tf");
    assert_eq!(plan.body.as_deref(), Some("{\"q\":\"a\\\"b\\\\c\\nd\\re\\tf\"}"));
}

#[test]
fn classification_splits_on_the_success_status() {
    assert!(matches!(
        classify_response(200, String::from("body")),
        FetchOutcome::Success(_)
    ));
    assert!(matches!(
        classify_response(404, String::from("gone")),
        FetchOutcome::HttpError(404, _)
    ));
    assert!(matches!(
        classify_response(503, String::from("busy")),
        FetchOutcome::HttpError(503, _)
    ));
}

#[test]
fn http_error_keeps_the_raw_body() {
    match classify_response(500, String::from("diagnostic body")) {
        FetchOutcome::HttpError(status, body) => {
            assert_eq!(status, 500);
            assert_eq!(body, "diagnostic body");
        },
        _ => panic!("a 500 answer must classify as an HTTP error"),
    }
}

#[test]
fn default_configuration_is_the_url_shape() {
    let config = default_config();
    assert_eq!(config.endpoint, "https://html.duckduckgo.com/html?q=");
    assert!(matches!(config.shape, RequestShape::UrlQuery));
    assert_eq!(config.timeout_ms, 10000);
}

#[test]
fn default_patterns_name_the_engine_markup() {
    let patterns = default_patterns();
    assert_eq!(patterns.container, ".result");
    assert_eq!(patterns.title_link, ".result__a");
    assert_eq!(patterns.snippet, ".result__snippet");
}
