use exa_sdk::{Exa, ExaError, FindSimilarRequest, SearchRequest, API_KEY_HEADER, BASE_URL};

#[test]
fn a_rejected_url_is_an_invalid_input_error() {
    let result = FindSimilarRequest::new("::not a url::".to_string());
    assert!(matches!(result, Err(ExaError::InvalidInput)));
}

#[test]
fn building_without_any_key_fails_with_missing_credential() {
    let result = Exa::builder().build();
    assert!(matches!(result, Err(ExaError::MissingCredential)));
    assert_eq!(
        result.unwrap_err().describe(),
        "API key is required. Set it explicitly or use the EXA_API_KEY environment variable"
    );
}

#[test]
fn an_explicit_key_builds_a_client() {
    let exa = Exa::builder().api_key("k1".to_string()).build().unwrap();
    assert_eq!(exa.auth_header_value(), "k1");
}

#[test]
fn a_key_from_the_environment_builds_a_client() {
    let exa = Exa::builder()
        .env_api_key(Some("k2".to_string()))
        .build()
        .unwrap();
    assert_eq!(exa.auth_header_value(), "k2");
}

#[test]
fn an_explicit_key_wins_over_the_environment() {
    let exa = Exa::builder()
        .api_key("explicit".to_string())
        .env_api_key(Some("from_env".to_string()))
        .build()
        .unwrap();
    assert_eq!(exa.auth_header_value(), "explicit");
}

#[test]
fn an_empty_environment_changes_nothing() {
    let result = Exa::builder().env_api_key(None).build();
    assert!(matches!(result, Err(ExaError::MissingCredential)));
}

#[test]
fn the_base_url_defaults_to_the_public_endpoint() {
    let exa = Exa::builder().api_key("k".to_string()).build().unwrap();
    let request = SearchRequest {
        query: "q".to_string(),
        ..Default::default()
    };
    let wire = exa.search_wire(&request);
    assert_eq!(BASE_URL, "https://api.exa.ai");
    assert_eq!(wire.url, "https://api.exa.ai/search");
    assert_eq!(API_KEY_HEADER, "x-api-key");
}

#[test]
fn every_error_kind_describes_itself() {
    assert_eq!(
        ExaError::InvalidInput.describe(),
        "invalid input: the request failed local validation"
    );
    assert_eq!(
        ExaError::TransportError("connection refused".to_string()).describe(),
        "transport error: connection refused"
    );
    assert_eq!(
        ExaError::DecodeError.describe(),
        "failed to decode the response body"
    );
}
