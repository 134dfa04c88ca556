use exa_sdk::{
    contents_response_of, find_similar_response_of, search_response_of, ContentsHighlightsRequest,
    ContentsRequest, ContentsTextRequest, Exa, ExaError, FindSimilarRequest, SearchRequest,
};

fn setup(base_url: String) -> Exa {
    Exa::builder()
        .api_key("test_key".to_string())
        .base_url(base_url)
        .build()
        .unwrap()
}

#[test]
fn test_basic_search() {
    let exa = setup("http://127.0.0.1:9200".to_string());
    let request = SearchRequest {
        query: "test query".to_string(),
        use_autoprompt: None,
        num_results: None,
        ..Default::default()
    };
    let wire = exa.search_wire(&request);
    assert_eq!(wire.url, "http://127.0.0.1:9200/search");
    assert_eq!(wire.header_value, "test_key");
    assert_eq!(wire.body, "{\"query\":\"test query\"}");

    let body = "{\"results\":[{\"id\":\"Test ID\",\"title\":\"Test Result\",\"url\":\"https://example.com\",\"score\":0.95}],\"autopromptString\":null}";
    let response = search_response_of(200, body).unwrap();

    assert_eq!(response.results.len(), 1);
    assert_eq!(response.results[0].title, "Test Result");
    assert_eq!(response.results[0].url, "https://example.com");
    assert_eq!(response.results[0].score, "0.95");
    assert_eq!(response.results[0].score.parse::<f64>().unwrap(), 0.95);
    assert_eq!(response.results[0].published_date, None);
    assert!(response.autoprompt_string.is_none());
}

#[test]
fn test_search_with_all_options() {
    let exa = setup("http://127.0.0.1:9200".to_string());
    let request = SearchRequest {
        query: "test query".to_string(),
        use_autoprompt: Some(true),
        num_results: Some(1),
        ..Default::default()
    };
    let wire = exa.search_wire(&request);
    assert_eq!(
        wire.body,
        "{\"query\":\"test query\",\"useAutoprompt\":true,\"numResults\":1}"
    );

    let body = "{\"results\":[{\"id\":\"Test ID\",\"title\":\"Test Result\",\"url\":\"https://example.com\",\"score\":0.95,\"publishedDate\":\"2023-01-01\"}],\"autopromptString\":\"Expanded query\"}";
    let response = search_response_of(200, body).unwrap();

    assert_eq!(response.results.len(), 1);
    assert_eq!(
        response.autoprompt_string,
        Some("Expanded query".to_string())
    );
}

#[test]
fn test_search_api_error() {
    let body = "{\"code\":\"unauthorized\",\"message\":\"Your request was unauthorized\"}";
    let result = search_response_of(401, body);

    assert!(result.is_err());
    assert_eq!(
        result.unwrap_err().describe(),
        "HTTP error: 401 - unauthorized - Your request was unauthorized"
    );
}

#[test]
fn test_find_similar() {
    let exa = setup("http://127.0.0.1:9200".to_string());
    let request = FindSimilarRequest {
        url: "https://example.com".to_string(),
        num_results: Some(1),
        ..Default::default()
    };
    let wire = exa.find_similar_wire(&request);
    assert_eq!(wire.url, "http://127.0.0.1:9200/findSimilar");
    assert_eq!(
        wire.body,
        "{\"url\":\"https://example.com\",\"numResults\":1}"
    );

    let body = "{\"results\":[{\"id\":\"test_id\",\"title\":\"Test Title\",\"url\":\"https://example.com\",\"score\":0.95,\"publishedDate\":\"2023-01-01\",\"author\":\"Test Author\"}]}";
    let response = find_similar_response_of(200, body).unwrap();

    assert_eq!(response.results.len(), 1);
    assert_eq!(response.results[0].id, "test_id");
    assert_eq!(response.results[0].title, "Test Title");
    assert_eq!(response.results[0].url, "https://example.com");
    assert_eq!(response.results[0].score.parse::<f64>().unwrap(), 0.95);
    assert_eq!(
        response.results[0].published_date,
        Some("2023-01-01".to_string())
    );
    assert_eq!(response.results[0].author, Some("Test Author".to_string()));
}

#[test]
fn test_find_similar_error() {
    let body = "{\"code\":\"bad_request\",\"message\":\"Invalid request parameters\"}";
    let result = find_similar_response_of(400, body);

    assert!(result.is_err());
    if let Err(ExaError::HttpError(error)) = result {
        assert_eq!(error.status, 400);
        assert_eq!(error.payload.code, "bad_request");
        assert_eq!(error.payload.message, "Invalid request parameters");
    } else {
        panic!("Expected HttpError");
    }
}

#[test]
fn test_find_similar_request_new_valid_url() {
    let url = "https://example.com";
    let request = FindSimilarRequest::new(url.to_string());
    assert!(request.is_ok());
    let request = request.unwrap();
    assert_eq!(request.url, url);
}

#[test]
fn test_find_similar_request_new_invalid_url() {
    let url = "not a valid url";
    let request = FindSimilarRequest::new(url.to_string());
    assert!(request.is_err());
}

#[test]
fn test_get_contents() {
    let exa = setup("http://127.0.0.1:9200".to_string());
    let request = ContentsRequest {
        ids: vec!["test_id".to_string()],
        text: Some(ContentsTextRequest {
            max_characters: Some(100),
            include_html_tags: Some(false),
        }),
        highlights: Some(ContentsHighlightsRequest {
            num_sentences: Some(1),
            highlights_per_url: Some(1),
            query: Some("test".to_string()),
        }),
        summary: None,
    };
    let wire = exa.get_contents_wire(&request);
    assert_eq!(wire.url, "http://127.0.0.1:9200/contents");
    assert_eq!(
        wire.body,
        "{\"ids\":[\"test_id\"],\"text\":{\"max_characters\":100,\"include_html_tags\":false},\"highlights\":{\"num_sentences\":1,\"highlights_per_url\":1,\"query\":\"test\"}}"
    );

    let body = "{\"results\":[{\"id\":\"test_id\",\"url\":\"https://example.com\",\"title\":\"Test Title\",\"text\":\"Test content\",\"highlights\":[\"Test highlight\"],\"highlight_scores\":[0.95]}]}";
    let response = contents_response_of(200, body).unwrap();

    assert_eq!(response.results.len(), 1);
    assert_eq!(response.results[0].id, "test_id");
    assert_eq!(response.results[0].url, "https://example.com");
    assert_eq!(response.results[0].title, "Test Title");
    assert_eq!(response.results[0].text, Some("Test content".to_string()));
    assert_eq!(
        response.results[0].highlights,
        Some(vec!["Test highlight".to_string()])
    );
    let scores: Vec<f64> = response.results[0]
        .highlight_scores
        .as_ref()
        .unwrap()
        .iter()
        .map(|t| t.parse::<f64>().unwrap())
        .collect();
    assert_eq!(scores, vec![0.95]);
}

#[test]
fn test_get_contents_error() {
    let body = "{\"code\":\"bad_request\",\"message\":\"Invalid request parameters\"}";
    let result = contents_response_of(400, body);

    assert!(result.is_err());
    if let Err(ExaError::HttpError(error)) = result {
        assert_eq!(error.status, 400);
        assert_eq!(error.payload.code, "bad_request");
        assert_eq!(error.payload.message, "Invalid request parameters");
    } else {
        panic!("Expected HttpError");
    }
}
