use exa_sdk::{
    contents_response_of, find_similar_response_of, search_response_of, ContentsRequest,
    ContentsSummaryRequest, Exa, ExaError, FindSimilarRequest, SearchContent, SearchContentText,
    SearchHighlights, SearchKind, SearchRequest, SearchSummary,
};

fn setup() -> Exa {
    Exa::builder()
        .api_key("test_key".to_string())
        .base_url("http://127.0.0.1:9200".to_string())
        .build()
        .unwrap()
}

fn keys_of(body: &str) -> Vec<String> {
    let value: serde_json::Value = serde_json::from_str(body).unwrap();
    value
        .as_object()
        .unwrap()
        .keys()
        .map(|k| k.to_string())
        .collect()
}

#[test]
fn minimal_search_body_holds_only_the_query() {
    let exa = setup();
    let request = SearchRequest {
        query: "q".to_string(),
        ..Default::default()
    };
    let wire = exa.search_wire(&request);
    assert_eq!(wire.body, "{\"query\":\"q\"}");
    assert_eq!(keys_of(&wire.body), vec!["query".to_string()]);
}

#[test]
fn minimal_find_similar_body_holds_only_the_url() {
    let exa = setup();
    let request = FindSimilarRequest {
        url: "https://example.com".to_string(),
        ..Default::default()
    };
    let wire = exa.find_similar_wire(&request);
    assert_eq!(wire.body, "{\"url\":\"https://example.com\"}");
}

#[test]
fn minimal_contents_body_holds_only_the_ids() {
    let exa = setup();
    let request = ContentsRequest {
        ids: vec!["a".to_string(), "b".to_string()],
        text: None,
        highlights: None,
        summary: None,
    };
    let wire = exa.get_contents_wire(&request);
    assert_eq!(wire.body, "{\"ids\":[\"a\",\"b\"]}");
}

#[test]
fn set_options_appear_under_their_wire_names() {
    let exa = setup();
    let request = SearchRequest {
        query: "q".to_string(),
        use_autoprompt: Some(false),
        kind: Some(SearchKind::Keyword),
        include_text: Some(vec!["t".to_string()]),
        num_results: Some(10),
        include_domains: Some(vec!["a.com".to_string()]),
        exclude_domains: Some(vec!["b.com".to_string()]),
        start_crawl_date: Some("2023-01-01".to_string()),
        end_crawl_date: Some("2023-02-01".to_string()),
        start_published_date: Some("2023-03-01".to_string()),
        end_published_date: Some("2023-04-01".to_string()),
        exclude_text: Some(vec!["x".to_string()]),
        contents: None,
    };
    let wire = exa.search_wire(&request);
    let keys = keys_of(&wire.body);
    let mut expected: Vec<String> = vec![
        "query",
        "useAutoprompt",
        "type",
        "includeText",
        "numResults",
        "includeDomains",
        "excludeDomains",
        "startCrawlDate",
        "endCrawlDate",
        "startPublishedDate",
        "endPublishedDate",
        "excludeText",
    ]
    .into_iter()
    .map(|k| k.to_string())
    .collect();
    expected.sort();
    assert_eq!(keys, expected);

    let value: serde_json::Value = serde_json::from_str(&wire.body).unwrap();
    assert_eq!(value["type"].as_str().unwrap(), "keyword");
    assert_eq!(value["numResults"].as_u64().unwrap(), 10);
    assert_eq!(value["useAutoprompt"].as_bool().unwrap(), false);
    assert_eq!(value["includeDomains"][0].as_str().unwrap(), "a.com");
}

#[test]
fn nested_content_options_serialize_under_their_wire_names() {
    let exa = setup();
    let request = SearchRequest {
        query: "q".to_string(),
        contents: Some(SearchContent {
            text: Some(SearchContentText {
                max_characters: Some(200),
                include_html_tags: Some(true),
            }),
            highlights: Some(SearchHighlights {
                num_sentences: Some(2),
                highlights_per_url: Some(3),
                query: None,
            }),
            summary: Some(SearchSummary {
                summary: "s".to_string(),
                query: Some("why".to_string()),
            }),
        }),
        ..Default::default()
    };
    let wire = exa.search_wire(&request);
    assert_eq!(
        wire.body,
        "{\"query\":\"q\",\"contents\":{\"text\":{\"maxCharacters\":200,\"includeHtmlTags\":true},\"highlights\":{\"numSentences\":2,\"highlightsPerUrl\":3},\"summary\":{\"summary\":\"s\",\"query\":\"why\"}}}"
    );
}

#[test]
fn contents_summary_with_unset_query_is_an_empty_object() {
    let exa = setup();
    let request = ContentsRequest {
        ids: vec!["i".to_string()],
        text: None,
        highlights: None,
        summary: Some(ContentsSummaryRequest { query: None }),
    };
    let wire = exa.get_contents_wire(&request);
    assert_eq!(wire.body, "{\"ids\":[\"i\"],\"summary\":{}}");
}

#[test]
fn numbers_render_in_plain_decimal() {
    let exa = setup();
    let small = SearchRequest {
        query: "q".to_string(),
        num_results: Some(0),
        ..Default::default()
    };
    assert_eq!(
        exa.search_wire(&small).body,
        "{\"query\":\"q\",\"numResults\":0}"
    );
    let large = SearchRequest {
        query: "q".to_string(),
        num_results: Some(4294967295),
        ..Default::default()
    };
    assert_eq!(
        exa.search_wire(&large).body,
        "{\"query\":\"q\",\"numResults\":4294967295}"
    );
}

#[test]
fn queries_are_escaped_into_valid_json() {
    let exa = setup();
    let request = SearchRequest {
        query: "a\"b\\c\nd".to_string(),
        ..Default::default()
    };
    let wire = exa.search_wire(&request);
    assert_eq!(wire.body, "{\"query\":\"a\\\"b\\\\c\\u000ad\"}");
    let value: serde_json::Value = serde_json::from_str(&wire.body).unwrap();
    assert_eq!(value["query"].as_str().unwrap(), "a\"b\\c\nd");
}

#[test]
fn camel_cased_response_fields_land_in_their_snake_cased_homes() {
    let body = "{\"results\":[{\"id\":\"i\",\"title\":\"t\",\"url\":\"u\",\"score\":1.5,\"publishedDate\":\"2020-05-05\",\"author\":\"a\",\"text\":\"x\",\"highlights\":[\"h1\",\"h2\"],\"highlightScores\":[0.25,0.5]}],\"autopromptString\":\"e\",\"autoDate\":\"d\"}";
    let response = search_response_of(200, body).unwrap();
    let result = &response.results[0];
    assert_eq!(result.published_date, Some("2020-05-05".to_string()));
    assert_eq!(result.author, Some("a".to_string()));
    assert_eq!(result.text, Some("x".to_string()));
    assert_eq!(
        result.highlights,
        Some(vec!["h1".to_string(), "h2".to_string()])
    );
    assert_eq!(
        result.highlight_scores,
        Some(vec!["0.25".to_string(), "0.5".to_string()])
    );
    assert_eq!(response.autoprompt_string, Some("e".to_string()));
    assert_eq!(response.auto_date, Some("d".to_string()));
}

#[test]
fn empty_result_lists_decode() {
    let response = search_response_of(200, "{\"results\":[]}").unwrap();
    assert_eq!(response.results.len(), 0);
    let response = find_similar_response_of(200, "{\"results\":[]}").unwrap();
    assert_eq!(response.results.len(), 0);
    let response = contents_response_of(200, "{\"results\":[]}").unwrap();
    assert_eq!(response.results.len(), 0);
}

#[test]
fn unknown_response_fields_are_ignored() {
    let body = "{\"results\":[],\"nextPage\":3,\"extra\":{\"deep\":[1,2,{}]}}";
    let response = search_response_of(200, body).unwrap();
    assert_eq!(response.results.len(), 0);
}

#[test]
fn unreadable_success_bodies_are_decode_errors() {
    assert!(matches!(
        search_response_of(200, "not json at all"),
        Err(ExaError::DecodeError)
    ));
    assert!(matches!(
        search_response_of(200, "{\"results\":5}"),
        Err(ExaError::DecodeError)
    ));
    assert!(matches!(
        search_response_of(200, "{}"),
        Err(ExaError::DecodeError)
    ));
    assert!(matches!(
        search_response_of(200, "{\"results\":[{\"title\":\"t\"}]}"),
        Err(ExaError::DecodeError)
    ));
}

#[test]
fn unreadable_error_bodies_are_decode_errors() {
    assert!(matches!(
        search_response_of(500, "gateway fell over"),
        Err(ExaError::DecodeError)
    ));
    assert!(matches!(
        find_similar_response_of(404, "{\"code\":\"x\"}"),
        Err(ExaError::DecodeError)
    ));
}

#[test]
fn the_success_range_is_exactly_two_hundreds() {
    let ok_body = "{\"results\":[]}";
    let err_body = "{\"code\":\"c\",\"message\":\"m\"}";
    assert!(search_response_of(299, ok_body).is_ok());
    if let Err(ExaError::HttpError(error)) = search_response_of(300, err_body) {
        assert_eq!(error.status, 300);
    } else {
        panic!("Expected HttpError");
    }
    if let Err(ExaError::HttpError(error)) = search_response_of(199, err_body) {
        assert_eq!(error.status, 199);
    } else {
        panic!("Expected HttpError");
    }
}

#[test]
fn null_optional_fields_read_as_unset() {
    let body = "{\"results\":[{\"id\":\"i\",\"title\":\"t\",\"url\":\"u\",\"score\":1,\"publishedDate\":null,\"highlights\":null}]}";
    let response = find_similar_response_of(200, body).unwrap();
    assert_eq!(response.results[0].published_date, None);
    assert_eq!(response.results[0].highlights, None);
}
