//! A typed client library for a remote search service speaking JSON over
//! POST: three endpoints (search, find-similar, fetch-contents) that share
//! one dispatch pipeline. The library builds each call's URL, authentication
//! header and JSON body, and classifies each response by status into a typed
//! result or a typed error; the verified contracts pin the wire layout and
//! the classification exactly. Performing the HTTP exchange itself is left
//! to the caller, who hands back the status and body text.

use vstd::prelude::*;

pub mod client;
pub mod error;
pub mod find_similar;
pub mod get_contents;
pub mod json;
pub mod search;

pub use crate::client::{ApiKey, Exa, ExaBuilder, WireRequest};
pub use crate::error::{ExaError, HttpError, HttpErrorPayload};
pub use crate::find_similar::{
    find_similar_response_of, FindSimilarRequest, FindSimilarResponse,
};
pub use crate::get_contents::{
    contents_response_of, ContentsHighlightsRequest, ContentsRequest, ContentsResponse,
    ContentsResult, ContentsSummaryRequest, ContentsTextRequest,
};
pub use crate::search::{
    search_response_of, SearchContent, SearchContentText, SearchHighlights, SearchKind,
    SearchRequest, SearchResponse, SearchResult, SearchSummary,
};

verus! {

/// Default base URL of the remote search service.
pub const BASE_URL: &'static str = "https://api.exa.ai";

/// Name of the header that carries the API key on every request.
pub const API_KEY_HEADER: &'static str = "x-api-key";

} // verus!
