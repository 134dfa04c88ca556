use vstd::prelude::*;

use crate::client::{Exa, WireRequest};
use crate::error::{error_of, ExaError, ExaErrorV};
use crate::json::{
    arr_field, dec_items, deep_fields, json_of, json_text,
    lemma_dec_items_some, lemma_obj_keys_append, lemma_obj_keys_opt,
    lemma_seg_push, lemma_seg_skip, obj_get, obj_keys, opt_field, opt_key, opt_str_json,
    opt_strs_json, opt_u32_json, parse_json, push_field, push_opt_str_field, push_opt_strs_field,
    push_opt_u32_field, text_of, Json, JsonV,
};
use crate::search::{
    dec_result_fn, decode_search_results, wire_content, SearchContent, SearchContentV,
    SearchResult, SearchResultV,
};

verus! {

/// Whether a string parses as a URL; nothing but its characters decides it.
pub uninterp spec fn url_ok(s: Seq<char>) -> bool;

/// Relies on `url::Url::parse`: the verdict on a candidate URL is a function
/// of the string alone.
#[verifier::external_body]
fn parse_url_ok(s: &str) -> (r: bool)
    ensures
        r == url_ok(s@),
{
    url::Url::parse(s).is_ok()
}

/// One find-similar call's parameters: the target URL, and the same filters
/// a search takes, minus the query and kind.
#[derive(Default, Debug)]
pub struct FindSimilarRequest {
    pub url: String,
    pub num_results: Option<u32>,
    pub include_domains: Option<Vec<String>>,
    pub exclude_domains: Option<Vec<String>>,
    pub start_crawl_date: Option<String>,
    pub end_crawl_date: Option<String>,
    pub start_published_date: Option<String>,
    pub end_published_date: Option<String>,
    pub include_text: Option<Vec<String>>,
    pub exclude_text: Option<Vec<String>>,
    pub contents: Option<SearchContent>,
}

/// Model of `FindSimilarRequest`.
pub struct FindSimilarRequestV {
    pub url: Seq<char>,
    pub num_results: Option<u32>,
    pub include_domains: Option<Seq<Seq<char>>>,
    pub exclude_domains: Option<Seq<Seq<char>>>,
    pub start_crawl_date: Option<Seq<char>>,
    pub end_crawl_date: Option<Seq<char>>,
    pub start_published_date: Option<Seq<char>>,
    pub end_published_date: Option<Seq<char>>,
    pub include_text: Option<Seq<Seq<char>>>,
    pub exclude_text: Option<Seq<Seq<char>>>,
    pub contents: Option<SearchContentV>,
}

impl View for FindSimilarRequest {
    type V = FindSimilarRequestV;

    open spec fn view(&self) -> FindSimilarRequestV {
        FindSimilarRequestV {
            url: self.url@,
            num_results: self.num_results,
            include_domains: self.include_domains.deep_view(),
            exclude_domains: self.exclude_domains.deep_view(),
            start_crawl_date: self.start_crawl_date.deep_view(),
            end_crawl_date: self.end_crawl_date.deep_view(),
            start_published_date: self.start_published_date.deep_view(),
            end_published_date: self.end_published_date.deep_view(),
            include_text: self.include_text.deep_view(),
            exclude_text: self.exclude_text.deep_view(),
            contents: match self.contents {
                Some(c) => Some(c@),
                None => None,
            },
        }
    }
}

/// A request with only the target URL set.
pub open spec fn bare_find_similar(url: Seq<char>) -> FindSimilarRequestV {
    FindSimilarRequestV {
        url,
        num_results: None,
        include_domains: None,
        exclude_domains: None,
        start_crawl_date: None,
        end_crawl_date: None,
        start_published_date: None,
        end_published_date: None,
        include_text: None,
        exclude_text: None,
        contents: None,
    }
}

impl FindSimilarRequest {
    /// Validates the target URL before any call is attempted: a string that
    /// does not parse as a URL is rejected at once, with no network work,
    /// and an accepted one is kept unchanged.
    pub fn new(url: String) -> (r: Result<Self, ExaError>)
        ensures
            url_ok(url@) ==> (r matches Ok(q) && q@ == bare_find_similar(url@)),
            !url_ok(url@) ==> (r matches Err(e) && e@ == ExaErrorV::InvalidInput),
    {
        if parse_url_ok(url.as_str()) {
            Ok(
                FindSimilarRequest {
                    url,
                    num_results: None,
                    include_domains: None,
                    exclude_domains: None,
                    start_crawl_date: None,
                    end_crawl_date: None,
                    start_published_date: None,
                    end_published_date: None,
                    include_text: None,
                    exclude_text: None,
                    contents: None,
                },
            )
        } else {
            Err(ExaError::InvalidInput)
        }
    }
}

/// The wire fields of a find-similar request: the URL first, then every
/// optional field that is set, under its wire name, in declaration order.
pub open spec fn find_similar_fields(r: FindSimilarRequestV) -> Seq<(Seq<char>, JsonV)> {
    seq![("url"@, JsonV::Str(r.url))] + opt_field("numResults"@, opt_u32_json(r.num_results))
        + opt_field("includeDomains"@, opt_strs_json(r.include_domains)) + opt_field(
        "excludeDomains"@,
        opt_strs_json(r.exclude_domains),
    ) + opt_field("startCrawlDate"@, opt_str_json(r.start_crawl_date)) + opt_field(
        "endCrawlDate"@,
        opt_str_json(r.end_crawl_date),
    ) + opt_field("startPublishedDate"@, opt_str_json(r.start_published_date)) + opt_field(
        "endPublishedDate"@,
        opt_str_json(r.end_published_date),
    ) + opt_field("includeText"@, opt_strs_json(r.include_text)) + opt_field(
        "excludeText"@,
        opt_strs_json(r.exclude_text),
    ) + opt_field(
        "contents"@,
        match r.contents {
            Some(c) => Some(wire_content(c)),
            None => None,
        },
    )
}

/// A find-similar request as the JSON value put on the wire.
pub open spec fn wire_find_similar(r: FindSimilarRequestV) -> JsonV {
    JsonV::Obj(find_similar_fields(r))
}

impl FindSimilarRequest {
    /// The whole request as the JSON value put on the wire.
    pub fn to_json(&self) -> (r: Json)
        ensures
            r@ == wire_find_similar(self@),
    {
        let mut fields: Vec<(String, Json)> = Vec::new();
        push_field(&mut fields, "url", Json::Str(self.url.clone()));
        proof {
            assert(deep_fields(fields@) =~= seq![("url"@, JsonV::Str(self.url@))]);
        }
        push_opt_u32_field(&mut fields, "numResults", &self.num_results);
        push_opt_strs_field(&mut fields, "includeDomains", &self.include_domains);
        push_opt_strs_field(&mut fields, "excludeDomains", &self.exclude_domains);
        push_opt_str_field(&mut fields, "startCrawlDate", &self.start_crawl_date);
        push_opt_str_field(&mut fields, "endCrawlDate", &self.end_crawl_date);
        push_opt_str_field(&mut fields, "startPublishedDate", &self.start_published_date);
        push_opt_str_field(&mut fields, "endPublishedDate", &self.end_published_date);
        push_opt_strs_field(&mut fields, "includeText", &self.include_text);
        push_opt_strs_field(&mut fields, "excludeText", &self.exclude_text);
        if let Some(c) = &self.contents {
            let ghost gfs = deep_fields(fields@);
            push_field(&mut fields, "contents", c.to_json());
            proof {
                lemma_seg_push(gfs, "contents"@, wire_content(c@));
            }
        } else {
            proof {
                lemma_seg_skip(deep_fields(fields@), "contents"@);
            }
        }
        proof {
            assert(deep_fields(fields@) == find_similar_fields(self@));
        }
        Json::Obj(fields)
    }
}

/// What `/findSimilar` answers: the matched documents, in the same shape a
/// search returns them.
#[derive(Default, Debug)]
pub struct FindSimilarResponse {
    pub results: Vec<SearchResult>,
}

/// Model of `FindSimilarResponse`.
pub struct FindSimilarResponseV {
    pub results: Seq<SearchResultV>,
}

impl View for FindSimilarResponse {
    type V = FindSimilarResponseV;

    open spec fn view(&self) -> FindSimilarResponseV {
        FindSimilarResponseV { results: self.results.deep_view() }
    }
}

/// How a find-similar response reads: one required result list.
pub open spec fn dec_find_similar_response(v: JsonV) -> Option<FindSimilarResponseV> {
    match v {
        JsonV::Obj(fs) => match arr_field(fs, "results"@) {
            Some(items) => match dec_items(items, dec_result_fn()) {
                Some(results) => Some(FindSimilarResponseV { results }),
                None => None,
            },
            None => None,
        },
        _ => None,
    }
}

/// Reads a find-similar response out of a parsed body.
pub fn decode_find_similar_response(j: &Json) -> (r: Option<FindSimilarResponse>)
    ensures
        match r {
            Some(x) => dec_find_similar_response(j@) == Some(x@),
            None => dec_find_similar_response(j@) is None,
        },
{
    match j {
        Json::Obj(fields) => match obj_get(fields, &String::from_str("results")) {
            Some(Json::Arr(items)) => match decode_search_results(items) {
                Some(results) => Some(FindSimilarResponse { results }),
                None => None,
            },
            _ => None,
        },
        _ => None,
    }
}

/// What one `/findSimilar` exchange comes to, given the response's status
/// and parsed body.
pub open spec fn find_similar_outcome(status: u16, parsed: Option<JsonV>) -> Result<
    FindSimilarResponseV,
    ExaErrorV,
> {
    if 200 <= status && status < 300 {
        match parsed {
            Some(v) => match dec_find_similar_response(v) {
                Some(resp) => Ok(resp),
                None => Err(ExaErrorV::DecodeError),
            },
            None => Err(ExaErrorV::DecodeError),
        }
    } else {
        Err(error_of(status, parsed))
    }
}

/// Classifies one `/findSimilar` response from its status and raw body text.
pub fn find_similar_response_of(status: u16, body: &str) -> (r: Result<
    FindSimilarResponse,
    ExaError,
>)
    ensures
        r matches Ok(resp) ==> find_similar_outcome(status, json_of(body@)) == Ok::<
            FindSimilarResponseV,
            ExaErrorV,
        >(resp@),
        r matches Err(e) ==> find_similar_outcome(status, json_of(body@)) == Err::<
            FindSimilarResponseV,
            ExaErrorV,
        >(e@),
{
    if 200 <= status && status < 300 {
        match parse_json(body) {
            Some(j) => match decode_find_similar_response(&j) {
                Some(resp) => Ok(resp),
                None => Err(ExaError::DecodeError),
            },
            None => Err(ExaError::DecodeError),
        }
    } else {
        Err(crate::error::http_error_of(status, body))
    }
}

/// The keys a find-similar request puts on the wire are exactly the
/// documented names of its set fields, in order: the URL always, and each
/// optional field only while it is set.
pub proof fn lemma_find_similar_wire_keys(r: FindSimilarRequestV)
    ensures
        obj_keys(find_similar_fields(r)) == seq!["url"@] + opt_key(
            "numResults"@,
            r.num_results is Some,
        ) + opt_key("includeDomains"@, r.include_domains is Some) + opt_key(
            "excludeDomains"@,
            r.exclude_domains is Some,
        ) + opt_key("startCrawlDate"@, r.start_crawl_date is Some) + opt_key(
            "endCrawlDate"@,
            r.end_crawl_date is Some,
        ) + opt_key("startPublishedDate"@, r.start_published_date is Some) + opt_key(
            "endPublishedDate"@,
            r.end_published_date is Some,
        ) + opt_key("includeText"@, r.include_text is Some) + opt_key(
            "excludeText"@,
            r.exclude_text is Some,
        ) + opt_key("contents"@, r.contents is Some),
{
    let q = seq![("url"@, JsonV::Str(r.url))];
    let f1 = opt_field("numResults"@, opt_u32_json(r.num_results));
    let f2 = opt_field("includeDomains"@, opt_strs_json(r.include_domains));
    let f3 = opt_field("excludeDomains"@, opt_strs_json(r.exclude_domains));
    let f4 = opt_field("startCrawlDate"@, opt_str_json(r.start_crawl_date));
    let f5 = opt_field("endCrawlDate"@, opt_str_json(r.end_crawl_date));
    let f6 = opt_field("startPublishedDate"@, opt_str_json(r.start_published_date));
    let f7 = opt_field("endPublishedDate"@, opt_str_json(r.end_published_date));
    let f8 = opt_field("includeText"@, opt_strs_json(r.include_text));
    let f9 = opt_field("excludeText"@, opt_strs_json(r.exclude_text));
    let f10 = opt_field(
        "contents"@,
        match r.contents {
            Some(c) => Some(wire_content(c)),
            None => None,
        },
    );
    lemma_obj_keys_append(q, f1);
    lemma_obj_keys_append(q + f1, f2);
    lemma_obj_keys_append(q + f1 + f2, f3);
    lemma_obj_keys_append(q + f1 + f2 + f3, f4);
    lemma_obj_keys_append(q + f1 + f2 + f3 + f4, f5);
    lemma_obj_keys_append(q + f1 + f2 + f3 + f4 + f5, f6);
    lemma_obj_keys_append(q + f1 + f2 + f3 + f4 + f5 + f6, f7);
    lemma_obj_keys_append(q + f1 + f2 + f3 + f4 + f5 + f6 + f7, f8);
    lemma_obj_keys_append(q + f1 + f2 + f3 + f4 + f5 + f6 + f7 + f8, f9);
    lemma_obj_keys_append(q + f1 + f2 + f3 + f4 + f5 + f6 + f7 + f8 + f9, f10);
    lemma_obj_keys_opt("numResults"@, opt_u32_json(r.num_results));
    lemma_obj_keys_opt("includeDomains"@, opt_strs_json(r.include_domains));
    lemma_obj_keys_opt("excludeDomains"@, opt_strs_json(r.exclude_domains));
    lemma_obj_keys_opt("startCrawlDate"@, opt_str_json(r.start_crawl_date));
    lemma_obj_keys_opt("endCrawlDate"@, opt_str_json(r.end_crawl_date));
    lemma_obj_keys_opt("startPublishedDate"@, opt_str_json(r.start_published_date));
    lemma_obj_keys_opt("endPublishedDate"@, opt_str_json(r.end_published_date));
    lemma_obj_keys_opt("includeText"@, opt_strs_json(r.include_text));
    lemma_obj_keys_opt("excludeText"@, opt_strs_json(r.exclude_text));
    lemma_obj_keys_opt(
        "contents"@,
        match r.contents {
            Some(c) => Some(wire_content(c)),
            None => None,
        },
    );
    assert(obj_keys(q) =~= seq!["url"@]);
}

/// A find-similar request with only the URL set serializes to an object
/// holding the URL alone: no optional field leaves a trace, not even a null.
pub proof fn lemma_find_similar_request_minimal(r: FindSimilarRequestV)
    requires
        r.num_results is None,
        r.include_domains is None,
        r.exclude_domains is None,
        r.start_crawl_date is None,
        r.end_crawl_date is None,
        r.start_published_date is None,
        r.end_published_date is None,
        r.include_text is None,
        r.exclude_text is None,
        r.contents is None,
    ensures
        wire_find_similar(r) == JsonV::Obj(seq![("url"@, JsonV::Str(r.url))]),
{
    assert(find_similar_fields(r) =~= seq![("url"@, JsonV::Str(r.url))]);
}

/// A find-similar response written back out under the documented wire names.
pub open spec fn enc_find_similar_response(v: FindSimilarResponseV) -> JsonV {
    JsonV::Obj(
        seq![
            (
                "results"@,
                JsonV::Arr(
                    Seq::new(
                        v.results.len(),
                        |i: int| crate::search::enc_search_result(v.results[i]),
                    ),
                ),
            ),
        ],
    )
}

/// Reading back a written find-similar response recovers every result, in
/// order and field for field.
pub proof fn lemma_find_similar_response_round_trip(v: FindSimilarResponseV)
    ensures
        dec_find_similar_response(enc_find_similar_response(v)) == Some(v),
{
    let items = Seq::new(v.results.len(), |i: int| crate::search::enc_search_result(v.results[i]));
    let fs = seq![("results"@, JsonV::Arr(items))];
    reveal_with_fuel(crate::json::lookup, 2);
    assert(arr_field(fs, "results"@) == Some(items));
    let f = dec_result_fn();
    assert forall|k: int| 0 <= k < items.len() implies #[trigger] f(items[k]) is Some && f(
        items[k],
    )->0 == v.results[k] by {
        crate::search::lemma_search_result_round_trip(v.results[k]);
    }
    lemma_dec_items_some(items, f);
    assert(Seq::new(items.len(), |k: int| f(items[k])->0) =~= v.results);
}

impl Exa {
    /// Lays out one `/findSimilar` call for the transport.
    pub fn find_similar_wire(&self, request: &FindSimilarRequest) -> (w: WireRequest)
        ensures
            w.url@ == self@.base_url + "/findSimilar"@,
            w.header_value@ == self@.api_key,
            w.body@ == text_of(wire_find_similar(request@)),
    {
        WireRequest {
            url: self.endpoint_url("/findSimilar"),
            header_value: self.auth_header_value(),
            body: json_text(&request.to_json()),
        }
    }
}

} // verus!
