use vstd::prelude::*;

use crate::client::{Exa, WireRequest};
use crate::error::{error_of, ExaError, ExaErrorV};
use crate::json::{
    arr_field, dec_items, get_num, get_opt_num_arr, get_opt_str, get_opt_str_arr, get_str,
    lemma_dec_items_none, lemma_dec_items_some, lemma_deep_seq, lemma_seg_push, lemma_seg_skip,
    num_field, obj_get, opt_num_arr_field, opt_str_arr_field, opt_str_field, push_opt_bool_field,
    lemma_lookup_append, lemma_obj_keys_append, lemma_obj_keys_opt, obj_keys, opt_key, opt_nums_json,
    push_opt_str_field, push_opt_strs_field, push_opt_u32_field, str_field,
    deep_fields, deep_seq, json_of, json_text, opt_bool_json, opt_field, opt_str_json,
    opt_strs_json, opt_u32_json, parse_json, push_field, text_of, Json, JsonV,
};

verus! {

/// Which index a search runs against.
#[derive(Clone, Copy, PartialEq, Eq, Structural, Debug)]
pub enum SearchKind {
    Neural,
    Keyword,
    Auto,
}

/// The wire token naming a search kind.
pub open spec fn kind_token(k: SearchKind) -> Seq<char> {
    match k {
        SearchKind::Neural => "neural"@,
        SearchKind::Keyword => "keyword"@,
        SearchKind::Auto => "auto"@,
    }
}

/// The search kind as a JSON value.
pub fn kind_json(k: &SearchKind) -> (r: Json)
    ensures
        r@ == JsonV::Str(kind_token(*k)),
{
    match k {
        SearchKind::Neural => Json::Str(String::from_str("neural")),
        SearchKind::Keyword => Json::Str(String::from_str("keyword")),
        SearchKind::Auto => Json::Str(String::from_str("auto")),
    }
}

/// How much of each matched document's text to return.
#[derive(Default, Debug)]
pub struct SearchContentText {
    pub max_characters: Option<u32>,
    pub include_html_tags: Option<bool>,
}

/// Model of `SearchContentText`.
pub struct SearchContentTextV {
    pub max_characters: Option<u32>,
    pub include_html_tags: Option<bool>,
}

impl View for SearchContentText {
    type V = SearchContentTextV;

    open spec fn view(&self) -> SearchContentTextV {
        SearchContentTextV {
            max_characters: self.max_characters,
            include_html_tags: self.include_html_tags,
        }
    }
}

/// Which snippets to return for each matched document.
#[derive(Default, Debug)]
pub struct SearchHighlights {
    pub num_sentences: Option<u32>,
    pub highlights_per_url: Option<u32>,
    pub query: Option<String>,
}

/// Model of `SearchHighlights`.
pub struct SearchHighlightsV {
    pub num_sentences: Option<u32>,
    pub highlights_per_url: Option<u32>,
    pub query: Option<Seq<char>>,
}

impl View for SearchHighlights {
    type V = SearchHighlightsV;

    open spec fn view(&self) -> SearchHighlightsV {
        SearchHighlightsV {
            num_sentences: self.num_sentences,
            highlights_per_url: self.highlights_per_url,
            query: self.query.deep_view(),
        }
    }
}

/// A summary request for each matched document.
#[derive(Default, Debug)]
pub struct SearchSummary {
    pub summary: String,
    pub query: Option<String>,
}

/// Model of `SearchSummary`.
pub struct SearchSummaryV {
    pub summary: Seq<char>,
    pub query: Option<Seq<char>>,
}

impl View for SearchSummary {
    type V = SearchSummaryV;

    open spec fn view(&self) -> SearchSummaryV {
        SearchSummaryV { summary: self.summary@, query: self.query.deep_view() }
    }
}

/// Content-shaping options: how much text, which highlights and what summary
/// to return with each result.
#[derive(Default, Debug)]
pub struct SearchContent {
    pub text: Option<SearchContentText>,
    pub highlights: Option<SearchHighlights>,
    pub summary: Option<SearchSummary>,
}

/// Model of `SearchContent`.
pub struct SearchContentV {
    pub text: Option<SearchContentTextV>,
    pub highlights: Option<SearchHighlightsV>,
    pub summary: Option<SearchSummaryV>,
}

impl View for SearchContent {
    type V = SearchContentV;

    open spec fn view(&self) -> SearchContentV {
        SearchContentV {
            text: match self.text {
                Some(t) => Some(t@),
                None => None,
            },
            highlights: match self.highlights {
                Some(h) => Some(h@),
                None => None,
            },
            summary: match self.summary {
                Some(s) => Some(s@),
                None => None,
            },
        }
    }
}

/// One search call's parameters: the query, and filters that are left off
/// the wire entirely while unset.
#[derive(Default, Debug)]
pub struct SearchRequest {
    pub query: String,
    pub use_autoprompt: Option<bool>,
    pub kind: Option<SearchKind>,
    pub include_text: Option<Vec<String>>,
    pub num_results: Option<u32>,
    pub include_domains: Option<Vec<String>>,
    pub exclude_domains: Option<Vec<String>>,
    pub start_crawl_date: Option<String>,
    pub end_crawl_date: Option<String>,
    pub start_published_date: Option<String>,
    pub end_published_date: Option<String>,
    pub exclude_text: Option<Vec<String>>,
    pub contents: Option<SearchContent>,
}

/// Model of `SearchRequest`.
pub struct SearchRequestV {
    pub query: Seq<char>,
    pub use_autoprompt: Option<bool>,
    pub kind: Option<SearchKind>,
    pub include_text: Option<Seq<Seq<char>>>,
    pub num_results: Option<u32>,
    pub include_domains: Option<Seq<Seq<char>>>,
    pub exclude_domains: Option<Seq<Seq<char>>>,
    pub start_crawl_date: Option<Seq<char>>,
    pub end_crawl_date: Option<Seq<char>>,
    pub start_published_date: Option<Seq<char>>,
    pub end_published_date: Option<Seq<char>>,
    pub exclude_text: Option<Seq<Seq<char>>>,
    pub contents: Option<SearchContentV>,
}

impl View for SearchRequest {
    type V = SearchRequestV;

    open spec fn view(&self) -> SearchRequestV {
        SearchRequestV {
            query: self.query@,
            use_autoprompt: self.use_autoprompt,
            kind: self.kind,
            include_text: self.include_text.deep_view(),
            num_results: self.num_results,
            include_domains: self.include_domains.deep_view(),
            exclude_domains: self.exclude_domains.deep_view(),
            start_crawl_date: self.start_crawl_date.deep_view(),
            end_crawl_date: self.end_crawl_date.deep_view(),
            start_published_date: self.start_published_date.deep_view(),
            end_published_date: self.end_published_date.deep_view(),
            exclude_text: self.exclude_text.deep_view(),
            contents: match self.contents {
                Some(c) => Some(c@),
                None => None,
            },
        }
    }
}

/// The wire fields of the text options, under their wire names.
pub open spec fn content_text_fields(v: SearchContentTextV) -> Seq<(Seq<char>, JsonV)> {
    opt_field("maxCharacters"@, opt_u32_json(v.max_characters)) + opt_field(
        "includeHtmlTags"@,
        opt_bool_json(v.include_html_tags),
    )
}

pub open spec fn wire_content_text(v: SearchContentTextV) -> JsonV {
    JsonV::Obj(content_text_fields(v))
}

/// The wire fields of the highlight options, under their wire names.
pub open spec fn highlights_fields(v: SearchHighlightsV) -> Seq<(Seq<char>, JsonV)> {
    opt_field("numSentences"@, opt_u32_json(v.num_sentences)) + opt_field(
        "highlightsPerUrl"@,
        opt_u32_json(v.highlights_per_url),
    ) + opt_field("query"@, opt_str_json(v.query))
}

pub open spec fn wire_highlights(v: SearchHighlightsV) -> JsonV {
    JsonV::Obj(highlights_fields(v))
}

/// The wire fields of the summary options.
pub open spec fn summary_fields(v: SearchSummaryV) -> Seq<(Seq<char>, JsonV)> {
    seq![("summary"@, JsonV::Str(v.summary))] + opt_field("query"@, opt_str_json(v.query))
}

pub open spec fn wire_summary(v: SearchSummaryV) -> JsonV {
    JsonV::Obj(summary_fields(v))
}

/// The wire fields of the content-shaping options.
pub open spec fn content_fields(v: SearchContentV) -> Seq<(Seq<char>, JsonV)> {
    opt_field(
        "text"@,
        match v.text {
            Some(t) => Some(wire_content_text(t)),
            None => None,
        },
    ) + opt_field(
        "highlights"@,
        match v.highlights {
            Some(h) => Some(wire_highlights(h)),
            None => None,
        },
    ) + opt_field(
        "summary"@,
        match v.summary {
            Some(s) => Some(wire_summary(s)),
            None => None,
        },
    )
}

pub open spec fn wire_content(v: SearchContentV) -> JsonV {
    JsonV::Obj(content_fields(v))
}

/// The wire fields of a search request: the query first, then every optional
/// field that is set, under its wire name, in declaration order.
pub open spec fn search_fields(r: SearchRequestV) -> Seq<(Seq<char>, JsonV)> {
    seq![("query"@, JsonV::Str(r.query))] + opt_field(
        "useAutoprompt"@,
        opt_bool_json(r.use_autoprompt),
    ) + opt_field(
        "type"@,
        match r.kind {
            Some(k) => Some(JsonV::Str(kind_token(k))),
            None => None,
        },
    ) + opt_field("includeText"@, opt_strs_json(r.include_text)) + opt_field(
        "numResults"@,
        opt_u32_json(r.num_results),
    ) + opt_field("includeDomains"@, opt_strs_json(r.include_domains)) + opt_field(
        "excludeDomains"@,
        opt_strs_json(r.exclude_domains),
    ) + opt_field("startCrawlDate"@, opt_str_json(r.start_crawl_date)) + opt_field(
        "endCrawlDate"@,
        opt_str_json(r.end_crawl_date),
    ) + opt_field("startPublishedDate"@, opt_str_json(r.start_published_date)) + opt_field(
        "endPublishedDate"@,
        opt_str_json(r.end_published_date),
    ) + opt_field("excludeText"@, opt_strs_json(r.exclude_text)) + opt_field(
        "contents"@,
        match r.contents {
            Some(c) => Some(wire_content(c)),
            None => None,
        },
    )
}

/// A search request as the JSON value put on the wire.
pub open spec fn wire_search(r: SearchRequestV) -> JsonV {
    JsonV::Obj(search_fields(r))
}

impl SearchContentText {
    /// The text options as their wire value.
    pub fn to_json(&self) -> (r: Json)
        ensures
            r@ == wire_content_text(self@),
    {
        let mut fields: Vec<(String, Json)> = Vec::new();
        proof {
            assert(deep_fields(fields@) =~= Seq::<(Seq<char>, JsonV)>::empty());
        }
        push_opt_u32_field(&mut fields, "maxCharacters", &self.max_characters);
        push_opt_bool_field(&mut fields, "includeHtmlTags", &self.include_html_tags);
        proof {
            assert(Seq::<(Seq<char>, JsonV)>::empty() + opt_field(
                "maxCharacters"@,
                opt_u32_json(self.max_characters),
            ) =~= opt_field("maxCharacters"@, opt_u32_json(self.max_characters)));
            assert(deep_fields(fields@) == content_text_fields(self@));
        }
        Json::Obj(fields)
    }
}

impl SearchHighlights {
    /// The highlight options as their wire value.
    pub fn to_json(&self) -> (r: Json)
        ensures
            r@ == wire_highlights(self@),
    {
        let mut fields: Vec<(String, Json)> = Vec::new();
        proof {
            assert(deep_fields(fields@) =~= Seq::<(Seq<char>, JsonV)>::empty());
        }
        push_opt_u32_field(&mut fields, "numSentences", &self.num_sentences);
        push_opt_u32_field(&mut fields, "highlightsPerUrl", &self.highlights_per_url);
        push_opt_str_field(&mut fields, "query", &self.query);
        proof {
            assert(Seq::<(Seq<char>, JsonV)>::empty() + opt_field(
                "numSentences"@,
                opt_u32_json(self.num_sentences),
            ) =~= opt_field("numSentences"@, opt_u32_json(self.num_sentences)));
            assert(deep_fields(fields@) == highlights_fields(self@));
        }
        Json::Obj(fields)
    }
}

impl SearchSummary {
    /// The summary options as their wire value.
    pub fn to_json(&self) -> (r: Json)
        ensures
            r@ == wire_summary(self@),
    {
        let mut fields: Vec<(String, Json)> = Vec::new();
        push_field(&mut fields, "summary", Json::Str(self.summary.clone()));
        proof {
            assert(deep_fields(fields@) =~= seq![("summary"@, JsonV::Str(self.summary@))]);
        }
        push_opt_str_field(&mut fields, "query", &self.query);
        proof {
            assert(deep_fields(fields@) == summary_fields(self@));
        }
        Json::Obj(fields)
    }
}

impl SearchContent {
    /// The content-shaping options as their wire value.
    pub fn to_json(&self) -> (r: Json)
        ensures
            r@ == wire_content(self@),
    {
        let mut fields: Vec<(String, Json)> = Vec::new();
        proof {
            assert(deep_fields(fields@) =~= Seq::<(Seq<char>, JsonV)>::empty());
        }
        if let Some(t) = &self.text {
            let ghost gfs = deep_fields(fields@);
            push_field(&mut fields, "text", t.to_json());
            proof {
                lemma_seg_push(gfs, "text"@, wire_content_text(t@));
            }
        } else {
            proof {
                lemma_seg_skip(deep_fields(fields@), "text"@);
            }
        }
        if let Some(h) = &self.highlights {
            let ghost gfs = deep_fields(fields@);
            push_field(&mut fields, "highlights", h.to_json());
            proof {
                lemma_seg_push(gfs, "highlights"@, wire_highlights(h@));
            }
        } else {
            proof {
                lemma_seg_skip(deep_fields(fields@), "highlights"@);
            }
        }
        if let Some(s) = &self.summary {
            let ghost gfs = deep_fields(fields@);
            push_field(&mut fields, "summary", s.to_json());
            proof {
                lemma_seg_push(gfs, "summary"@, wire_summary(s@));
            }
        } else {
            proof {
                lemma_seg_skip(deep_fields(fields@), "summary"@);
            }
        }
        proof {
            assert(Seq::<(Seq<char>, JsonV)>::empty() + opt_field(
                "text"@,
                match self@.text {
                    Some(t) => Some(wire_content_text(t)),
                    None => None,
                },
            ) =~= opt_field(
                "text"@,
                match self@.text {
                    Some(t) => Some(wire_content_text(t)),
                    None => None,
                },
            ));
            assert(deep_fields(fields@) == content_fields(self@));
        }
        Json::Obj(fields)
    }
}

impl SearchRequest {
    /// The whole request as the JSON value put on the wire.
    pub fn to_json(&self) -> (r: Json)
        ensures
            r@ == wire_search(self@),
    {
        let mut fields: Vec<(String, Json)> = Vec::new();
        push_field(&mut fields, "query", Json::Str(self.query.clone()));
        proof {
            assert(deep_fields(fields@) =~= seq![("query"@, JsonV::Str(self.query@))]);
        }
        push_opt_bool_field(&mut fields, "useAutoprompt", &self.use_autoprompt);
        if let Some(k) = &self.kind {
            let ghost gfs = deep_fields(fields@);
            push_field(&mut fields, "type", kind_json(k));
            proof {
                lemma_seg_push(gfs, "type"@, JsonV::Str(kind_token(*k)));
            }
        } else {
            proof {
                lemma_seg_skip(deep_fields(fields@), "type"@);
            }
        }
        push_opt_strs_field(&mut fields, "includeText", &self.include_text);
        push_opt_u32_field(&mut fields, "numResults", &self.num_results);
        push_opt_strs_field(&mut fields, "includeDomains", &self.include_domains);
        push_opt_strs_field(&mut fields, "excludeDomains", &self.exclude_domains);
        push_opt_str_field(&mut fields, "startCrawlDate", &self.start_crawl_date);
        push_opt_str_field(&mut fields, "endCrawlDate", &self.end_crawl_date);
        push_opt_str_field(&mut fields, "startPublishedDate", &self.start_published_date);
        push_opt_str_field(&mut fields, "endPublishedDate", &self.end_published_date);
        push_opt_strs_field(&mut fields, "excludeText", &self.exclude_text);
        if let Some(c) = &self.contents {
            let ghost gfs = deep_fields(fields@);
            push_field(&mut fields, "contents", c.to_json());
            proof {
                lemma_seg_push(gfs, "contents"@, wire_content(c@));
            }
        } else {
            proof {
                lemma_seg_skip(deep_fields(fields@), "contents"@);
            }
        }
        proof {
            assert(deep_fields(fields@) == search_fields(self@));
        }
        Json::Obj(fields)
    }
}

/// One matched document. The relevance score is kept as the raw decimal
/// token the service sent, so it is preserved exactly.
#[derive(Debug)]
pub struct SearchResult {
    pub title: String,
    pub url: String,
    pub published_date: Option<String>,
    pub author: Option<String>,
    pub score: String,
    pub id: String,
    pub text: Option<String>,
    pub highlights: Option<Vec<String>>,
    pub highlight_scores: Option<Vec<String>>,
}

/// Model of `SearchResult`.
pub struct SearchResultV {
    pub title: Seq<char>,
    pub url: Seq<char>,
    pub published_date: Option<Seq<char>>,
    pub author: Option<Seq<char>>,
    pub score: Seq<char>,
    pub id: Seq<char>,
    pub text: Option<Seq<char>>,
    pub highlights: Option<Seq<Seq<char>>>,
    pub highlight_scores: Option<Seq<Seq<char>>>,
}

impl View for SearchResult {
    type V = SearchResultV;

    open spec fn view(&self) -> SearchResultV {
        SearchResultV {
            title: self.title@,
            url: self.url@,
            published_date: self.published_date.deep_view(),
            author: self.author.deep_view(),
            score: self.score@,
            id: self.id@,
            text: self.text.deep_view(),
            highlights: self.highlights.deep_view(),
            highlight_scores: self.highlight_scores.deep_view(),
        }
    }
}

impl DeepView for SearchResult {
    type V = SearchResultV;

    open spec fn deep_view(&self) -> SearchResultV {
        self.view()
    }
}

/// What `/search` answers: the matched documents, and what autoprompt made
/// of the query when it ran.
#[derive(Debug)]
pub struct SearchResponse {
    pub results: Vec<SearchResult>,
    pub autoprompt_string: Option<String>,
    pub auto_date: Option<String>,
}

/// Model of `SearchResponse`.
pub struct SearchResponseV {
    pub results: Seq<SearchResultV>,
    pub autoprompt_string: Option<Seq<char>>,
    pub auto_date: Option<Seq<char>>,
}

impl View for SearchResponse {
    type V = SearchResponseV;

    open spec fn view(&self) -> SearchResponseV {
        SearchResponseV {
            results: self.results.deep_view(),
            autoprompt_string: self.autoprompt_string.deep_view(),
            auto_date: self.auto_date.deep_view(),
        }
    }
}

/// How one result object reads: every required field present and
/// well-typed, optional fields absent, null or well-typed — anything else
/// refuses the whole result.
pub open spec fn dec_search_result(v: JsonV) -> Option<SearchResultV> {
    match v {
        JsonV::Obj(fs) => match (
            str_field(fs, "title"@),
            str_field(fs, "url"@),
            opt_str_field(fs, "publishedDate"@),
            opt_str_field(fs, "author"@),
            num_field(fs, "score"@),
            str_field(fs, "id"@),
            opt_str_field(fs, "text"@),
            opt_str_arr_field(fs, "highlights"@),
            opt_num_arr_field(fs, "highlightScores"@),
        ) {
            (
                Some(title),
                Some(url),
                Some(published_date),
                Some(author),
                Some(score),
                Some(id),
                Some(text),
                Some(highlights),
                Some(highlight_scores),
            ) => Some(
                SearchResultV {
                    title,
                    url,
                    published_date,
                    author,
                    score,
                    id,
                    text,
                    highlights,
                    highlight_scores,
                },
            ),
            _ => None,
        },
        _ => None,
    }
}

/// The result reading as a function value, shared by the specs that decode
/// result lists.
pub open spec fn dec_result_fn() -> spec_fn(JsonV) -> Option<SearchResultV> {
    |x: JsonV| dec_search_result(x)
}

/// Reads one result object out of a parsed value.
pub fn decode_search_result(j: &Json) -> (r: Option<SearchResult>)
    ensures
        match r {
            Some(x) => dec_search_result(j@) == Some(x@),
            None => dec_search_result(j@) is None,
        },
{
    match j {
        Json::Obj(fields) => {
            let title = get_str(fields, &String::from_str("title"));
            let url = get_str(fields, &String::from_str("url"));
            let published_date = get_opt_str(fields, &String::from_str("publishedDate"));
            let author = get_opt_str(fields, &String::from_str("author"));
            let score = get_num(fields, &String::from_str("score"));
            let id = get_str(fields, &String::from_str("id"));
            let text = get_opt_str(fields, &String::from_str("text"));
            let highlights = get_opt_str_arr(fields, &String::from_str("highlights"));
            let highlight_scores = get_opt_num_arr(fields, &String::from_str("highlightScores"));
            match (
                title,
                url,
                published_date,
                author,
                score,
                id,
                text,
                highlights,
                highlight_scores,
            ) {
                (
                    Some(title),
                    Some(url),
                    Some(published_date),
                    Some(author),
                    Some(score),
                    Some(id),
                    Some(text),
                    Some(highlights),
                    Some(highlight_scores),
                ) => Some(
                    SearchResult {
                        title,
                        url,
                        published_date,
                        author,
                        score,
                        id,
                        text,
                        highlights,
                        highlight_scores,
                    },
                ),
                _ => None,
            }
        },
        _ => None,
    }
}

/// Reads a whole result list; one unreadable result refuses the list.
#[verifier::loop_isolation(false)]
pub fn decode_search_results(items: &Vec<Json>) -> (r: Option<Vec<SearchResult>>)
    ensures
        match r {
            Some(rs) => dec_items(deep_seq(items@), dec_result_fn()) == Some(rs.deep_view()),
            None => dec_items(deep_seq(items@), dec_result_fn()) is None,
        },
{
    proof {
        lemma_deep_seq(items@);
    }
    let ghost dsq = deep_seq(items@);
    let ghost f = dec_result_fn();
    let mut out: Vec<SearchResult> = Vec::new();
    let mut i: usize = 0;
    while i < items.len()
        invariant
            0 <= i <= items@.len(),
            out@.len() == i,
            forall|k: int| 0 <= k < i ==> #[trigger] f(dsq[k]) is Some,
            forall|k: int| 0 <= k < i ==> #[trigger] out@[k].deep_view() == f(dsq[k])->0,
        decreases items@.len() - i,
    {
        match decode_search_result(&items[i]) {
            Some(x) => {
                out.push(x);
            },
            None => {
                proof {
                    lemma_dec_items_none(dsq, f, i as int);
                }
                return None;
            },
        }
        i += 1;
    }
    proof {
        lemma_dec_items_some(dsq, f);
        assert(out.deep_view() =~= Seq::new(dsq.len(), |k: int| f(dsq[k])->0));
    }
    Some(out)
}

/// How a whole search response reads: a required result list, and two
/// optional strings under their wire names.
pub open spec fn dec_search_response(v: JsonV) -> Option<SearchResponseV> {
    match v {
        JsonV::Obj(fs) => match (
            arr_field(fs, "results"@),
            opt_str_field(fs, "autopromptString"@),
            opt_str_field(fs, "autoDate"@),
        ) {
            (Some(items), Some(autoprompt_string), Some(auto_date)) => match dec_items(
                items,
                dec_result_fn(),
            ) {
                Some(results) => Some(
                    SearchResponseV { results, autoprompt_string, auto_date },
                ),
                None => None,
            },
            _ => None,
        },
        _ => None,
    }
}

/// Reads a search response out of a parsed body.
pub fn decode_search_response(j: &Json) -> (r: Option<SearchResponse>)
    ensures
        match r {
            Some(x) => dec_search_response(j@) == Some(x@),
            None => dec_search_response(j@) is None,
        },
{
    match j {
        Json::Obj(fields) => {
            let autoprompt_string = get_opt_str(fields, &String::from_str("autopromptString"));
            let auto_date = get_opt_str(fields, &String::from_str("autoDate"));
            let results = match obj_get(fields, &String::from_str("results")) {
                Some(Json::Arr(items)) => decode_search_results(items),
                _ => None,
            };
            match (results, autoprompt_string, auto_date) {
                (Some(results), Some(autoprompt_string), Some(auto_date)) => Some(
                    SearchResponse { results, autoprompt_string, auto_date },
                ),
                _ => None,
            }
        },
        _ => None,
    }
}

/// What one `/search` exchange comes to, given the response's status and
/// parsed body: a success decodes to the typed response or is a decode
/// failure; any other status classifies as an HTTP or decode error.
pub open spec fn search_outcome(status: u16, parsed: Option<JsonV>) -> Result<
    SearchResponseV,
    ExaErrorV,
> {
    if 200 <= status && status < 300 {
        match parsed {
            Some(v) => match dec_search_response(v) {
                Some(resp) => Ok(resp),
                None => Err(ExaErrorV::DecodeError),
            },
            None => Err(ExaErrorV::DecodeError),
        }
    } else {
        Err(error_of(status, parsed))
    }
}

/// Classifies one `/search` response from its status and raw body text.
pub fn search_response_of(status: u16, body: &str) -> (r: Result<SearchResponse, ExaError>)
    ensures
        r matches Ok(resp) ==> search_outcome(status, json_of(body@)) == Ok::<
            SearchResponseV,
            ExaErrorV,
        >(resp@),
        r matches Err(e) ==> search_outcome(status, json_of(body@)) == Err::<
            SearchResponseV,
            ExaErrorV,
        >(e@),
{
    if 200 <= status && status < 300 {
        match parse_json(body) {
            Some(j) => match decode_search_response(&j) {
                Some(resp) => Ok(resp),
                None => Err(ExaError::DecodeError),
            },
            None => Err(ExaError::DecodeError),
        }
    } else {
        Err(crate::error::http_error_of(status, body))
    }
}

/// The keys a search request puts on the wire are exactly the documented
/// names of its set fields, in order: the query always, and each optional
/// field only while it is set.
pub proof fn lemma_search_wire_keys(r: SearchRequestV)
    ensures
        obj_keys(search_fields(r)) == seq!["query"@] + opt_key(
            "useAutoprompt"@,
            r.use_autoprompt is Some,
        ) + opt_key("type"@, r.kind is Some) + opt_key("includeText"@, r.include_text is Some)
            + opt_key("numResults"@, r.num_results is Some) + opt_key(
            "includeDomains"@,
            r.include_domains is Some,
        ) + opt_key("excludeDomains"@, r.exclude_domains is Some) + opt_key(
            "startCrawlDate"@,
            r.start_crawl_date is Some,
        ) + opt_key("endCrawlDate"@, r.end_crawl_date is Some) + opt_key(
            "startPublishedDate"@,
            r.start_published_date is Some,
        ) + opt_key("endPublishedDate"@, r.end_published_date is Some) + opt_key(
            "excludeText"@,
            r.exclude_text is Some,
        ) + opt_key("contents"@, r.contents is Some),
{
    let q = seq![("query"@, JsonV::Str(r.query))];
    let f1 = opt_field("useAutoprompt"@, opt_bool_json(r.use_autoprompt));
    let f2 = opt_field(
        "type"@,
        match r.kind {
            Some(k) => Some(JsonV::Str(kind_token(k))),
            None => None,
        },
    );
    let f3 = opt_field("includeText"@, opt_strs_json(r.include_text));
    let f4 = opt_field("numResults"@, opt_u32_json(r.num_results));
    let f5 = opt_field("includeDomains"@, opt_strs_json(r.include_domains));
    let f6 = opt_field("excludeDomains"@, opt_strs_json(r.exclude_domains));
    let f7 = opt_field("startCrawlDate"@, opt_str_json(r.start_crawl_date));
    let f8 = opt_field("endCrawlDate"@, opt_str_json(r.end_crawl_date));
    let f9 = opt_field("startPublishedDate"@, opt_str_json(r.start_published_date));
    let f10 = opt_field("endPublishedDate"@, opt_str_json(r.end_published_date));
    let f11 = opt_field("excludeText"@, opt_strs_json(r.exclude_text));
    let f12 = opt_field(
        "contents"@,
        match r.contents {
            Some(c) => Some(wire_content(c)),
            None => None,
        },
    );
    lemma_obj_keys_append(q, f1);
    lemma_obj_keys_append(q + f1, f2);
    lemma_obj_keys_append(q + f1 + f2, f3);
    lemma_obj_keys_append(q + f1 + f2 + f3, f4);
    lemma_obj_keys_append(q + f1 + f2 + f3 + f4, f5);
    lemma_obj_keys_append(q + f1 + f2 + f3 + f4 + f5, f6);
    lemma_obj_keys_append(q + f1 + f2 + f3 + f4 + f5 + f6, f7);
    lemma_obj_keys_append(q + f1 + f2 + f3 + f4 + f5 + f6 + f7, f8);
    lemma_obj_keys_append(q + f1 + f2 + f3 + f4 + f5 + f6 + f7 + f8, f9);
    lemma_obj_keys_append(q + f1 + f2 + f3 + f4 + f5 + f6 + f7 + f8 + f9, f10);
    lemma_obj_keys_append(q + f1 + f2 + f3 + f4 + f5 + f6 + f7 + f8 + f9 + f10, f11);
    lemma_obj_keys_append(q + f1 + f2 + f3 + f4 + f5 + f6 + f7 + f8 + f9 + f10 + f11, f12);
    lemma_obj_keys_opt("useAutoprompt"@, opt_bool_json(r.use_autoprompt));
    lemma_obj_keys_opt(
        "type"@,
        match r.kind {
            Some(k) => Some(JsonV::Str(kind_token(k))),
            None => None,
        },
    );
    lemma_obj_keys_opt("includeText"@, opt_strs_json(r.include_text));
    lemma_obj_keys_opt("numResults"@, opt_u32_json(r.num_results));
    lemma_obj_keys_opt("includeDomains"@, opt_strs_json(r.include_domains));
    lemma_obj_keys_opt("excludeDomains"@, opt_strs_json(r.exclude_domains));
    lemma_obj_keys_opt("startCrawlDate"@, opt_str_json(r.start_crawl_date));
    lemma_obj_keys_opt("endCrawlDate"@, opt_str_json(r.end_crawl_date));
    lemma_obj_keys_opt("startPublishedDate"@, opt_str_json(r.start_published_date));
    lemma_obj_keys_opt("endPublishedDate"@, opt_str_json(r.end_published_date));
    lemma_obj_keys_opt("excludeText"@, opt_strs_json(r.exclude_text));
    lemma_obj_keys_opt(
        "contents"@,
        match r.contents {
            Some(c) => Some(wire_content(c)),
            None => None,
        },
    );
    assert(obj_keys(q) =~= seq!["query"@]);
}

/// A search request with only the query set serializes to an object holding
/// the query alone: no optional field leaves a trace, not even a null.
pub proof fn lemma_search_request_minimal(r: SearchRequestV)
    requires
        r.use_autoprompt is None,
        r.kind is None,
        r.include_text is None,
        r.num_results is None,
        r.include_domains is None,
        r.exclude_domains is None,
        r.start_crawl_date is None,
        r.end_crawl_date is None,
        r.start_published_date is None,
        r.end_published_date is None,
        r.exclude_text is None,
        r.contents is None,
    ensures
        wire_search(r) == JsonV::Obj(seq![("query"@, JsonV::Str(r.query))]),
{
    assert(search_fields(r) =~= seq![("query"@, JsonV::Str(r.query))]);
}

/// A search result written back out under the documented wire names, every
/// optional field omitted while unset.
pub open spec fn enc_search_result(v: SearchResultV) -> JsonV {
    JsonV::Obj(
        seq![
            ("title"@, JsonV::Str(v.title)),
            ("url"@, JsonV::Str(v.url)),
            ("score"@, JsonV::Num(v.score)),
            ("id"@, JsonV::Str(v.id)),
        ] + opt_field("publishedDate"@, opt_str_json(v.published_date)) + opt_field(
            "author"@,
            opt_str_json(v.author),
        ) + opt_field("text"@, opt_str_json(v.text)) + opt_field(
            "highlights"@,
            opt_strs_json(v.highlights),
        ) + opt_field("highlightScores"@, opt_nums_json(v.highlight_scores)),
    )
}

/// Reading back a written search result recovers it field for field: the
/// documented casing on the wire lands in the matching in-memory field.
#[verifier::rlimit(100)]
pub proof fn lemma_search_result_round_trip(v: SearchResultV)
    ensures
        dec_search_result(enc_search_result(v)) == Some(v),
{
    let s0 = seq![
        ("title"@, JsonV::Str(v.title)),
        ("url"@, JsonV::Str(v.url)),
        ("score"@, JsonV::Num(v.score)),
        ("id"@, JsonV::Str(v.id)),
    ];
    let g1 = opt_field("publishedDate"@, opt_str_json(v.published_date));
    let g2 = opt_field("author"@, opt_str_json(v.author));
    let g3 = opt_field("text"@, opt_str_json(v.text));
    let g4 = opt_field("highlights"@, opt_strs_json(v.highlights));
    let g5 = opt_field("highlightScores"@, opt_nums_json(v.highlight_scores));
    lemma_lookup_append(s0, g1);
    lemma_lookup_append(s0 + g1, g2);
    lemma_lookup_append(s0 + g1 + g2, g3);
    lemma_lookup_append(s0 + g1 + g2 + g3, g4);
    lemma_lookup_append(s0 + g1 + g2 + g3 + g4, g5);
    reveal_strlit("title");
    reveal_strlit("url");
    reveal_strlit("score");
    reveal_strlit("id");
    reveal_strlit("publishedDate");
    reveal_strlit("author");
    reveal_strlit("text");
    reveal_strlit("highlights");
    reveal_strlit("highlightScores");
    reveal_with_fuel(crate::json::lookup, 6);
    assert("title"@.len() == 5 && "url"@.len() == 3 && "score"@.len() == 5 && "id"@.len() == 2
        && "publishedDate"@.len() == 13 && "author"@.len() == 6 && "text"@.len() == 4
        && "highlights"@.len() == 10 && "highlightScores"@.len() == 15);
    assert("title"@[0] == 't' && "score"@[0] == 's');
    assert("title"@ != "score"@);
    assert("url"@ != "title"@ && "score"@ != "url"@ && "id"@ != "title"@ && "id"@ != "url"@ && "id"@
        != "score"@);
    assert("publishedDate"@ != "title"@ && "publishedDate"@ != "url"@ && "publishedDate"@
        != "score"@ && "publishedDate"@ != "id"@);
    assert("author"@ != "title"@ && "author"@ != "url"@ && "author"@ != "score"@ && "author"@
        != "id"@ && "author"@ != "publishedDate"@);
    assert("text"@ != "title"@ && "text"@ != "url"@ && "text"@ != "score"@ && "text"@ != "id"@
        && "text"@ != "publishedDate"@ && "text"@ != "author"@);
    assert("highlights"@ != "title"@ && "highlights"@ != "url"@ && "highlights"@ != "score"@
        && "highlights"@ != "id"@ && "highlights"@ != "publishedDate"@ && "highlights"@
        != "author"@ && "highlights"@ != "text"@);
    assert("highlightScores"@ != "title"@ && "highlightScores"@ != "url"@ && "highlightScores"@
        != "score"@ && "highlightScores"@ != "id"@ && "highlightScores"@ != "publishedDate"@
        && "highlightScores"@ != "author"@ && "highlightScores"@ != "text"@ && "highlightScores"@
        != "highlights"@);
    assert(s0.drop_first() =~= seq![
        ("url"@, JsonV::Str(v.url)),
        ("score"@, JsonV::Num(v.score)),
        ("id"@, JsonV::Str(v.id)),
    ]);
    assert(s0.drop_first().drop_first() =~= seq![
        ("score"@, JsonV::Num(v.score)),
        ("id"@, JsonV::Str(v.id)),
    ]);
    assert(s0.drop_first().drop_first().drop_first() =~= seq![("id"@, JsonV::Str(v.id))]);
    let fs = s0 + g1 + g2 + g3 + g4 + g5;
    assert(str_field(fs, "title"@) == Some(v.title));
    assert(str_field(fs, "url"@) == Some(v.url));
    assert(num_field(fs, "score"@) == Some(v.score));
    assert(str_field(fs, "id"@) == Some(v.id));
    assert(opt_str_field(fs, "publishedDate"@) == Some(v.published_date));
    assert(opt_str_field(fs, "author"@) == Some(v.author));
    assert(opt_str_field(fs, "text"@) == Some(v.text));
    if let Some(ss) = v.highlights {
        let items = Seq::new(ss.len(), |i: int| JsonV::Str(ss[i]));
        crate::json::lemma_str_items_some(items);
        assert(Seq::new(items.len(), |k: int| crate::json::str_of(items[k])) =~= ss);
    }
    assert(opt_str_arr_field(fs, "highlights"@) == Some(v.highlights));
    if let Some(ts) = v.highlight_scores {
        let items = Seq::new(ts.len(), |i: int| JsonV::Num(ts[i]));
        crate::json::lemma_num_items_some(items);
        assert(Seq::new(items.len(), |k: int| crate::json::num_of(items[k])) =~= ts);
    }
    assert(opt_num_arr_field(fs, "highlightScores"@) == Some(v.highlight_scores));
}

/// A search response written back out under the documented wire names.
pub open spec fn enc_search_response(v: SearchResponseV) -> JsonV {
    JsonV::Obj(
        seq![
            (
                "results"@,
                JsonV::Arr(Seq::new(v.results.len(), |i: int| enc_search_result(v.results[i]))),
            ),
        ] + opt_field("autopromptString"@, opt_str_json(v.autoprompt_string)) + opt_field(
            "autoDate"@,
            opt_str_json(v.auto_date),
        ),
    )
}

/// Reading back a written search response recovers it whole: every result in
/// order, and both optional strings in their right fields.
pub proof fn lemma_search_response_round_trip(v: SearchResponseV)
    ensures
        dec_search_response(enc_search_response(v)) == Some(v),
{
    let items = Seq::new(v.results.len(), |i: int| enc_search_result(v.results[i]));
    let s0 = seq![("results"@, JsonV::Arr(items))];
    let g1 = opt_field("autopromptString"@, opt_str_json(v.autoprompt_string));
    let g2 = opt_field("autoDate"@, opt_str_json(v.auto_date));
    lemma_lookup_append(s0, g1);
    lemma_lookup_append(s0 + g1, g2);
    reveal_strlit("results");
    reveal_strlit("autopromptString");
    reveal_strlit("autoDate");
    reveal_with_fuel(crate::json::lookup, 3);
    assert("results"@.len() == 7 && "autopromptString"@.len() == 16 && "autoDate"@.len() == 8);
    assert("autopromptString"@ != "results"@);
    assert("autoDate"@ != "results"@ && "autoDate"@ != "autopromptString"@);
    let fs = s0 + g1 + g2;
    assert(arr_field(fs, "results"@) == Some(items));
    assert(opt_str_field(fs, "autopromptString"@) == Some(v.autoprompt_string));
    assert(opt_str_field(fs, "autoDate"@) == Some(v.auto_date));
    let f = dec_result_fn();
    assert forall|k: int| 0 <= k < items.len() implies #[trigger] f(items[k]) is Some && f(
        items[k],
    )->0 == v.results[k] by {
        lemma_search_result_round_trip(v.results[k]);
    }
    lemma_dec_items_some(items, f);
    assert(Seq::new(items.len(), |k: int| f(items[k])->0) =~= v.results);
}

impl Exa {
    /// Lays out one `/search` call: the URL, the authentication header value
    /// and the serialized body, ready for the transport.
    pub fn search_wire(&self, request: &SearchRequest) -> (w: WireRequest)
        ensures
            w.url@ == self@.base_url + "/search"@,
            w.header_value@ == self@.api_key,
            w.body@ == text_of(wire_search(request@)),
    {
        WireRequest {
            url: self.endpoint_url("/search"),
            header_value: self.auth_header_value(),
            body: json_text(&request.to_json()),
        }
    }
}

} // verus!
