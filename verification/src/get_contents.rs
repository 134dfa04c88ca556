use vstd::prelude::*;

use crate::client::{Exa, WireRequest};
use crate::error::{error_of, ExaError, ExaErrorV};
use crate::json::{
    arr_field, dec_items, deep_fields, deep_seq, get_opt_num_arr, get_opt_str, get_opt_str_arr,
    get_str, json_of, json_text, lemma_dec_items_none, lemma_dec_items_some, lemma_deep_seq,
    lemma_obj_keys_append, lemma_obj_keys_opt, lemma_seg_push, lemma_seg_skip, obj_get, obj_keys,
    opt_field, opt_key, opt_num_arr_field, opt_str_arr_field, opt_str_field, parse_json,
    push_field, push_opt_bool_field, push_opt_str_field, push_opt_u32_field, str_field,
    strs_to_json, text_of, Json, JsonV,
};

verus! {

/// Text-extraction options for fetched contents.
#[derive(Default, Debug)]
pub struct ContentsTextRequest {
    pub max_characters: Option<u32>,
    pub include_html_tags: Option<bool>,
}

/// Model of `ContentsTextRequest`.
pub struct ContentsTextRequestV {
    pub max_characters: Option<u32>,
    pub include_html_tags: Option<bool>,
}

impl View for ContentsTextRequest {
    type V = ContentsTextRequestV;

    open spec fn view(&self) -> ContentsTextRequestV {
        ContentsTextRequestV {
            max_characters: self.max_characters,
            include_html_tags: self.include_html_tags,
        }
    }
}

/// Highlight options for fetched contents.
#[derive(Default, Debug)]
pub struct ContentsHighlightsRequest {
    pub num_sentences: Option<u32>,
    pub highlights_per_url: Option<u32>,
    pub query: Option<String>,
}

/// Model of `ContentsHighlightsRequest`.
pub struct ContentsHighlightsRequestV {
    pub num_sentences: Option<u32>,
    pub highlights_per_url: Option<u32>,
    pub query: Option<Seq<char>>,
}

impl View for ContentsHighlightsRequest {
    type V = ContentsHighlightsRequestV;

    open spec fn view(&self) -> ContentsHighlightsRequestV {
        ContentsHighlightsRequestV {
            num_sentences: self.num_sentences,
            highlights_per_url: self.highlights_per_url,
            query: self.query.deep_view(),
        }
    }
}

/// Summary options for fetched contents.
#[derive(Default, Debug)]
pub struct ContentsSummaryRequest {
    pub query: Option<String>,
}

/// Model of `ContentsSummaryRequest`.
pub struct ContentsSummaryRequestV {
    pub query: Option<Seq<char>>,
}

impl View for ContentsSummaryRequest {
    type V = ContentsSummaryRequestV;

    open spec fn view(&self) -> ContentsSummaryRequestV {
        ContentsSummaryRequestV { query: self.query.deep_view() }
    }
}

/// One contents call's parameters: which results to fetch, and what to
/// extract from each. This endpoint's wire names keep their plain form.
#[derive(Default, Debug)]
pub struct ContentsRequest {
    pub ids: Vec<String>,
    pub text: Option<ContentsTextRequest>,
    pub highlights: Option<ContentsHighlightsRequest>,
    pub summary: Option<ContentsSummaryRequest>,
}

/// Model of `ContentsRequest`.
pub struct ContentsRequestV {
    pub ids: Seq<Seq<char>>,
    pub text: Option<ContentsTextRequestV>,
    pub highlights: Option<ContentsHighlightsRequestV>,
    pub summary: Option<ContentsSummaryRequestV>,
}

impl View for ContentsRequest {
    type V = ContentsRequestV;

    open spec fn view(&self) -> ContentsRequestV {
        ContentsRequestV {
            ids: self.ids.deep_view(),
            text: match self.text {
                Some(t) => Some(t@),
                None => None,
            },
            highlights: match self.highlights {
                Some(h) => Some(h@),
                None => None,
            },
            summary: match self.summary {
                Some(s) => Some(s@),
                None => None,
            },
        }
    }
}

/// The wire fields of the text-extraction options.
pub open spec fn contents_text_fields(v: ContentsTextRequestV) -> Seq<(Seq<char>, JsonV)> {
    opt_field("max_characters"@, crate::json::opt_u32_json(v.max_characters)) + opt_field(
        "include_html_tags"@,
        crate::json::opt_bool_json(v.include_html_tags),
    )
}

pub open spec fn wire_contents_text(v: ContentsTextRequestV) -> JsonV {
    JsonV::Obj(contents_text_fields(v))
}

/// The wire fields of the highlight options.
pub open spec fn contents_highlights_fields(v: ContentsHighlightsRequestV) -> Seq<
    (Seq<char>, JsonV),
> {
    opt_field("num_sentences"@, crate::json::opt_u32_json(v.num_sentences)) + opt_field(
        "highlights_per_url"@,
        crate::json::opt_u32_json(v.highlights_per_url),
    ) + opt_field("query"@, crate::json::opt_str_json(v.query))
}

pub open spec fn wire_contents_highlights(v: ContentsHighlightsRequestV) -> JsonV {
    JsonV::Obj(contents_highlights_fields(v))
}

/// The wire fields of the summary options.
pub open spec fn contents_summary_fields(v: ContentsSummaryRequestV) -> Seq<(Seq<char>, JsonV)> {
    opt_field("query"@, crate::json::opt_str_json(v.query))
}

pub open spec fn wire_contents_summary(v: ContentsSummaryRequestV) -> JsonV {
    JsonV::Obj(contents_summary_fields(v))
}

/// The wire fields of a contents request: the identifiers first, then each
/// option block that is set.
pub open spec fn contents_fields(r: ContentsRequestV) -> Seq<(Seq<char>, JsonV)> {
    seq![("ids"@, crate::json::strs_json(r.ids))] + opt_field(
        "text"@,
        match r.text {
            Some(t) => Some(wire_contents_text(t)),
            None => None,
        },
    ) + opt_field(
        "highlights"@,
        match r.highlights {
            Some(h) => Some(wire_contents_highlights(h)),
            None => None,
        },
    ) + opt_field(
        "summary"@,
        match r.summary {
            Some(s) => Some(wire_contents_summary(s)),
            None => None,
        },
    )
}

/// A contents request as the JSON value put on the wire.
pub open spec fn wire_contents(r: ContentsRequestV) -> JsonV {
    JsonV::Obj(contents_fields(r))
}

impl ContentsTextRequest {
    /// The text options as their wire value.
    pub fn to_json(&self) -> (r: Json)
        ensures
            r@ == wire_contents_text(self@),
    {
        let mut fields: Vec<(String, Json)> = Vec::new();
        proof {
            assert(deep_fields(fields@) =~= Seq::<(Seq<char>, JsonV)>::empty());
        }
        push_opt_u32_field(&mut fields, "max_characters", &self.max_characters);
        push_opt_bool_field(&mut fields, "include_html_tags", &self.include_html_tags);
        proof {
            assert(Seq::<(Seq<char>, JsonV)>::empty() + opt_field(
                "max_characters"@,
                crate::json::opt_u32_json(self.max_characters),
            ) =~= opt_field("max_characters"@, crate::json::opt_u32_json(self.max_characters)));
            assert(deep_fields(fields@) == contents_text_fields(self@));
        }
        Json::Obj(fields)
    }
}

impl ContentsHighlightsRequest {
    /// The highlight options as their wire value.
    pub fn to_json(&self) -> (r: Json)
        ensures
            r@ == wire_contents_highlights(self@),
    {
        let mut fields: Vec<(String, Json)> = Vec::new();
        proof {
            assert(deep_fields(fields@) =~= Seq::<(Seq<char>, JsonV)>::empty());
        }
        push_opt_u32_field(&mut fields, "num_sentences", &self.num_sentences);
        push_opt_u32_field(&mut fields, "highlights_per_url", &self.highlights_per_url);
        push_opt_str_field(&mut fields, "query", &self.query);
        proof {
            assert(Seq::<(Seq<char>, JsonV)>::empty() + opt_field(
                "num_sentences"@,
                crate::json::opt_u32_json(self.num_sentences),
            ) =~= opt_field("num_sentences"@, crate::json::opt_u32_json(self.num_sentences)));
            assert(deep_fields(fields@) == contents_highlights_fields(self@));
        }
        Json::Obj(fields)
    }
}

impl ContentsSummaryRequest {
    /// The summary options as their wire value.
    pub fn to_json(&self) -> (r: Json)
        ensures
            r@ == wire_contents_summary(self@),
    {
        let mut fields: Vec<(String, Json)> = Vec::new();
        proof {
            assert(deep_fields(fields@) =~= Seq::<(Seq<char>, JsonV)>::empty());
        }
        push_opt_str_field(&mut fields, "query", &self.query);
        proof {
            assert(Seq::<(Seq<char>, JsonV)>::empty() + opt_field(
                "query"@,
                crate::json::opt_str_json(self.query.deep_view()),
            ) =~= opt_field("query"@, crate::json::opt_str_json(self.query.deep_view())));
            assert(deep_fields(fields@) == contents_summary_fields(self@));
        }
        Json::Obj(fields)
    }
}

impl ContentsRequest {
    /// The whole request as the JSON value put on the wire.
    pub fn to_json(&self) -> (r: Json)
        ensures
            r@ == wire_contents(self@),
    {
        let mut fields: Vec<(String, Json)> = Vec::new();
        push_field(&mut fields, "ids", strs_to_json(&self.ids));
        proof {
            assert(deep_fields(fields@) =~= seq![
                ("ids"@, crate::json::strs_json(self.ids.deep_view())),
            ]);
        }
        if let Some(t) = &self.text {
            let ghost gfs = deep_fields(fields@);
            push_field(&mut fields, "text", t.to_json());
            proof {
                lemma_seg_push(gfs, "text"@, wire_contents_text(t@));
            }
        } else {
            proof {
                lemma_seg_skip(deep_fields(fields@), "text"@);
            }
        }
        if let Some(h) = &self.highlights {
            let ghost gfs = deep_fields(fields@);
            push_field(&mut fields, "highlights", h.to_json());
            proof {
                lemma_seg_push(gfs, "highlights"@, wire_contents_highlights(h@));
            }
        } else {
            proof {
                lemma_seg_skip(deep_fields(fields@), "highlights"@);
            }
        }
        if let Some(s) = &self.summary {
            let ghost gfs = deep_fields(fields@);
            push_field(&mut fields, "summary", s.to_json());
            proof {
                lemma_seg_push(gfs, "summary"@, wire_contents_summary(s@));
            }
        } else {
            proof {
                lemma_seg_skip(deep_fields(fields@), "summary"@);
            }
        }
        proof {
            assert(deep_fields(fields@) == contents_fields(self@));
        }
        Json::Obj(fields)
    }
}

/// One fetched document: its identity, and whatever text, highlights and
/// highlight scores were asked for. Scores keep their raw decimal tokens.
#[derive(Debug)]
pub struct ContentsResult {
    pub id: String,
    pub url: String,
    pub title: String,
    pub text: Option<String>,
    pub highlights: Option<Vec<String>>,
    pub highlight_scores: Option<Vec<String>>,
}

/// Model of `ContentsResult`.
pub struct ContentsResultV {
    pub id: Seq<char>,
    pub url: Seq<char>,
    pub title: Seq<char>,
    pub text: Option<Seq<char>>,
    pub highlights: Option<Seq<Seq<char>>>,
    pub highlight_scores: Option<Seq<Seq<char>>>,
}

impl View for ContentsResult {
    type V = ContentsResultV;

    open spec fn view(&self) -> ContentsResultV {
        ContentsResultV {
            id: self.id@,
            url: self.url@,
            title: self.title@,
            text: self.text.deep_view(),
            highlights: self.highlights.deep_view(),
            highlight_scores: self.highlight_scores.deep_view(),
        }
    }
}

impl DeepView for ContentsResult {
    type V = ContentsResultV;

    open spec fn deep_view(&self) -> ContentsResultV {
        self.view()
    }
}

/// What `/contents` answers: one entry per fetched document.
#[derive(Debug)]
pub struct ContentsResponse {
    pub results: Vec<ContentsResult>,
}

/// Model of `ContentsResponse`.
pub struct ContentsResponseV {
    pub results: Seq<ContentsResultV>,
}

impl View for ContentsResponse {
    type V = ContentsResponseV;

    open spec fn view(&self) -> ContentsResponseV {
        ContentsResponseV { results: self.results.deep_view() }
    }
}

/// How one contents result reads.
pub open spec fn dec_contents_result(v: JsonV) -> Option<ContentsResultV> {
    match v {
        JsonV::Obj(fs) => match (
            str_field(fs, "id"@),
            str_field(fs, "url"@),
            str_field(fs, "title"@),
            opt_str_field(fs, "text"@),
            opt_str_arr_field(fs, "highlights"@),
            opt_num_arr_field(fs, "highlight_scores"@),
        ) {
            (Some(id), Some(url), Some(title), Some(text), Some(highlights), Some(
                highlight_scores,
            )) => Some(ContentsResultV { id, url, title, text, highlights, highlight_scores }),
            _ => None,
        },
        _ => None,
    }
}

/// The contents-result reading as a function value.
pub open spec fn dec_contents_result_fn() -> spec_fn(JsonV) -> Option<ContentsResultV> {
    |x: JsonV| dec_contents_result(x)
}

/// Reads one contents result out of a parsed value.
pub fn decode_contents_result(j: &Json) -> (r: Option<ContentsResult>)
    ensures
        match r {
            Some(x) => dec_contents_result(j@) == Some(x@),
            None => dec_contents_result(j@) is None,
        },
{
    match j {
        Json::Obj(fields) => {
            let id = get_str(fields, &String::from_str("id"));
            let url = get_str(fields, &String::from_str("url"));
            let title = get_str(fields, &String::from_str("title"));
            let text = get_opt_str(fields, &String::from_str("text"));
            let highlights = get_opt_str_arr(fields, &String::from_str("highlights"));
            let highlight_scores = get_opt_num_arr(fields, &String::from_str("highlight_scores"));
            match (id, url, title, text, highlights, highlight_scores) {
                (Some(id), Some(url), Some(title), Some(text), Some(highlights), Some(
                    highlight_scores,
                )) => Some(ContentsResult { id, url, title, text, highlights, highlight_scores }),
                _ => None,
            }
        },
        _ => None,
    }
}

/// Reads a whole contents result list; one unreadable result refuses it.
#[verifier::loop_isolation(false)]
pub fn decode_contents_results(items: &Vec<Json>) -> (r: Option<Vec<ContentsResult>>)
    ensures
        match r {
            Some(rs) => dec_items(deep_seq(items@), dec_contents_result_fn()) == Some(
                rs.deep_view(),
            ),
            None => dec_items(deep_seq(items@), dec_contents_result_fn()) is None,
        },
{
    proof {
        lemma_deep_seq(items@);
    }
    let ghost dsq = deep_seq(items@);
    let ghost f = dec_contents_result_fn();
    let mut out: Vec<ContentsResult> = Vec::new();
    let mut i: usize = 0;
    while i < items.len()
        invariant
            0 <= i <= items@.len(),
            out@.len() == i,
            forall|k: int| 0 <= k < i ==> #[trigger] f(dsq[k]) is Some,
            forall|k: int| 0 <= k < i ==> #[trigger] out@[k].deep_view() == f(dsq[k])->0,
        decreases items@.len() - i,
    {
        match decode_contents_result(&items[i]) {
            Some(x) => {
                out.push(x);
            },
            None => {
                proof {
                    lemma_dec_items_none(dsq, f, i as int);
                }
                return None;
            },
        }
        i += 1;
    }
    proof {
        lemma_dec_items_some(dsq, f);
        assert(out.deep_view() =~= Seq::new(dsq.len(), |k: int| f(dsq[k])->0));
    }
    Some(out)
}

/// How a contents response reads: one required result list.
pub open spec fn dec_contents_response(v: JsonV) -> Option<ContentsResponseV> {
    match v {
        JsonV::Obj(fs) => match arr_field(fs, "results"@) {
            Some(items) => match dec_items(items, dec_contents_result_fn()) {
                Some(results) => Some(ContentsResponseV { results }),
                None => None,
            },
            None => None,
        },
        _ => None,
    }
}

/// Reads a contents response out of a parsed body.
pub fn decode_contents_response(j: &Json) -> (r: Option<ContentsResponse>)
    ensures
        match r {
            Some(x) => dec_contents_response(j@) == Some(x@),
            None => dec_contents_response(j@) is None,
        },
{
    match j {
        Json::Obj(fields) => match obj_get(fields, &String::from_str("results")) {
            Some(Json::Arr(items)) => match decode_contents_results(items) {
                Some(results) => Some(ContentsResponse { results }),
                None => None,
            },
            _ => None,
        },
        _ => None,
    }
}

/// What one `/contents` exchange comes to, given the response's status and
/// parsed body.
pub open spec fn contents_outcome(status: u16, parsed: Option<JsonV>) -> Result<
    ContentsResponseV,
    ExaErrorV,
> {
    if 200 <= status && status < 300 {
        match parsed {
            Some(v) => match dec_contents_response(v) {
                Some(resp) => Ok(resp),
                None => Err(ExaErrorV::DecodeError),
            },
            None => Err(ExaErrorV::DecodeError),
        }
    } else {
        Err(error_of(status, parsed))
    }
}

/// Classifies one `/contents` response from its status and raw body text.
pub fn contents_response_of(status: u16, body: &str) -> (r: Result<ContentsResponse, ExaError>)
    ensures
        r matches Ok(resp) ==> contents_outcome(status, json_of(body@)) == Ok::<
            ContentsResponseV,
            ExaErrorV,
        >(resp@),
        r matches Err(e) ==> contents_outcome(status, json_of(body@)) == Err::<
            ContentsResponseV,
            ExaErrorV,
        >(e@),
{
    if 200 <= status && status < 300 {
        match parse_json(body) {
            Some(j) => match decode_contents_response(&j) {
                Some(resp) => Ok(resp),
                None => Err(ExaError::DecodeError),
            },
            None => Err(ExaError::DecodeError),
        }
    } else {
        Err(crate::error::http_error_of(status, body))
    }
}

/// The keys a contents request puts on the wire are exactly the names of
/// its set fields, in order: the identifiers always, each option block only
/// while it is set.
pub proof fn lemma_contents_wire_keys(r: ContentsRequestV)
    ensures
        obj_keys(contents_fields(r)) == seq!["ids"@] + opt_key("text"@, r.text is Some) + opt_key(
            "highlights"@,
            r.highlights is Some,
        ) + opt_key("summary"@, r.summary is Some),
{
    let q = seq![("ids"@, crate::json::strs_json(r.ids))];
    let f1 = opt_field(
        "text"@,
        match r.text {
            Some(t) => Some(wire_contents_text(t)),
            None => None,
        },
    );
    let f2 = opt_field(
        "highlights"@,
        match r.highlights {
            Some(h) => Some(wire_contents_highlights(h)),
            None => None,
        },
    );
    let f3 = opt_field(
        "summary"@,
        match r.summary {
            Some(s) => Some(wire_contents_summary(s)),
            None => None,
        },
    );
    lemma_obj_keys_append(q, f1);
    lemma_obj_keys_append(q + f1, f2);
    lemma_obj_keys_append(q + f1 + f2, f3);
    lemma_obj_keys_opt(
        "text"@,
        match r.text {
            Some(t) => Some(wire_contents_text(t)),
            None => None,
        },
    );
    lemma_obj_keys_opt(
        "highlights"@,
        match r.highlights {
            Some(h) => Some(wire_contents_highlights(h)),
            None => None,
        },
    );
    lemma_obj_keys_opt(
        "summary"@,
        match r.summary {
            Some(s) => Some(wire_contents_summary(s)),
            None => None,
        },
    );
    assert(obj_keys(q) =~= seq!["ids"@]);
}

/// A contents request with only identifiers set serializes to an object
/// holding them alone: no option block leaves a trace, not even a null.
pub proof fn lemma_contents_request_minimal(r: ContentsRequestV)
    requires
        r.text is None,
        r.highlights is None,
        r.summary is None,
    ensures
        wire_contents(r) == JsonV::Obj(seq![("ids"@, crate::json::strs_json(r.ids))]),
{
    assert(contents_fields(r) =~= seq![("ids"@, crate::json::strs_json(r.ids))]);
}

/// A contents result written back out under its wire names, every optional
/// field omitted while unset.
pub open spec fn enc_contents_result(v: ContentsResultV) -> JsonV {
    JsonV::Obj(
        seq![
            ("id"@, JsonV::Str(v.id)),
            ("url"@, JsonV::Str(v.url)),
            ("title"@, JsonV::Str(v.title)),
        ] + opt_field("text"@, crate::json::opt_str_json(v.text)) + opt_field(
            "highlights"@,
            crate::json::opt_strs_json(v.highlights),
        ) + opt_field("highlight_scores"@, crate::json::opt_nums_json(v.highlight_scores)),
    )
}

/// Reading back a written contents result recovers it field for field.
#[verifier::rlimit(100)]
pub proof fn lemma_contents_result_round_trip(v: ContentsResultV)
    ensures
        dec_contents_result(enc_contents_result(v)) == Some(v),
{
    let s0 = seq![
        ("id"@, JsonV::Str(v.id)),
        ("url"@, JsonV::Str(v.url)),
        ("title"@, JsonV::Str(v.title)),
    ];
    let g1 = opt_field("text"@, crate::json::opt_str_json(v.text));
    let g2 = opt_field("highlights"@, crate::json::opt_strs_json(v.highlights));
    let g3 = opt_field("highlight_scores"@, crate::json::opt_nums_json(v.highlight_scores));
    crate::json::lemma_lookup_append(s0, g1);
    crate::json::lemma_lookup_append(s0 + g1, g2);
    crate::json::lemma_lookup_append(s0 + g1 + g2, g3);
    reveal_strlit("id");
    reveal_strlit("url");
    reveal_strlit("title");
    reveal_strlit("text");
    reveal_strlit("highlights");
    reveal_strlit("highlight_scores");
    reveal_with_fuel(crate::json::lookup, 5);
    assert("id"@.len() == 2 && "url"@.len() == 3 && "title"@.len() == 5 && "text"@.len() == 4
        && "highlights"@.len() == 10 && "highlight_scores"@.len() == 16);
    assert("url"@ != "id"@ && "title"@ != "id"@ && "title"@ != "url"@);
    assert("text"@ != "id"@ && "text"@ != "url"@ && "text"@ != "title"@);
    assert("highlights"@ != "id"@ && "highlights"@ != "url"@ && "highlights"@ != "title"@
        && "highlights"@ != "text"@);
    assert("highlight_scores"@ != "id"@ && "highlight_scores"@ != "url"@ && "highlight_scores"@
        != "title"@ && "highlight_scores"@ != "text"@ && "highlight_scores"@ != "highlights"@);
    assert(s0.drop_first() =~= seq![("url"@, JsonV::Str(v.url)), ("title"@, JsonV::Str(v.title))]);
    assert(s0.drop_first().drop_first() =~= seq![("title"@, JsonV::Str(v.title))]);
    let fs = s0 + g1 + g2 + g3;
    assert(str_field(fs, "id"@) == Some(v.id));
    assert(str_field(fs, "url"@) == Some(v.url));
    assert(str_field(fs, "title"@) == Some(v.title));
    assert(opt_str_field(fs, "text"@) == Some(v.text));
    if let Some(ss) = v.highlights {
        let items = Seq::new(ss.len(), |i: int| JsonV::Str(ss[i]));
        crate::json::lemma_str_items_some(items);
        assert(Seq::new(items.len(), |k: int| crate::json::str_of(items[k])) =~= ss);
    }
    assert(opt_str_arr_field(fs, "highlights"@) == Some(v.highlights));
    if let Some(ts) = v.highlight_scores {
        let items = Seq::new(ts.len(), |i: int| JsonV::Num(ts[i]));
        crate::json::lemma_num_items_some(items);
        assert(Seq::new(items.len(), |k: int| crate::json::num_of(items[k])) =~= ts);
    }
    assert(opt_num_arr_field(fs, "highlight_scores"@) == Some(v.highlight_scores));
}

/// A contents response written back out under its wire names.
pub open spec fn enc_contents_response(v: ContentsResponseV) -> JsonV {
    JsonV::Obj(
        seq![
            (
                "results"@,
                JsonV::Arr(Seq::new(v.results.len(), |i: int| enc_contents_result(v.results[i]))),
            ),
        ],
    )
}

/// Reading back a written contents response recovers every result, in order
/// and field for field.
pub proof fn lemma_contents_response_round_trip(v: ContentsResponseV)
    ensures
        dec_contents_response(enc_contents_response(v)) == Some(v),
{
    let items = Seq::new(v.results.len(), |i: int| enc_contents_result(v.results[i]));
    let fs = seq![("results"@, JsonV::Arr(items))];
    reveal_with_fuel(crate::json::lookup, 2);
    assert(arr_field(fs, "results"@) == Some(items));
    let f = dec_contents_result_fn();
    assert forall|k: int| 0 <= k < items.len() implies #[trigger] f(items[k]) is Some && f(
        items[k],
    )->0 == v.results[k] by {
        lemma_contents_result_round_trip(v.results[k]);
    }
    lemma_dec_items_some(items, f);
    assert(Seq::new(items.len(), |k: int| f(items[k])->0) =~= v.results);
}

impl Exa {
    /// Lays out one `/contents` call for the transport.
    pub fn get_contents_wire(&self, request: &ContentsRequest) -> (w: WireRequest)
        ensures
            w.url@ == self@.base_url + "/contents"@,
            w.header_value@ == self@.api_key,
            w.body@ == text_of(wire_contents(request@)),
    {
        WireRequest {
            url: self.endpoint_url("/contents"),
            header_value: self.auth_header_value(),
            body: json_text(&request.to_json()),
        }
    }
}

} // verus!
