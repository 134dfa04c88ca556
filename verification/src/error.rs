use vstd::prelude::*;

use crate::json::{
    dec_of, dec_string, json_of, lemma_deep_fields, lookup, parse_json, str_field, Json, JsonV,
};

verus! {

/// The body a failing endpoint returns: a short machine code and a message.
#[derive(Debug)]
pub struct HttpErrorPayload {
    pub code: String,
    pub message: String,
}

/// Model of `HttpErrorPayload`.
pub struct HttpErrorPayloadV {
    pub code: Seq<char>,
    pub message: Seq<char>,
}

impl View for HttpErrorPayload {
    type V = HttpErrorPayloadV;

    open spec fn view(&self) -> HttpErrorPayloadV {
        HttpErrorPayloadV { code: self.code@, message: self.message@ }
    }
}

/// A non-success response: its status and its parsed error body.
#[derive(Debug)]
pub struct HttpError {
    pub status: u16,
    pub payload: HttpErrorPayload,
}

/// Model of `HttpError`.
pub struct HttpErrorV {
    pub status: u16,
    pub payload: HttpErrorPayloadV,
}

impl View for HttpError {
    type V = HttpErrorV;

    open spec fn view(&self) -> HttpErrorV {
        HttpErrorV { status: self.status, payload: self.payload@ }
    }
}

/// Everything a call can fail with. Exactly one of these is returned; nothing
/// is retried or swallowed.
#[derive(Debug)]
pub enum ExaError {
    /// No API key was available when the client was built.
    MissingCredential,
    /// A request value failed local validation; no call was attempted.
    InvalidInput,
    /// The transport itself failed, with its own description.
    TransportError(String),
    /// The service answered with a non-success status and a readable error body.
    HttpError(HttpError),
    /// A response body did not have the expected shape.
    DecodeError,
}

/// Model of `ExaError`.
pub enum ExaErrorV {
    MissingCredential,
    InvalidInput,
    TransportError(Seq<char>),
    HttpError(HttpErrorV),
    DecodeError,
}

impl View for ExaError {
    type V = ExaErrorV;

    open spec fn view(&self) -> ExaErrorV {
        match self {
            ExaError::MissingCredential => ExaErrorV::MissingCredential,
            ExaError::InvalidInput => ExaErrorV::InvalidInput,
            ExaError::TransportError(m) => ExaErrorV::TransportError(m@),
            ExaError::HttpError(e) => ExaErrorV::HttpError(e@),
            ExaError::DecodeError => ExaErrorV::DecodeError,
        }
    }
}

/// How an error value reads when rendered for people.
pub open spec fn description_of(e: ExaErrorV) -> Seq<char> {
    match e {
        ExaErrorV::MissingCredential => "API key is required. Set it explicitly or use the EXA_API_KEY environment variable"@,
        ExaErrorV::InvalidInput => "invalid input: the request failed local validation"@,
        ExaErrorV::TransportError(m) => "transport error: "@ + m,
        ExaErrorV::HttpError(h) => "HTTP error: "@ + dec_of(h.status as nat) + " - "@
            + h.payload.code + " - "@ + h.payload.message,
        ExaErrorV::DecodeError => "failed to decode the response body"@,
    }
}

impl ExaError {
    /// Renders the error as one line of text; an HTTP error shows its status,
    /// code and message in order.
    pub fn describe(&self) -> (r: String)
        ensures
            r@ == description_of(self@),
    {
        match self {
            ExaError::MissingCredential => String::from_str(
                "API key is required. Set it explicitly or use the EXA_API_KEY environment variable",
            ),
            ExaError::InvalidInput => String::from_str(
                "invalid input: the request failed local validation",
            ),
            ExaError::TransportError(m) => {
                let mut out = String::from_str("transport error: ");
                out.append(m.as_str());
                out
            },
            ExaError::HttpError(h) => {
                let mut out = String::from_str("HTTP error: ");
                let status_text = dec_string(h.status as u64);
                out.append(status_text.as_str());
                out.append(" - ");
                out.append(h.payload.code.as_str());
                out.append(" - ");
                out.append(h.payload.message.as_str());
                proof {
                    assert(out@ =~= description_of(self@));
                }
                out
            },
            ExaError::DecodeError => String::from_str("failed to decode the response body"),
        }
    }
}

/// The error payload read out of a response body's value.
pub open spec fn dec_error_payload(v: JsonV) -> Option<HttpErrorPayloadV> {
    match v {
        JsonV::Obj(fs) => match (str_field(fs, "code"@), str_field(fs, "message"@)) {
            (Some(code), Some(message)) => Some(HttpErrorPayloadV { code, message }),
            _ => None,
        },
        _ => None,
    }
}

/// The error payload written back out as a response body's value.
pub open spec fn enc_error_payload(p: HttpErrorPayloadV) -> JsonV {
    JsonV::Obj(seq![("code"@, JsonV::Str(p.code)), ("message"@, JsonV::Str(p.message))])
}

/// Reading back a written error payload recovers it field for field.
pub proof fn lemma_error_payload_round_trip(p: HttpErrorPayloadV)
    ensures
        dec_error_payload(enc_error_payload(p)) == Some(p),
{
    let fs = seq![("code"@, JsonV::Str(p.code)), ("message"@, JsonV::Str(p.message))];
    reveal_strlit("code");
    reveal_strlit("message");
    reveal_with_fuel(lookup, 3);
    assert("code"@.len() == 4);
    assert("message"@.len() == 7);
    assert("code"@ != "message"@);
    assert(fs.drop_first() =~= seq![("message"@, JsonV::Str(p.message))]);
    assert(lookup(fs, "code"@) == Some(JsonV::Str(p.code)));
    assert(lookup(fs, "message"@) == Some(JsonV::Str(p.message)));
}

/// How a non-success response is classified: a readable `{code, message}`
/// body gives a structured HTTP error, anything else is a decode failure.
pub open spec fn error_of(status: u16, parsed: Option<JsonV>) -> ExaErrorV {
    match parsed {
        Some(v) => match dec_error_payload(v) {
            Some(p) => ExaErrorV::HttpError(HttpErrorV { status, payload: p }),
            None => ExaErrorV::DecodeError,
        },
        None => ExaErrorV::DecodeError,
    }
}

/// Classifies a non-success response from its status and raw body text.
pub fn http_error_of(status: u16, body: &str) -> (e: ExaError)
    ensures
        e@ == error_of(status, json_of(body@)),
{
    match parse_json(body) {
        Some(j) => match decode_error_payload(&j) {
            Some(p) => ExaError::HttpError(HttpError { status, payload: p }),
            None => ExaError::DecodeError,
        },
        None => ExaError::DecodeError,
    }
}

/// Reads the error payload out of a parsed response body.
pub fn decode_error_payload(j: &Json) -> (r: Option<HttpErrorPayload>)
    ensures
        match r {
            Some(p) => dec_error_payload(j@) == Some(p@),
            None => dec_error_payload(j@) is None,
        },
{
    match j {
        Json::Obj(fields) => {
            proof {
                lemma_deep_fields(fields@);
            }
            let code = crate::json::get_str(fields, &String::from_str("code"));
            let message = crate::json::get_str(fields, &String::from_str("message"));
            match (code, message) {
                (Some(code), Some(message)) => Some(HttpErrorPayload { code, message }),
                _ => None,
            }
        },
        _ => None,
    }
}

} // verus!
