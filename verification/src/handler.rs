//! The per-request decision steps and the handler's specification.
//!
//! The host shim performs the external calls (store read, inference, store
//! write) and threads their results through these functions; every decision
//! — routing, validation, fallback, status code and body — is made and
//! verified here.

use vstd::prelude::*;
use crate::compose::{create_json_response, envelope_json};
use crate::parse::{parse_request, parse_result};
use crate::prompt::{build_prompt, prompt_of};
use crate::request::SampleResponse;
use crate::router::route_of;
use crate::store::{fetch_model, FetchModel, FetchOutcome};
use vstd::utf8::encode_utf8;

verus! {

/// An HTTP reply: status code and JSON body.  Every reply of this service
/// carries the JSON content type.
pub struct HttpReply {
    pub status: u16,
    pub body: String,
}

/// Model of a reply.
pub struct ReplyModel {
    pub status: int,
    pub body: Seq<char>,
}

impl View for HttpReply {
    type V = ReplyModel;

    open spec fn view(&self) -> ReplyModel {
        ReplyModel { status: self.status as int, body: self.body@ }
    }
}

/// The fixed body reported when the request body cannot be parsed.
pub open spec fn parse_error_body() -> Seq<char> {
    "{\"error\": \"Error while parsing request\"}"@
}

/// The fixed fallback text used when the inference service fails.
pub open spec fn inference_fallback() -> Seq<char> {
    "Error in LLM"@
}

/// The content type of every reply.
pub fn content_type() -> (r: &'static str)
    ensures
        r@ == "application/json"@,
{
    "application/json"
}

/// The retrieval decision: a hit yields the 200 envelope; a miss or a
/// backend failure yields nothing, and the request falls through to
/// generation mode.
pub open spec fn fetch_reply(tag: Seq<char>, outcome: FetchModel) -> Option<ReplyModel> {
    match outcome {
        FetchModel::Hit(text) => Some(
            (ReplyModel { status: 200, body: envelope_json(text, tag) }),
        ),
        _ => None,
    }
}

/// Answer a retrieval attempt from what the store gave back.
pub fn respond_fetch(tag: &str, outcome: &FetchOutcome) -> (r: Option<HttpReply>)
    ensures
        match r {
            Some(reply) => fetch_reply(tag@, outcome@) == Some(reply@),
            None => fetch_reply(tag@, outcome@) is None,
        },
{
    match outcome {
        FetchOutcome::Hit(text) => Some(
            HttpReply { status: 200, body: create_json_response(text.as_str(), tag) },
        ),
        _ => None,
    }
}

/// The outcome of starting generation mode on a request body.
pub enum GenStart {
    Rejected(HttpReply),
    Accepted(SampleResponse, String),
}

/// Start generation mode: parse the body; on failure the fixed 400 reply,
/// on success the parsed request and the prompt built from it.
pub fn begin_generation(body: &[u8]) -> (r: GenStart)
    ensures
        match r {
            GenStart::Rejected(reply) => parse_result(body@) is None && reply@.status == 400
                && reply@.body == parse_error_body(),
            GenStart::Accepted(req, prompt) => parse_result(body@) == Some(req@) && prompt@
                == prompt_of(req@),
        },
{
    match parse_request(body) {
        None => GenStart::Rejected(
            HttpReply {
                status: 400,
                body: String::from_str("{\"error\": \"Error while parsing request\"}"),
            },
        ),
        Some(req) => {
            let prompt = build_prompt(&req);
            GenStart::Accepted(req, prompt)
        },
    }
}

/// The itinerary text of a generation: the inference result when the
/// service answered, the fixed fallback text when it failed.  The fallback
/// is stored and returned exactly like a normal result.
pub fn inference_text(result: Option<String>) -> (r: String)
    ensures
        match result {
            Some(text) => r@ == text@,
            None => r@ == inference_fallback(),
        },
{
    match result {
        Some(text) => text,
        None => String::from_str("Error in LLM"),
    }
}

/// Finish generation: the 201 envelope for the itinerary text and its tag,
/// returned even when inference or storage degraded.
pub fn respond_generated(itinerary: &str, tag: &str) -> (r: HttpReply)
    ensures
        r@.status == 201,
        r@.body == envelope_json(itinerary@, tag@),
{
    HttpReply { status: 201, body: create_json_response(itinerary, tag) }
}

/// The whole handler's decision, over the external outcomes it depends on:
/// the store's contents, the request's path and body, what inference
/// answered (nothing on failure), and the freshly generated tag.
pub open spec fn reply_of(
    store: Map<Seq<char>, Seq<u8>>,
    path: Seq<char>,
    body: Seq<u8>,
    inferred: Option<Seq<char>>,
    fresh_tag: Seq<char>,
) -> ReplyModel {
    let fetched = match route_of(path) {
        Some(t) => fetch_reply(t, fetch_model(store, t)),
        None => None,
    };
    match fetched {
        Some(reply) => reply,
        None => match parse_result(body) {
            None => ReplyModel { status: 400, body: parse_error_body() },
            Some(req) => ReplyModel {
                status: 201,
                body: envelope_json(
                    match inferred {
                        Some(text) => text,
                        None => inference_fallback(),
                    },
                    fresh_tag,
                ),
            },
        },
    }
}

/// Retrieval of a written tag: when the path selects tag `t` and the store
/// holds `t` with the bytes of text `x`, the reply is 200 with the envelope
/// of `x` and `t`, whatever the body, the inference outcome and the fresh
/// tag.
pub proof fn lemma_written_tag_retrieves(
    store: Map<Seq<char>, Seq<u8>>,
    path: Seq<char>,
    t: Seq<char>,
    x: Seq<char>,
    body: Seq<u8>,
    inferred: Option<Seq<char>>,
    fresh_tag: Seq<char>,
)
    requires
        route_of(path) == Some(t),
        store.contains_key(t),
        store[t] == encode_utf8(x),
    ensures
        reply_of(store, path, body, inferred, fresh_tag) == (ReplyModel {
            status: 200,
            body: envelope_json(x, t),
        }),
{
    vstd::utf8::encode_utf8_valid_utf8(x);
    vstd::utf8::encode_utf8_decode_utf8(x);
}

/// An unknown tag with an unusable body: when the path selects a tag the
/// store does not hold and the body does not parse, the reply is the fixed
/// 400 parse error.
pub proof fn lemma_unknown_tag_bad_body(
    store: Map<Seq<char>, Seq<u8>>,
    path: Seq<char>,
    t: Seq<char>,
    body: Seq<u8>,
    inferred: Option<Seq<char>>,
    fresh_tag: Seq<char>,
)
    requires
        route_of(path) == Some(t),
        !store.contains_key(t),
        parse_result(body) is None,
    ensures
        reply_of(store, path, body, inferred, fresh_tag) == (ReplyModel {
            status: 400,
            body: parse_error_body(),
        }),
{
}

/// Generation then retrieval: a generation request that stored text `x`
/// under fresh tag `t` answers 201 with the envelope of `x` and `t`, and an
/// immediate fetch of `t` (the write having succeeded) answers 200 with the
/// very same envelope.
pub proof fn lemma_generation_round_trip(
    store: Map<Seq<char>, Seq<u8>>,
    path: Seq<char>,
    body: Seq<u8>,
    inferred: Option<Seq<char>>,
    t: Seq<char>,
    path2: Seq<char>,
    body2: Seq<u8>,
    inferred2: Option<Seq<char>>,
    fresh2: Seq<char>,
)
    requires
        route_of(path) is None,
        parse_result(body) is Some,
        route_of(path2) == Some(t),
    ensures
        ({
            let x = match inferred {
                Some(text) => text,
                None => inference_fallback(),
            };
            &&& reply_of(store, path, body, inferred, t) == (ReplyModel {
                status: 201,
                body: envelope_json(x, t),
            })
            &&& reply_of(store.insert(t, encode_utf8(x)), path2, body2, inferred2, fresh2) == (
            ReplyModel { status: 200, body: envelope_json(x, t) })
        }),
{
    let x = match inferred {
        Some(text) => text,
        None => inference_fallback(),
    };
    crate::store::lemma_store_round_trip(store, t, x);
}

} // verus!
