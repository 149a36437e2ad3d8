//! Artifact Store Adapter: the value-level half of the key-value store.
//!
//! The store itself is an external collaborator; the host shim performs the
//! raw get and set calls and hands their results in as plain values.  The
//! conversions between text and bytes, and the collapsing of the distinct
//! failure causes, are decided and verified here.

use vstd::prelude::*;
use vstd::utf8::{decode_utf8, encode_utf8, valid_utf8};

verus! {

/// What one raw read of the backing key-value store produced: the stored
/// bytes, a missing key, or a backend failure.
pub enum RawRead {
    Value(Vec<u8>),
    Missing,
    Error,
}

/// The adapter's reading of a raw store result.  The external behaviour
/// treats `Miss` and `BackendError` identically (both fall through to
/// generation mode), but they are kept apart here so the collapse stays
/// auditable.
pub enum FetchOutcome {
    Hit(String),
    Miss,
    BackendError,
}

/// Model of a fetch outcome.
pub enum FetchModel {
    Hit(Seq<char>),
    Miss,
    BackendError,
}

impl View for FetchOutcome {
    type V = FetchModel;

    open spec fn view(&self) -> FetchModel {
        match self {
            FetchOutcome::Hit(s) => FetchModel::Hit(s@),
            FetchOutcome::Miss => FetchModel::Miss,
            FetchOutcome::BackendError => FetchModel::BackendError,
        }
    }
}

/// The adapter's decision on one raw read: stored bytes count as a hit only
/// when they decode as UTF-8 text; undecodable bytes are collapsed into a
/// miss.
pub open spec fn outcome_of_read(r: RawRead) -> FetchModel {
    match r {
        RawRead::Value(bytes) => if valid_utf8(bytes@) {
            FetchModel::Hit(decode_utf8(bytes@))
        } else {
            FetchModel::Miss
        },
        RawRead::Missing => FetchModel::Miss,
        RawRead::Error => FetchModel::BackendError,
    }
}

/// Relies on String::from_utf8: `Ok` exactly on valid UTF-8 input, in which
/// case the returned string holds the decoded characters of the bytes.
#[verifier::external_body]
fn bytes_to_text(bytes: Vec<u8>) -> (r: Option<String>)
    ensures
        match r {
            Some(s) => valid_utf8(bytes@) && s@ == decode_utf8(bytes@),
            None => !valid_utf8(bytes@),
        },
{
    String::from_utf8(bytes).ok()
}

/// Classify one raw store read.
pub fn classify_read(read: RawRead) -> (o: FetchOutcome)
    ensures
        o@ == outcome_of_read(read),
{
    match read {
        RawRead::Value(bytes) => match bytes_to_text(bytes) {
            Some(s) => FetchOutcome::Hit(s),
            None => FetchOutcome::Miss,
        },
        RawRead::Missing => FetchOutcome::Miss,
        RawRead::Error => FetchOutcome::BackendError,
    }
}

/// The bytes written for an artifact text: its UTF-8 encoding.
pub fn encode_artifact(text: &str) -> (r: Vec<u8>)
    ensures
        r@ == encode_utf8(text@),
{
    text.as_bytes_vec()
}

/// Model of the backing store's contents (raw bytes per tag) and of a fetch
/// against it: a key must be present and decode as UTF-8 to count as a hit.
pub open spec fn fetch_model(store: Map<Seq<char>, Seq<u8>>, tag: Seq<char>) -> FetchModel {
    if store.contains_key(tag) {
        if valid_utf8(store[tag]) {
            FetchModel::Hit(decode_utf8(store[tag]))
        } else {
            FetchModel::Miss
        }
    } else {
        FetchModel::Miss
    }
}

/// Round trip through the store: a tag just written with an artifact's
/// bytes reads back as exactly that artifact, whatever the store held
/// before.
pub proof fn lemma_store_round_trip(store: Map<Seq<char>, Seq<u8>>, tag: Seq<char>, text: Seq<char>)
    ensures
        fetch_model(store.insert(tag, encode_utf8(text)), tag) == FetchModel::Hit(text),
{
    vstd::utf8::encode_utf8_valid_utf8(text);
    vstd::utf8::encode_utf8_decode_utf8(text);
}

} // verus!
