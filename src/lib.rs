//! Decoding of live chat documents into a typed, unambiguous event model.
use vstd::prelude::*;
use crate::json::{json_of_text, parse_document, DecodeError, ErrorKind, Fault};
use crate::root::{initial_spec, update_spec, ChatJson, InitialChatJson, LiveChatModel};

pub mod actions;
pub mod generic_types;
pub mod header;
pub mod json;
pub mod non_empty;
pub mod params;
pub mod participants;
pub mod root;

verus! {

/// A failed decode of a whole document.
#[derive(Debug)]
pub enum YouTubeDeserializeError {
    /// The document `json` could not be decoded because of `source`.
    DeserializeJson { json: String, source: DecodeError },
}

/// Whether `r` is the failure of decoding `text` with the fault `f`.
pub open spec fn fails_with<T>(r: Result<T, YouTubeDeserializeError>, text: Seq<char>, f: Fault) -> bool {
    match r {
        Err(YouTubeDeserializeError::DeserializeJson { json, source }) => json@ == text && source@ == f,
        Ok(_) => false,
    }
}

/// Whether `r` is the failure of decoding `text`, which is not JSON.
pub open spec fn fails_on_syntax<T>(r: Result<T, YouTubeDeserializeError>, text: Seq<char>) -> bool {
    match r {
        Err(YouTubeDeserializeError::DeserializeJson { json, source }) => json@ == text && source.kind
            == ErrorKind::Syntax,
        Ok(_) => false,
    }
}

/// The text and the cause of a failure.
pub open spec fn failure_of<T>(r: Result<T, YouTubeDeserializeError>) -> (Seq<char>, Fault) {
    match r {
        Err(YouTubeDeserializeError::DeserializeJson { json, source }) => (json@, source@),
        Ok(_) => (Seq::empty(), Fault { kind: ErrorKind::Syntax, detail: Seq::empty() }),
    }
}

/// What decoding `text` as a document described by `spec_doc` gives.
pub open spec fn decodes_as<T: View<V = Option<LiveChatModel>>>(
    r: Result<T, YouTubeDeserializeError>,
    text: Seq<char>,
    spec_doc: spec_fn(crate::json::Json) -> Result<Option<LiveChatModel>, Fault>,
) -> bool {
    match json_of_text(text) {
        None => fails_on_syntax(r, text),
        Some(v) => match spec_doc(v) {
            Ok(m) => r matches Ok(d) && d@ == m,
            Err(f) => fails_with(r, text, f),
        },
    }
}

pub open spec fn initial_fn() -> spec_fn(crate::json::Json) -> Result<Option<LiveChatModel>, Fault> {
    |j: crate::json::Json| initial_spec(j)
}

pub open spec fn update_fn() -> spec_fn(crate::json::Json) -> Result<Option<LiveChatModel>, Fault> {
    |j: crate::json::Json| update_spec(j)
}

fn with_text<T>(r: Result<T, DecodeError>, json: &str) -> (out: Result<T, YouTubeDeserializeError>)
    ensures
        match r {
            Ok(x) => out == Ok::<T, YouTubeDeserializeError>(x),
            Err(e) => fails_with(out, json@, e@),
        },
{
    match r {
        Ok(x) => Ok(x),
        Err(source) => Err(YouTubeDeserializeError::DeserializeJson { json: json.to_owned(), source }),
    }
}

/// The entry points: whole documents from their text.
pub struct Youtube;

impl Youtube {
    /// Decodes a first-page-load document.
    pub fn deserialize_initial(json: &str) -> (r: Result<InitialChatJson, YouTubeDeserializeError>)
        ensures
            decodes_as(r, json@, initial_fn()),
    {
        match parse_document(json) {
            Err(e) => with_text(Err(e), json),
            Ok(v) => with_text(InitialChatJson::decode(&v), json),
        }
    }

    /// Decodes a continuation-poll document.
    pub fn deserialize(json: &str) -> (r: Result<ChatJson, YouTubeDeserializeError>)
        ensures
            decodes_as(r, json@, update_fn()),
    {
        match parse_document(json) {
            Err(e) => with_text(Err(e), json),
            Ok(v) => with_text(ChatJson::decode(&v), json),
        }
    }
}

/// Decoding is a function of the text: two decodes of the same text both
/// succeed with equal documents, or both fail with equal causes.
pub proof fn lemma_decoding_deterministic<T: View<V = Option<LiveChatModel>>>(
    text: Seq<char>,
    spec_doc: spec_fn(crate::json::Json) -> Result<Option<LiveChatModel>, Fault>,
    r1: Result<T, YouTubeDeserializeError>,
    r2: Result<T, YouTubeDeserializeError>,
)
    requires
        decodes_as(r1, text, spec_doc),
        decodes_as(r2, text, spec_doc),
    ensures
        r1 is Ok <==> r2 is Ok,
        r1 is Ok ==> r1->Ok_0@ == r2->Ok_0@,
        r1 is Err ==> failure_of(r1).0 == failure_of(r2).0 && failure_of(r1).1.kind == failure_of(
            r2,
        ).1.kind,
        r1 is Err && json_of_text(text) is Some ==> failure_of(r1) == failure_of(r2),
{
}

} // verus!
