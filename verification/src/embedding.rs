//! The embedding client: one call that turns a text into a vector.

use crate::error::{Fault, ServiceError};
use crate::http::{is_success, succeeded, HttpReply, HttpRequest, Method, Pairs, RequestModel};
use crate::json::{docs_of, json_parse, members_of, outcome_view, read_text, Doc, Json, Member};
use vstd::prelude::*;
use vstd::string::StringExecFns;

verus! {

/// The address of the embedding provider.
pub open spec fn endpoint() -> Seq<char> {
    "https://api.openai.com/v1/embeddings"@
}

/// The model every embedding is made with.
pub open spec fn model() -> Seq<char> {
    "text-embedding-3-small"@
}

/// The call that asks for the embedding of `text`.
pub open spec fn embedding_request(text: Seq<char>, key: Seq<char>) -> RequestModel {
    RequestModel {
        method: Method::Post,
        url: endpoint(),
        query: Seq::empty(),
        headers: seq![
            ("Authorization"@, "Bearer "@ + key),
            ("Content-Type"@, "application/json"@),
        ],
        body: Some(Doc::Object(seq![("model"@, Doc::Text(model())), ("input"@, Doc::Text(text))])),
    }
}

/// Builds the call that asks for the embedding of `text`.
pub fn request(text: &str, key: &str) -> (r: HttpRequest)
    ensures
        r.deep_view() == embedding_request(text@, key@),
{
    let bearer = "Bearer ".to_owned().concat(key);
    let headers = Pairs::new().with("Authorization", bearer.as_str()).with(
        "Content-Type",
        "application/json",
    );
    let mut members: Vec<Member> = Vec::new();
    members.push(Member::new("model", Json::text("text-embedding-3-small")));
    members.push(Member::new("input", Json::text(text)));
    assert(members_of(members@) =~= seq![
        ("model"@, Doc::Text(model())),
        ("input"@, Doc::Text(text@)),
    ]);
    let query = Pairs::new();
    assert(headers.items.deep_view() =~= embedding_request(text@, key@).headers);
    HttpRequest {
        method: Method::Post,
        url: "https://api.openai.com/v1/embeddings".to_owned(),
        query: query.items,
        headers: headers.items,
        body: Some(Json::object(members)),
    }
}

/// The numbers of a list of documents, if every one of them is a number.
pub open spec fn numbers_of(items: Seq<Doc>) -> Option<Seq<serde_json::Number>> {
    if forall|i: int| 0 <= i < items.len() ==> (#[trigger] items[i]) is Number {
        Some(Seq::new(items.len(), |i: int| items[i]->Number_0))
    } else {
        None
    }
}

/// The vector that an answer of the provider holds: the member `embedding`
/// of the first item of its member `data`, a list of numbers.
pub open spec fn vector_of(doc: Doc) -> Option<Seq<serde_json::Number>> {
    match doc.items_at("data"@) {
        Some(rows) if rows.len() > 0 => match rows[0].items_at("embedding"@) {
            Some(items) => numbers_of(items),
            None => None,
        },
        _ => None,
    }
}

/// What an answer of the provider comes to. A status other than success is
/// an error that keeps the status; an answer without a vector is an error
/// of its own.
pub open spec fn embedding_outcome(status: u16, parsed: Result<Doc, Seq<char>>) -> Result<
    Seq<serde_json::Number>,
    Fault,
> {
    if !is_success(status) {
        Err(Fault::EmbeddingStatus(status))
    } else {
        match parsed {
            Ok(doc) => match vector_of(doc) {
                Some(v) => Ok(v),
                None => Err(Fault::EmbeddingParse),
            },
            Err(_) => Err(Fault::EmbeddingParse),
        }
    }
}

/// The value of a vector.
pub open spec fn vector_view(v: Option<Vec<serde_json::Number>>) -> Option<
    Seq<serde_json::Number>,
> {
    match v {
        Some(v) => Some(v@),
        None => None,
    }
}

/// The value of a vector or an error.
pub open spec fn vector_outcome(r: Result<Vec<serde_json::Number>, ServiceError>) -> Result<
    Seq<serde_json::Number>,
    Fault,
> {
    match r {
        Ok(v) => Ok(v@),
        Err(e) => Err(e.deep_view()),
    }
}

/// Reads the vector out of an answer of the provider.
pub fn vector_from(doc: &Json) -> (r: Option<Vec<serde_json::Number>>)
    ensures
        vector_view(r) == vector_of(doc@),
{
    let rows = match doc.array_at("data") {
        Some(rows) => rows,
        None => { return None; },
    };
    if rows.len() == 0 {
        return None;
    }
    let items = match rows[0].array_at("embedding") {
        Some(items) => items,
        None => { return None; },
    };
    let ghost docs = docs_of(items@);
    let mut vector: Vec<serde_json::Number> = Vec::new();
    let mut i: usize = 0;
    while i < items.len()
        invariant
            i <= items.len(),
            docs == docs_of(items@),
            vector_of(doc@) == numbers_of(docs),
            vector@.len() == i,
            forall|k: int|
                0 <= k < i ==> (#[trigger] docs[k]) is Number && vector@[k] == docs[k]->Number_0,
        decreases items.len() - i,
    {
        match items[i].as_number() {
            Some(n) => {
                vector.push(n.clone());
            },
            None => {
                assert(!(docs[i as int] is Number));
                return None;
            },
        }
        i += 1;
    }
    Some(vector)
}

/// Decides what an answer of the provider comes to, from its status and
/// from what parsing its body gave.
pub fn read_parsed(status: u16, parsed: Result<Json, String>) -> (r: Result<
    Vec<serde_json::Number>,
    ServiceError,
>)
    ensures
        vector_outcome(r) == embedding_outcome(status, outcome_view(parsed)),
{
    if !succeeded(status) {
        return Err(ServiceError::EmbeddingStatus(status));
    }
    match parsed {
        Ok(doc) => match vector_from(&doc) {
            Some(v) => Ok(v),
            None => Err(ServiceError::EmbeddingParse),
        },
        Err(_) => Err(ServiceError::EmbeddingParse),
    }
}

/// Reads an answer of the provider.
pub fn read_reply(reply: &HttpReply) -> (r: Result<Vec<serde_json::Number>, ServiceError>)
    ensures
        vector_outcome(r) == embedding_outcome(reply.status, json_parse(reply.body@)),
{
    if !succeeded(reply.status) {
        return Err(ServiceError::EmbeddingStatus(reply.status));
    }
    read_parsed(reply.status, read_text(reply.body.as_str()))
}

} // verus!
