//! The vector-search client: one call to the store's similarity procedure,
//! of whose rows only the first, the best ranked, is kept.

use crate::error::{outcome_of, Fault, ServiceError};
use crate::http::{is_success, succeeded, HttpReply, HttpRequest, Method, Pairs, RequestModel};
use crate::json::{docs_of, json_parse, members_of, outcome_view, read_text, Doc, Json, Member};
use crate::response::{SimilarityModel, SimilarityReply};
use vstd::prelude::*;
use vstd::string::StringExecFns;

verus! {

/// The path of the similarity procedure below the store's address.
pub open spec fn procedure_path() -> Seq<char> {
    "/rest/v1/rpc/match_documents"@
}

/// The documents that stand for a list of numbers.
pub open spec fn number_docs(vector: Seq<serde_json::Number>) -> Seq<Doc> {
    Seq::new(vector.len(), |i: int| Doc::Number(vector[i]))
}

/// The call that asks the store for the rows nearest to `vector`. The
/// vector is its only input.
pub open spec fn search_request(vector: Seq<serde_json::Number>, url: Seq<char>, key: Seq<char>)
    -> RequestModel {
    RequestModel {
        method: Method::Post,
        url: url + procedure_path(),
        query: Seq::empty(),
        headers: seq![
            ("apikey"@, key),
            ("Authorization"@, "Bearer "@ + key),
            ("Content-Type"@, "application/json"@),
        ],
        body: Some(Doc::Object(seq![("query_embedding"@, Doc::Array(number_docs(vector)))])),
    }
}

/// Builds the call that asks the store for the rows nearest to `vector`.
pub fn request(vector: Vec<serde_json::Number>, url: &str, key: &str) -> (r: HttpRequest)
    ensures
        r.deep_view() == search_request(vector@, url@, key@),
{
    let mut items: Vec<Json> = Vec::new();
    let mut i: usize = 0;
    while i < vector.len()
        invariant
            i <= vector.len(),
            items@.len() == i,
            forall|k: int| 0 <= k < i ==> (#[trigger] items@[k])@ == Doc::Number(vector@[k]),
        decreases vector.len() - i,
    {
        items.push(Json::Number(vector[i].clone()));
        i += 1;
    }
    assert(docs_of(items@) =~= number_docs(vector@));
    let mut members: Vec<Member> = Vec::new();
    members.push(Member::new("query_embedding", Json::array(items)));
    assert(members_of(members@) =~= seq![("query_embedding"@, Doc::Array(number_docs(vector@)))]);
    let bearer = "Bearer ".to_owned().concat(key);
    let headers = Pairs::new().with("apikey", key).with("Authorization", bearer.as_str()).with(
        "Content-Type",
        "application/json",
    );
    assert(headers.items.deep_view() =~= search_request(vector@, url@, key@).headers);
    let query = Pairs::new();
    HttpRequest {
        method: Method::Post,
        url: url.to_owned().concat("/rest/v1/rpc/match_documents"),
        query: query.items,
        headers: headers.items,
        body: Some(Json::object(members)),
    }
}

/// The best ranked row of a similarity search. A field that the row lacks,
/// or holds in another type, is absent.
#[derive(Debug, PartialEq)]
pub struct SimilarityMatch {
    pub video_id: Option<String>,
    pub url: Option<String>,
    pub chunk_index: Option<serde_json::Number>,
    pub chunk_text: Option<String>,
    pub score: Option<serde_json::Number>,
}

/// The mathematical value of a `SimilarityMatch`.
pub struct MatchModel {
    pub video_id: Option<Seq<char>>,
    pub url: Option<Seq<char>>,
    pub chunk_index: Option<serde_json::Number>,
    pub chunk_text: Option<Seq<char>>,
    pub score: Option<serde_json::Number>,
}

impl DeepView for SimilarityMatch {
    type V = MatchModel;

    open spec fn deep_view(&self) -> MatchModel {
        MatchModel {
            video_id: self.video_id.deep_view(),
            url: self.url.deep_view(),
            chunk_index: self.chunk_index,
            chunk_text: self.chunk_text.deep_view(),
            score: self.score,
        }
    }
}

/// The match that a row of the store stands for.
pub open spec fn match_of(row: Doc) -> MatchModel {
    MatchModel {
        video_id: row.text_at("video_id"@),
        url: row.text_at("url"@),
        chunk_index: row.number_at("chunk_index"@),
        chunk_text: row.text_at("chunk_text"@),
        score: row.number_at("score"@),
    }
}

/// The best match in an answer of the store: the first of its rows, or
/// nothing where it has no row. An answer that is no list is an error.
pub open spec fn best_match(doc: Doc) -> Result<Option<MatchModel>, Fault> {
    match doc.items() {
        Some(rows) => if rows.len() == 0 {
            Ok(None)
        } else {
            Ok(Some(match_of(rows[0])))
        },
        None => Err(Fault::VectorSearchParse),
    }
}

/// What an answer of the store comes to. A status other than success is an
/// error that keeps the status.
pub open spec fn search_outcome(status: u16, parsed: Result<Doc, Seq<char>>) -> Result<
    Option<MatchModel>,
    Fault,
> {
    if !is_success(status) {
        Err(Fault::VectorSearchStatus(status))
    } else {
        match parsed {
            Ok(doc) => best_match(doc),
            Err(_) => Err(Fault::VectorSearchParse),
        }
    }
}

fn text_field(row: &Json, key: &str) -> (r: Option<String>)
    ensures
        r.deep_view() == row@.text_at(key@),
{
    match row.text_at(key) {
        Some(s) => Some(s.clone()),
        None => None,
    }
}

fn number_field(row: &Json, key: &str) -> (r: Option<serde_json::Number>)
    ensures
        r == row@.number_at(key@),
{
    match row.number_at(key) {
        Some(n) => Some(n.clone()),
        None => None,
    }
}

/// Reads the match that a row of the store stands for.
pub fn match_from(row: &Json) -> (r: SimilarityMatch)
    ensures
        r.deep_view() == match_of(row@),
{
    SimilarityMatch {
        video_id: text_field(row, "video_id"),
        url: text_field(row, "url"),
        chunk_index: number_field(row, "chunk_index"),
        chunk_text: text_field(row, "chunk_text"),
        score: number_field(row, "score"),
    }
}

/// Reads the best match out of an answer of the store.
pub fn best_from(doc: &Json) -> (r: Result<Option<SimilarityMatch>, ServiceError>)
    ensures
        outcome_of(r) == best_match(doc@),
{
    match doc.as_array() {
        Some(rows) => {
            if rows.len() == 0 {
                Ok(None)
            } else {
                Ok(Some(match_from(&rows[0])))
            }
        },
        None => Err(ServiceError::VectorSearchParse),
    }
}

/// Decides what an answer of the store comes to, from its status and from
/// what parsing its body gave.
pub fn read_parsed(status: u16, parsed: Result<Json, String>) -> (r: Result<
    Option<SimilarityMatch>,
    ServiceError,
>)
    ensures
        outcome_of(r) == search_outcome(status, outcome_view(parsed)),
{
    if !succeeded(status) {
        return Err(ServiceError::VectorSearchStatus(status));
    }
    match parsed {
        Ok(doc) => best_from(&doc),
        Err(_) => Err(ServiceError::VectorSearchParse),
    }
}

/// Reads an answer of the store.
pub fn read_reply(reply: &HttpReply) -> (r: Result<Option<SimilarityMatch>, ServiceError>)
    ensures
        outcome_of(r) == search_outcome(reply.status, json_parse(reply.body@)),
{
    if !succeeded(reply.status) {
        return Err(ServiceError::VectorSearchStatus(reply.status));
    }
    read_parsed(reply.status, read_text(reply.body.as_str()))
}

/// What a client reads after a similarity search: the fields of the match,
/// or, where there is none, the one sentence that says so and no field.
pub open spec fn reply_of(found: Option<MatchModel>) -> SimilarityModel {
    match found {
        Some(m) => SimilarityModel {
            video_id: m.video_id,
            url: m.url,
            chunk_index: m.chunk_index,
            chunk_text: m.chunk_text,
            score: m.score,
            error: None,
        },
        None => SimilarityModel {
            video_id: None,
            url: None,
            chunk_index: None,
            chunk_text: None,
            score: None,
            error: Some("No similar video found."@),
        },
    }
}

/// Turns the outcome of a search into what a client reads.
pub fn reply_for(found: Option<SimilarityMatch>) -> (r: SimilarityReply)
    ensures
        r.deep_view() == reply_of(found.deep_view()),
{
    match found {
        Some(m) => SimilarityReply {
            video_id: m.video_id,
            url: m.url,
            chunk_index: m.chunk_index,
            chunk_text: m.chunk_text,
            score: m.score,
            error: None,
        },
        None => SimilarityReply {
            video_id: None,
            url: None,
            chunk_index: None,
            chunk_text: None,
            score: None,
            error: Some("No similar video found.".to_owned()),
        },
    }
}

} // verus!
