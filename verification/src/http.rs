//! A call to an upstream service as plain data: what is asked, and what came
//! back. The program around the library sends the one and brings the other.

use crate::json::{Doc, Json};
use vstd::prelude::*;

verus! {

/// The two verbs the gateway uses.
#[derive(Clone, Copy, Debug, PartialEq, Eq, Structural)]
pub enum Method {
    Get,
    Post,
}

/// One call to an upstream service. The pairs of `query` are appended to the
/// address by whoever sends the call, encoded as an address asks for.
#[derive(Debug, PartialEq)]
pub struct HttpRequest {
    pub method: Method,
    pub url: String,
    pub query: Vec<(String, String)>,
    pub headers: Vec<(String, String)>,
    pub body: Option<Json>,
}

/// The mathematical value of an `HttpRequest`.
pub struct RequestModel {
    pub method: Method,
    pub url: Seq<char>,
    pub query: Seq<(Seq<char>, Seq<char>)>,
    pub headers: Seq<(Seq<char>, Seq<char>)>,
    pub body: Option<Doc>,
}

impl DeepView for HttpRequest {
    type V = RequestModel;

    open spec fn deep_view(&self) -> RequestModel {
        RequestModel {
            method: self.method,
            url: self.url@,
            query: self.query.deep_view(),
            headers: self.headers.deep_view(),
            body: self.body.deep_view(),
        }
    }
}

/// What an upstream service answered.
#[derive(Debug, PartialEq, Eq)]
pub struct HttpReply {
    pub status: u16,
    pub body: String,
}

/// Whether a status is one of success.
pub open spec fn is_success(status: u16) -> bool {
    200 <= status < 300
}

/// Decides `is_success`.
pub fn succeeded(status: u16) -> (r: bool)
    ensures
        r == is_success(status),
{
    200 <= status && status < 300
}

/// A list of pairs under construction.
pub struct Pairs {
    pub items: Vec<(String, String)>,
}

impl Pairs {
    /// No pair yet.
    pub fn new() -> (r: Pairs)
        ensures
            r.items.deep_view() == Seq::<(Seq<char>, Seq<char>)>::empty(),
    {
        let r = Pairs { items: Vec::new() };
        r
    }

    /// The list with one more pair at its end.
    pub fn with(self, name: &str, value: &str) -> (r: Pairs)
        ensures
            r.items.deep_view() == self.items.deep_view().push((name@, value@)),
    {
        let mut items = self.items;
        items.push((name.to_owned(), value.to_owned()));
        Pairs { items }
    }
}

} // verus!
