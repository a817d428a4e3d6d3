//! The surface of the gateway: which address leads to which operation, and
//! what the health check reports.

use crate::delegate::Operation;
use crate::http::Method;
use crate::text::same_text;
use vstd::prelude::*;

verus! {

/// Where a request can lead.
#[derive(Clone, Copy, Debug, PartialEq, Eq, Structural)]
pub enum Endpoint {
    /// The front page.
    Root,
    /// The health check.
    Health,
    /// One of the five operations.
    Api(Operation),
}

/// The endpoint that a verb and a path lead to. Four of the operations
/// answer under two paths each.
pub open spec fn routed(method: Method, path: Seq<char>) -> Option<Endpoint> {
    match method {
        Method::Get => if path == "/"@ {
            Some(Endpoint::Root)
        } else if path == "/health"@ {
            Some(Endpoint::Health)
        } else {
            None
        },
        Method::Post => if path == "/api/search"@ || path == "/api/search-similar"@ {
            Some(Endpoint::Api(Operation::SimilaritySearch))
        } else if path == "/api/youtube/search"@ || path == "/api/search-youtube"@ {
            Some(Endpoint::Api(Operation::VideoSearch))
        } else if path == "/api/channel/info"@ || path == "/api/channel-info"@ {
            Some(Endpoint::Api(Operation::ChannelInfo))
        } else if path == "/api/channel/save"@ || path == "/api/save-channel"@ {
            Some(Endpoint::Api(Operation::SaveChannel))
        } else if path == "/api/transcript"@ {
            Some(Endpoint::Api(Operation::Transcript))
        } else {
            None
        },
    }
}

/// Finds the endpoint that a verb and a path lead to.
pub fn route(method: Method, path: &str) -> (r: Option<Endpoint>)
    ensures
        r == routed(method, path@),
{
    match method {
        Method::Get => {
            if same_text(path, "/") {
                Some(Endpoint::Root)
            } else if same_text(path, "/health") {
                Some(Endpoint::Health)
            } else {
                None
            }
        },
        Method::Post => {
            if same_text(path, "/api/search") || same_text(path, "/api/search-similar") {
                Some(Endpoint::Api(Operation::SimilaritySearch))
            } else if same_text(path, "/api/youtube/search") || same_text(
                path,
                "/api/search-youtube",
            ) {
                Some(Endpoint::Api(Operation::VideoSearch))
            } else if same_text(path, "/api/channel/info") || same_text(path, "/api/channel-info") {
                Some(Endpoint::Api(Operation::ChannelInfo))
            } else if same_text(path, "/api/channel/save") || same_text(path, "/api/save-channel") {
                Some(Endpoint::Api(Operation::SaveChannel))
            } else if same_text(path, "/api/transcript") {
                Some(Endpoint::Api(Operation::Transcript))
            } else {
                None
            }
        },
    }
}

/// What the health check reports.
#[derive(Debug, PartialEq, Eq)]
pub struct HealthReport {
    pub status: String,
    pub timestamp: String,
    pub version: String,
}

/// The report of a gateway that answers, with the time at which it did.
pub fn health(timestamp: String) -> (r: HealthReport)
    ensures
        r.status@ == "healthy"@,
        r.timestamp@ == timestamp@,
        r.version@ == "1.0.0"@,
{
    HealthReport { status: "healthy".to_owned(), timestamp, version: "1.0.0".to_owned() }
}

} // verus!
