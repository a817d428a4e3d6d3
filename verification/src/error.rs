//! The failures that a request can end in, and the words they are reported with.

use crate::text::{decimal_digits, write_count};
use vstd::prelude::*;
use vstd::string::StringExecFns;

verus! {

/// A value that the gateway needs from its configuration.
#[derive(Clone, Copy, Debug, PartialEq, Eq, Structural)]
pub enum Setting {
    /// The credential of the embedding provider.
    EmbeddingKey,
    /// The address of the vector store.
    StoreUrl,
    /// The credential of the vector store.
    StoreKey,
    /// The credential of the video platform.
    PlatformKey,
}

impl Setting {
    /// The words that name the setting to a client. They never hold the
    /// setting's value, nor the name of the variable it is read from.
    pub open spec fn label(self) -> Seq<char> {
        match self {
            Setting::EmbeddingKey => "the embedding provider credential"@,
            Setting::StoreUrl => "the vector store address"@,
            Setting::StoreKey => "the vector store credential"@,
            Setting::PlatformKey => "the video platform credential"@,
        }
    }

    /// The words that name the setting to a client.
    pub fn describe(&self) -> (r: &'static str)
        ensures
            r@ == self.label(),
    {
        match self {
            Setting::EmbeddingKey => "the embedding provider credential",
            Setting::StoreUrl => "the vector store address",
            Setting::StoreKey => "the vector store credential",
            Setting::PlatformKey => "the video platform credential",
        }
    }
}

/// Why a request failed.
#[derive(Debug, PartialEq, Eq)]
pub enum ServiceError {
    /// A required setting is missing.
    Configuration(Setting),
    /// The embedding provider answered with a status other than success.
    EmbeddingStatus(u16),
    /// The embedding provider's answer holds no vector.
    EmbeddingParse,
    /// The vector store answered with a status other than success.
    VectorSearchStatus(u16),
    /// The vector store's answer is no list of rows.
    VectorSearchParse,
    /// The video platform answered with a status other than success.
    PlatformStatus(u16),
    /// The video platform's answer is no list of items.
    PlatformMalformed,
    /// The video's metadata names no channel.
    ChannelIdNotFound,
    /// No video identifier stands in the address.
    InvalidUrl,
    /// The delegated process ended with a failure; both of its streams are kept.
    Delegation { stderr: String, stdout: String },
    /// The delegated process wrote something that is no JSON; the parser's
    /// message is kept.
    DelegationOutput(String),
    /// The delegated process wrote bytes that are no UTF-8.
    DelegationEncoding,
    /// A call could not be made at all.
    Transport(String),
    /// The transcript could not be extracted.
    Extraction(String),
    /// The channel's embeddings could not be stored.
    Persistence(String),
}

/// The mathematical value of a `ServiceError`.
pub enum Fault {
    Configuration(Setting),
    EmbeddingStatus(u16),
    EmbeddingParse,
    VectorSearchStatus(u16),
    VectorSearchParse,
    PlatformStatus(u16),
    PlatformMalformed,
    ChannelIdNotFound,
    InvalidUrl,
    Delegation { stderr: Seq<char>, stdout: Seq<char> },
    DelegationOutput(Seq<char>),
    DelegationEncoding,
    Transport(Seq<char>),
    Extraction(Seq<char>),
    Persistence(Seq<char>),
}

impl DeepView for ServiceError {
    type V = Fault;

    open spec fn deep_view(&self) -> Fault {
        match self {
            ServiceError::Configuration(s) => Fault::Configuration(*s),
            ServiceError::EmbeddingStatus(c) => Fault::EmbeddingStatus(*c),
            ServiceError::EmbeddingParse => Fault::EmbeddingParse,
            ServiceError::VectorSearchStatus(c) => Fault::VectorSearchStatus(*c),
            ServiceError::VectorSearchParse => Fault::VectorSearchParse,
            ServiceError::PlatformStatus(c) => Fault::PlatformStatus(*c),
            ServiceError::PlatformMalformed => Fault::PlatformMalformed,
            ServiceError::ChannelIdNotFound => Fault::ChannelIdNotFound,
            ServiceError::InvalidUrl => Fault::InvalidUrl,
            ServiceError::Delegation { stderr, stdout } => Fault::Delegation {
                stderr: stderr@,
                stdout: stdout@,
            },
            ServiceError::DelegationOutput(m) => Fault::DelegationOutput(m@),
            ServiceError::DelegationEncoding => Fault::DelegationEncoding,
            ServiceError::Transport(m) => Fault::Transport(m@),
            ServiceError::Extraction(m) => Fault::Extraction(m@),
            ServiceError::Persistence(m) => Fault::Persistence(m@),
        }
    }
}

/// The mathematical value of an outcome: of what a request or a step of
/// it gave, or of the error it ended in.
pub open spec fn outcome_of<T: DeepView>(r: Result<T, ServiceError>) -> Result<T::V, Fault> {
    match r {
        Ok(v) => Ok(v.deep_view()),
        Err(e) => Err(e.deep_view()),
    }
}

impl Fault {
    /// The short category under which the failure is reported.
    pub open spec fn category(self) -> Seq<char> {
        match self {
            Fault::Configuration(_) => "Configuration Error"@,
            Fault::EmbeddingStatus(_) | Fault::EmbeddingParse => "Embedding Error"@,
            Fault::VectorSearchStatus(_) | Fault::VectorSearchParse => "Vector Search Error"@,
            Fault::PlatformStatus(_) | Fault::PlatformMalformed | Fault::ChannelIdNotFound =>
                "Platform Error"@,
            Fault::InvalidUrl => "Invalid URL"@,
            Fault::Delegation { .. } => "Python 함수 실행 오류"@,
            Fault::DelegationOutput(_) => "JSON 파싱 오류"@,
            Fault::DelegationEncoding => "Delegation Error"@,
            Fault::Transport(_) => "Transport Error"@,
            Fault::Extraction(_) => "Transcript Error"@,
            Fault::Persistence(_) => "Persistence Error"@,
        }
    }

    /// The sentence that tells a person what went wrong.
    pub open spec fn message(self) -> Seq<char> {
        match self {
            Fault::Configuration(s) => s.label() + " is not set"@,
            Fault::EmbeddingStatus(c) => "the embedding provider answered with status "@
                + decimal_digits(c as nat),
            Fault::EmbeddingParse => "the embedding provider's answer holds no vector"@,
            Fault::VectorSearchStatus(c) => "the vector store answered with status "@
                + decimal_digits(c as nat),
            Fault::VectorSearchParse => "the vector store's answer is no list of rows"@,
            Fault::PlatformStatus(c) => "the video platform answered with status "@
                + decimal_digits(c as nat),
            Fault::PlatformMalformed => "the video platform's answer is no list of items"@,
            Fault::ChannelIdNotFound => "Channel ID not found"@,
            Fault::InvalidUrl => "no video identifier stands in the address"@,
            Fault::Delegation { stderr, stdout } => stderr,
            Fault::DelegationOutput(m) => m,
            Fault::DelegationEncoding => "the delegated process wrote bytes that are no UTF-8"@,
            Fault::Transport(m) => m,
            Fault::Extraction(m) => m,
            Fault::Persistence(m) => m,
        }
    }

    /// The one line that a client reads: the category, a colon, the message.
    pub open spec fn line(self) -> Seq<char> {
        self.category() + ": "@ + self.message()
    }
}

impl ServiceError {
    /// The short category under which the failure is reported.
    pub fn category(&self) -> (r: &'static str)
        ensures
            r@ == self.deep_view().category(),
    {
        match self {
            ServiceError::Configuration(_) => "Configuration Error",
            ServiceError::EmbeddingStatus(_) | ServiceError::EmbeddingParse => "Embedding Error",
            ServiceError::VectorSearchStatus(_) | ServiceError::VectorSearchParse =>
                "Vector Search Error",
            ServiceError::PlatformStatus(_)
            | ServiceError::PlatformMalformed
            | ServiceError::ChannelIdNotFound => "Platform Error",
            ServiceError::InvalidUrl => "Invalid URL",
            ServiceError::Delegation { .. } => "Python 함수 실행 오류",
            ServiceError::DelegationOutput(_) => "JSON 파싱 오류",
            ServiceError::DelegationEncoding => "Delegation Error",
            ServiceError::Transport(_) => "Transport Error",
            ServiceError::Extraction(_) => "Transcript Error",
            ServiceError::Persistence(_) => "Persistence Error",
        }
    }

    /// The sentence that tells a person what went wrong.
    pub fn message(&self) -> (r: String)
        ensures
            r@ == self.deep_view().message(),
    {
        match self {
            ServiceError::Configuration(s) => s.describe().to_owned().concat(" is not set"),
            ServiceError::EmbeddingStatus(c) => with_status(
                "the embedding provider answered with status ",
                *c,
            ),
            ServiceError::EmbeddingParse => "the embedding provider's answer holds no vector"
                .to_owned(),
            ServiceError::VectorSearchStatus(c) => with_status(
                "the vector store answered with status ",
                *c,
            ),
            ServiceError::VectorSearchParse => "the vector store's answer is no list of rows"
                .to_owned(),
            ServiceError::PlatformStatus(c) => with_status(
                "the video platform answered with status ",
                *c,
            ),
            ServiceError::PlatformMalformed => "the video platform's answer is no list of items"
                .to_owned(),
            ServiceError::ChannelIdNotFound => "Channel ID not found".to_owned(),
            ServiceError::InvalidUrl => "no video identifier stands in the address".to_owned(),
            ServiceError::Delegation { stderr, stdout } => stderr.clone(),
            ServiceError::DelegationOutput(m) => m.clone(),
            ServiceError::DelegationEncoding =>
                "the delegated process wrote bytes that are no UTF-8".to_owned(),
            ServiceError::Transport(m) => m.clone(),
            ServiceError::Extraction(m) => m.clone(),
            ServiceError::Persistence(m) => m.clone(),
        }
    }

    /// The one line that a client reads: the category, a colon, the message.
    pub fn line(&self) -> (r: String)
        ensures
            r@ == self.deep_view().line(),
    {
        let m = self.message();
        self.category().to_owned().concat(": ").concat(m.as_str())
    }
}

fn with_status(lead: &str, code: u16) -> (r: String)
    ensures
        r@ == lead@ + decimal_digits(code as nat),
{
    let digits = write_count(code as u64);
    lead.to_owned().concat(digits.as_str())
}

} // verus!
