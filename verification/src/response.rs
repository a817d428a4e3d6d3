//! What the gateway answers: the payload of each endpoint and the envelope
//! that carries either a payload or an error, never both and never neither.
//!
//! Every request is answered in this one envelope, whether it was carried
//! out by calls to the upstream services or by the outside interpreter.

use crate::error::{outcome_of, Fault, ServiceError};
use crate::json::{Doc, Json};
use vstd::prelude::*;

verus! {

/// The answer to a similarity search: the best match field by field, or the
/// one sentence that says there is none.
#[derive(Debug, PartialEq)]
pub struct SimilarityReply {
    pub video_id: Option<String>,
    pub url: Option<String>,
    pub chunk_index: Option<serde_json::Number>,
    pub chunk_text: Option<String>,
    pub score: Option<serde_json::Number>,
    pub error: Option<String>,
}

/// The mathematical value of a `SimilarityReply`.
pub struct SimilarityModel {
    pub video_id: Option<Seq<char>>,
    pub url: Option<Seq<char>>,
    pub chunk_index: Option<serde_json::Number>,
    pub chunk_text: Option<Seq<char>>,
    pub score: Option<serde_json::Number>,
    pub error: Option<Seq<char>>,
}

impl DeepView for SimilarityReply {
    type V = SimilarityModel;

    open spec fn deep_view(&self) -> SimilarityModel {
        SimilarityModel {
            video_id: self.video_id.deep_view(),
            url: self.url.deep_view(),
            chunk_index: self.chunk_index,
            chunk_text: self.chunk_text.deep_view(),
            score: self.score,
            error: self.error.deep_view(),
        }
    }
}

/// One video as the gateway reports it.
#[derive(Debug, PartialEq, Eq)]
pub struct VideoRecord {
    pub title: String,
    pub published_date: String,
    pub channel_name: String,
    pub channel_id: String,
    pub thumbnail_url: String,
    pub view_count: Option<u64>,
    pub like_count: Option<u64>,
    pub url: String,
}

/// The mathematical value of a `VideoRecord`.
pub struct VideoModel {
    pub title: Seq<char>,
    pub published_date: Seq<char>,
    pub channel_name: Seq<char>,
    pub channel_id: Seq<char>,
    pub thumbnail_url: Seq<char>,
    pub view_count: Option<u64>,
    pub like_count: Option<u64>,
    pub url: Seq<char>,
}

impl DeepView for VideoRecord {
    type V = VideoModel;

    open spec fn deep_view(&self) -> VideoModel {
        VideoModel {
            title: self.title@,
            published_date: self.published_date@,
            channel_name: self.channel_name@,
            channel_id: self.channel_id@,
            thumbnail_url: self.thumbnail_url@,
            view_count: self.view_count,
            like_count: self.like_count,
            url: self.url@,
        }
    }
}

/// A channel and its most recent videos, the newest first.
#[derive(Debug, PartialEq, Eq)]
pub struct ChannelRecord {
    pub channel_id: String,
    pub channel_name: String,
    pub recent_videos: Vec<VideoRecord>,
}

/// The mathematical value of a `ChannelRecord`.
pub struct ChannelModel {
    pub channel_id: Seq<char>,
    pub channel_name: Seq<char>,
    pub recent_videos: Seq<VideoModel>,
}

impl DeepView for ChannelRecord {
    type V = ChannelModel;

    open spec fn deep_view(&self) -> ChannelModel {
        ChannelModel {
            channel_id: self.channel_id@,
            channel_name: self.channel_name@,
            recent_videos: self.recent_videos.deep_view(),
        }
    }
}

/// The text of a video, with the identifier of the video it belongs to.
#[derive(Debug, PartialEq, Eq)]
pub struct TranscriptResult {
    pub video_id: String,
    pub transcript: String,
}

/// The mathematical value of a `TranscriptResult`.
pub struct TranscriptModel {
    pub video_id: Seq<char>,
    pub transcript: Seq<char>,
}

impl DeepView for TranscriptResult {
    type V = TranscriptModel;

    open spec fn deep_view(&self) -> TranscriptModel {
        TranscriptModel { video_id: self.video_id@, transcript: self.transcript@ }
    }
}

/// What an endpoint hands back on success.
#[derive(Debug, PartialEq)]
pub enum Payload {
    /// The answer to a similarity search.
    Similarity(SimilarityReply),
    /// The answer to a keyword search.
    Videos(Vec<VideoRecord>),
    /// The answer to a channel lookup.
    Channel(ChannelRecord),
    /// The message that confirms that a channel's embeddings were stored.
    Saved(String),
    /// The answer to a transcript request.
    Transcript(TranscriptResult),
    /// A document that a delegated process produced, passed on as it came.
    Document(Json),
}

/// The mathematical value of a `Payload`.
pub enum PayloadModel {
    Similarity(SimilarityModel),
    Videos(Seq<VideoModel>),
    Channel(ChannelModel),
    Saved(Seq<char>),
    Transcript(TranscriptModel),
    Document(Doc),
}

impl DeepView for Payload {
    type V = PayloadModel;

    open spec fn deep_view(&self) -> PayloadModel {
        match self {
            Payload::Similarity(r) => PayloadModel::Similarity(r.deep_view()),
            Payload::Videos(v) => PayloadModel::Videos(v.deep_view()),
            Payload::Channel(c) => PayloadModel::Channel(c.deep_view()),
            Payload::Saved(m) => PayloadModel::Saved(m@),
            Payload::Transcript(t) => PayloadModel::Transcript(t.deep_view()),
            Payload::Document(d) => PayloadModel::Document(d@),
        }
    }
}

/// The one shape of every answer: a payload on success, an error line on
/// failure.
#[derive(Debug, PartialEq)]
pub struct ResponseEnvelope {
    pub success: bool,
    pub data: Option<Payload>,
    pub error: Option<String>,
}

/// The mathematical value of a `ResponseEnvelope`.
pub struct EnvelopeModel {
    pub success: bool,
    pub data: Option<PayloadModel>,
    pub error: Option<Seq<char>>,
}

impl EnvelopeModel {
    /// Exactly one outcome: success with a payload and no error, or failure
    /// with an error and no payload.
    pub open spec fn well_formed(self) -> bool {
        if self.success {
            self.data is Some && self.error is None
        } else {
            self.data is None && self.error is Some
        }
    }

    /// The envelope of a successful request.
    pub open spec fn of_payload(payload: PayloadModel) -> EnvelopeModel {
        EnvelopeModel { success: true, data: Some(payload), error: None }
    }

    /// The envelope of a failed request.
    pub open spec fn of_fault(fault: Fault) -> EnvelopeModel {
        EnvelopeModel { success: false, data: None, error: Some(fault.line()) }
    }

    /// The envelope of an outcome.
    pub open spec fn of_outcome(outcome: Result<PayloadModel, Fault>) -> EnvelopeModel {
        match outcome {
            Ok(p) => Self::of_payload(p),
            Err(f) => Self::of_fault(f),
        }
    }

    /// The HTTP status the envelope is sent with.
    pub open spec fn status(self) -> u16 {
        if self.success {
            200
        } else {
            500
        }
    }
}

impl DeepView for ResponseEnvelope {
    type V = EnvelopeModel;

    open spec fn deep_view(&self) -> EnvelopeModel {
        EnvelopeModel {
            success: self.success,
            data: self.data.deep_view(),
            error: self.error.deep_view(),
        }
    }
}

impl ResponseEnvelope {
    /// The envelope of a successful request.
    pub fn of_payload(payload: Payload) -> (r: ResponseEnvelope)
        ensures
            r.deep_view() == EnvelopeModel::of_payload(payload.deep_view()),
    {
        ResponseEnvelope { success: true, data: Some(payload), error: None }
    }

    /// The envelope of a failed request.
    pub fn of_error(error: &ServiceError) -> (r: ResponseEnvelope)
        ensures
            r.deep_view() == EnvelopeModel::of_fault(error.deep_view()),
    {
        ResponseEnvelope { success: false, data: None, error: Some(error.line()) }
    }

    /// The envelope of an outcome.
    pub fn of_outcome(outcome: Result<Payload, ServiceError>) -> (r: ResponseEnvelope)
        ensures
            r.deep_view() == EnvelopeModel::of_outcome(outcome_of(outcome)),
            r.deep_view().well_formed(),
    {
        match outcome {
            Ok(p) => Self::of_payload(p),
            Err(e) => Self::of_error(&e),
        }
    }

    /// The HTTP status the envelope is sent with: 200 on success, 500 on
    /// every failure.
    pub fn status(&self) -> (r: u16)
        ensures
            r == self.deep_view().status(),
    {
        if self.success {
            200
        } else {
            500
        }
    }
}

/// An envelope made from an outcome holds exactly one of payload and error.
pub proof fn lemma_outcome_is_single(outcome: Result<PayloadModel, Fault>)
    ensures
        EnvelopeModel::of_outcome(outcome).well_formed(),
        EnvelopeModel::of_outcome(outcome).success <==> outcome is Ok,
        EnvelopeModel::of_outcome(outcome).status() == 200 <==> outcome is Ok,
        EnvelopeModel::of_outcome(outcome).status() == 500 <==> outcome is Err,
{
}

} // verus!
