//! The orchestrators: for each operation, which call comes first, what
//! follows from each answer, and what the request ends in.
//!
//! The library never makes a call. `begin` and `resume` hand out a `Step`:
//! either the next call together with the stage that waits for its answer,
//! or the outcome of the request. The first failure ends the request.

use crate::config::{Config, ConfigModel};
use crate::delegate::{
    command, command_model, delegated_payload, output_text, payload_of, read_output,
    CommandModel, DelegateCommand, Operation, ProcessOutput,
};
use crate::embedding;
use crate::error::{Fault, ServiceError, Setting};
use crate::http::{is_success, HttpReply, HttpRequest, RequestModel};
use crate::json::{json_parse, outcome_view, read_text, Doc, Json};
use crate::platform;
use crate::response::{
    ChannelModel, ChannelRecord, Payload, PayloadModel, SimilarityModel, TranscriptModel,
    TranscriptResult,
};
use crate::vector_store;
use crate::video_id::{extract_video_id, video_id_of};
use vstd::prelude::*;

verus! {

/// How the operations are carried out.
#[derive(Clone, Copy, Debug, PartialEq, Eq, Structural)]
pub enum Strategy {
    /// By calls to the upstream services.
    Direct,
    /// By one run of the outside interpreter.
    Delegated,
}

/// What a client asks: an operation and its one input.
#[derive(Debug, PartialEq, Eq)]
pub struct Request {
    pub operation: Operation,
    pub input: String,
}

/// What a request waits for.
#[derive(Debug, PartialEq, Eq)]
pub enum Stage {
    /// The embedding of the query; the store's settings wait with it.
    Embedding { store_url: String, store_key: String },
    /// The rows of the similarity search.
    Matches,
    /// The hits of a keyword search.
    Search { key: String },
    /// The details of the videos that a keyword search found.
    Details,
    /// The metadata of the video that a channel lookup starts from.
    Video { key: String },
    /// The newest videos of the channel.
    ChannelSearch { key: String, channel_id: String, channel_name: String },
    /// The details of the newest videos of the channel.
    ChannelDetails { channel_id: String, channel_name: String },
    /// The word of the persistence step.
    Persistence,
    /// The text of the video.
    Transcript { video_id: String },
    /// The end of the interpreter's run.
    Process { operation: Operation },
}

/// The mathematical value of a `Stage`.
pub enum StageModel {
    Embedding { store_url: Seq<char>, store_key: Seq<char> },
    Matches,
    Search { key: Seq<char> },
    Details,
    Video { key: Seq<char> },
    ChannelSearch { key: Seq<char>, channel_id: Seq<char>, channel_name: Seq<char> },
    ChannelDetails { channel_id: Seq<char>, channel_name: Seq<char> },
    Persistence,
    Transcript { video_id: Seq<char> },
    Process { operation: Operation },
}

impl DeepView for Stage {
    type V = StageModel;

    open spec fn deep_view(&self) -> StageModel {
        match self {
            Stage::Embedding { store_url, store_key } => StageModel::Embedding {
                store_url: store_url@,
                store_key: store_key@,
            },
            Stage::Matches => StageModel::Matches,
            Stage::Search { key } => StageModel::Search { key: key@ },
            Stage::Details => StageModel::Details,
            Stage::Video { key } => StageModel::Video { key: key@ },
            Stage::ChannelSearch { key, channel_id, channel_name } => StageModel::ChannelSearch {
                key: key@,
                channel_id: channel_id@,
                channel_name: channel_name@,
            },
            Stage::ChannelDetails { channel_id, channel_name } => StageModel::ChannelDetails {
                channel_id: channel_id@,
                channel_name: channel_name@,
            },
            Stage::Persistence => StageModel::Persistence,
            Stage::Transcript { video_id } => StageModel::Transcript { video_id: video_id@ },
            Stage::Process { operation } => StageModel::Process { operation: *operation },
        }
    }
}

/// A call that the program around the library is asked to make.
#[derive(Debug, PartialEq)]
pub enum Action {
    /// A call to an upstream service.
    Http(HttpRequest),
    /// A run of the outside interpreter.
    Run(DelegateCommand),
    /// The storing of the embeddings of a channel's videos.
    Persist { channel_id: String },
    /// The extraction of the text of a video.
    Transcribe { video_id: String },
}

/// The mathematical value of an `Action`.
pub enum ActionModel {
    Http(RequestModel),
    Run(CommandModel),
    Persist { channel_id: Seq<char> },
    Transcribe { video_id: Seq<char> },
}

impl DeepView for Action {
    type V = ActionModel;

    open spec fn deep_view(&self) -> ActionModel {
        match self {
            Action::Http(r) => ActionModel::Http(r.deep_view()),
            Action::Run(c) => ActionModel::Run(c.deep_view()),
            Action::Persist { channel_id } => ActionModel::Persist { channel_id: channel_id@ },
            Action::Transcribe { video_id } => ActionModel::Transcribe { video_id: video_id@ },
        }
    }
}

/// What came of a call.
#[derive(Debug, PartialEq, Eq)]
pub enum Event {
    /// An upstream service answered.
    Reply(HttpReply),
    /// The interpreter's run ended.
    Exited(ProcessOutput),
    /// A step without a remote interface ended, with its text or with its
    /// complaint.
    Finished(Result<String, String>),
    /// The call could not be made.
    Unreachable(String),
}

/// The mathematical value of an `Event`.
pub enum EventModel {
    Reply { status: u16, body: Seq<char> },
    Exited { success: bool, stdout: Seq<u8>, stderr: Seq<u8> },
    Finished(Result<Seq<char>, Seq<char>>),
    Unreachable(Seq<char>),
}

impl DeepView for Event {
    type V = EventModel;

    open spec fn deep_view(&self) -> EventModel {
        match self {
            Event::Reply(r) => EventModel::Reply { status: r.status, body: r.body@ },
            Event::Exited(o) => EventModel::Exited {
                success: o.success,
                stdout: o.stdout@,
                stderr: o.stderr@,
            },
            Event::Finished(Ok(text)) => EventModel::Finished(Ok(text@)),
            Event::Finished(Err(complaint)) => EventModel::Finished(Err(complaint@)),
            Event::Unreachable(m) => EventModel::Unreachable(m@),
        }
    }
}

/// The next call and the stage that waits for its answer, or the outcome.
#[derive(Debug, PartialEq)]
pub enum Step {
    Call { stage: Stage, action: Action },
    Done(Result<Payload, ServiceError>),
}

/// The mathematical value of a `Step`.
pub enum StepModel {
    Call { stage: StageModel, action: ActionModel },
    Done(Result<PayloadModel, Fault>),
}

impl DeepView for Step {
    type V = StepModel;

    open spec fn deep_view(&self) -> StepModel {
        match self {
            Step::Call { stage, action } => StepModel::Call {
                stage: stage.deep_view(),
                action: action.deep_view(),
            },
            Step::Done(Ok(p)) => StepModel::Done(Ok(p.deep_view())),
            Step::Done(Err(e)) => StepModel::Done(Err(e.deep_view())),
        }
    }
}

/// The settings that an operation needs when it is carried out by calls to
/// the upstream services, in the order in which they are looked up.
pub open spec fn required(op: Operation) -> Seq<Setting> {
    match op {
        Operation::SimilaritySearch => seq![
            Setting::EmbeddingKey,
            Setting::StoreUrl,
            Setting::StoreKey,
        ],
        Operation::VideoSearch => seq![Setting::PlatformKey],
        Operation::ChannelInfo => seq![Setting::PlatformKey],
        Operation::SaveChannel => seq![
            Setting::PlatformKey,
            Setting::EmbeddingKey,
            Setting::StoreUrl,
            Setting::StoreKey,
        ],
        Operation::Transcript => Seq::empty(),
    }
}

/// The first of `settings` that `config` lacks.
pub open spec fn first_missing(config: ConfigModel, settings: Seq<Setting>) -> Option<Setting>
    decreases settings.len(),
{
    if settings.len() == 0 {
        None
    } else if config.value(settings[0]) is None {
        Some(settings[0])
    } else {
        first_missing(config, settings.drop_first())
    }
}

/// The first step of a request that is carried out by calls to the
/// upstream services, once every setting it needs is known to be there.
pub open spec fn first_call(op: Operation, input: Seq<char>, config: ConfigModel) -> StepModel {
    match op {
        Operation::SimilaritySearch => StepModel::Call {
            stage: StageModel::Embedding {
                store_url: config.store_url->Some_0,
                store_key: config.store_key->Some_0,
            },
            action: ActionModel::Http(
                embedding::embedding_request(input, config.embedding_key->Some_0),
            ),
        },
        Operation::VideoSearch => StepModel::Call {
            stage: StageModel::Search { key: config.platform_key->Some_0 },
            action: ActionModel::Http(
                platform::keyword_request(input, config.platform_key->Some_0),
            ),
        },
        Operation::ChannelInfo => match video_id_of(input) {
            Some(id) => StepModel::Call {
                stage: StageModel::Video { key: config.platform_key->Some_0 },
                action: ActionModel::Http(
                    platform::details_request(seq![id], config.platform_key->Some_0),
                ),
            },
            None => StepModel::Done(Err(Fault::InvalidUrl)),
        },
        Operation::SaveChannel => StepModel::Call {
            stage: StageModel::Persistence,
            action: ActionModel::Persist { channel_id: input },
        },
        Operation::Transcript => match video_id_of(input) {
            Some(id) => StepModel::Call {
                stage: StageModel::Transcript { video_id: id },
                action: ActionModel::Transcribe { video_id: id },
            },
            None => StepModel::Done(Err(Fault::InvalidUrl)),
        },
    }
}

/// The first step of a request. Delegated, it is one run of the
/// interpreter. Direct, a missing setting ends the request before any call.
pub open spec fn begun(strategy: Strategy, op: Operation, input: Seq<char>, config: ConfigModel)
    -> StepModel {
    match strategy {
        Strategy::Delegated => StepModel::Call {
            stage: StageModel::Process { operation: op },
            action: ActionModel::Run(command_model(op, input)),
        },
        Strategy::Direct => match first_missing(config, required(op)) {
            Some(setting) => StepModel::Done(Err(Fault::Configuration(setting))),
            None => first_call(op, input, config),
        },
    }
}

/// What a stage that waits for an upstream service makes of its answer.
pub open spec fn resumed_with(stage: StageModel, status: u16, parsed: Result<Doc, Seq<char>>)
    -> StepModel {
    match stage {
        StageModel::Embedding { store_url, store_key } => match embedding::embedding_outcome(
            status,
            parsed,
        ) {
            Ok(vector) => StepModel::Call {
                stage: StageModel::Matches,
                action: ActionModel::Http(
                    vector_store::search_request(vector, store_url, store_key),
                ),
            },
            Err(fault) => StepModel::Done(Err(fault)),
        },
        StageModel::Matches => match vector_store::search_outcome(status, parsed) {
            Ok(found) => StepModel::Done(
                Ok(PayloadModel::Similarity(vector_store::reply_of(found))),
            ),
            Err(fault) => StepModel::Done(Err(fault)),
        },
        StageModel::Search { key } => match platform::answer_doc(status, parsed) {
            Ok(doc) => match platform::search_ids(doc, platform::SEARCH_CAP as int) {
                Ok(ids) => if ids.len() == 0 {
                    StepModel::Done(Ok(PayloadModel::Videos(Seq::empty())))
                } else {
                    StepModel::Call {
                        stage: StageModel::Details,
                        action: ActionModel::Http(platform::details_request(ids, key)),
                    }
                },
                Err(fault) => StepModel::Done(Err(fault)),
            },
            Err(fault) => StepModel::Done(Err(fault)),
        },
        StageModel::Details => match platform::answer_doc(status, parsed) {
            Ok(doc) => match platform::details_videos(doc, platform::SEARCH_CAP as int) {
                Ok(videos) => StepModel::Done(Ok(PayloadModel::Videos(videos))),
                Err(fault) => StepModel::Done(Err(fault)),
            },
            Err(fault) => StepModel::Done(Err(fault)),
        },
        StageModel::Video { key } => match platform::answer_doc(status, parsed) {
            Ok(doc) => match platform::channel_of(doc) {
                Ok(channel) => StepModel::Call {
                    stage: StageModel::ChannelSearch {
                        key,
                        channel_id: channel.0,
                        channel_name: channel.1,
                    },
                    action: ActionModel::Http(platform::channel_request(channel.0, key)),
                },
                Err(fault) => StepModel::Done(Err(fault)),
            },
            Err(fault) => StepModel::Done(Err(fault)),
        },
        StageModel::ChannelSearch { key, channel_id, channel_name } => match platform::answer_doc(
            status,
            parsed,
        ) {
            Ok(doc) => match platform::search_ids(doc, platform::RECENT_CAP as int) {
                Ok(ids) => if ids.len() == 0 {
                    StepModel::Done(
                        Ok(
                            PayloadModel::Channel(
                                ChannelModel {
                                    channel_id,
                                    channel_name,
                                    recent_videos: Seq::empty(),
                                },
                            ),
                        ),
                    )
                } else {
                    StepModel::Call {
                        stage: StageModel::ChannelDetails { channel_id, channel_name },
                        action: ActionModel::Http(platform::details_request(ids, key)),
                    }
                },
                Err(fault) => StepModel::Done(Err(fault)),
            },
            Err(fault) => StepModel::Done(Err(fault)),
        },
        StageModel::ChannelDetails { channel_id, channel_name } => match platform::answer_doc(
            status,
            parsed,
        ) {
            Ok(doc) => match platform::details_videos(doc, platform::RECENT_CAP as int) {
                Ok(videos) => StepModel::Done(
                    Ok(
                        PayloadModel::Channel(
                            ChannelModel { channel_id, channel_name, recent_videos: videos },
                        ),
                    ),
                ),
                Err(fault) => StepModel::Done(Err(fault)),
            },
            Err(fault) => StepModel::Done(Err(fault)),
        },
        _ => StepModel::Done(Err(Fault::Transport(misfit()))),
    }
}

/// The complaint about an answer that does not belong to the stage.
pub open spec fn misfit() -> Seq<char> {
    "the answer does not fit the call"@
}

/// The step that follows when `stage` receives `event`.
///
/// A call that could not be made ends the request, whatever the stage. An
/// answer of an upstream service is parsed and handed to the stage that
/// waits for it. The end of the interpreter's run is read as the delegation
/// channel reads it. An answer that belongs to another kind of stage ends
/// the request.
pub open spec fn resumed(stage: StageModel, event: EventModel) -> StepModel {
    match event {
        EventModel::Unreachable(message) => StepModel::Done(Err(Fault::Transport(message))),
        EventModel::Reply { status, body } => resumed_with(stage, status, json_parse(body)),
        EventModel::Exited { success, stdout, stderr } => match stage {
            StageModel::Process { operation } => match output_text(success, stdout, stderr) {
                Ok(text) => match delegated_payload(operation, text) {
                    Ok(doc) => StepModel::Done(Ok(PayloadModel::Document(doc))),
                    Err(fault) => StepModel::Done(Err(fault)),
                },
                Err(fault) => StepModel::Done(Err(fault)),
            },
            _ => StepModel::Done(Err(Fault::Transport(misfit()))),
        },
        EventModel::Finished(outcome) => match stage {
            StageModel::Persistence => match outcome {
                Ok(message) => StepModel::Done(Ok(PayloadModel::Saved(message))),
                Err(complaint) => StepModel::Done(Err(Fault::Persistence(complaint))),
            },
            StageModel::Transcript { video_id } => match outcome {
                Ok(text) => StepModel::Done(
                    Ok(PayloadModel::Transcript(TranscriptModel { video_id, transcript: text })),
                ),
                Err(complaint) => StepModel::Done(Err(Fault::Extraction(complaint))),
            },
            _ => StepModel::Done(Err(Fault::Transport(misfit()))),
        },
    }
}

proof fn lemma_first_missing_one(config: ConfigModel, a: Setting)
    ensures
        first_missing(config, seq![a]) == if config.value(a) is None {
            Some(a)
        } else {
            None::<Setting>
        },
{
    let s = seq![a];
    assert(first_missing(config, s.drop_first()) is None);
}

proof fn lemma_first_missing_three(config: ConfigModel, a: Setting, b: Setting, c: Setting)
    ensures
        first_missing(config, seq![a, b, c]) == if config.value(a) is None {
            Some(a)
        } else if config.value(b) is None {
            Some(b)
        } else if config.value(c) is None {
            Some(c)
        } else {
            None::<Setting>
        },
{
    let s = seq![a, b, c];
    assert(s.drop_first() =~= seq![b, c]);
    assert(seq![b, c].drop_first() =~= seq![c]);
    lemma_first_missing_one(config, c);
    assert(first_missing(config, seq![b, c]) == if config.value(b) is None {
        Some(b)
    } else {
        first_missing(config, seq![c])
    });
}

proof fn lemma_first_missing_four(
    config: ConfigModel,
    a: Setting,
    b: Setting,
    c: Setting,
    d: Setting,
)
    ensures
        first_missing(config, seq![a, b, c, d]) == if config.value(a) is None {
            Some(a)
        } else if config.value(b) is None {
            Some(b)
        } else if config.value(c) is None {
            Some(c)
        } else if config.value(d) is None {
            Some(d)
        } else {
            None::<Setting>
        },
{
    let s = seq![a, b, c, d];
    assert(s.drop_first() =~= seq![b, c, d]);
    lemma_first_missing_three(config, b, c, d);
}

fn begin_direct(request: Request, config: &Config) -> (r: Step)
    ensures
        r.deep_view() == begun(
            Strategy::Direct,
            request.operation,
            request.input@,
            config.deep_view(),
        ),
{
    let Request { operation, input } = request;
    let ghost model = config.deep_view();
    match operation {
        Operation::SimilaritySearch => {
            proof {
                lemma_first_missing_three(
                    model,
                    Setting::EmbeddingKey,
                    Setting::StoreUrl,
                    Setting::StoreKey,
                );
            }
            let key = match config.resolve(Setting::EmbeddingKey) {
                Ok(v) => v,
                Err(e) => { return Step::Done(Err(e)); },
            };
            let store_url = match config.resolve(Setting::StoreUrl) {
                Ok(v) => v,
                Err(e) => { return Step::Done(Err(e)); },
            };
            let store_key = match config.resolve(Setting::StoreKey) {
                Ok(v) => v,
                Err(e) => { return Step::Done(Err(e)); },
            };
            Step::Call {
                stage: Stage::Embedding { store_url, store_key },
                action: Action::Http(embedding::request(input.as_str(), key.as_str())),
            }
        },
        Operation::VideoSearch => {
            proof {
                lemma_first_missing_one(model, Setting::PlatformKey);
            }
            let key = match config.resolve(Setting::PlatformKey) {
                Ok(v) => v,
                Err(e) => { return Step::Done(Err(e)); },
            };
            let call = platform::search_by_keyword(input.as_str(), key.as_str());
            Step::Call { stage: Stage::Search { key }, action: Action::Http(call) }
        },
        Operation::ChannelInfo => {
            proof {
                lemma_first_missing_one(model, Setting::PlatformKey);
            }
            let key = match config.resolve(Setting::PlatformKey) {
                Ok(v) => v,
                Err(e) => { return Step::Done(Err(e)); },
            };
            match extract_video_id(input.as_str()) {
                Ok(id) => {
                    let mut ids: Vec<String> = Vec::new();
                    ids.push(id);
                    let call = platform::details_of(&ids, key.as_str());
                    Step::Call { stage: Stage::Video { key }, action: Action::Http(call) }
                },
                Err(e) => Step::Done(Err(e)),
            }
        },
        Operation::SaveChannel => {
            proof {
                lemma_first_missing_four(
                    model,
                    Setting::PlatformKey,
                    Setting::EmbeddingKey,
                    Setting::StoreUrl,
                    Setting::StoreKey,
                );
            }
            match config.resolve(Setting::PlatformKey) {
                Ok(_) => {},
                Err(e) => { return Step::Done(Err(e)); },
            }
            match config.resolve(Setting::EmbeddingKey) {
                Ok(_) => {},
                Err(e) => { return Step::Done(Err(e)); },
            }
            match config.resolve(Setting::StoreUrl) {
                Ok(_) => {},
                Err(e) => { return Step::Done(Err(e)); },
            }
            match config.resolve(Setting::StoreKey) {
                Ok(_) => {},
                Err(e) => { return Step::Done(Err(e)); },
            }
            Step::Call { stage: Stage::Persistence, action: Action::Persist { channel_id: input } }
        },
        Operation::Transcript => {
            match extract_video_id(input.as_str()) {
                Ok(id) => Step::Call {
                    stage: Stage::Transcript { video_id: id.clone() },
                    action: Action::Transcribe { video_id: id },
                },
                Err(e) => Step::Done(Err(e)),
            }
        },
    }
}

/// Takes the first step of a request.
pub fn begin(strategy: Strategy, request: Request, config: &Config) -> (r: Step)
    ensures
        r.deep_view() == begun(strategy, request.operation, request.input@, config.deep_view()),
{
    match strategy {
        Strategy::Delegated => {
            let run = command(request.operation, request.input.as_str());
            Step::Call {
                stage: Stage::Process { operation: request.operation },
                action: Action::Run(run),
            }
        },
        Strategy::Direct => begin_direct(request, config),
    }
}

fn misfit_step() -> (r: Step)
    ensures
        r.deep_view() == StepModel::Done(Err(Fault::Transport(misfit()))),
{
    Step::Done(Err(ServiceError::Transport("the answer does not fit the call".to_owned())))
}

/// Takes the step that follows an answer of an upstream service, from the
/// answer's status and from what parsing its body gave.
pub fn resume_parsed(stage: Stage, status: u16, parsed: Result<Json, String>) -> (r: Step)
    ensures
        r.deep_view() == resumed_with(stage.deep_view(), status, outcome_view(parsed)),
{
    match stage {
        Stage::Embedding { store_url, store_key } => match embedding::read_parsed(status, parsed) {
            Ok(vector) => Step::Call {
                stage: Stage::Matches,
                action: Action::Http(
                    vector_store::request(vector, store_url.as_str(), store_key.as_str()),
                ),
            },
            Err(e) => Step::Done(Err(e)),
        },
        Stage::Matches => match vector_store::read_parsed(status, parsed) {
            Ok(found) => Step::Done(Ok(Payload::Similarity(vector_store::reply_for(found)))),
            Err(e) => Step::Done(Err(e)),
        },
        Stage::Search { key } => match platform::answer_from(status, parsed) {
            Ok(doc) => match platform::ids_from(&doc, platform::SEARCH_CAP) {
                Ok(ids) => {
                    if ids.len() == 0 {
                        let none: Vec<crate::response::VideoRecord> = Vec::new();
                        assert(none.deep_view() =~= Seq::empty());
                        Step::Done(Ok(Payload::Videos(none)))
                    } else {
                        Step::Call {
                            stage: Stage::Details,
                            action: Action::Http(platform::details_of(&ids, key.as_str())),
                        }
                    }
                },
                Err(e) => Step::Done(Err(e)),
            },
            Err(e) => Step::Done(Err(e)),
        },
        Stage::Details => match platform::answer_from(status, parsed) {
            Ok(doc) => match platform::videos_from(&doc, platform::SEARCH_CAP) {
                Ok(videos) => Step::Done(Ok(Payload::Videos(videos))),
                Err(e) => Step::Done(Err(e)),
            },
            Err(e) => Step::Done(Err(e)),
        },
        Stage::Video { key } => match platform::answer_from(status, parsed) {
            Ok(doc) => match platform::channel_from(&doc) {
                Ok(channel) => {
                    let (channel_id, channel_name) = channel;
                    let call = platform::search_by_channel(channel_id.as_str(), key.as_str());
                    Step::Call {
                        stage: Stage::ChannelSearch { key, channel_id, channel_name },
                        action: Action::Http(call),
                    }
                },
                Err(e) => Step::Done(Err(e)),
            },
            Err(e) => Step::Done(Err(e)),
        },
        Stage::ChannelSearch { key, channel_id, channel_name } => match platform::answer_from(
            status,
            parsed,
        ) {
            Ok(doc) => match platform::ids_from(&doc, platform::RECENT_CAP) {
                Ok(ids) => {
                    if ids.len() == 0 {
                        let none: Vec<crate::response::VideoRecord> = Vec::new();
                        assert(none.deep_view() =~= Seq::empty());
                        Step::Done(
                            Ok(
                                Payload::Channel(
                                    ChannelRecord { channel_id, channel_name, recent_videos: none },
                                ),
                            ),
                        )
                    } else {
                        Step::Call {
                            stage: Stage::ChannelDetails { channel_id, channel_name },
                            action: Action::Http(platform::details_of(&ids, key.as_str())),
                        }
                    }
                },
                Err(e) => Step::Done(Err(e)),
            },
            Err(e) => Step::Done(Err(e)),
        },
        Stage::ChannelDetails { channel_id, channel_name } => match platform::answer_from(
            status,
            parsed,
        ) {
            Ok(doc) => match platform::videos_from(&doc, platform::RECENT_CAP) {
                Ok(videos) => Step::Done(
                    Ok(
                        Payload::Channel(
                            ChannelRecord { channel_id, channel_name, recent_videos: videos },
                        ),
                    ),
                ),
                Err(e) => Step::Done(Err(e)),
            },
            Err(e) => Step::Done(Err(e)),
        },
        _ => misfit_step(),
    }
}

/// Takes the step that follows when `stage` receives `event`.
pub fn resume(stage: Stage, event: Event) -> (r: Step)
    ensures
        r.deep_view() == resumed(stage.deep_view(), event.deep_view()),
{
    match event {
        Event::Unreachable(message) => Step::Done(Err(ServiceError::Transport(message))),
        Event::Reply(reply) => {
            let parsed = read_text(reply.body.as_str());
            resume_parsed(stage, reply.status, parsed)
        },
        Event::Exited(output) => match stage {
            Stage::Process { operation } => match read_output(output) {
                Ok(text) => match payload_of(operation, text) {
                    Ok(doc) => Step::Done(Ok(Payload::Document(doc))),
                    Err(e) => Step::Done(Err(e)),
                },
                Err(e) => Step::Done(Err(e)),
            },
            _ => misfit_step(),
        },
        Event::Finished(outcome) => match stage {
            Stage::Persistence => match outcome {
                Ok(message) => Step::Done(Ok(Payload::Saved(message))),
                Err(complaint) => Step::Done(Err(ServiceError::Persistence(complaint))),
            },
            Stage::Transcript { video_id } => match outcome {
                Ok(text) => Step::Done(
                    Ok(Payload::Transcript(TranscriptResult { video_id, transcript: text })),
                ),
                Err(complaint) => Step::Done(Err(ServiceError::Extraction(complaint))),
            },
            _ => misfit_step(),
        },
    }
}

/// Where one of `settings` is missing, `first_missing` names one of them
/// that is.
pub proof fn lemma_first_missing_finds(config: ConfigModel, settings: Seq<Setting>, i: int)
    requires
        0 <= i < settings.len(),
        config.value(settings[i]) is None,
    ensures
        first_missing(config, settings) matches Some(s) && settings.contains(s) && config.value(s)
            is None,
    decreases settings.len(),
{
    if config.value(settings[0]) is None {
    } else {
        let rest = settings.drop_first();
        lemma_first_missing_finds(config, rest, i - 1);
        let s = first_missing(config, rest)->Some_0;
        let k = choose|k: int| 0 <= k < rest.len() && rest[k] == s;
    }
}

/// A request whose operation needs a setting that is missing ends at once,
/// before any call, in the configuration error that names a missing setting.
pub proof fn lemma_missing_setting_ends_request(
    op: Operation,
    input: Seq<char>,
    config: ConfigModel,
    setting: Setting,
)
    requires
        required(op).contains(setting),
        config.value(setting) is None,
    ensures
        begun(Strategy::Direct, op, input, config) matches StepModel::Done(
            Err(Fault::Configuration(s)),
        ) && required(op).contains(s) && config.value(s) is None,
{
    let settings = required(op);
    let i = choose|i: int| 0 <= i < settings.len() && settings[i] == setting;
    lemma_first_missing_finds(config, settings, i);
}

/// A store that answers with no row gives a success: the sentence that says
/// that no video was found, and no other field.
pub proof fn lemma_no_row_is_success(status: u16)
    requires
        is_success(status),
    ensures
        resumed_with(StageModel::Matches, status, Ok(Doc::Array(Seq::empty())))
            == StepModel::Done(
            Ok(
                PayloadModel::Similarity(
                    SimilarityModel {
                        video_id: None,
                        url: None,
                        chunk_index: None,
                        chunk_text: None,
                        score: None,
                        error: Some("No similar video found."@),
                    },
                ),
            ),
        ),
{
}

/// A keyword search that finds no video ends in the empty list, and asks
/// for no details.
pub proof fn lemma_no_hit_ends_search(key: Seq<char>, status: u16, doc: Doc)
    requires
        is_success(status),
        doc.items_at("items"@) matches Some(items) && platform::hit_ids(items).len() == 0,
    ensures
        resumed_with(StageModel::Search { key }, status, Ok(doc)) == StepModel::Done(
            Ok(PayloadModel::Videos(Seq::empty())),
        ),
{
}

/// A video whose metadata names no channel ends the lookup in the error
/// "Channel ID not found", and the channel's videos are not asked for.
pub proof fn lemma_missing_channel_ends_lookup(key: Seq<char>, status: u16, doc: Doc)
    requires
        is_success(status),
        doc.items_at("items"@) matches Some(items) && (items.len() == 0 || match items[0].get(
            "snippet"@,
        ) {
            Some(snippet) => snippet.text_at("channelId"@) is None,
            None => true,
        }),
    ensures
        resumed_with(StageModel::Video { key }, status, Ok(doc)) == StepModel::Done(
            Err(Fault::ChannelIdNotFound),
        ),
        Fault::ChannelIdNotFound.category() == "Platform Error"@,
        Fault::ChannelIdNotFound.message() == "Channel ID not found"@,
{
}

/// How many calls a stage may still have before it: the one it waits
/// for, and those that can follow.
pub open spec fn calls_ahead(stage: StageModel) -> nat {
    match stage {
        StageModel::Embedding { .. } => 2,
        StageModel::Matches => 1,
        StageModel::Search { .. } => 2,
        StageModel::Details => 1,
        StageModel::Video { .. } => 3,
        StageModel::ChannelSearch { .. } => 2,
        StageModel::ChannelDetails { .. } => 1,
        StageModel::Persistence => 1,
        StageModel::Transcript { .. } => 1,
        StageModel::Process { .. } => 1,
    }
}

/// Every answer brings a request nearer to its end: the stage that follows
/// has fewer calls before it than the stage that received the answer.
pub proof fn lemma_resume_makes_progress(stage: StageModel, event: EventModel)
    ensures
        resumed(stage, event) matches StepModel::Call { stage: next, .. } ==> calls_ahead(next)
            < calls_ahead(stage),
{
}

/// No request makes more than three calls: the first step either ends the
/// request or waits in a stage with at most three calls before it.
pub proof fn lemma_begin_bounds_the_calls(
    strategy: Strategy,
    op: Operation,
    input: Seq<char>,
    config: ConfigModel,
)
    ensures
        begun(strategy, op, input, config) matches StepModel::Call { stage, .. } ==> calls_ahead(
            stage,
        ) <= 3,
{
}

/// The lists that a request ends in keep their caps: a keyword search
/// gives at most twenty videos, a channel lookup at most five.
pub proof fn lemma_lists_keep_their_caps(
    stage: StageModel,
    status: u16,
    parsed: Result<Doc, Seq<char>>,
)
    ensures
        match resumed_with(stage, status, parsed) {
            StepModel::Done(Ok(PayloadModel::Videos(videos))) => videos.len() <= 20,
            StepModel::Done(Ok(PayloadModel::Channel(channel))) => channel.recent_videos.len()
                <= 5,
            _ => true,
        },
{
}

} // verus!
