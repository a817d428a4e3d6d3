use youtube_search_api::config::Config;
use youtube_search_api::delegate::{command, Operation, ProcessOutput};
use youtube_search_api::embedding;
use youtube_search_api::error::{ServiceError, Setting};
use youtube_search_api::gateway::{health, route, Endpoint, HealthReport};
use youtube_search_api::http::{HttpReply, Method};
use youtube_search_api::json::{Json, Member};
use youtube_search_api::orchestrate::{begin, resume, resume_parsed, Action, Event, Request, Stage, Step, Strategy};
use youtube_search_api::platform;
use youtube_search_api::response::{
    ChannelRecord, Payload, ResponseEnvelope, SimilarityReply, TranscriptResult, VideoRecord,
};
use youtube_search_api::vector_store;

fn full_config() -> Config {
    Config {
        embedding_key: Some("ek".to_string()),
        store_url: Some("https://store.example".to_string()),
        store_key: Some("sk".to_string()),
        platform_key: Some("pk".to_string()),
    }
}

fn request(operation: Operation, input: &str) -> Request {
    Request { operation, input: input.to_string() }
}

fn reply(status: u16, body: &str) -> Event {
    Event::Reply(HttpReply { status, body: body.to_string() })
}

fn text(s: &str) -> Json {
    Json::Text(s.to_string())
}

fn object(members: Vec<(&str, Json)>) -> Json {
    Json::Object(members.into_iter().map(|(k, v)| Member { key: k.to_string(), value: v }).collect())
}

/// Plays the collaborators: answers each call with the next event, and
/// hands back the outcome with the calls that were made.
fn play(first: Step, events: Vec<Event>) -> (Result<Payload, ServiceError>, Vec<Action>) {
    let mut calls = Vec::new();
    let mut step = first;
    let mut events = events.into_iter();
    loop {
        match step {
            Step::Done(outcome) => {
                assert!(events.next().is_none(), "an answer was left over");
                return (outcome, calls);
            }
            Step::Call { stage, action } => {
                calls.push(action);
                let event = events.next().expect("a call was made that nothing answers");
                step = resume(stage, event);
            }
        }
    }
}

const EMBEDDING_BODY: &str = "{\"data\": [{\"embedding\": [0.5, 0.25]}]}";

const DETAILS_BODY: &str = "{\"items\": [\
    {\"id\": \"aaaaaaaaaaa\", \"snippet\": {\"title\": \"First\", \"publishedAt\": \"2024-05-01T00:00:00Z\", \
      \"channelTitle\": \"Rustaceans\", \"channelId\": \"UC1\", \
      \"thumbnails\": {\"high\": {\"url\": \"https://i.ytimg.com/vi/aaaaaaaaaaa/hq.jpg\"}}}, \
      \"statistics\": {\"viewCount\": \"1200\", \"likeCount\": \"34\"}}, \
    {\"id\": \"bbbbbbbbbbb\", \"snippet\": {\"title\": \"Second\", \"publishedAt\": \"2024-04-01T00:00:00Z\", \
      \"channelTitle\": \"Rustaceans\", \"channelId\": \"UC1\"}, \
      \"statistics\": {\"viewCount\": \"hidden\"}}]}";

fn first_video() -> VideoRecord {
    VideoRecord {
        title: "First".to_string(),
        published_date: "2024-05-01T00:00:00Z".to_string(),
        channel_name: "Rustaceans".to_string(),
        channel_id: "UC1".to_string(),
        thumbnail_url: "https://i.ytimg.com/vi/aaaaaaaaaaa/hq.jpg".to_string(),
        view_count: Some(1200),
        like_count: Some(34),
        url: "https://www.youtube.com/watch?v=aaaaaaaaaaa".to_string(),
    }
}

fn second_video() -> VideoRecord {
    VideoRecord {
        title: "Second".to_string(),
        published_date: "2024-04-01T00:00:00Z".to_string(),
        channel_name: "Rustaceans".to_string(),
        channel_id: "UC1".to_string(),
        thumbnail_url: String::new(),
        view_count: None,
        like_count: None,
        url: "https://www.youtube.com/watch?v=bbbbbbbbbbb".to_string(),
    }
}

#[test]
fn similarity_search_answers_with_the_row_of_the_store() {
    assert_eq!(route(Method::Post, "/api/search"), Some(Endpoint::Api(Operation::SimilaritySearch)));
    let row = "[{\"video_id\": \"abc\", \"url\": \"https://youtu.be/abc\", \"chunk_index\": 2, \
               \"chunk_text\": \"intro\", \"score\": 0.87}]";
    let first = begin(Strategy::Direct, request(Operation::SimilaritySearch, "rust tutorial"), &full_config());
    let (outcome, calls) = play(first, vec![reply(200, EMBEDDING_BODY), reply(200, row)]);
    assert_eq!(
        calls,
        vec![
            Action::Http(embedding::request("rust tutorial", "ek")),
            Action::Http(vector_store::request(
                vec![serde_json::Number::from_f64(0.5).unwrap(), serde_json::Number::from_f64(0.25).unwrap()],
                "https://store.example",
                "sk"
            )),
        ]
    );
    let expected = SimilarityReply {
        video_id: Some("abc".to_string()),
        url: Some("https://youtu.be/abc".to_string()),
        chunk_index: Some(serde_json::Number::from(2u64)),
        chunk_text: Some("intro".to_string()),
        score: Some(serde_json::Number::from_f64(0.87).unwrap()),
        error: None,
    };
    assert_eq!(outcome, Ok(Payload::Similarity(expected)));
    let envelope = ResponseEnvelope::of_outcome(outcome);
    assert!(envelope.success);
    assert_eq!(envelope.error, None);
    assert_eq!(envelope.status(), 200);
}

#[test]
fn similarity_search_without_rows_is_a_success_that_says_so() {
    let first = begin(Strategy::Direct, request(Operation::SimilaritySearch, "nothing like it"), &full_config());
    let (outcome, calls) = play(first, vec![reply(200, EMBEDDING_BODY), reply(200, "[]")]);
    assert_eq!(calls.len(), 2);
    assert_eq!(
        outcome,
        Ok(Payload::Similarity(SimilarityReply {
            video_id: None,
            url: None,
            chunk_index: None,
            chunk_text: None,
            score: None,
            error: Some("No similar video found.".to_string()),
        }))
    );
    let envelope = ResponseEnvelope::of_outcome(outcome);
    assert!(envelope.success);
    assert_eq!(envelope.error, None);
    assert_eq!(envelope.status(), 200);
}

#[test]
fn similarity_search_stops_at_a_failed_embedding() {
    let first = begin(Strategy::Direct, request(Operation::SimilaritySearch, "q"), &full_config());
    let (outcome, calls) = play(first, vec![reply(429, "slow down")]);
    assert_eq!(calls.len(), 1);
    assert_eq!(outcome, Err(ServiceError::EmbeddingStatus(429)));
    let first = begin(Strategy::Direct, request(Operation::SimilaritySearch, "q"), &full_config());
    let (outcome, calls) = play(first, vec![reply(200, "{\"data\": []}")]);
    assert_eq!(calls.len(), 1);
    assert_eq!(outcome, Err(ServiceError::EmbeddingParse));
}

#[test]
fn similarity_search_reports_a_failed_store() {
    let first = begin(Strategy::Direct, request(Operation::SimilaritySearch, "q"), &full_config());
    let (outcome, _) = play(first, vec![reply(200, EMBEDDING_BODY), reply(500, "[]")]);
    assert_eq!(outcome, Err(ServiceError::VectorSearchStatus(500)));
    assert_eq!(
        ResponseEnvelope::of_outcome(outcome),
        ResponseEnvelope {
            success: false,
            data: None,
            error: Some("Vector Search Error: the vector store answered with status 500".to_string())
        }
    );
}

#[test]
fn keyword_search_fetches_the_details_in_one_call() {
    let hits = "{\"items\": [{\"id\": {\"videoId\": \"aaaaaaaaaaa\"}}, {\"id\": {\"channelId\": \"UC1\"}}, \
                {\"id\": {\"videoId\": \"bbbbbbbbbbb\"}}]}";
    let first = begin(Strategy::Direct, request(Operation::VideoSearch, "rust"), &full_config());
    let (outcome, calls) = play(first, vec![reply(200, hits), reply(200, DETAILS_BODY)]);
    assert_eq!(
        calls,
        vec![
            Action::Http(platform::search_by_keyword("rust", "pk")),
            Action::Http(platform::details_of(&vec!["aaaaaaaaaaa".to_string(), "bbbbbbbbbbb".to_string()], "pk")),
        ]
    );
    assert_eq!(outcome, Ok(Payload::Videos(vec![first_video(), second_video()])));
}

#[test]
fn keyword_search_without_hits_makes_no_details_call() {
    for body in ["{\"items\": []}", "{\"items\": [{\"id\": {\"channelId\": \"UC1\"}}]}"] {
        let first = begin(Strategy::Direct, request(Operation::VideoSearch, "zzzz"), &full_config());
        let (outcome, calls) = play(first, vec![reply(200, body)]);
        assert_eq!(calls, vec![Action::Http(platform::search_by_keyword("zzzz", "pk"))]);
        assert_eq!(outcome, Ok(Payload::Videos(Vec::new())));
    }
}

#[test]
fn keyword_search_keeps_at_most_twenty() {
    let mut hits = String::from("{\"items\": [");
    for i in 0..25 {
        if i > 0 {
            hits.push(',');
        }
        hits.push_str(&format!("{{\"id\": {{\"videoId\": \"video{:06}\"}}}}", i));
    }
    hits.push_str("]}");
    let first = begin(Strategy::Direct, request(Operation::VideoSearch, "rust"), &full_config());
    match first {
        Step::Call { stage, .. } => match resume(stage, reply(200, &hits)) {
            Step::Call { stage: Stage::Details, action: Action::Http(call) } => {
                let ids: Vec<String> = (0..20).map(|i| format!("video{:06}", i)).collect();
                assert_eq!(call, platform::details_of(&ids, "pk"));
            }
            other => panic!("expected the details call, got {:?}", other),
        },
        other => panic!("expected the search call, got {:?}", other),
    }
}

#[test]
fn keyword_search_reports_platform_failures() {
    let first = begin(Strategy::Direct, request(Operation::VideoSearch, "rust"), &full_config());
    assert_eq!(play(first, vec![reply(403, "{}")]).0, Err(ServiceError::PlatformStatus(403)));
    let first = begin(Strategy::Direct, request(Operation::VideoSearch, "rust"), &full_config());
    assert_eq!(play(first, vec![reply(200, "<html>")]).0, Err(ServiceError::PlatformMalformed));
    let first = begin(Strategy::Direct, request(Operation::VideoSearch, "rust"), &full_config());
    assert_eq!(play(first, vec![reply(200, "{}")]).0, Err(ServiceError::PlatformMalformed));
    let first = begin(Strategy::Direct, request(Operation::VideoSearch, "rust"), &full_config());
    let hits = "{\"items\": [{\"id\": {\"videoId\": \"aaaaaaaaaaa\"}}]}";
    assert_eq!(play(first, vec![reply(200, hits), reply(500, "")]).0, Err(ServiceError::PlatformStatus(500)));
}

#[test]
fn channel_info_walks_from_the_video_to_its_channel() {
    let video = "{\"items\": [{\"id\": \"dQw4w9WgXcQ\", \"snippet\": {\"channelId\": \"UC1\", \"channelTitle\": \"Rustaceans\"}}]}";
    let recent = "{\"items\": [{\"id\": {\"videoId\": \"aaaaaaaaaaa\"}}, {\"id\": {\"videoId\": \"bbbbbbbbbbb\"}}]}";
    let first = begin(
        Strategy::Direct,
        request(Operation::ChannelInfo, "https://www.youtube.com/watch?v=dQw4w9WgXcQ"),
        &full_config(),
    );
    let (outcome, calls) = play(first, vec![reply(200, video), reply(200, recent), reply(200, DETAILS_BODY)]);
    assert_eq!(
        calls,
        vec![
            Action::Http(platform::details_of(&vec!["dQw4w9WgXcQ".to_string()], "pk")),
            Action::Http(platform::search_by_channel("UC1", "pk")),
            Action::Http(platform::details_of(&vec!["aaaaaaaaaaa".to_string(), "bbbbbbbbbbb".to_string()], "pk")),
        ]
    );
    assert_eq!(
        outcome,
        Ok(Payload::Channel(ChannelRecord {
            channel_id: "UC1".to_string(),
            channel_name: "Rustaceans".to_string(),
            recent_videos: vec![first_video(), second_video()],
        }))
    );
}

#[test]
fn channel_info_without_channel_id_stops_before_the_recent_videos() {
    for body in ["{\"items\": [{\"id\": \"dQw4w9WgXcQ\", \"snippet\": {\"title\": \"t\"}}]}", "{\"items\": []}"] {
        let first = begin(Strategy::Direct, request(Operation::ChannelInfo, "https://youtu.be/dQw4w9WgXcQ"), &full_config());
        let (outcome, calls) = play(first, vec![reply(200, body)]);
        assert_eq!(calls, vec![Action::Http(platform::details_of(&vec!["dQw4w9WgXcQ".to_string()], "pk"))]);
        assert_eq!(outcome, Err(ServiceError::ChannelIdNotFound));
        assert_eq!(
            ResponseEnvelope::of_outcome(outcome).error,
            Some("Platform Error: Channel ID not found".to_string())
        );
    }
}

#[test]
fn channel_info_of_a_channel_without_videos() {
    let video = "{\"items\": [{\"snippet\": {\"channelId\": \"UC1\"}}]}";
    let first = begin(Strategy::Direct, request(Operation::ChannelInfo, "https://youtu.be/dQw4w9WgXcQ"), &full_config());
    let (outcome, calls) = play(first, vec![reply(200, video), reply(200, "{\"items\": []}")]);
    assert_eq!(calls.len(), 2);
    assert_eq!(
        outcome,
        Ok(Payload::Channel(ChannelRecord {
            channel_id: "UC1".to_string(),
            channel_name: String::new(),
            recent_videos: Vec::new(),
        }))
    );
}

#[test]
fn channel_info_keeps_at_most_five_recent_videos() {
    let mut items = Vec::new();
    for i in 0..7 {
        items.push(object(vec![("id", text(&format!("video{:06}", i)))]));
    }
    let step = resume_parsed(
        Stage::ChannelDetails { channel_id: "UC1".to_string(), channel_name: "n".to_string() },
        200,
        Ok(object(vec![("items", Json::Array(items))])),
    );
    match step {
        Step::Done(Ok(Payload::Channel(channel))) => {
            assert_eq!(channel.recent_videos.len(), 5);
            assert_eq!(channel.recent_videos[4].url, "https://www.youtube.com/watch?v=video000004");
        }
        other => panic!("expected a channel, got {:?}", other),
    }
}

#[test]
fn channel_info_refuses_an_address_without_identifier() {
    let first = begin(Strategy::Direct, request(Operation::ChannelInfo, "https://example.com"), &full_config());
    assert_eq!(first, Step::Done(Err(ServiceError::InvalidUrl)));
}

#[test]
fn a_missing_setting_ends_the_request_before_any_call() {
    let cases = vec![
        (Operation::SimilaritySearch, Setting::EmbeddingKey),
        (Operation::SimilaritySearch, Setting::StoreUrl),
        (Operation::SimilaritySearch, Setting::StoreKey),
        (Operation::VideoSearch, Setting::PlatformKey),
        (Operation::ChannelInfo, Setting::PlatformKey),
        (Operation::SaveChannel, Setting::PlatformKey),
        (Operation::SaveChannel, Setting::EmbeddingKey),
        (Operation::SaveChannel, Setting::StoreUrl),
        (Operation::SaveChannel, Setting::StoreKey),
    ];
    for (operation, missing) in cases {
        let mut config = full_config();
        match missing {
            Setting::EmbeddingKey => config.embedding_key = None,
            Setting::StoreUrl => config.store_url = None,
            Setting::StoreKey => config.store_key = None,
            Setting::PlatformKey => config.platform_key = None,
        }
        let first = begin(Strategy::Direct, request(operation, "https://youtu.be/dQw4w9WgXcQ"), &config);
        assert_eq!(first, Step::Done(Err(ServiceError::Configuration(missing))));
    }
}

#[test]
fn the_first_missing_setting_is_the_one_named() {
    let empty = Config { embedding_key: None, store_url: None, store_key: None, platform_key: None };
    assert_eq!(
        begin(Strategy::Direct, request(Operation::SimilaritySearch, "q"), &empty),
        Step::Done(Err(ServiceError::Configuration(Setting::EmbeddingKey)))
    );
    assert_eq!(
        begin(Strategy::Direct, request(Operation::SaveChannel, "UC1"), &empty),
        Step::Done(Err(ServiceError::Configuration(Setting::PlatformKey)))
    );
    assert_eq!(
        begin(Strategy::Direct, request(Operation::ChannelInfo, "no address"), &empty),
        Step::Done(Err(ServiceError::Configuration(Setting::PlatformKey)))
    );
}

#[test]
fn a_setting_that_is_not_needed_may_be_missing() {
    let only_platform = Config { embedding_key: None, store_url: None, store_key: None, platform_key: Some("pk".to_string()) };
    assert!(matches!(
        begin(Strategy::Direct, request(Operation::VideoSearch, "q"), &only_platform),
        Step::Call { stage: Stage::Search { .. }, .. }
    ));
    let nothing = Config { embedding_key: None, store_url: None, store_key: None, platform_key: None };
    assert!(matches!(
        begin(Strategy::Direct, request(Operation::Transcript, "https://youtu.be/dQw4w9WgXcQ"), &nothing),
        Step::Call { stage: Stage::Transcript { .. }, .. }
    ));
    assert!(matches!(
        begin(Strategy::Delegated, request(Operation::SimilaritySearch, "q"), &nothing),
        Step::Call { stage: Stage::Process { .. }, .. }
    ));
}

#[test]
fn transcript_names_the_video_it_belongs_to() {
    assert_eq!(route(Method::Post, "/api/transcript"), Some(Endpoint::Api(Operation::Transcript)));
    let first = begin(
        Strategy::Direct,
        request(Operation::Transcript, "https://www.youtube.com/watch?v=dQw4w9WgXcQ"),
        &full_config(),
    );
    let (outcome, calls) = play(first, vec![Event::Finished(Ok("never gonna give you up".to_string()))]);
    assert_eq!(calls, vec![Action::Transcribe { video_id: "dQw4w9WgXcQ".to_string() }]);
    assert_eq!(
        outcome,
        Ok(Payload::Transcript(TranscriptResult {
            video_id: "dQw4w9WgXcQ".to_string(),
            transcript: "never gonna give you up".to_string(),
        }))
    );
    let envelope = ResponseEnvelope::of_outcome(outcome);
    assert!(envelope.success);
    assert_eq!(envelope.error, None);
}

#[test]
fn transcript_that_cannot_be_extracted_is_an_error() {
    let first = begin(Strategy::Direct, request(Operation::Transcript, "https://youtu.be/dQw4w9WgXcQ"), &full_config());
    let (outcome, _) = play(first, vec![Event::Finished(Err("not yet implemented".to_string()))]);
    assert_eq!(outcome, Err(ServiceError::Extraction("not yet implemented".to_string())));
    assert_eq!(
        ResponseEnvelope::of_outcome(outcome).error,
        Some("Transcript Error: not yet implemented".to_string())
    );
}

#[test]
fn transcript_refuses_an_address_without_identifier() {
    let first = begin(Strategy::Direct, request(Operation::Transcript, "https://www.youtube.com/watch?v=short"), &full_config());
    assert_eq!(first, Step::Done(Err(ServiceError::InvalidUrl)));
}

#[test]
fn save_channel_hands_the_channel_to_the_persistence_step() {
    let first = begin(Strategy::Direct, request(Operation::SaveChannel, "UC1"), &full_config());
    let (outcome, calls) = play(first, vec![Event::Finished(Ok("stored 12 videos".to_string()))]);
    assert_eq!(calls, vec![Action::Persist { channel_id: "UC1".to_string() }]);
    assert_eq!(outcome, Ok(Payload::Saved("stored 12 videos".to_string())));
    let first = begin(Strategy::Direct, request(Operation::SaveChannel, "UC1"), &full_config());
    let (outcome, _) = play(first, vec![Event::Finished(Err("not yet implemented".to_string()))]);
    assert_eq!(outcome, Err(ServiceError::Persistence("not yet implemented".to_string())));
}

#[test]
fn delegated_request_is_one_run_of_the_interpreter() {
    for operation in [
        Operation::SimilaritySearch,
        Operation::VideoSearch,
        Operation::ChannelInfo,
        Operation::SaveChannel,
        Operation::Transcript,
    ] {
        let first = begin(Strategy::Delegated, request(operation, "input"), &full_config());
        assert_eq!(
            first,
            Step::Call { stage: Stage::Process { operation }, action: Action::Run(command(operation, "input")) }
        );
    }
}

#[test]
fn delegated_transcript_passes_the_document_on() {
    let first = begin(
        Strategy::Delegated,
        request(Operation::Transcript, "https://www.youtube.com/watch?v=dQw4w9WgXcQ"),
        &full_config(),
    );
    let stdout = "{\"result\": {\"video_id\": \"dQw4w9WgXcQ\", \"transcript\": \"never gonna\"}}\n";
    let exited = Event::Exited(ProcessOutput { success: true, stdout: stdout.as_bytes().to_vec(), stderr: Vec::new() });
    let (outcome, calls) = play(first, vec![exited]);
    assert_eq!(calls.len(), 1);
    assert_eq!(
        outcome,
        Ok(Payload::Document(object(vec![("transcript", text("never gonna")), ("video_id", text("dQw4w9WgXcQ"))])))
    );
}

#[test]
fn delegated_failure_is_reported_with_the_error_stream() {
    let first = begin(Strategy::Delegated, request(Operation::VideoSearch, "rust"), &full_config());
    let exited = Event::Exited(ProcessOutput { success: false, stdout: b"partial".to_vec(), stderr: b"boom".to_vec() });
    let (outcome, _) = play(first, vec![exited]);
    assert_eq!(
        outcome,
        Err(ServiceError::Delegation { stderr: "boom".to_string(), stdout: "partial".to_string() })
    );
}

#[test]
fn a_call_that_cannot_be_made_ends_the_request() {
    for operation in [Operation::SimilaritySearch, Operation::VideoSearch, Operation::SaveChannel] {
        for strategy in [Strategy::Direct, Strategy::Delegated] {
            let first = begin(strategy, request(operation, "q"), &full_config());
            let (outcome, calls) = play(first, vec![Event::Unreachable("connection refused".to_string())]);
            assert_eq!(calls.len(), 1);
            assert_eq!(outcome, Err(ServiceError::Transport("connection refused".to_string())));
        }
    }
}

#[test]
fn an_answer_of_the_wrong_kind_ends_the_request() {
    let misfit = Step::Done(Err(ServiceError::Transport("the answer does not fit the call".to_string())));
    assert_eq!(resume(Stage::Matches, Event::Finished(Ok("x".to_string()))), misfit);
    assert_eq!(resume(Stage::Persistence, reply(200, "[]")), misfit);
    assert_eq!(resume(Stage::Transcript { video_id: "v".to_string() }, reply(200, "[]")), misfit);
    assert_eq!(resume(Stage::Process { operation: Operation::Transcript }, reply(200, "{}")), misfit);
    assert_eq!(
        resume(Stage::Details, Event::Exited(ProcessOutput { success: true, stdout: Vec::new(), stderr: Vec::new() })),
        misfit
    );
    assert_eq!(
        resume(Stage::Process { operation: Operation::Transcript }, Event::Finished(Ok("x".to_string()))),
        misfit
    );
}

#[test]
fn routes_lead_to_their_endpoints() {
    assert_eq!(route(Method::Get, "/"), Some(Endpoint::Root));
    assert_eq!(route(Method::Get, "/health"), Some(Endpoint::Health));
    for (path, operation) in [
        ("/api/search", Operation::SimilaritySearch),
        ("/api/search-similar", Operation::SimilaritySearch),
        ("/api/youtube/search", Operation::VideoSearch),
        ("/api/search-youtube", Operation::VideoSearch),
        ("/api/channel/info", Operation::ChannelInfo),
        ("/api/channel-info", Operation::ChannelInfo),
        ("/api/channel/save", Operation::SaveChannel),
        ("/api/save-channel", Operation::SaveChannel),
        ("/api/transcript", Operation::Transcript),
    ] {
        assert_eq!(route(Method::Post, path), Some(Endpoint::Api(operation)));
        assert_eq!(route(Method::Get, path), None);
    }
}

#[test]
fn other_addresses_lead_nowhere() {
    assert_eq!(route(Method::Post, "/"), None);
    assert_eq!(route(Method::Post, "/health"), None);
    assert_eq!(route(Method::Get, "/api"), None);
    assert_eq!(route(Method::Post, "/api/search/"), None);
    assert_eq!(route(Method::Post, "/API/SEARCH"), None);
    assert_eq!(route(Method::Post, ""), None);
}

#[test]
fn health_reports_status_time_and_version() {
    assert_eq!(
        health("2024-05-01T12:00:00Z".to_string()),
        HealthReport {
            status: "healthy".to_string(),
            timestamp: "2024-05-01T12:00:00Z".to_string(),
            version: "1.0.0".to_string(),
        }
    );
}
