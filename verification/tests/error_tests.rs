use youtube_search_api::config::Config;
use youtube_search_api::error::{ServiceError, Setting};
use youtube_search_api::response::{Payload, ResponseEnvelope};

#[test]
fn configuration_error_names_the_setting_in_words() {
    let e = ServiceError::Configuration(Setting::EmbeddingKey);
    assert_eq!(e.category(), "Configuration Error");
    assert_eq!(e.message(), "the embedding provider credential is not set");
    assert_eq!(e.line(), "Configuration Error: the embedding provider credential is not set");
    assert_eq!(
        ServiceError::Configuration(Setting::StoreUrl).message(),
        "the vector store address is not set"
    );
    assert_eq!(
        ServiceError::Configuration(Setting::StoreKey).message(),
        "the vector store credential is not set"
    );
    assert_eq!(
        ServiceError::Configuration(Setting::PlatformKey).message(),
        "the video platform credential is not set"
    );
}

#[test]
fn status_errors_keep_the_status() {
    assert_eq!(
        ServiceError::EmbeddingStatus(401).line(),
        "Embedding Error: the embedding provider answered with status 401"
    );
    assert_eq!(
        ServiceError::VectorSearchStatus(500).line(),
        "Vector Search Error: the vector store answered with status 500"
    );
    assert_eq!(
        ServiceError::PlatformStatus(403).line(),
        "Platform Error: the video platform answered with status 403"
    );
}

#[test]
fn every_error_has_category_and_message() {
    let cases = vec![
        (ServiceError::EmbeddingParse, "Embedding Error", "the embedding provider's answer holds no vector"),
        (ServiceError::VectorSearchParse, "Vector Search Error", "the vector store's answer is no list of rows"),
        (ServiceError::PlatformMalformed, "Platform Error", "the video platform's answer is no list of items"),
        (ServiceError::ChannelIdNotFound, "Platform Error", "Channel ID not found"),
        (ServiceError::InvalidUrl, "Invalid URL", "no video identifier stands in the address"),
        (
            ServiceError::Delegation { stderr: "boom".to_string(), stdout: "out".to_string() },
            "Python 함수 실행 오류",
            "boom",
        ),
        (ServiceError::DelegationOutput("bad token".to_string()), "JSON 파싱 오류", "bad token"),
        (
            ServiceError::DelegationEncoding,
            "Delegation Error",
            "the delegated process wrote bytes that are no UTF-8",
        ),
        (ServiceError::Transport("connection refused".to_string()), "Transport Error", "connection refused"),
        (ServiceError::Extraction("no captions".to_string()), "Transcript Error", "no captions"),
        (ServiceError::Persistence("disk full".to_string()), "Persistence Error", "disk full"),
    ];
    for (error, category, message) in cases {
        assert_eq!(error.category(), category);
        assert_eq!(error.message(), message);
        assert_eq!(error.line(), format!("{}: {}", category, message));
    }
}

#[test]
fn envelope_of_a_payload() {
    let r = ResponseEnvelope::of_payload(Payload::Saved("done".to_string()));
    assert_eq!(r, ResponseEnvelope { success: true, data: Some(Payload::Saved("done".to_string())), error: None });
    assert_eq!(r.status(), 200);
}

#[test]
fn envelope_of_an_error() {
    let r = ResponseEnvelope::of_error(&ServiceError::InvalidUrl);
    assert_eq!(
        r,
        ResponseEnvelope {
            success: false,
            data: None,
            error: Some("Invalid URL: no video identifier stands in the address".to_string())
        }
    );
    assert_eq!(r.status(), 500);
}

#[test]
fn envelope_of_an_outcome_holds_exactly_one_of_the_two() {
    let ok = ResponseEnvelope::of_outcome(Ok(Payload::Saved("done".to_string())));
    assert!(ok.success && ok.data.is_some() && ok.error.is_none());
    let failed = ResponseEnvelope::of_outcome(Err(ServiceError::ChannelIdNotFound));
    assert!(!failed.success && failed.data.is_none());
    assert_eq!(failed.error, Some("Platform Error: Channel ID not found".to_string()));
    assert_eq!(failed.status(), 500);
}

#[test]
fn resolve_gives_the_value_that_is_there() {
    let config = Config {
        embedding_key: Some("ek".to_string()),
        store_url: Some("https://store.example".to_string()),
        store_key: Some("sk".to_string()),
        platform_key: Some("pk".to_string()),
    };
    assert_eq!(config.resolve(Setting::EmbeddingKey), Ok("ek".to_string()));
    assert_eq!(config.resolve(Setting::StoreUrl), Ok("https://store.example".to_string()));
    assert_eq!(config.resolve(Setting::StoreKey), Ok("sk".to_string()));
    assert_eq!(config.resolve(Setting::PlatformKey), Ok("pk".to_string()));
}

#[test]
fn resolve_names_the_setting_that_is_missing() {
    let config = Config { embedding_key: None, store_url: None, store_key: Some(String::new()), platform_key: None };
    assert_eq!(config.resolve(Setting::EmbeddingKey), Err(ServiceError::Configuration(Setting::EmbeddingKey)));
    assert_eq!(config.resolve(Setting::StoreUrl), Err(ServiceError::Configuration(Setting::StoreUrl)));
    assert_eq!(config.resolve(Setting::StoreKey), Ok(String::new()));
    assert_eq!(config.resolve(Setting::PlatformKey), Err(ServiceError::Configuration(Setting::PlatformKey)));
}

#[test]
fn a_configuration_error_never_shows_a_value() {
    let config = Config {
        embedding_key: None,
        store_url: Some("https://secret.example".to_string()),
        store_key: Some("secret-key".to_string()),
        platform_key: None,
    };
    let line = config.resolve(Setting::EmbeddingKey).unwrap_err().line();
    assert!(!line.contains("secret"));
    assert!(!line.contains("KEY"));
}
