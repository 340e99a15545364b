use music_backend::error::{ErrorKind, NetworkStage};
use music_backend::fetcher::{
    decide_on_head, finish_fetch, is_supported, plan_request, resolve_content_type, AudioPayload,
    HeadDecision, SendOutcome, FETCH_TIMEOUT_SECS,
};

fn head(content_type: Option<&str>) -> SendOutcome {
    SendOutcome::Head { content_type: content_type.map(|text| text.to_string()) }
}

fn accepted_type(decision: HeadDecision) -> String {
    match decision {
        HeadDecision::ReadBody { content_type } => content_type,
        HeadDecision::Fail { error } => panic!("the head was refused: {:?}", error),
    }
}

#[test]
fn request_keeps_the_url_and_sets_sixty_seconds() {
    let request = plan_request("https://example.com/track.mp3".to_string());
    assert_eq!(request.url, "https://example.com/track.mp3");
    assert_eq!(request.timeout_secs, 60);
    assert_eq!(FETCH_TIMEOUT_SECS, 60);
}

#[test]
fn request_does_not_validate_the_url() {
    let request = plan_request("not a url".to_string());
    assert_eq!(request.url, "not a url");
}

#[test]
fn audio_mpeg_returns_the_exact_bytes() {
    let body: Vec<u8> = vec![0x49, 0x44, 0x33, 0x00, 0xff, 0xfb];
    let content_type = accepted_type(decide_on_head(head(Some("audio/mpeg"))));
    let result = finish_fetch(content_type, Ok(body.clone()));
    assert_eq!(
        result,
        Ok(AudioPayload { content_type: "audio/mpeg".to_string(), data: body })
    );
}

#[test]
fn text_html_is_unsupported() {
    let decision = decide_on_head(head(Some("text/html")));
    let expected =
        ErrorKind::UnsupportedFormatError { content_type: "text/html".to_string() };
    assert_eq!(decision, HeadDecision::Fail { error: expected.clone() });
    assert!(expected.message().contains("text/html"));
    assert_eq!(expected.message(), "Unsupported audio format: text/html");
}

#[test]
fn missing_content_type_counts_as_audio_mpeg() {
    let decision = decide_on_head(head(None));
    assert_eq!(decision, HeadDecision::ReadBody { content_type: "audio/mpeg".to_string() });
    let result = finish_fetch(accepted_type(decision), Ok(vec![1, 2, 3]));
    assert_eq!(
        result,
        Ok(AudioPayload { content_type: "audio/mpeg".to_string(), data: vec![1, 2, 3] })
    );
}

#[test]
fn unreachable_host_is_a_network_error() {
    let outcome = SendOutcome::SendFailed { cause: "connection refused".to_string() };
    let expected = ErrorKind::NetworkError {
        stage: NetworkStage::SendRequest,
        cause: "connection refused".to_string(),
    };
    assert_eq!(decide_on_head(outcome), HeadDecision::Fail { error: expected.clone() });
    assert_eq!(expected.message(), "Failed to send request: connection refused");
}

#[test]
fn client_failure_is_a_network_error() {
    let outcome = SendOutcome::ClientFailed { cause: "no TLS backend".to_string() };
    let expected = ErrorKind::NetworkError {
        stage: NetworkStage::BuildClient,
        cause: "no TLS backend".to_string(),
    };
    assert_eq!(decide_on_head(outcome), HeadDecision::Fail { error: expected.clone() });
    assert_eq!(expected.message(), "Failed to build HTTP client: no TLS backend");
}

#[test]
fn body_failure_is_a_network_error() {
    let result = finish_fetch("audio/ogg".to_string(), Err("timed out".to_string()));
    let expected =
        ErrorKind::NetworkError { stage: NetworkStage::ReadBody, cause: "timed out".to_string() };
    assert_eq!(result, Err(expected.clone()));
    assert_eq!(expected.message(), "Failed to read audio response: timed out");
}

#[test]
fn empty_body_is_a_success() {
    let result = finish_fetch("audio/wav".to_string(), Ok(Vec::new()));
    assert_eq!(result, Ok(AudioPayload { content_type: "audio/wav".to_string(), data: Vec::new() }));
}

#[test]
fn resolve_keeps_a_declared_type() {
    assert_eq!(resolve_content_type(Some("text/plain".to_string())), "text/plain");
    assert_eq!(resolve_content_type(Some(String::new())), "");
    assert_eq!(resolve_content_type(None), "audio/mpeg");
}

#[test]
fn audio_prefix_is_accepted() {
    assert!(is_supported("audio/mpeg"));
    assert!(is_supported("audio/flac"));
    assert!(is_supported("audio/"));
    assert!(is_supported("audio/ogg; codecs=opus"));
}

#[test]
fn the_one_literal_besides_is_accepted() {
    assert!(is_supported("application/octet-stream;charset=UTF-8"));
}

#[test]
fn near_misses_are_refused() {
    assert!(!is_supported("application/octet-stream"));
    assert!(!is_supported("application/octet-stream;charset=utf-8"));
    assert!(!is_supported("application/octet-stream; charset=UTF-8"));
    assert!(!is_supported("application/octet-stream;charset=UTF-8 "));
    assert!(!is_supported("Audio/mpeg"));
    assert!(!is_supported("audio"));
    assert!(!is_supported(" audio/mpeg"));
    assert!(!is_supported("video/mp4"));
    assert!(!is_supported(""));
}

#[test]
fn refused_type_is_named_as_it_was_declared() {
    let decision = decide_on_head(head(Some("Application/JSON; q=1")));
    assert_eq!(
        decision,
        HeadDecision::Fail {
            error: ErrorKind::UnsupportedFormatError {
                content_type: "Application/JSON; q=1".to_string()
            }
        }
    );
}

#[test]
fn non_ascii_content_type_is_compared_by_characters() {
    assert!(is_supported("audio/m\u{e9}peg"));
    assert!(!is_supported("\u{e9}audio/mpeg"));
}
