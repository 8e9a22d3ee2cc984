use yada_core::service::{
    normalize_base_url, responses_url, rewrite_from_response, transcript_from_response,
    transcriptions_url, ServiceError,
};

#[test]
fn base_url_trailing_slashes_removed() {
    assert_eq!(normalize_base_url("https://api.openai.com//"), "https://api.openai.com");
    assert_eq!(normalize_base_url("http://h/x"), "http://h/x");
    assert_eq!(normalize_base_url("///"), "");
}

#[test]
fn endpoints() {
    assert_eq!(transcriptions_url("http://h"), "http://h/v1/audio/transcriptions");
    assert_eq!(responses_url("http://h"), "http://h/v1/responses");
}

#[test]
fn transcription_status_error_keeps_status_and_body() {
    match transcript_from_response(401, "unauthorized".to_string()) {
        Err(ServiceError::Status { code, body }) => {
            assert_eq!(code, 401);
            assert_eq!(body, "unauthorized");
        }
        _ => panic!("expected a status error"),
    }
}

#[test]
fn transcription_text_field() {
    assert_eq!(
        transcript_from_response(200, "{\"text\":\"hello there\"}".to_string()).ok(),
        Some("hello there".to_string())
    );
    assert_eq!(transcript_from_response(200, "{}".to_string()).ok(), Some(String::new()));
    assert_eq!(transcript_from_response(200, "{\"text\":3}".to_string()).ok(), Some(String::new()));
}

#[test]
fn transcription_malformed_body() {
    assert!(matches!(
        transcript_from_response(200, "not json".to_string()),
        Err(ServiceError::MalformedBody(_))
    ));
}

#[test]
fn rewrite_prefers_output_text() {
    let body = "{\"output_text\":\"Done.\",\"output\":[{\"content\":[{\"text\":\"x\"}]}]}";
    assert_eq!(rewrite_from_response(200, body.to_string()).ok(), Some("Done.".to_string()));
}

#[test]
fn rewrite_concatenates_output_parts_in_order() {
    let body = "{\"output\":[{\"type\":\"reasoning\"},{\"content\":[{\"text\":\"Hello, \"},{\"kind\":1},{\"text\":\"world\"}]},{\"content\":[{\"text\":\".\"}]}]}";
    assert_eq!(rewrite_from_response(200, body.to_string()).ok(), Some("Hello, world.".to_string()));
    assert_eq!(rewrite_from_response(200, "{}".to_string()).ok(), Some(String::new()));
}

#[test]
fn rewrite_errors() {
    assert!(matches!(
        rewrite_from_response(500, "oops".to_string()),
        Err(ServiceError::Status { code: 500, .. })
    ));
    assert!(matches!(
        rewrite_from_response(204, "".to_string()),
        Err(ServiceError::MalformedBody(_))
    ));
}
