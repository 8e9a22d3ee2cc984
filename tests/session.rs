use yada_core::capture::{idle_stop, CaptureActor, CapturedAudio, SharedCaptureError};
use yada_core::service::ServiceError;
use yada_core::session::{
    after_capture, after_rewrite, after_transcription, require_credential, start_reply,
    PipelineStep, SessionCoordinator, SessionError,
};

#[test]
fn flag_follows_last_call() {
    let mut c = SessionCoordinator::new();
    assert!(!c.recording);
    c.begin_session();
    assert!(c.recording);
    c.begin_session();
    assert!(c.recording);
    c.end_session();
    assert!(!c.recording);
    c.end_session();
    assert!(!c.recording);
    c.begin_session();
    assert!(c.recording);
}

#[test]
fn failed_start_keeps_flag_set() {
    let mut c = SessionCoordinator::new();
    assert!(c.begin_session());
    let r = start_reply(Err("no default input device".to_string()));
    assert!(matches!(r, Err(SessionError::CaptureStartFailed(ref m)) if m == "no default input device"));
    assert!(c.recording);
    assert!(start_reply(Ok(())).is_ok());
}

#[test]
fn two_begins_open_the_device_once() {
    let mut c = SessionCoordinator::new();
    let mut actor: CaptureActor<u8> = CaptureActor::new();
    let mut slot = SharedCaptureError::new();
    let mut opens = 0;
    for _ in 0..2 {
        if c.begin_session() && actor.begin_start() {
            opens += 1;
            actor.finish_start(Ok(0), &mut slot).unwrap();
        }
    }
    assert_eq!(opens, 1);
}

#[test]
fn end_while_idle_returns_empty_text() {
    let mut c = SessionCoordinator::new();
    let mut actor: CaptureActor<u8> = CaptureActor::new();
    c.end_session();
    assert!(!c.recording);
    assert!(actor.begin_stop().is_none());
    match after_capture(Ok(idle_stop())) {
        PipelineStep::Finished(t) => assert_eq!(t, ""),
        _ => panic!("expected an empty result"),
    }
}

#[test]
fn captured_audio_goes_to_transcription() {
    let a = CapturedAudio { sample_rate_hz: 8000, samples_pcm16_mono: vec![1, -1] };
    match after_capture(Ok(a)) {
        PipelineStep::Transcribe(w) => {
            assert_eq!(w.len(), 48);
            assert_eq!(&w[44..], &[1, 0, 255, 255]);
        }
        _ => panic!("expected a transcription step"),
    }
}

#[test]
fn capture_failure_fails_session() {
    match after_capture(Err("stream error".to_string())) {
        PipelineStep::Failed(SessionError::CaptureFailed(m)) => assert_eq!(m, "stream error"),
        _ => panic!("expected a capture failure"),
    }
}

#[test]
fn failed_transcription_never_rewrites() {
    let e = ServiceError::Status { code: 500, body: "down".to_string() };
    match after_transcription(Err(e)) {
        PipelineStep::Failed(SessionError::TranscriptionFailed(ServiceError::Status { code, body })) => {
            assert_eq!(code, 500);
            assert_eq!(body, "down");
        }
        _ => panic!("expected a transcription failure"),
    }
}

#[test]
fn transcript_goes_to_rewrite_then_finishes() {
    match after_transcription(Ok("hello world".to_string())) {
        PipelineStep::Rewrite(t) => assert_eq!(t, "hello world"),
        _ => panic!("expected a rewrite step"),
    }
    match after_rewrite(Ok("Hello, world.".to_string())) {
        PipelineStep::Finished(t) => assert_eq!(t, "Hello, world."),
        _ => panic!("expected a result"),
    }
    match after_rewrite(Err(ServiceError::Request("timeout".to_string()))) {
        PipelineStep::Failed(SessionError::RewriteFailed(ServiceError::Request(m))) => {
            assert_eq!(m, "timeout")
        }
        _ => panic!("expected a rewrite failure"),
    }
}

#[test]
fn missing_credential_fails_fast() {
    assert!(matches!(require_credential(None), Err(SessionError::MissingCredential)));
    assert_eq!(require_credential(Some("k".to_string())).ok(), Some("k".to_string()));
}

#[test]
fn ping_answers_pong() {
    let c = SessionCoordinator::new();
    assert_eq!(c.ping(), "pong");
}
