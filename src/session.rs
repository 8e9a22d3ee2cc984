use vstd::prelude::*;
use vstd::string::StringExecFns;

use crate::capture::{
    CapturedAudio,
    is_idle_reply,
    is_stop_reply,
    start_opens_device,
};
use crate::service::ServiceError;
use crate::wav::{encode_wav_pcm16_mono, wav_bytes, MAX_WAV_SAMPLES};

verus! {

/// A failure reported to the caller of a session operation, naming the stage.
pub enum SessionError {
    CaptureStartFailed(String),
    CaptureFailed(String),
    EncodeFailure,
    MissingCredential,
    TranscriptionFailed(ServiceError),
    RewriteFailed(ServiceError),
}

/// The two control operations.
pub enum SessionOp {
    Begin,
    End,
}

/// The recording flag after one operation: set by a begin, cleared by an end,
/// whatever the operation's outcome.
pub open spec fn flag_after(recording: bool, op: SessionOp) -> bool {
    match op {
        SessionOp::Begin => true,
        SessionOp::End => false,
    }
}

/// The recording flag after a sequence of operations.
pub open spec fn flag_after_all(recording: bool, ops: Seq<SessionOp>) -> bool
    decreases ops.len(),
{
    if ops.len() == 0 {
        recording
    } else {
        flag_after(flag_after_all(recording, ops.drop_last()), ops.last())
    }
}

/// Whether a begin sends a start request to the capture worker.
pub open spec fn begin_sends_start(recording: bool) -> bool {
    !recording
}

/// The session coordinator's state: the recording flag.
pub struct SessionCoordinator {
    pub recording: bool,
}

impl SessionCoordinator {
    pub fn new() -> (r: Self)
        ensures
            !r.recording,
    {
        SessionCoordinator { recording: false }
    }

    /// Begins a session. Returns `true` when a start request must be sent to
    /// the capture worker, `false` when a session is already active. The flag
    /// is set either way, and stays set if the start then fails.
    pub fn begin_session(&mut self) -> (send_start: bool)
        ensures
            send_start == begin_sends_start(old(self).recording),
            final(self).recording == flag_after(old(self).recording, SessionOp::Begin),
    {
        if self.recording {
            return false;
        }
        self.recording = true;
        true
    }

    /// Ends a session: clears the flag. A stop request is always sent next.
    pub fn end_session(&mut self)
        ensures
            final(self).recording == flag_after(old(self).recording, SessionOp::End),
    {
        self.recording = false;
    }

    /// Liveness probe, independent of the session state.
    pub fn ping(&self) -> (r: String)
        ensures
            r@ == "pong"@,
    {
        String::from_str("pong")
    }
}

/// Maps the capture worker's reply to a start request.
pub fn start_reply(reply: Result<(), String>) -> (r: Result<(), SessionError>)
    ensures
        match reply {
            Ok(()) => r is Ok,
            Err(e) => r == Err::<(), SessionError>(SessionError::CaptureStartFailed(e)),
        },
{
    match reply {
        Ok(()) => Ok(()),
        Err(e) => Err(SessionError::CaptureStartFailed(e)),
    }
}

/// What an ending session does next.
pub enum PipelineStep {
    /// Return this text.
    Finished(String),
    /// Send this container to the transcription service.
    Transcribe(Vec<u8>),
    /// Send this transcript to the rewrite service.
    Rewrite(String),
    /// Return this error.
    Failed(SessionError),
}

/// The step after the capture worker's stop reply: a failed capture fails the
/// session, an empty recording finishes with empty text, and audio is encoded
/// for transcription.
pub open spec fn is_capture_step(captured: Result<CapturedAudio, String>, r: PipelineStep) -> bool {
    match captured {
        Err(e) => r == PipelineStep::Failed(SessionError::CaptureFailed(e)),
        Ok(a) => if a.samples_pcm16_mono@.len() == 0 {
            r is Finished && r->Finished_0@.len() == 0
        } else if a.samples_pcm16_mono@.len() <= MAX_WAV_SAMPLES {
            r is Transcribe && r->Transcribe_0@ == wav_bytes(a.samples_pcm16_mono@, a.sample_rate_hz)
        } else {
            r == PipelineStep::Failed(SessionError::EncodeFailure)
        },
    }
}

/// The step after the transcription service answered: a transcript goes to
/// the rewrite service, a failure ends the session.
pub open spec fn is_transcription_step(result: Result<String, ServiceError>, r: PipelineStep) -> bool {
    match result {
        Ok(t) => r == PipelineStep::Rewrite(t),
        Err(e) => r == PipelineStep::Failed(SessionError::TranscriptionFailed(e)),
    }
}

/// The step after the rewrite service answered.
pub open spec fn is_rewrite_step(result: Result<String, ServiceError>, r: PipelineStep) -> bool {
    match result {
        Ok(t) => r == PipelineStep::Finished(t),
        Err(e) => r == PipelineStep::Failed(SessionError::RewriteFailed(e)),
    }
}

/// Decides the step after the capture worker's stop reply, encoding the audio
/// when there is some.
pub fn after_capture(captured: Result<CapturedAudio, String>) -> (r: PipelineStep)
    ensures
        is_capture_step(captured, r),
{
    match captured {
        Err(e) => PipelineStep::Failed(SessionError::CaptureFailed(e)),
        Ok(a) => {
            if a.samples_pcm16_mono.len() == 0 {
                PipelineStep::Finished(String::new())
            } else if a.samples_pcm16_mono.len() <= MAX_WAV_SAMPLES {
                let wav = encode_wav_pcm16_mono(a.samples_pcm16_mono.as_slice(), a.sample_rate_hz);
                PipelineStep::Transcribe(wav)
            } else {
                PipelineStep::Failed(SessionError::EncodeFailure)
            }
        },
    }
}

/// Decides the step after the transcription service answered.
pub fn after_transcription(result: Result<String, ServiceError>) -> (r: PipelineStep)
    ensures
        is_transcription_step(result, r),
{
    match result {
        Ok(t) => PipelineStep::Rewrite(t),
        Err(e) => PipelineStep::Failed(SessionError::TranscriptionFailed(e)),
    }
}

/// Decides the step after the rewrite service answered.
pub fn after_rewrite(result: Result<String, ServiceError>) -> (r: PipelineStep)
    ensures
        is_rewrite_step(result, r),
{
    match result {
        Ok(t) => PipelineStep::Finished(t),
        Err(e) => PipelineStep::Failed(SessionError::RewriteFailed(e)),
    }
}

/// The service credential: absent is an error raised before any request.
pub fn require_credential(key: Option<String>) -> (r: Result<String, SessionError>)
    ensures
        match key {
            Some(k) => r == Ok::<String, SessionError>(k),
            None => r == Err::<String, SessionError>(SessionError::MissingCredential),
        },
{
    match key {
        Some(k) => Ok(k),
        None => Err(SessionError::MissingCredential),
    }
}

/// After any sequence of begins and ends, the recording flag is set exactly
/// when the last operation was a begin, whatever the outcomes were.
pub proof fn lemma_flag_follows_last_call(recording: bool, ops: Seq<SessionOp>)
    requires
        ops.len() > 0,
    ensures
        flag_after_all(recording, ops) == (ops.last() is Begin),
{
}

/// Two begins in a row send at most one start request, and exactly one from
/// the idle state; a worker whose capture is open opens no second stream.
pub proof fn lemma_second_begin_opens_nothing(recording: bool)
    ensures
        !begin_sends_start(flag_after(recording, SessionOp::Begin)),
        !recording ==> begin_sends_start(recording),
        !start_opens_device(true),
{
}

/// An end while idle finds no open capture, gets the idle reply and finishes
/// with empty text, with no encode, transcribe or rewrite step.
pub proof fn lemma_idle_end_is_empty(reply: CapturedAudio, step: PipelineStep)
    requires
        is_idle_reply(reply),
        is_capture_step(Ok(reply), step),
    ensures
        step is Finished,
        step->Finished_0@.len() == 0,
        !flag_after(false, SessionOp::End),
{
}

/// A stop whose buffer is empty while a capture error is pending fails the
/// session with that error; a stop with audio hands the audio on for
/// transcription and the pending error is dropped.
pub proof fn lemma_callback_error_surfaces(
    rate: u32,
    samples: Seq<i16>,
    pending: Option<String>,
    reply: Result<CapturedAudio, String>,
    step: PipelineStep,
)
    requires
        is_stop_reply(rate, samples, pending, reply),
        is_capture_step(reply, step),
    ensures
        samples.len() == 0 && pending is Some ==> step == PipelineStep::Failed(
            SessionError::CaptureFailed(pending->Some_0),
        ),
        0 < samples.len() <= MAX_WAV_SAMPLES ==> step is Transcribe && step->Transcribe_0@
            == wav_bytes(samples, rate),
{
}

/// A failed transcription ends the session: the rewrite step never follows it.
pub proof fn lemma_failed_transcription_skips_rewrite(
    result: Result<String, ServiceError>,
    step: PipelineStep,
)
    requires
        result is Err,
        is_transcription_step(result, step),
    ensures
        !(step is Rewrite),
        step is Failed,
{
}

} // verus!
