use vstd::prelude::*;
use vstd::string::StringExecFns;

verus! {

/// Audio format of a capture session, fixed when the stream opens.
#[derive(Debug, Clone, Copy, PartialEq, Eq, Structural)]
pub struct CapturedAudioFormat {
    pub sample_rate_hz: u32,
}

/// The audio of one start-to-stop interval: mono 16-bit samples in capture order.
pub struct CapturedAudio {
    pub sample_rate_hz: u32,
    pub samples_pcm16_mono: Vec<i16>,
}

/// Sample rate reported by a stop that had no open capture: there is no format.
pub const IDLE_SAMPLE_RATE_HZ: u32 = 0;

/// Why the capture engine could not start.
pub enum CaptureError {
    DeviceUnavailable,
    ConfigurationError(String),
    UnsupportedFormat(String),
    StreamStartError(String),
}

pub open spec fn capture_error_text(e: CaptureError) -> Seq<char> {
    match e {
        CaptureError::DeviceUnavailable => "no default input device"@,
        CaptureError::ConfigurationError(d) => "failed to get default input config: "@ + d@,
        CaptureError::UnsupportedFormat(d) => "unsupported sample format: "@ + d@,
        CaptureError::StreamStartError(d) => "failed to start input stream: "@ + d@,
    }
}

/// What a failed start leaves in the last-error slot.
pub open spec fn start_failure_text(e: CaptureError) -> Seq<char> {
    "capture start failed: "@ + capture_error_text(e)
}

impl CaptureError {
    /// The message of this error.
    pub fn message(&self) -> (r: String)
        ensures
            r@ == capture_error_text(*self),
    {
        match self {
            CaptureError::DeviceUnavailable => String::from_str("no default input device"),
            CaptureError::ConfigurationError(d) => {
                let mut s = String::from_str("failed to get default input config: ");
                s.append(d.as_str());
                s
            },
            CaptureError::UnsupportedFormat(d) => {
                let mut s = String::from_str("unsupported sample format: ");
                s.append(d.as_str());
                s
            },
            CaptureError::StreamStartError(d) => {
                let mut s = String::from_str("failed to start input stream: ");
                s.append(d.as_str());
                s
            },
        }
    }
}

/// The last-capture-error slot: set by failed starts and by asynchronous
/// stream errors, read and cleared by the stop that follows.
pub struct SharedCaptureError {
    pub last: Option<String>,
}

impl SharedCaptureError {
    pub fn new() -> (r: Self)
        ensures
            r.last is None,
    {
        SharedCaptureError { last: None }
    }

    /// Overwrites the slot with `s`.
    pub fn set(&mut self, s: String)
        ensures
            final(self).last == Some(s),
    {
        self.last = Some(s);
    }

    /// Returns what the slot held and leaves it empty.
    pub fn take(&mut self) -> (r: Option<String>)
        ensures
            r == old(self).last,
            final(self).last is None,
    {
        let r = self.last.take();
        r
    }
}

/// The reply to a stop that had no open capture: no samples, at the idle rate.
pub open spec fn is_idle_reply(a: CapturedAudio) -> bool {
    a.sample_rate_hz == IDLE_SAMPLE_RATE_HZ && a.samples_pcm16_mono@.len() == 0
}

/// The reply to a stop that closed a capture with `samples` at `rate` while
/// the last-error slot held `pending`: an empty buffer with a pending error
/// reports that error; otherwise the samples are handed on.
pub open spec fn is_stop_reply(
    rate: u32,
    samples: Seq<i16>,
    pending: Option<String>,
    r: Result<CapturedAudio, String>,
) -> bool {
    if samples.len() == 0 && pending is Some {
        r == Err::<CapturedAudio, String>(pending->Some_0)
    } else {
        r is Ok && r->Ok_0.sample_rate_hz == rate && r->Ok_0.samples_pcm16_mono@ == samples
    }
}

/// Whether a start request must open the device: only when no capture is open.
pub open spec fn start_opens_device(open: bool) -> bool {
    !open
}

/// The capture worker's state: the handle of the open capture, if any. All
/// device access goes through one value of this type, one command at a time.
pub struct CaptureActor<H> {
    pub handle: Option<H>,
}

impl<H> CaptureActor<H> {
    pub fn new() -> (r: Self)
        ensures
            r.handle is None,
    {
        CaptureActor { handle: None }
    }

    pub fn is_open(&self) -> (r: bool)
        ensures
            r == self.handle is Some,
    {
        self.handle.is_some()
    }

    /// Decides a start request: `true` when the engine must be started, `false`
    /// when a capture is already open and the reply is success at once.
    pub fn begin_start(&self) -> (r: bool)
        ensures
            r == start_opens_device(self.handle is Some),
    {
        self.handle.is_none()
    }

    /// Completes a start request with the engine's result: a new handle is kept;
    /// a failure is recorded in `errors` and becomes the reply.
    pub fn finish_start(&mut self, result: Result<H, CaptureError>, errors: &mut SharedCaptureError) -> (r:
        Result<(), String>)
        requires
            old(self).handle is None,
        ensures
            match result {
                Ok(h) => {
                    &&& r is Ok
                    &&& final(self).handle == Some(h)
                    &&& final(errors).last == old(errors).last
                },
                Err(e) => {
                    &&& r is Err
                    &&& r->Err_0@ == capture_error_text(e)
                    &&& final(self).handle is None
                    &&& final(errors).last is Some
                    &&& final(errors).last->Some_0@ == start_failure_text(e)
                },
            },
    {
        match result {
            Ok(h) => {
                self.handle = Some(h);
                Ok(())
            },
            Err(e) => {
                let msg = e.message();
                let mut recorded = String::from_str("capture start failed: ");
                recorded.append(msg.as_str());
                errors.set(recorded);
                Err(msg)
            },
        }
    }

    /// Begins a stop request: hands out the open capture's handle, if any, and
    /// leaves no capture open.
    pub fn begin_stop(&mut self) -> (r: Option<H>)
        ensures
            r == old(self).handle,
            final(self).handle is None,
    {
        self.handle.take()
    }
}

/// The reply to a stop with nothing open: not an error, just no audio.
pub fn idle_stop() -> (r: CapturedAudio)
    ensures
        is_idle_reply(r),
{
    CapturedAudio { sample_rate_hz: IDLE_SAMPLE_RATE_HZ, samples_pcm16_mono: Vec::new() }
}

/// Completes a stop request with the closed capture's format and samples.
/// The last-error slot is always left empty: an error it held is reported
/// when the buffer is empty, and superseded by the audio otherwise.
pub fn finish_stop(format: CapturedAudioFormat, samples: Vec<i16>, errors: &mut SharedCaptureError) -> (r:
    Result<CapturedAudio, String>)
    ensures
        is_stop_reply(format.sample_rate_hz, samples@, old(errors).last, r),
        final(errors).last is None,
{
    let pending = errors.take();
    if samples.len() == 0 {
        if let Some(e) = pending {
            return Err(e);
        }
    }
    Ok(CapturedAudio { sample_rate_hz: format.sample_rate_hz, samples_pcm16_mono: samples })
}

} // verus!
