//! Recording-session core of a push-to-talk dictation daemon.
//!
//! - `mixdown`: turns interleaved device samples into mono 16-bit PCM.
//! - `capture`: the capture worker's decisions and the last-capture-error slot.
//! - `session`: the session coordinator's recording flag and the
//!   encode, transcribe, rewrite pipeline that ends a session.
//! - `wav`: the RIFF/WAVE container the recording is sent in.
//! - `service`: service endpoints and what their responses yield.
//! - `config`: the service settings and their defaults.
pub mod capture;
pub mod config;
pub mod mixdown;
pub mod service;
pub mod session;
pub mod wav;

use vstd::prelude::*;

verus! {

pub const DEFAULT_TRANSCRIBE_MODEL: &'static str = "gpt-4o-transcribe";

pub const DEFAULT_REWRITE_MODEL: &'static str = "gpt-5-mini";

pub const DEFAULT_REWRITE_PROMPT: &'static str =
    "Rewrite the text with correct punctuation and capitalization. Preserve meaning. Return plain text only.";

} // verus!
