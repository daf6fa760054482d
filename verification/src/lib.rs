//! Verified core of a video-to-text pipeline: audio extraction decisions,
//! submission and status-check decision logic for a remote speech-recognition
//! service, the polling state machine, and transcript aggregation.
//!
//! All I/O (the transcoding subprocess, HTTP requests, timers) lives outside
//! this crate; the functions here decide, from plain values handed in by the
//! caller, what each outcome of the pipeline means.

use vstd::prelude::*;

pub mod aggregate;
pub mod audio;
pub mod client;
pub mod errors;
pub mod poller;
pub mod text;
pub mod transcript;

verus! {

/// Caller-resolved configuration for one run of the pipeline: no global or
/// environment state is read by the core.
pub struct RunConfig {
    pub api_key: String,
    pub video_path: String,
    pub audio_path: String,
    pub language_code: String,
}

} // verus!
