//! The submission and status-check stage: building the exact request texts
//! (URLs and JSON body) that go to the remote recognition service, and
//! deciding what each observed round-trip outcome means. The HTTP requests
//! themselves are issued outside this crate; each decision function here is
//! handed the plain values the I/O layer observed.

use vstd::prelude::*;

use crate::audio::AudioAsset;
use crate::audio::SampleFormat;
use crate::errors::PollError;
use crate::errors::SubmissionError;
use crate::text::decimal_string;
use crate::text::escape_json;
use crate::text::spec_decimal;
use crate::text::spec_escape;
use crate::transcript::TranscriptResult;

verus! {

/// Opaque identifier of one remote long-running operation, assigned by the
/// service at submission time. Immutable once created; a well-formed handle
/// never has an empty identifier.
#[derive(Debug, Clone, PartialEq, Eq)]
pub struct JobHandle {
    pub id: String,
}

impl JobHandle {
    /// A handle is well-formed when its identifier is non-empty.
    pub open spec fn wf(&self) -> bool {
        self.id@.len() > 0
    }
}

/// One status snapshot: the completion flag and, once done, the result
/// payload. Each status check produces a fresh snapshot; none is mutated
/// after construction.
#[derive(Debug, Clone, PartialEq, Eq)]
pub struct JobStatus {
    pub done: bool,
    pub result: Option<TranscriptResult>,
}

impl JobStatus {
    /// A snapshot of a job the remote side has not yet finished carries no
    /// result payload.
    pub open spec fn wf(&self) -> bool {
        !self.done ==> self.result is None
    }
}

/// A name for what `base64::encode` returns: the standard, padded base64
/// text of the input bytes. A function of the bytes alone, identical in
/// every process and on every machine.
pub uninterp spec fn base64_of(bytes: Seq<u8>) -> Seq<char>;

/// Relies on `base64::encode` (standard alphabet, with padding): the result
/// depends on the input bytes alone, and a padded encoding emits exactly
/// four characters for every three-byte block begun. `encode` panics when
/// that output length overflows `usize`, so the input is bounded.
#[verifier::external_body]
fn base64_encode(bytes: &Vec<u8>) -> (r: String)
    requires
        4 * ((bytes@.len() + 2) / 3) <= usize::MAX as nat,
    ensures
        r@ == base64_of(bytes@),
        r@.len() == 4 * ((bytes@.len() + 2) / 3),
{
    base64::encode(bytes)
}

/// The name under which the remote service knows `f`.
pub open spec fn spec_encoding_name(f: SampleFormat) -> Seq<char> {
    match f {
        SampleFormat::LinearPcm16 => "LINEAR16"@,
    }
}

fn encoding_name(f: SampleFormat) -> (r: &'static str)
    ensures
        r@ == spec_encoding_name(f),
{
    match f {
        SampleFormat::LinearPcm16 => "LINEAR16",
    }
}

/// The submission endpoint, with the API key as a query parameter.
pub open spec fn spec_submit_url(api_key: Seq<char>) -> Seq<char> {
    "https://speech.googleapis.com/v1p1beta1/speech:longrunningrecognize?key="@ + api_key
}

/// Builds the submission URL for the given API key.
pub fn submit_url(api_key: &str) -> (r: String)
    ensures
        r@ == spec_submit_url(api_key@),
{
    let mut url = String::from_str(
        "https://speech.googleapis.com/v1p1beta1/speech:longrunningrecognize?key=",
    );
    url.append(api_key);
    url
}

/// The status endpoint, parameterized by the operation identifier, with the
/// API key as a query parameter.
pub open spec fn spec_status_url(api_key: Seq<char>, operation_id: Seq<char>) -> Seq<char> {
    "https://speech.googleapis.com/v1/operations/"@ + operation_id + "?key="@ + api_key
}

/// Builds the status-check URL for the given handle and API key.
pub fn status_url(api_key: &str, handle: &JobHandle) -> (r: String)
    ensures
        r@ == spec_status_url(api_key@, handle.id@),
{
    let mut url = String::from_str("https://speech.googleapis.com/v1/operations/");
    url.append(handle.id.as_str());
    url.append("?key=");
    url.append(api_key);
    url
}

/// The exact JSON text of the submission request body: the encoding,
/// sample-rate and language configuration, and the base64 audio content,
/// each string escaped as a JSON string literal.
pub open spec fn spec_submit_body(
    encoding: Seq<char>,
    sample_rate_hz: nat,
    language_code: Seq<char>,
    audio_content: Seq<char>,
) -> Seq<char> {
    "{\"config\":{\"encoding\":\""@ + spec_escape(encoding) + "\",\"sampleRateHertz\":"@
        + spec_decimal(sample_rate_hz) + ",\"languageCode\":\""@ + spec_escape(language_code)
        + "\"},\"audio\":{\"content\":\""@ + spec_escape(audio_content) + "\"}}"@
}

/// Builds the submission request body for `asset`: the asset's declared
/// encoding metadata goes into the configuration exactly as the asset
/// carries it, and the audio bytes go in base64-encoded. The bound on the
/// asset size keeps the base64 output length within `usize`.
pub fn build_submit_body(asset: &AudioAsset, language_code: &str) -> (r: String)
    requires
        4 * ((asset.data@.len() + 2) / 3) <= usize::MAX as nat,
    ensures
        r@ == spec_submit_body(
            spec_encoding_name(asset.format.sample_format),
            asset.format.sample_rate_hz as nat,
            language_code@,
            base64_of(asset.data@),
        ),
{
    let content = base64_encode(&asset.data);
    let escaped_content = escape_json(content.as_str());
    let escaped_language = escape_json(language_code);
    let escaped_encoding = escape_json(encoding_name(asset.format.sample_format));
    let rate = decimal_string(asset.format.sample_rate_hz);
    let mut body = String::from_str("{\"config\":{\"encoding\":\"");
    body.append(escaped_encoding.as_str());
    body.append("\",\"sampleRateHertz\":");
    body.append(rate.as_str());
    body.append(",\"languageCode\":\"");
    body.append(escaped_language.as_str());
    body.append("\"},\"audio\":{\"content\":\"");
    body.append(escaped_content.as_str());
    body.append("\"}}");
    body
}

/// The observable outcome of one submission round trip, as handed in by the
/// I/O layer: either the request never produced an HTTP response, or a
/// response arrived with this status code and with whatever operation
/// identifier its body carried (`None` when the body had no identifier
/// field).
pub enum SubmitExchange {
    Fault,
    Response { status: u16, operation_name: Option<String> },
}

/// What one submission round trip means: a handle exactly when the response
/// was a success (status in 200..300) and carried a non-empty operation
/// identifier, and otherwise the error of the first failed condition. An
/// empty identifier counts as missing, so a returned handle always has a
/// non-empty identifier.
pub open spec fn spec_submission_decision(exchange: SubmitExchange) -> Result<
    JobHandle,
    SubmissionError,
> {
    match exchange {
        SubmitExchange::Fault => Err(SubmissionError::Transport),
        SubmitExchange::Response { status, operation_name } => {
            if !(200 <= status < 300) {
                Err(SubmissionError::HttpStatus { code: status })
            } else {
                match operation_name {
                    Option::None => Err(SubmissionError::MissingOperationName),
                    Option::Some(name) => {
                        if name@.len() == 0 {
                            Err(SubmissionError::MissingOperationName)
                        } else {
                            Ok(JobHandle { id: name })
                        }
                    },
                }
            }
        },
    }
}

/// Decides what one submission round trip means.
pub fn decide_submission(exchange: SubmitExchange) -> (r: Result<JobHandle, SubmissionError>)
    ensures
        r == spec_submission_decision(exchange),
        r is Ok ==> r->Ok_0.wf(),
{
    match exchange {
        SubmitExchange::Fault => Err(SubmissionError::Transport),
        SubmitExchange::Response { status, operation_name } => {
            if status < 200 || status >= 300 {
                Err(SubmissionError::HttpStatus { code: status })
            } else {
                match operation_name {
                    Option::None => Err(SubmissionError::MissingOperationName),
                    Option::Some(name) => {
                        if name.as_str().is_empty() {
                            Err(SubmissionError::MissingOperationName)
                        } else {
                            Ok(JobHandle { id: name })
                        }
                    },
                }
            }
        },
    }
}

/// What a parsed status response body carries: the completion flag and,
/// possibly, the nested result structure.
pub struct StatusBody {
    pub done: bool,
    pub result: Option<TranscriptResult>,
}

/// The observable outcome of one status-check round trip: either the request
/// never produced an HTTP response, or a response arrived with this status
/// code and with whatever status body it carried (`None` when the body was
/// not a well-formed status snapshot).
pub enum StatusExchange {
    Fault,
    Response { status: u16, body: Option<StatusBody> },
}

/// What one status round trip means: a snapshot exactly when the response
/// was a success (status in 200..300) with a well-formed body, and otherwise
/// the error of the first failed condition. A snapshot of an unfinished job
/// reports `done` false and carries no result payload — the result field of
/// the remote response exists only once the job is done.
pub open spec fn spec_status_decision(exchange: StatusExchange) -> Result<JobStatus, PollError> {
    match exchange {
        StatusExchange::Fault => Err(PollError::Transport),
        StatusExchange::Response { status, body } => {
            if !(200 <= status < 300) {
                Err(PollError::HttpStatus { code: status })
            } else {
                match body {
                    Option::None => Err(PollError::MalformedResponse),
                    Option::Some(b) => {
                        if b.done {
                            Ok(JobStatus { done: true, result: b.result })
                        } else {
                            Ok(JobStatus { done: false, result: Option::None })
                        }
                    },
                }
            }
        },
    }
}

/// Decides what one status round trip means.
pub fn decide_status(exchange: StatusExchange) -> (r: Result<JobStatus, PollError>)
    ensures
        r == spec_status_decision(exchange),
        r is Ok ==> r->Ok_0.wf(),
{
    match exchange {
        StatusExchange::Fault => Err(PollError::Transport),
        StatusExchange::Response { status, body } => {
            if status < 200 || status >= 300 {
                Err(PollError::HttpStatus { code: status })
            } else {
                match body {
                    Option::None => Err(PollError::MalformedResponse),
                    Option::Some(b) => {
                        if b.done {
                            Ok(JobStatus { done: true, result: b.result })
                        } else {
                            Ok(JobStatus { done: false, result: Option::None })
                        }
                    },
                }
            }
        },
    }
}

} // verus!
