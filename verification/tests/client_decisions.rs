use video_to_text::audio::AudioAsset;
use video_to_text::audio::AudioFormat;
use video_to_text::client::build_submit_body;
use video_to_text::client::decide_status;
use video_to_text::client::decide_submission;
use video_to_text::client::status_url;
use video_to_text::client::submit_url;
use video_to_text::client::JobHandle;
use video_to_text::client::StatusBody;
use video_to_text::client::StatusExchange;
use video_to_text::client::SubmitExchange;
use video_to_text::errors::PollError;
use video_to_text::errors::SubmissionError;
use video_to_text::transcript::Alternative;
use video_to_text::transcript::ResultGroup;
use video_to_text::transcript::TranscriptResult;

fn one_line_result(text: &str) -> TranscriptResult {
    TranscriptResult {
        groups: vec![ResultGroup {
            alternatives: vec![Alternative { transcript: text.to_string() }],
        }],
    }
}

#[test]
fn submit_url_carries_the_api_key() {
    assert_eq!(
        submit_url("KEY"),
        "https://speech.googleapis.com/v1p1beta1/speech:longrunningrecognize?key=KEY"
    );
}

#[test]
fn status_url_carries_operation_and_key() {
    let handle = JobHandle { id: "operations/123".to_string() };
    assert_eq!(
        status_url("KEY", &handle),
        "https://speech.googleapis.com/v1/operations/operations/123?key=KEY"
    );
}

#[test]
fn submit_body_matches_the_wire_format() {
    let asset = AudioAsset {
        data: b"hello".to_vec(),
        format: AudioFormat::pcm16_mono_16khz(),
    };
    let body = build_submit_body(&asset, "en-US");
    assert_eq!(
        body,
        "{\"config\":{\"encoding\":\"LINEAR16\",\"sampleRateHertz\":16000,\
         \"languageCode\":\"en-US\"},\"audio\":{\"content\":\"aGVsbG8=\"}}"
    );
}

#[test]
fn submit_body_escapes_the_language_code() {
    let asset = AudioAsset { data: vec![], format: AudioFormat::pcm16_mono_16khz() };
    let body = build_submit_body(&asset, "en\"US");
    assert_eq!(
        body,
        "{\"config\":{\"encoding\":\"LINEAR16\",\"sampleRateHertz\":16000,\
         \"languageCode\":\"en\\\"US\"},\"audio\":{\"content\":\"\"}}"
    );
}

#[test]
fn submission_succeeds_on_a_non_empty_identifier() {
    let r = decide_submission(SubmitExchange::Response {
        status: 200,
        operation_name: Some("operations/123".to_string()),
    });
    assert_eq!(r, Ok(JobHandle { id: "operations/123".to_string() }));
}

#[test]
fn submission_fails_on_transport_fault() {
    let r = decide_submission(SubmitExchange::Fault);
    assert_eq!(r, Err(SubmissionError::Transport));
}

#[test]
fn submission_fails_on_non_success_status() {
    let r = decide_submission(SubmitExchange::Response {
        status: 403,
        operation_name: Some("operations/123".to_string()),
    });
    assert_eq!(r, Err(SubmissionError::HttpStatus { code: 403 }));
}

#[test]
fn submission_fails_on_missing_identifier() {
    let r = decide_submission(SubmitExchange::Response { status: 200, operation_name: None });
    assert_eq!(r, Err(SubmissionError::MissingOperationName));
}

#[test]
fn submission_never_yields_an_empty_identifier() {
    let r = decide_submission(SubmitExchange::Response {
        status: 200,
        operation_name: Some(String::new()),
    });
    assert_eq!(r, Err(SubmissionError::MissingOperationName));
}

#[test]
fn status_of_an_unfinished_job_is_pending_with_no_payload() {
    let r = decide_status(StatusExchange::Response {
        status: 200,
        body: Some(StatusBody { done: false, result: None }),
    });
    let snapshot = r.unwrap();
    assert!(!snapshot.done);
    assert!(snapshot.result.is_none());
}

#[test]
fn pending_status_drops_a_stray_payload() {
    let r = decide_status(StatusExchange::Response {
        status: 200,
        body: Some(StatusBody { done: false, result: Some(one_line_result("early")) }),
    });
    let snapshot = r.unwrap();
    assert!(!snapshot.done);
    assert!(snapshot.result.is_none());
}

#[test]
fn done_status_carries_its_payload() {
    let r = decide_status(StatusExchange::Response {
        status: 200,
        body: Some(StatusBody { done: true, result: Some(one_line_result("hello world")) }),
    });
    let snapshot = r.unwrap();
    assert!(snapshot.done);
    assert_eq!(snapshot.result, Some(one_line_result("hello world")));
}

#[test]
fn status_fails_on_transport_fault() {
    assert_eq!(decide_status(StatusExchange::Fault), Err(PollError::Transport));
}

#[test]
fn status_fails_on_non_success_status() {
    let r = decide_status(StatusExchange::Response { status: 500, body: None });
    assert_eq!(r, Err(PollError::HttpStatus { code: 500 }));
}

#[test]
fn status_fails_on_a_malformed_body() {
    let r = decide_status(StatusExchange::Response { status: 200, body: None });
    assert_eq!(r, Err(PollError::MalformedResponse));
}
