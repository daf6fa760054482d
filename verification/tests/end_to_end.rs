//! Whole-pipeline scenarios, driven over the decision functions with the
//! outcomes an I/O layer would observe.

use video_to_text::aggregate::aggregate;
use video_to_text::audio::extraction_outcome;
use video_to_text::audio::AudioFormat;
use video_to_text::client::decide_submission;
use video_to_text::client::JobStatus;
use video_to_text::client::StatusBody;
use video_to_text::client::StatusExchange;
use video_to_text::client::SubmitExchange;
use video_to_text::errors::ExtractionError;
use video_to_text::errors::PollError;
use video_to_text::poller::status_event;
use video_to_text::poller::OperationPoller;
use video_to_text::poller::PollAction;
use video_to_text::transcript::Alternative;
use video_to_text::transcript::ResultGroup;
use video_to_text::transcript::TranscriptResult;

fn hello_world_result() -> TranscriptResult {
    TranscriptResult {
        groups: vec![ResultGroup {
            alternatives: vec![Alternative { transcript: "hello world".to_string() }],
        }],
    }
}

#[test]
fn a_run_that_completes_after_three_checks() {
    // Extraction of the ten-second clip produced a PCM16 mono 16 kHz file.
    let format = AudioFormat::pcm16_mono_16khz();
    let pcm = vec![0u8; 16000 * 2 * 10];
    let asset = extraction_outcome(Some(0), Some(pcm.clone()), format).unwrap();
    assert_eq!(asset.data, pcm);
    assert_eq!(asset.format, format);

    // Submission came back with the operation identifier.
    let handle = decide_submission(SubmitExchange::Response {
        status: 200,
        operation_name: Some("operations/123".to_string()),
    })
    .unwrap();
    assert_eq!(handle.id, "operations/123");

    // Three checks: unfinished, unfinished, done with the final payload.
    let outcomes = vec![
        StatusExchange::Response {
            status: 200,
            body: Some(StatusBody { done: false, result: None }),
        },
        StatusExchange::Response {
            status: 200,
            body: Some(StatusBody { done: false, result: None }),
        },
        StatusExchange::Response {
            status: 200,
            body: Some(StatusBody { done: true, result: Some(hello_world_result()) }),
        },
    ];

    let mut poller = OperationPoller::new();
    let mut waits = 0;
    for exchange in outcomes {
        poller.issue_check();
        match poller.observe(status_event(exchange)) {
            PollAction::WaitThenCheck => waits += 1,
            PollAction::Stop => break,
        }
    }
    assert_eq!(waits, 2);

    let result = poller.into_outcome().unwrap();
    assert_eq!(aggregate(&result), vec!["hello world"]);
}

#[test]
fn a_run_that_aborts_when_the_transcoder_fails() {
    // The external transcoding process exited with status 2: the run stops
    // at the extraction stage, before any network request exists.
    let format = AudioFormat::pcm16_mono_16khz();
    let r = extraction_outcome(Some(2), None, format);
    assert_eq!(
        r,
        Err(ExtractionError::ProcessFailed { exit_code: Some(2) })
    );
}

#[test]
fn a_run_that_fails_on_the_second_check() {
    let handle = decide_submission(SubmitExchange::Response {
        status: 200,
        operation_name: Some("operations/123".to_string()),
    })
    .unwrap();
    assert!(!handle.id.is_empty());

    let outcomes = vec![
        StatusExchange::Response {
            status: 200,
            body: Some(StatusBody { done: false, result: None }),
        },
        // The connection was reset: no HTTP response at all.
        StatusExchange::Fault,
        // A third outcome must never be asked for.
        StatusExchange::Response {
            status: 200,
            body: Some(StatusBody { done: true, result: Some(hello_world_result()) }),
        },
    ];

    let mut poller = OperationPoller::new();
    let mut checks = 0;
    for exchange in outcomes {
        poller.issue_check();
        checks += 1;
        match poller.observe(status_event(exchange)) {
            PollAction::WaitThenCheck => {},
            PollAction::Stop => break,
        }
    }
    assert_eq!(checks, 2);
    assert_eq!(poller.into_outcome(), Err(PollError::Transport));
}

#[test]
fn snapshots_flow_unchanged_from_decision_to_poller() {
    let snapshot = video_to_text::client::decide_status(StatusExchange::Response {
        status: 200,
        body: Some(StatusBody { done: false, result: None }),
    })
    .unwrap();
    assert_eq!(snapshot, JobStatus { done: false, result: None });
}
