//! Behaviour of the run-polling state machine, message extraction, error
//! rendering, and response formatting.

use buddy::error::{status_label, Error};
use buddy::render::format_response;
use buddy::run::{
    extract_response, get_text_content, poll_decision, run_poll, run_thread_msg, Message,
    MsgContent, PollResult, PollStep, RunStatus, POLL_INTERVAL_MS,
};

fn s(text: &str) -> String {
    text.to_string()
}

#[test]
fn poll_decision_per_status() {
    assert_eq!(poll_decision(RunStatus::Completed), PollStep::FetchResponse);
    assert_eq!(poll_decision(RunStatus::Queued), PollStep::Wait);
    assert_eq!(poll_decision(RunStatus::InProgress), PollStep::Wait);
    assert_eq!(poll_decision(RunStatus::Failed), PollStep::Abort(RunStatus::Failed));
    assert_eq!(poll_decision(RunStatus::Cancelled), PollStep::Abort(RunStatus::Cancelled));
    assert_eq!(poll_decision(RunStatus::Expired), PollStep::Abort(RunStatus::Expired));
    assert_eq!(
        poll_decision(RunStatus::RequiresAction),
        PollStep::Abort(RunStatus::RequiresAction)
    );
    assert_eq!(poll_decision(RunStatus::Unrecognized), PollStep::Abort(RunStatus::Unrecognized));
}

#[test]
fn poll_interval_is_fixed() {
    assert_eq!(POLL_INTERVAL_MS, 500);
}

#[test]
fn polling_sleeps_thrice_then_fetches() {
    let script = vec![
        RunStatus::Queued,
        RunStatus::InProgress,
        RunStatus::InProgress,
        RunStatus::Completed,
    ];
    let out = run_poll(&script);
    assert_eq!(out.polls, 4);
    assert_eq!(out.sleeps, 3);
    assert_eq!(out.result, PollResult::Response);
}

#[test]
fn polling_fails_immediately_on_terminal_failure() {
    let script = vec![RunStatus::Queued, RunStatus::Failed];
    let out = run_poll(&script);
    assert_eq!(out.polls, 2);
    assert_eq!(out.sleeps, 1);
    assert_eq!(out.result, PollResult::Failure(RunStatus::Failed));
}

#[test]
fn polling_completes_without_sleep_when_already_done() {
    let out = run_poll(&vec![RunStatus::Completed]);
    assert_eq!(out.polls, 1);
    assert_eq!(out.sleeps, 0);
    assert_eq!(out.result, PollResult::Response);
}

#[test]
fn polling_ends_with_an_exhausted_script() {
    let out = run_poll(&vec![RunStatus::Queued, RunStatus::InProgress]);
    assert_eq!(out.polls, 2);
    assert_eq!(out.sleeps, 2);
    assert_eq!(out.result, PollResult::ScriptEnded);
}

#[test]
fn text_content_is_extracted() {
    let msg = Message { content: vec![MsgContent::Text(s("hello")), MsgContent::ImageFile] };
    assert_eq!(get_text_content(&msg).unwrap(), "hello");
}

#[test]
fn image_content_is_unsupported() {
    let msg = Message { content: vec![MsgContent::ImageFile, MsgContent::Text(s("hi"))] };
    assert!(matches!(get_text_content(&msg), Err(Error::ContentUnsupported)));
}

#[test]
fn empty_message_is_an_error() {
    let msg = Message { content: Vec::new() };
    assert!(matches!(get_text_content(&msg), Err(Error::NotFound(_))));
}

#[test]
fn empty_thread_is_an_error_not_an_empty_string() {
    assert!(matches!(extract_response(&Vec::new()), Err(Error::NotFound(_))));
}

#[test]
fn response_is_taken_from_most_recent_message() {
    let messages = vec![
        Message { content: vec![MsgContent::Text(s("latest"))] },
        Message { content: vec![MsgContent::Text(s("older"))] },
    ];
    assert_eq!(extract_response(&messages).unwrap(), "latest");
}

#[test]
fn chat_turn_returns_latest_text_after_completion() {
    let script = vec![
        RunStatus::Queued,
        RunStatus::InProgress,
        RunStatus::InProgress,
        RunStatus::Completed,
    ];
    let messages = vec![Message { content: vec![MsgContent::Text(s("the answer"))] }];
    let r = run_thread_msg(&script, &messages).unwrap();
    assert_eq!(r.unwrap(), "the answer");
}

#[test]
fn chat_turn_surfaces_the_failing_status() {
    let script = vec![RunStatus::Queued, RunStatus::Failed];
    let r = run_thread_msg(&script, &Vec::new()).unwrap();
    assert!(matches!(r, Err(Error::RunFailed(RunStatus::Failed))));
}

#[test]
fn chat_turn_is_still_pending_on_an_exhausted_script() {
    let script = vec![RunStatus::Queued, RunStatus::InProgress];
    assert!(run_thread_msg(&script, &Vec::new()).is_none());
}

#[test]
fn error_messages() {
    assert_eq!(Error::Credential.message(), "missing API credential");
    assert_eq!(Error::Config(s("bad toml")).message(), "config error: bad toml");
    assert_eq!(Error::RemoteApi(s("http 500")).message(), "remote API error: http 500");
    assert_eq!(Error::NotFound(s("thread t1")).message(), "not found: thread t1");
    assert_eq!(
        Error::RunFailed(RunStatus::Failed).message(),
        "run failed with status failed"
    );
    assert_eq!(Error::ContentUnsupported.message(), "image content not supported");
}

#[test]
fn status_labels() {
    assert_eq!(status_label(RunStatus::Queued), "queued");
    assert_eq!(status_label(RunStatus::InProgress), "in_progress");
    assert_eq!(status_label(RunStatus::Expired), "expired");
    assert_eq!(status_label(RunStatus::Unrecognized), "unrecognized");
}

#[test]
fn format_wraps_at_width() {
    assert_eq!(format_response("aaa bbb", 5), "aaa\nbbb");
    assert_eq!(format_response("one two three", 5), "one\ntwo\nthree");
}

#[test]
fn format_keeps_short_text_on_one_line() {
    assert_eq!(format_response("hello", 80), "hello");
    assert_eq!(format_response("", 80), "");
}
