//! The run lifecycle: submit a message, poll the run to a terminal state,
//! and extract the resulting text.
//!
//! A run is transient, per chat turn, and never persisted. The caller submits
//! the user message, creates the run, and then repeatedly fetches its status;
//! [`poll_decision`] says after each fetch whether to fetch the latest
//! message, wait one fixed interval and poll again, or give up. [`run_poll`]
//! drives the same decision over a whole sequence of observed statuses, so
//! the loop's behaviour is stated once and for all scripts.

use vstd::prelude::*;
use vstd::string::StringExecFns;

use crate::error::Error;

verus! {

/// Milliseconds to wait between two polls of a live run.
pub const POLL_INTERVAL_MS: u64 = 500;

/// The status a run reports when polled. Statuses the remote service may add
/// later are mapped to `Unrecognized` by the caller; they end the run as a
/// failure, exactly like the known terminal failures.
#[derive(Clone, Copy, Debug, PartialEq, Eq, Structural)]
pub enum RunStatus {
    Queued,
    InProgress,
    Completed,
    RequiresAction,
    Cancelling,
    Cancelled,
    Failed,
    Expired,
    Unrecognized,
}

/// What the executor does after one poll.
#[derive(Clone, Copy, Debug, PartialEq, Eq, Structural)]
pub enum PollStep {
    /// The run completed: fetch the most recent message of the thread.
    FetchResponse,
    /// The run is still pending: wait one interval, then poll again.
    Wait,
    /// The run reached a non-completed terminal state: fail, no retry.
    Abort(RunStatus),
}

/// A status on which the executor keeps polling: the queued-like states.
pub open spec fn is_pending(s: RunStatus) -> bool {
    s == RunStatus::Queued || s == RunStatus::InProgress
}

/// The transition of the run state machine on one observed status.
pub open spec fn poll_step_spec(s: RunStatus) -> PollStep {
    if s == RunStatus::Completed {
        PollStep::FetchResponse
    } else if is_pending(s) {
        PollStep::Wait
    } else {
        PollStep::Abort(s)
    }
}

/// Decide what to do after one poll of the run.
pub fn poll_decision(s: RunStatus) -> (r: PollStep)
    ensures
        r == poll_step_spec(s),
{
    match s {
        RunStatus::Completed => PollStep::FetchResponse,
        RunStatus::Queued => PollStep::Wait,
        RunStatus::InProgress => PollStep::Wait,
        other => PollStep::Abort(other),
    }
}

/// Length of the longest prefix of pending statuses: the number of waits the
/// executor performs before the script's first decisive status.
pub open spec fn pending_prefix(s: Seq<RunStatus>) -> nat
    decreases s.len(),
{
    if s.len() == 0 {
        0
    } else if is_pending(s[0]) {
        1 + pending_prefix(s.subrange(1, s.len() as int))
    } else {
        0
    }
}

/// A prefix of pending statuses followed by the sequence's end or by a
/// decisive status pins the pending prefix length down.
pub proof fn lemma_pending_prefix_is(s: Seq<RunStatus>, i: int)
    requires
        0 <= i <= s.len(),
        forall|j: int| 0 <= j < i ==> is_pending(#[trigger] s[j]),
        i < s.len() ==> !is_pending(s[i]),
    ensures
        pending_prefix(s) == i,
    decreases s.len(),
{
    if i == 0 {
    } else {
        let tail = s.subrange(1, s.len() as int);
        assert forall|j: int| 0 <= j < i - 1 implies is_pending(#[trigger] tail[j]) by {
            assert(tail[j] == s[j + 1]);
        }
        if i - 1 < tail.len() {
            assert(tail[i - 1] == s[i]);
        }
        lemma_pending_prefix_is(tail, i - 1);
    }
}

/// How a polling session over a scripted status sequence ended.
#[derive(Clone, Copy, Debug, PartialEq, Eq, Structural)]
pub enum PollResult {
    /// The run completed; the caller fetches the latest message next.
    Response,
    /// The run reached the given non-completed terminal status.
    Failure(RunStatus),
    /// Every scripted status was pending; the script ran out. A live run has
    /// no such end: the executor would still be polling.
    ScriptEnded,
}

/// What happened over a whole polling session.
#[derive(Clone, Copy, Debug, PartialEq, Eq, Structural)]
pub struct PollOutcome {
    /// How many statuses were fetched.
    pub polls: usize,
    /// How many fixed-interval waits were performed, one per pending status.
    pub sleeps: usize,
    pub result: PollResult,
}

/// Drive the poll state machine over a scripted sequence of observed
/// statuses: poll, and while the status is pending, wait one interval and
/// poll again; stop at the first decisive status.
pub fn run_poll(script: &Vec<RunStatus>) -> (r: PollOutcome)
    ensures
        pending_prefix(script@) == script@.len() ==> r == (PollOutcome {
            polls: script.len(),
            sleeps: script.len(),
            result: PollResult::ScriptEnded,
        }),
        pending_prefix(script@) < script@.len() ==> {
            &&& r.polls == pending_prefix(script@) + 1
            &&& r.sleeps == pending_prefix(script@)
            &&& r.result == (if script@[pending_prefix(script@) as int] == RunStatus::Completed {
                PollResult::Response
            } else {
                PollResult::Failure(script@[pending_prefix(script@) as int])
            })
        },
{
    let mut i: usize = 0;
    while i < script.len()
        invariant
            i <= script@.len(),
            forall|j: int| 0 <= j < i ==> is_pending(#[trigger] script@[j]),
        decreases script@.len() - i,
    {
        let status = script[i];
        match poll_decision(status) {
            PollStep::FetchResponse => {
                proof {
                    lemma_pending_prefix_is(script@, i as int);
                }
                return PollOutcome { polls: i + 1, sleeps: i, result: PollResult::Response };
            },
            PollStep::Wait => {
                i = i + 1;
            },
            PollStep::Abort(s) => {
                proof {
                    lemma_pending_prefix_is(script@, i as int);
                }
                return PollOutcome { polls: i + 1, sleeps: i, result: PollResult::Failure(s) };
            },
        }
    }
    proof {
        lemma_pending_prefix_is(script@, i as int);
    }
    PollOutcome { polls: script.len(), sleeps: script.len(), result: PollResult::ScriptEnded }
}

/// The error a run surfaces when it reaches the given non-completed
/// terminal status: no retry follows it.
pub fn run_failed(status: RunStatus) -> (r: Error)
    ensures
        r matches Error::RunFailed(s) && s == status,
{
    Error::RunFailed(status)
}

/// One piece of content of a thread message, as the logic reads it: either
/// text, or an image, which this client does not support.
#[derive(Debug)]
pub enum MsgContent {
    Text(String),
    ImageFile,
}

/// A thread message: an ordered list of content pieces.
#[derive(Debug)]
pub struct Message {
    pub content: Vec<MsgContent>,
}

/// Extract the text of a message. A message without any content is a hard
/// error, not an empty string; image content is unsupported.
pub fn get_text_content(msg: &Message) -> (r: Result<String, Error>)
    ensures
        msg.content@.len() == 0 ==> (r matches Err(e) && e matches Error::NotFound(_)),
        msg.content@.len() > 0 ==> match msg.content@[0] {
            MsgContent::Text(t) => r matches Ok(s) && s@ == t@,
            MsgContent::ImageFile => r matches Err(e) && e is ContentUnsupported,
        },
{
    if msg.content.len() == 0 {
        Err(Error::NotFound(String::from_str("no content in message")))
    } else {
        match &msg.content[0] {
            MsgContent::Text(t) => Ok(t.clone()),
            MsgContent::ImageFile => Err(Error::ContentUnsupported),
        }
    }
}

/// Extract the response text from the messages of a thread, most recent
/// first, after a completed run: the text of the first message. Absence of
/// any message is a hard error, not an empty string.
pub fn extract_response(messages: &Vec<Message>) -> (r: Result<String, Error>)
    ensures
        messages@.len() == 0 ==> (r matches Err(e) && e matches Error::NotFound(_)),
        messages@.len() > 0 && messages@[0].content@.len() == 0 ==> (r matches Err(e)
            && e matches Error::NotFound(_)),
        messages@.len() > 0 && messages@[0].content@.len() > 0 ==> match messages@[0].content@[0] {
            MsgContent::Text(t) => r matches Ok(s) && s@ == t@,
            MsgContent::ImageFile => r matches Err(e) && e is ContentUnsupported,
        },
{
    if messages.len() == 0 {
        Err(Error::NotFound(String::from_str("no message in thread")))
    } else {
        get_text_content(&messages[0])
    }
}

/// One whole chat turn, over scripted remote results: poll the run to a
/// terminal state; on completion, extract the text of the most recent
/// message; on any other terminal status, fail with that status, with no
/// retry. `None` means the script ran out while the run was still pending —
/// a live session would still be polling.
pub fn run_thread_msg(script: &Vec<RunStatus>, messages: &Vec<Message>) -> (r: Option<
    Result<String, Error>,
>)
    ensures
        pending_prefix(script@) == script@.len() ==> r is None,
        pending_prefix(script@) < script@.len() && script@[pending_prefix(script@) as int]
            != RunStatus::Completed ==> (r matches Some(inner) && inner matches Err(e)
            && e matches Error::RunFailed(s) && s == script@[pending_prefix(script@) as int]),
        pending_prefix(script@) < script@.len() && script@[pending_prefix(script@) as int]
            == RunStatus::Completed ==> (r matches Some(inner) && {
            &&& messages@.len() == 0 ==> (inner matches Err(e) && e matches Error::NotFound(_))
            &&& messages@.len() > 0 && messages@[0].content@.len() == 0 ==> (inner matches Err(e)
                && e matches Error::NotFound(_))
            &&& messages@.len() > 0 && messages@[0].content@.len() > 0 ==> match messages@[0].content@[0] {
                MsgContent::Text(t) => inner matches Ok(s) && s@ == t@,
                MsgContent::ImageFile => inner matches Err(e) && e is ContentUnsupported,
            }
        }),
{
    let outcome = run_poll(script);
    match outcome.result {
        PollResult::Response => Some(extract_response(messages)),
        PollResult::Failure(status) => Some(Err(run_failed(status))),
        PollResult::ScriptEnded => None,
    }
}

} // verus!
