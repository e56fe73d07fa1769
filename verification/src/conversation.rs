//! Persisted conversation state: the local pointer to a remote thread.
//!
//! One JSON document per project data directory holds the thread id. Once
//! written it is the single source of truth for which remote thread the
//! project uses, and it is never overwritten except via explicit reset. A
//! loaded pointer is validated by a remote existence check; a pointer that
//! no longer resolves is surfaced as an error, never silently replaced.

use vstd::prelude::*;
use vstd::string::StringExecFns;

use crate::error::Error;
use crate::ids::ThreadId;

verus! {

/// The persisted conversation: the id of the remote thread it lives on.
#[derive(Debug)]
pub struct Conv {
    pub thread_id: ThreadId,
}

impl View for Conv {
    type V = Seq<char>;

    open spec fn view(&self) -> Seq<char> {
        self.thread_id@
    }
}

impl DeepView for Conv {
    type V = Seq<char>;

    open spec fn deep_view(&self) -> Seq<char> {
        self@
    }
}

impl Clone for Conv {
    fn clone(&self) -> (r: Self)
        ensures
            r@ == self@,
    {
        Conv { thread_id: self.thread_id.clone() }
    }
}

/// What loading-or-creating the conversation does, at the level of its
/// view: the thread the caller ends up on (`None` when the persisted
/// pointer is stale and the load fails), and which local and remote writes
/// happen on the way.
pub struct ConvStepV {
    /// `Some(thread)` on success; `None` when the persisted thread no
    /// longer resolves remotely.
    pub outcome: Option<Seq<char>>,
    /// The persisted state file was deleted (explicit reset only).
    pub deleted_state: bool,
    /// A remote thread was created.
    pub created_thread: bool,
    /// The state file was written (exactly when a thread was created).
    pub wrote_state: bool,
}

/// The load-or-create step, over views: with `reset` the persisted state is
/// discarded first; a surviving persisted pointer is validated remotely and
/// returned, or the stale pointer is surfaced as an error; with nothing
/// persisted a fresh thread is created and persisted before it is returned.
pub open spec fn load_or_create_spec(
    persisted: Option<Seq<char>>,
    reset: bool,
    resolvable: bool,
    fresh: Seq<char>,
) -> ConvStepV {
    if reset || persisted is None {
        ConvStepV {
            outcome: Some(fresh),
            deleted_state: reset && persisted is Some,
            created_thread: true,
            wrote_state: true,
        }
    } else if resolvable {
        ConvStepV {
            outcome: Some(persisted->Some_0),
            deleted_state: false,
            created_thread: false,
            wrote_state: false,
        }
    } else {
        ConvStepV { outcome: None, deleted_state: false, created_thread: false, wrote_state: false }
    }
}

/// What loading-or-creating the conversation produced.
#[derive(Debug)]
pub struct ConvOutcome {
    /// The conversation the caller goes on with.
    pub conv: Conv,
    /// The persisted state file was deleted first (explicit reset only).
    pub deleted_state: bool,
    /// A remote thread was created.
    pub created_thread: bool,
    /// The state file was written.
    pub wrote_state: bool,
}

/// Load or create the conversation, given what the caller found and what
/// the remote calls returned: `persisted` is the deserialized state file if
/// one exists, `resolvable` is whether the persisted thread still resolves
/// remotely (consulted only when one survives), and `fresh` is the thread
/// the remote create returned (consumed only when one is needed).
pub fn load_or_create_conv(
    persisted: Option<Conv>,
    reset: bool,
    resolvable: bool,
    fresh: ThreadId,
) -> (r: Result<ConvOutcome, Error>)
    ensures
        ({
            let step = load_or_create_spec(persisted.deep_view(), reset, resolvable, fresh@);
            match r {
                Ok(o) => step.outcome == Some(o.conv@) && o.deleted_state == step.deleted_state
                    && o.created_thread == step.created_thread && o.wrote_state == step.wrote_state,
                Err(e) => step.outcome is None && e matches Error::NotFound(_),
            }
        }),
{
    if reset {
        let existed = persisted.is_some();
        Ok(ConvOutcome {
            conv: Conv { thread_id: fresh },
            deleted_state: existed,
            created_thread: true,
            wrote_state: true,
        })
    } else {
        match persisted {
            Some(conv) => {
                if resolvable {
                    Ok(ConvOutcome {
                        conv,
                        deleted_state: false,
                        created_thread: false,
                        wrote_state: false,
                    })
                } else {
                    Err(Error::NotFound(String::from_str(
                        "persisted thread does not resolve remotely",
                    )))
                }
            },
            None => Ok(ConvOutcome {
                conv: Conv { thread_id: fresh },
                deleted_state: false,
                created_thread: true,
                wrote_state: true,
            }),
        }
    }
}

/// Round trip: on a fresh directory, load-or-create without reset creates a
/// thread and writes the state file; a second load-or-create without reset,
/// with that thread still resolvable, returns the identical thread id and
/// creates nothing.
pub proof fn lemma_conv_round_trip(resolvable1: bool, fresh1: Seq<char>, fresh2: Seq<char>)
    ensures
        ({
            let first = load_or_create_spec(None, false, resolvable1, fresh1);
            let second = load_or_create_spec(first.outcome, false, true, fresh2);
            &&& first.outcome == Some(fresh1)
            &&& first.created_thread
            &&& first.wrote_state
            &&& second.outcome == Some(fresh1)
            &&& !second.created_thread
            &&& !second.wrote_state
        }),
{
}

/// Stale thread: a persisted thread id that does not resolve remotely makes
/// load-or-create without reset fail, rather than silently creating a
/// replacement — no thread is created and nothing is written.
pub proof fn lemma_stale_thread(persisted: Seq<char>, fresh: Seq<char>)
    ensures
        ({
            let step = load_or_create_spec(Some(persisted), false, false, fresh);
            &&& step.outcome is None
            &&& !step.created_thread
            &&& !step.wrote_state
            &&& !step.deleted_state
        }),
{
}

} // verus!
