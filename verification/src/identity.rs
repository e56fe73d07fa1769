//! Idempotent create-or-reuse of the remote assistant identity by name.
//!
//! The remote account holds a directory of assistants; the uniqueness key is
//! the assistant's name, enforced only by find-before-create. Resolution
//! lists the directory, takes the first exact name match, and then either
//! reuses it, or — when recreation is forced — deletes it and creates a
//! fresh one. The caller performs the remote calls and feeds their results
//! back in.

use vstd::prelude::*;
use vstd::string::StringExecFns;

use crate::ids::AssistantId;

verus! {

/// What an assistant is created from: its name (the uniqueness key within
/// the account) and the model it runs on.
#[derive(Debug)]
pub struct CreateConfig {
    pub name: String,
    pub model: String,
}

/// One entry of the remote assistant directory, as the logic reads it: the
/// opaque id, and the name, which the remote service does not require.
#[derive(Debug)]
pub struct RemoteAssistant {
    pub id: String,
    pub name: Option<String>,
}

/// The view of a directory entry.
pub struct RemoteAssistantV {
    pub id: Seq<char>,
    pub name: Option<Seq<char>>,
}

impl View for RemoteAssistant {
    type V = RemoteAssistantV;

    open spec fn view(&self) -> RemoteAssistantV {
        RemoteAssistantV {
            id: self.id@,
            name: match self.name {
                Some(n) => Some(n@),
                None => None,
            },
        }
    }
}

impl DeepView for RemoteAssistant {
    type V = RemoteAssistantV;

    open spec fn deep_view(&self) -> RemoteAssistantV {
        self@
    }
}

/// Whether a directory entry carries exactly the wanted name. An entry
/// without a name matches nothing.
pub open spec fn entry_matches(entry: RemoteAssistantV, name: Seq<char>) -> bool {
    entry.name matches Some(n) && n == name
}

/// The id of the first entry with the wanted name, if any: absence is not
/// an error.
pub open spec fn find_first(entries: Seq<RemoteAssistantV>, name: Seq<char>) -> Option<Seq<char>>
    decreases entries.len(),
{
    if entries.len() == 0 {
        None
    } else if entry_matches(entries[0], name) {
        Some(entries[0].id)
    } else {
        find_first(entries.subrange(1, entries.len() as int), name)
    }
}

/// Scan the listed directory and return the first exact name match.
pub fn first_by_name(assistants: &Vec<RemoteAssistant>, name: &str) -> (r: Option<AssistantId>)
    ensures
        r.deep_view() == find_first(assistants.deep_view(), name@),
{
    let ghost entries = assistants.deep_view();
    proof {
        assert(entries.skip(0) =~= entries);
    }
    let wanted = String::from_str(name);
    let mut i: usize = 0;
    while i < assistants.len()
        invariant
            i <= assistants@.len(),
            entries == assistants.deep_view(),
            wanted@ == name@,
            find_first(entries.skip(i as int), name@) == find_first(entries, name@),
        decreases assistants@.len() - i,
    {
        let candidate = &assistants[i];
        let matched = match &candidate.name {
            Some(n) => n.eq(&wanted),
            None => false,
        };
        proof {
            assert(entries.skip(i as int)[0] == entries[i as int]);
            assert(entries.skip(i as int).subrange(1, entries.skip(i as int).len() as int)
                =~= entries.skip(i + 1));
        }
        if matched {
            return Some(AssistantId(candidate.id.clone()));
        }
        i = i + 1;
    }
    proof {
        assert(entries.skip(i as int) =~= Seq::<RemoteAssistantV>::empty());
    }
    None
}

/// How the resolved identity is obtained.
#[derive(Debug)]
pub enum IdentityDecision {
    /// A matching assistant exists and recreation was not requested: reuse
    /// it. No remote write is issued.
    Reuse(AssistantId),
    /// A matching assistant exists and recreation was requested: delete it,
    /// then create a fresh one. Attached files are not cascade-deleted; they
    /// stay orphaned in the account, as the remote delete call leaves them.
    Recreate(AssistantId),
    /// No matching assistant exists: create one.
    CreateNew,
}

/// The view of a resolution decision.
pub enum IdentityDecisionV {
    Reuse(Seq<char>),
    Recreate(Seq<char>),
    CreateNew,
}

impl View for IdentityDecision {
    type V = IdentityDecisionV;

    open spec fn view(&self) -> IdentityDecisionV {
        match self {
            IdentityDecision::Reuse(id) => IdentityDecisionV::Reuse(id@),
            IdentityDecision::Recreate(id) => IdentityDecisionV::Recreate(id@),
            IdentityDecision::CreateNew => IdentityDecisionV::CreateNew,
        }
    }
}

/// The decision taken for a given find result and recreation flag.
pub open spec fn resolve_spec(found: Option<Seq<char>>, recreate: bool) -> IdentityDecisionV {
    match found {
        Some(id) => if recreate {
            IdentityDecisionV::Recreate(id)
        } else {
            IdentityDecisionV::Reuse(id)
        },
        None => IdentityDecisionV::CreateNew,
    }
}

/// One remote write of the identity-resolution path.
pub enum IdentityOpV {
    Delete(Seq<char>),
    Create,
}

/// The remote writes a decision issues, in order.
pub open spec fn identity_ops(d: IdentityDecisionV) -> Seq<IdentityOpV> {
    match d {
        IdentityDecisionV::Reuse(_) => Seq::empty(),
        IdentityDecisionV::Recreate(id) => seq![IdentityOpV::Delete(id), IdentityOpV::Create],
        IdentityDecisionV::CreateNew => seq![IdentityOpV::Create],
    }
}

/// How many creates a sequence of identity ops issues.
pub open spec fn count_creates(ops: Seq<IdentityOpV>) -> nat
    decreases ops.len(),
{
    if ops.len() == 0 {
        0
    } else {
        (if ops[0] is Create {
            1nat
        } else {
            0nat
        }) + count_creates(ops.subrange(1, ops.len() as int))
    }
}

/// How many creates a decision issues.
pub open spec fn creates_of(d: IdentityDecisionV) -> nat {
    count_creates(identity_ops(d))
}

/// Decide how to obtain the identity, from the find result and the
/// recreation flag.
pub fn resolve_decision(found: &Option<AssistantId>, recreate: bool) -> (r: IdentityDecision)
    ensures
        r@ == resolve_spec(found.deep_view(), recreate),
{
    match found {
        Some(id) => {
            if recreate {
                IdentityDecision::Recreate(id.clone())
            } else {
                IdentityDecision::Reuse(id.clone())
            }
        },
        None => IdentityDecision::CreateNew,
    }
}

/// What carrying a resolution decision out produced. The delete and create
/// results come from the caller, which performed the remote calls.
#[derive(Debug)]
pub struct ResolutionOutcome {
    /// The resolved identity.
    pub assistant_id: AssistantId,
    /// A delete was issued.
    pub deleted: bool,
    /// A create was issued.
    pub created: bool,
    /// The issued delete reported failure. It is surfaced here, and it does
    /// not block the create that follows: a recreation deletes once and
    /// creates once whatever the delete reported.
    pub delete_failed: bool,
}

/// Carry a resolution decision out, given what the remote calls it asks for
/// returned: `delete_ok` is what the delete reported where one was issued,
/// and `created_id` is what the create returned where one was issued.
pub fn execute_resolution(decision: IdentityDecision, delete_ok: bool, created_id: AssistantId) -> (r:
    ResolutionOutcome)
    ensures
        decision@ matches IdentityDecisionV::Reuse(id) ==> r.assistant_id@ == id && !r.deleted
            && !r.created && !r.delete_failed,
        decision@ matches IdentityDecisionV::Recreate(_) ==> r.assistant_id@ == created_id@
            && r.deleted && r.created && r.delete_failed == !delete_ok,
        decision@ is CreateNew ==> r.assistant_id@ == created_id@ && !r.deleted && r.created
            && !r.delete_failed,
{
    match decision {
        IdentityDecision::Reuse(id) => ResolutionOutcome {
            assistant_id: id,
            deleted: false,
            created: false,
            delete_failed: false,
        },
        IdentityDecision::Recreate(_) => ResolutionOutcome {
            assistant_id: created_id,
            deleted: true,
            created: true,
            delete_failed: !delete_ok,
        },
        IdentityDecision::CreateNew => ResolutionOutcome {
            assistant_id: created_id,
            deleted: false,
            created: true,
            delete_failed: false,
        },
    }
}

/// Resolving an existing name twice without recreation yields the same
/// identity both times: the first resolution issues no remote write, so the
/// directory the second one lists is unchanged, and the second resolution
/// issues zero creates.
pub proof fn lemma_resolution_idempotent(directory: Seq<RemoteAssistantV>, name: Seq<char>)
    requires
        find_first(directory, name) is Some,
    ensures
        ({
            let first = resolve_spec(find_first(directory, name), false);
            let second = resolve_spec(find_first(directory, name), false);
            &&& first == IdentityDecisionV::Reuse(find_first(directory, name)->Some_0)
            &&& identity_ops(first) == Seq::<IdentityOpV>::empty()
            &&& second == first
            &&& creates_of(second) == 0
        }),
{
    let first = resolve_spec(find_first(directory, name), false);
    assert(identity_ops(first) == Seq::<IdentityOpV>::empty());
    assert(count_creates(identity_ops(first)) == 0);
}

/// Forced recreation of an existing identity issues exactly one delete,
/// followed by exactly one create. That the create is reached whatever the
/// delete reported — while a delete failure is still surfaced — is stated
/// by [`execute_resolution`], whose contract does not depend on `delete_ok`
/// for which writes are issued.
pub proof fn lemma_forced_recreation(existing: Seq<char>)
    ensures
        ({
            let d = resolve_spec(Some(existing), true);
            &&& d == IdentityDecisionV::Recreate(existing)
            &&& identity_ops(d) == seq![IdentityOpV::Delete(existing), IdentityOpV::Create]
            &&& creates_of(d) == 1
        }),
{
    let d = resolve_spec(Some(existing), true);
    let ops = seq![IdentityOpV::Delete(existing), IdentityOpV::Create];
    assert(identity_ops(d) == ops);
    let tail = ops.subrange(1, 2);
    assert(tail =~= seq![IdentityOpV::Create]);
    assert(tail.subrange(1, 1) =~= Seq::<IdentityOpV>::empty());
    assert(count_creates(tail.subrange(1, 1)) == 0);
    assert(count_creates(tail) == 1);
    assert(count_creates(ops) == 1);
}

} // verus!
