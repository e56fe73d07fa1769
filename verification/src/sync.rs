//! The file-sync engine: diff the desired local file set against remote
//! attachment state and perform the minimal upload/delete operations.
//!
//! Remote file identity is exposed only as an opaque id plus a filename, so
//! matching is purely name-based: the logical name (the local filename) is
//! the join key. The attachment state itself must be joined from two remote
//! collections — the files the account owns, which carry filenames, and the
//! assistant's attachment list, which carries only ids. Only a file present
//! in both is attached and known.
//!
//! The lookup is a table keyed by name; when several account files share
//! one filename, the first listed wins. Multiple local files with the same
//! logical name are not distinguishable: an explicit limitation.

use vstd::prelude::*;
use vstd::string::StringExecFns;

use crate::error::Error;
use crate::ids::FileId;

verus! {

/// One file owned by the account: an opaque id and a filename.
#[derive(Debug)]
pub struct AccountFile {
    pub id: String,
    pub filename: String,
}

/// The view of an account file.
pub struct AccountFileV {
    pub id: Seq<char>,
    pub filename: Seq<char>,
}

impl View for AccountFile {
    type V = AccountFileV;

    open spec fn view(&self) -> AccountFileV {
        AccountFileV { id: self.id@, filename: self.filename@ }
    }
}

impl DeepView for AccountFile {
    type V = AccountFileV;

    open spec fn deep_view(&self) -> AccountFileV {
        self@
    }
}

impl Clone for AccountFile {
    fn clone(&self) -> (r: Self)
        ensures
            r@ == self@,
    {
        AccountFile { id: self.id.clone(), filename: self.filename.clone() }
    }
}

/// The join of the account's files with the assistant's attachment list:
/// the account files, in listed order, whose id the attachment list holds.
pub open spec fn attached_join(account: Seq<AccountFileV>, attached: Seq<Seq<char>>) -> Seq<
    AccountFileV,
>
    decreases account.len(),
{
    if account.len() == 0 {
        Seq::empty()
    } else {
        let rest = attached_join(account.subrange(1, account.len() as int), attached);
        if attached.contains(account[0].id) {
            seq![account[0]] + rest
        } else {
            rest
        }
    }
}

/// Whether the attachment list holds the given id.
fn contains_id(attached: &Vec<FileId>, id: &String) -> (r: bool)
    ensures
        r == attached.deep_view().contains(id@),
{
    let mut i: usize = 0;
    while i < attached.len()
        invariant
            i <= attached@.len(),
            forall|j: int| 0 <= j < i ==> attached.deep_view()[j] != id@,
        decreases attached@.len() - i,
    {
        if attached[i].0.eq(id) {
            proof {
                assert(attached.deep_view()[i as int] == id@);
            }
            return true;
        }
        i = i + 1;
    }
    false
}

/// Resolve the attached-and-known file set: the intersection of the files
/// the account owns and the files the assistant's attachment list refers
/// to, joined by id.
pub fn resolve_attached_files(account: &Vec<AccountFile>, attached: &Vec<FileId>) -> (r: Vec<
    AccountFile,
>)
    ensures
        r.deep_view() == attached_join(account.deep_view(), attached.deep_view()),
{
    let ghost entries = account.deep_view();
    let ghost ids = attached.deep_view();
    proof {
        assert(entries.skip(0) =~= entries);
    }
    let mut result: Vec<AccountFile> = Vec::new();
    let mut i: usize = 0;
    while i < account.len()
        invariant
            i <= account@.len(),
            entries == account.deep_view(),
            ids == attached.deep_view(),
            result.deep_view() + attached_join(entries.skip(i as int), ids) == attached_join(
                entries,
                ids,
            ),
        decreases account@.len() - i,
    {
        proof {
            assert(entries.skip(i as int)[0] == entries[i as int]);
            assert(entries.skip(i as int).subrange(1, entries.skip(i as int).len() as int)
                =~= entries.skip(i + 1));
        }
        let ghost before = result.deep_view();
        if contains_id(attached, &account[i].id) {
            result.push(account[i].clone());
            proof {
                assert(result.deep_view() =~= before + seq![entries[i as int]]);
                assert((before + seq![entries[i as int]]) + attached_join(entries.skip(i + 1), ids)
                    =~= before + (seq![entries[i as int]] + attached_join(
                    entries.skip(i + 1),
                    ids,
                )));
            }
        }
        i = i + 1;
    }
    proof {
        assert(entries.skip(i as int) =~= Seq::<AccountFileV>::empty());
        assert(result.deep_view() + Seq::<AccountFileV>::empty() =~= result.deep_view());
    }
    result
}

/// The id under a logical name in the attached file set: the id of the
/// first record carrying that filename, if any.
pub open spec fn lookup_name(records: Seq<AccountFileV>, name: Seq<char>) -> Option<Seq<char>>
    decreases records.len(),
{
    if records.len() == 0 {
        None
    } else if records[0].filename == name {
        Some(records[0].id)
    } else {
        lookup_name(records.subrange(1, records.len() as int), name)
    }
}

/// Look a logical name up in the attached file set.
pub fn lookup_file_id(records: &Vec<AccountFile>, name: &str) -> (r: Option<FileId>)
    ensures
        r.deep_view() == lookup_name(records.deep_view(), name@),
{
    let ghost entries = records.deep_view();
    proof {
        assert(entries.skip(0) =~= entries);
    }
    let wanted = String::from_str(name);
    let mut i: usize = 0;
    while i < records.len()
        invariant
            i <= records@.len(),
            entries == records.deep_view(),
            wanted@ == name@,
            lookup_name(entries.skip(i as int), name@) == lookup_name(entries, name@),
        decreases records@.len() - i,
    {
        proof {
            assert(entries.skip(i as int)[0] == entries[i as int]);
            assert(entries.skip(i as int).subrange(1, entries.skip(i as int).len() as int)
                =~= entries.skip(i + 1));
        }
        if records[i].filename.eq(&wanted) {
            return Some(FileId(records[i].id.clone()));
        }
        i = i + 1;
    }
    proof {
        assert(entries.skip(i as int) =~= Seq::<AccountFileV>::empty());
    }
    None
}

/// How a single local file is brought in sync with remote state.
#[derive(Debug)]
pub enum SyncPlan {
    /// The logical name already maps to a remote id and the sync is not
    /// forced: reuse the id. No network write is issued.
    KeepExisting(FileId),
    /// The logical name maps to a remote id and the sync is forced: delete
    /// the old account file and detach it — both best-effort — then upload
    /// and attach.
    Replace(FileId),
    /// The logical name maps to nothing: upload and attach.
    UploadNew,
}

/// The view of a sync plan.
pub enum SyncPlanV {
    KeepExisting(Seq<char>),
    Replace(Seq<char>),
    UploadNew,
}

impl View for SyncPlan {
    type V = SyncPlanV;

    open spec fn view(&self) -> SyncPlanV {
        match self {
            SyncPlan::KeepExisting(id) => SyncPlanV::KeepExisting(id@),
            SyncPlan::Replace(id) => SyncPlanV::Replace(id@),
            SyncPlan::UploadNew => SyncPlanV::UploadNew,
        }
    }
}

/// The plan for a given lookup result and force flag.
pub open spec fn sync_plan_spec(existing: Option<Seq<char>>, force: bool) -> SyncPlanV {
    match existing {
        Some(id) => if force {
            SyncPlanV::Replace(id)
        } else {
            SyncPlanV::KeepExisting(id)
        },
        None => SyncPlanV::UploadNew,
    }
}

/// One remote write of the file-sync path.
pub enum SyncOpV {
    DeleteAccountFile(Seq<char>),
    DetachFile(Seq<char>),
    Upload,
    Attach,
}

/// The remote writes a plan issues, in order. The two cleanup writes of a
/// replacement are attempted regardless of each other's success.
pub open spec fn sync_ops(p: SyncPlanV) -> Seq<SyncOpV> {
    match p {
        SyncPlanV::KeepExisting(_) => Seq::empty(),
        SyncPlanV::Replace(id) => seq![
            SyncOpV::DeleteAccountFile(id),
            SyncOpV::DetachFile(id),
            SyncOpV::Upload,
            SyncOpV::Attach,
        ],
        SyncPlanV::UploadNew => seq![SyncOpV::Upload, SyncOpV::Attach],
    }
}

/// Decide how to sync one local file, from the lookup result and the force
/// flag.
pub fn plan_file_sync(existing: &Option<FileId>, force: bool) -> (r: SyncPlan)
    ensures
        r@ == sync_plan_spec(existing.deep_view(), force),
{
    match existing {
        Some(id) => {
            if force {
                SyncPlan::Replace(id.clone())
            } else {
                SyncPlan::KeepExisting(id.clone())
            }
        },
        None => SyncPlan::UploadNew,
    }
}

/// What carrying a sync plan out produced. The cleanup and upload results
/// come from the caller, which performed the remote calls.
#[derive(Debug)]
pub struct SyncOutcome {
    /// The id the logical name maps to after the sync.
    pub file_id: FileId,
    /// A network upload occurred.
    pub was_uploaded: bool,
    /// The best-effort delete of the old account file reported failure. It
    /// is reported, never fatal, and never blocks the upload that follows.
    pub delete_failed: bool,
    /// The best-effort detach of the old file reported failure. Reported,
    /// never fatal.
    pub detach_failed: bool,
    /// The uploaded file id and the attachment id differ: a remote-service
    /// anomaly, reported, never raised as an error.
    pub id_mismatch: bool,
}

/// Carry a sync plan out, given what the remote calls it asks for returned:
/// `delete_ok` and `detach_ok` are what the best-effort cleanup reported,
/// and `uploaded_id` and `attached_id` are what the upload and attach
/// returned, where they were issued.
pub fn execute_file_sync(
    plan: SyncPlan,
    delete_ok: bool,
    detach_ok: bool,
    uploaded_id: FileId,
    attached_id: FileId,
) -> (r: SyncOutcome)
    ensures
        plan@ matches SyncPlanV::KeepExisting(id) ==> r.file_id@ == id && !r.was_uploaded
            && !r.delete_failed && !r.detach_failed && !r.id_mismatch,
        plan@ matches SyncPlanV::Replace(_) ==> r.file_id@ == attached_id@ && r.was_uploaded
            && r.delete_failed == !delete_ok && r.detach_failed == !detach_ok && r.id_mismatch == (
        uploaded_id@ != attached_id@),
        plan@ is UploadNew ==> r.file_id@ == attached_id@ && r.was_uploaded && !r.delete_failed
            && !r.detach_failed && r.id_mismatch == (uploaded_id@ != attached_id@),
{
    match plan {
        SyncPlan::KeepExisting(id) => SyncOutcome {
            file_id: id,
            was_uploaded: false,
            delete_failed: false,
            detach_failed: false,
            id_mismatch: false,
        },
        SyncPlan::Replace(_) => SyncOutcome {
            id_mismatch: !uploaded_id.0.eq(&attached_id.0),
            file_id: attached_id,
            was_uploaded: true,
            delete_failed: !delete_ok,
            detach_failed: !detach_ok,
        },
        SyncPlan::UploadNew => SyncOutcome {
            id_mismatch: !uploaded_id.0.eq(&attached_id.0),
            file_id: attached_id,
            was_uploaded: true,
            delete_failed: false,
            detach_failed: false,
        },
    }
}

/// The plan `sync_file` acts on: look the logical name up in the join of
/// the two remote collections, then plan by the force flag.
pub open spec fn sync_file_plan(
    account: Seq<AccountFileV>,
    attached: Seq<Seq<char>>,
    name: Seq<char>,
    force: bool,
) -> SyncPlanV {
    sync_plan_spec(lookup_name(attached_join(account, attached), name), force)
}

/// Sync one local file, given the two listed remote collections and what
/// the remote writes returned. The listed state is joined by id, the
/// logical name looked up, and the plan carried out.
pub fn sync_file(
    account: &Vec<AccountFile>,
    attached: &Vec<FileId>,
    name: &str,
    force: bool,
    delete_ok: bool,
    detach_ok: bool,
    uploaded_id: FileId,
    attached_id: FileId,
) -> (r: SyncOutcome)
    ensures
        sync_file_plan(account.deep_view(), attached.deep_view(), name@, force) matches
            SyncPlanV::KeepExisting(id) ==> r.file_id@ == id && !r.was_uploaded && !r.delete_failed
            && !r.detach_failed && !r.id_mismatch,
        sync_file_plan(account.deep_view(), attached.deep_view(), name@, force) matches
            SyncPlanV::Replace(_) ==> r.file_id@ == attached_id@ && r.was_uploaded
            && r.delete_failed == !delete_ok && r.detach_failed == !detach_ok && r.id_mismatch == (
        uploaded_id@ != attached_id@),
        sync_file_plan(account.deep_view(), attached.deep_view(), name@, force) is UploadNew
            ==> r.file_id@ == attached_id@ && r.was_uploaded && !r.delete_failed
            && !r.detach_failed && r.id_mismatch == (uploaded_id@ != attached_id@),
{
    let records = resolve_attached_files(account, attached);
    let existing = lookup_file_id(&records, name);
    let plan = plan_file_sync(&existing, force);
    execute_file_sync(plan, delete_ok, detach_ok, uploaded_id, attached_id)
}

/// Syncing a file whose logical name already maps to a remote id, without
/// force, issues zero remote writes: no upload, no delete, no attach.
pub proof fn lemma_sync_without_force(existing: Seq<char>)
    ensures
        ({
            let p = sync_plan_spec(Some(existing), false);
            &&& p == SyncPlanV::KeepExisting(existing)
            &&& sync_ops(p) == Seq::<SyncOpV>::empty()
        }),
{
}

/// Syncing the same file with force attempts exactly one account-file
/// delete and one detach — regardless of their success — followed by
/// exactly one upload and one attach.
pub proof fn lemma_sync_with_force(existing: Seq<char>)
    ensures
        ({
            let p = sync_plan_spec(Some(existing), true);
            &&& p == SyncPlanV::Replace(existing)
            &&& sync_ops(p) == seq![
                SyncOpV::DeleteAccountFile(existing),
                SyncOpV::DetachFile(existing),
                SyncOpV::Upload,
                SyncOpV::Attach,
            ]
        }),
{
}

/// The indices of the set flags, in increasing order: which of the listed
/// account files an account purge deletes.
pub open spec fn true_indices(flags: Seq<bool>) -> Seq<usize>
    decreases flags.len(),
{
    if flags.len() == 0 {
        Seq::empty()
    } else {
        true_indices(flags.drop_last()) + if flags.last() {
            seq![(flags.len() - 1) as usize]
        } else {
            Seq::empty()
        }
    }
}

/// What an account purge does: how many files it scanned, and which of
/// them, by index in listed order, it deletes.
#[derive(Debug)]
pub struct PurgePlan {
    pub scanned: usize,
    pub delete_indices: Vec<usize>,
}

/// Plan a purge of the account's files against a set of glob patterns:
/// `matched` says, per listed file, whether a pattern matched it. Without
/// at least one pattern the purge is refused. Every file is scanned; only
/// the matched ones are deleted.
pub fn plan_account_purge(matched: &Vec<bool>, globs_empty: bool) -> (r: Result<PurgePlan, Error>)
    ensures
        globs_empty ==> (r matches Err(e) && e matches Error::Config(_)),
        !globs_empty ==> (r matches Ok(p) && p.scanned == matched@.len() && p.delete_indices@
            == true_indices(matched@)),
{
    if globs_empty {
        return Err(Error::Config(String::from_str("account purge requires at least one glob")));
    }
    let mut delete_indices: Vec<usize> = Vec::new();
    let mut i: usize = 0;
    proof {
        assert(matched@.take(0) =~= Seq::<bool>::empty());
    }
    while i < matched.len()
        invariant
            i <= matched@.len(),
            delete_indices@ == true_indices(matched@.take(i as int)),
        decreases matched@.len() - i,
    {
        proof {
            assert(matched@.take(i + 1).drop_last() =~= matched@.take(i as int));
            assert(matched@.take(i + 1).last() == matched@[i as int]);
        }
        if matched[i] {
            delete_indices.push(i);
            proof {
                assert(delete_indices@ =~= true_indices(matched@.take(i as int)) + seq![i as usize]);
            }
        } else {
            proof {
                assert(true_indices(matched@.take(i + 1)) =~= true_indices(
                    matched@.take(i as int),
                ));
            }
        }
        i = i + 1;
    }
    proof {
        assert(matched@.take(i as int) =~= matched@);
    }
    Ok(PurgePlan { scanned: matched.len(), delete_indices })
}

} // verus!
