//! Behaviour of the decision logic: command parsing, identity resolution,
//! file sync, and conversation persistence.

use buddy::cmd::Cmd;
use buddy::conversation::{load_or_create_conv, Conv};
use buddy::error::Error;
use buddy::identity::{
    execute_resolution, first_by_name, resolve_decision, CreateConfig, IdentityDecision,
    RemoteAssistant,
};
use buddy::ids::{AssistantId, FileId, ThreadId};
use buddy::session::{init_plan, require_credential, Config, FileBundle, InitOp};
use buddy::sync::{
    execute_file_sync, lookup_file_id, plan_account_purge, plan_file_sync, resolve_attached_files,
    sync_file, AccountFile, SyncPlan,
};

fn s(text: &str) -> String {
    text.to_string()
}

#[test]
fn cmd_quit() {
    assert!(matches!(Cmd::from_input(s("/q")), Cmd::Quit));
}

#[test]
fn cmd_refresh_tokens() {
    assert!(matches!(Cmd::from_input(s("/r")), Cmd::RefreshAll));
    assert!(matches!(Cmd::from_input(s("/ra")), Cmd::RefreshAll));
    assert!(matches!(Cmd::from_input(s("/ri")), Cmd::RefreshInst));
    assert!(matches!(Cmd::from_input(s("/rf")), Cmd::RefreshFiles));
    assert!(matches!(Cmd::from_input(s("/rc")), Cmd::RefreshConv));
}

#[test]
fn cmd_free_text_is_chat() {
    assert!(matches!(Cmd::from_input(s("hello there")), Cmd::Chat(t) if t == "hello there"));
    assert!(matches!(Cmd::from_input(s("")), Cmd::Chat(t) if t.is_empty()));
    assert!(matches!(Cmd::from_input(s("/quit")), Cmd::Chat(t) if t == "/quit"));
}

#[test]
fn cmd_supported() {
    assert!(Cmd::from_input(s("/q")).supported());
    assert!(Cmd::from_input(s("hi")).supported());
    assert!(!Cmd::from_input(s("/r")).supported());
    assert!(!Cmd::from_input(s("/ri")).supported());
}

fn directory() -> Vec<RemoteAssistant> {
    vec![
        RemoteAssistant { id: s("a0"), name: None },
        RemoteAssistant { id: s("a1"), name: Some(s("buddy")) },
        RemoteAssistant { id: s("a2"), name: Some(s("other")) },
        RemoteAssistant { id: s("a3"), name: Some(s("buddy")) },
    ]
}

#[test]
fn find_first_takes_first_exact_match() {
    let found = first_by_name(&directory(), "buddy");
    assert_eq!(found.unwrap().0, "a1");
}

#[test]
fn find_absent_name_is_none_not_error() {
    assert!(first_by_name(&directory(), "nobody").is_none());
    assert!(first_by_name(&Vec::new(), "buddy").is_none());
}

#[test]
fn resolution_reuses_without_recreate() {
    let found = Some(AssistantId(s("a1")));
    let d = resolve_decision(&found, false);
    assert!(matches!(&d, IdentityDecision::Reuse(id) if id.0 == "a1"));
    let out = execute_resolution(d, true, AssistantId(s("unused")));
    assert_eq!(out.assistant_id.0, "a1");
    assert!(!out.created);
    assert!(!out.deleted);
}

#[test]
fn resolution_idempotent_second_pass_creates_nothing() {
    // First resolution of an existing name, no recreation: reuse, and no
    // remote write, so the directory a second resolution lists is the same.
    let dir = directory();
    let found1 = first_by_name(&dir, "buddy");
    let out1 = execute_resolution(resolve_decision(&found1, false), true, AssistantId(s("x")));
    assert!(!out1.created && !out1.deleted);
    let found2 = first_by_name(&dir, "buddy");
    let out2 = execute_resolution(resolve_decision(&found2, false), true, AssistantId(s("y")));
    assert!(!out2.created && !out2.deleted);
    assert_eq!(out1.assistant_id.0, out2.assistant_id.0);
}

#[test]
fn forced_recreation_deletes_once_and_creates_once() {
    let found = Some(AssistantId(s("a1")));
    let d = resolve_decision(&found, true);
    assert!(matches!(&d, IdentityDecision::Recreate(id) if id.0 == "a1"));
    let out = execute_resolution(d, true, AssistantId(s("a9")));
    assert!(out.deleted && out.created && !out.delete_failed);
    assert_eq!(out.assistant_id.0, "a9");
}

#[test]
fn forced_recreation_still_creates_when_delete_fails() {
    let found = Some(AssistantId(s("a1")));
    let d = resolve_decision(&found, true);
    let out = execute_resolution(d, false, AssistantId(s("a9")));
    assert!(out.deleted && out.created);
    assert!(out.delete_failed, "a failed delete is surfaced");
    assert_eq!(out.assistant_id.0, "a9", "the create is reached regardless");
}

#[test]
fn resolution_creates_when_absent() {
    let d = resolve_decision(&None, false);
    assert!(matches!(d, IdentityDecision::CreateNew));
    let out = execute_resolution(d, true, AssistantId(s("new1")));
    assert!(out.created && !out.deleted);
    assert_eq!(out.assistant_id.0, "new1");
}

fn account() -> Vec<AccountFile> {
    vec![
        AccountFile { id: s("f1"), filename: s("a.md") },
        AccountFile { id: s("f2"), filename: s("b.md") },
        AccountFile { id: s("f3"), filename: s("c.md") },
        AccountFile { id: s("f4"), filename: s("a.md") },
    ]
}

fn attached() -> Vec<FileId> {
    vec![FileId(s("f1")), FileId(s("f3")), FileId(s("f4"))]
}

#[test]
fn join_keeps_only_files_in_both_collections() {
    let joined = resolve_attached_files(&account(), &attached());
    let ids: Vec<&str> = joined.iter().map(|f| f.id.as_str()).collect();
    assert_eq!(ids, vec!["f1", "f3", "f4"]);
}

#[test]
fn join_of_empty_collections_is_empty() {
    assert!(resolve_attached_files(&Vec::new(), &attached()).is_empty());
    assert!(resolve_attached_files(&account(), &Vec::new()).is_empty());
}

#[test]
fn lookup_is_name_keyed_first_match_wins() {
    let joined = resolve_attached_files(&account(), &attached());
    // Both f1 and f4 carry the logical name a.md; the first listed wins.
    assert_eq!(lookup_file_id(&joined, "a.md").unwrap().0, "f1");
    assert_eq!(lookup_file_id(&joined, "c.md").unwrap().0, "f3");
    // b.md is owned by the account but not attached to the assistant.
    assert!(lookup_file_id(&joined, "b.md").is_none());
    assert!(lookup_file_id(&joined, "d.md").is_none());
}

#[test]
fn sync_without_force_issues_no_writes() {
    let out = sync_file(
        &account(),
        &attached(),
        "a.md",
        false,
        true,
        true,
        FileId(s("up")),
        FileId(s("up")),
    );
    assert!(!out.was_uploaded);
    assert_eq!(out.file_id.0, "f1");
    assert!(!out.delete_failed && !out.detach_failed && !out.id_mismatch);
}

#[test]
fn sync_with_force_replaces_even_when_cleanup_fails() {
    let out = sync_file(
        &account(),
        &attached(),
        "a.md",
        true,
        false,
        false,
        FileId(s("up")),
        FileId(s("up")),
    );
    assert!(out.was_uploaded);
    assert_eq!(out.file_id.0, "up");
    assert!(out.delete_failed && out.detach_failed, "cleanup failures are surfaced");
    assert!(!out.id_mismatch);
}

#[test]
fn sync_of_unknown_name_uploads() {
    let out = sync_file(
        &account(),
        &attached(),
        "new.md",
        false,
        true,
        true,
        FileId(s("up")),
        FileId(s("up")),
    );
    assert!(out.was_uploaded);
    assert_eq!(out.file_id.0, "up");
}

#[test]
fn sync_reports_id_mismatch_anomaly() {
    let plan = plan_file_sync(&None, false);
    assert!(matches!(plan, SyncPlan::UploadNew));
    let out = execute_file_sync(plan, true, true, FileId(s("up")), FileId(s("other")));
    assert!(out.id_mismatch);
    assert_eq!(out.file_id.0, "other", "the attachment id is returned");
}

#[test]
fn purge_requires_a_glob() {
    let r = plan_account_purge(&vec![true, false], true);
    assert!(matches!(r, Err(Error::Config(_))));
}

#[test]
fn purge_scans_all_and_deletes_matched() {
    let plan = plan_account_purge(&vec![true, false, true, false], false).unwrap();
    assert_eq!(plan.scanned, 4);
    assert_eq!(plan.delete_indices, vec![0, 2]);
}

#[test]
fn conversation_round_trip_reuses_thread() {
    // Fresh directory: a thread is created and the state file written.
    let first = load_or_create_conv(None, false, false, ThreadId(s("t1"))).unwrap();
    assert_eq!(first.conv.thread_id.0, "t1");
    assert!(first.created_thread && first.wrote_state && !first.deleted_state);
    // Second load with the persisted pointer still resolvable: identical
    // thread, nothing created, nothing written.
    let second = load_or_create_conv(Some(first.conv), false, true, ThreadId(s("t2"))).unwrap();
    assert_eq!(second.conv.thread_id.0, "t1");
    assert!(!second.created_thread && !second.wrote_state);
}

#[test]
fn stale_thread_is_an_error_not_a_replacement() {
    let persisted = Some(Conv { thread_id: ThreadId(s("gone")) });
    let r = load_or_create_conv(persisted, false, false, ThreadId(s("t2")));
    assert!(matches!(r, Err(Error::NotFound(_))));
}

#[test]
fn reset_discards_state_and_creates() {
    let persisted = Some(Conv { thread_id: ThreadId(s("t1")) });
    let out = load_or_create_conv(persisted, true, true, ThreadId(s("t2"))).unwrap();
    assert_eq!(out.conv.thread_id.0, "t2");
    assert!(out.deleted_state && out.created_thread && out.wrote_state);
}

fn config() -> Config {
    Config {
        name: s("buddy"),
        model: s("gpt-4"),
        instructions_file: s("instructions.md"),
        file_bundles: vec![FileBundle {
            bundle_name: s("docs"),
            src_dir: s("docs"),
            dst_ext: s("md"),
            src_globs: vec![s("*.md")],
        }],
    }
}

#[test]
fn init_plan_with_instructions() {
    let plan = init_plan(&config(), false, true);
    assert_eq!(plan.len(), 3);
    assert!(matches!(&plan[0], InitOp::ResolveIdentity { name, model, recreate }
        if name == "buddy" && model == "gpt-4" && !recreate));
    assert!(matches!(&plan[1], InitOp::UploadInstructions { path } if path == "instructions.md"));
    assert!(matches!(&plan[2], InitOp::SyncBundles { force } if !force));
}

#[test]
fn init_plan_skips_absent_instructions() {
    let plan = init_plan(&config(), true, false);
    assert_eq!(plan.len(), 2);
    assert!(matches!(&plan[0], InitOp::ResolveIdentity { recreate, .. } if *recreate));
    assert!(matches!(&plan[1], InitOp::SyncBundles { .. }));
}

#[test]
fn create_config_projects_name_and_model() {
    let cc = CreateConfig::from(&config());
    assert_eq!(cc.name, "buddy");
    assert_eq!(cc.model, "gpt-4");
}

#[test]
fn credential_is_required_at_startup() {
    assert!(require_credential(true).is_ok());
    assert!(matches!(require_credential(false), Err(Error::Credential)));
}
