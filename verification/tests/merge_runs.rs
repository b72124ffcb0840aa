use keepass::db::{EntryId, GroupId, Times};
use keepass::{Database, DatabaseKey as KpKey};
use uuid::Uuid;

use kdbx_merge::decision::{Decision, Policy};
use kdbx_merge::gateway::VaultErrorKind;
use kdbx_merge::orchestrator::{begin, complete, exit_success, RunError};
use kdbx_merge::report::{MergeEventKind, ReportEvent};
use kdbx_merge::resolver::RoleCredentials;
use kdbx_merge::DatabaseRole;

fn pw_creds(pw: &str) -> RoleCredentials {
    RoleCredentials {
        no_password: false,
        password: Some(pw.to_string()),
        keyfile: None,
        slot: None,
        serial: None,
        devices: vec![],
    }
}

fn silent_creds() -> RoleCredentials {
    RoleCredentials {
        no_password: true,
        password: None,
        keyfile: None,
        slot: None,
        serial: None,
        devices: vec![],
    }
}

fn policy(force: bool, dry_run: bool, same_credentials: bool) -> Policy {
    Policy { force, dry_run, same_credentials }
}

fn save_bytes(db: &Database, pw: &str) -> Vec<u8> {
    let mut out: Vec<u8> = Vec::new();
    db.save(&mut out, KpKey::new().with_password(pw)).expect("save failed");
    out
}

fn entry_id(n: u128) -> EntryId {
    EntryId::from_uuid(Uuid::from_u128(n))
}

/// Add an entry with a pinned id and title, and pin its timestamps so that
/// merges compare deterministically: `old` entries predate `new` ones.
fn add_entry(db: &mut Database, id: EntryId, title: &str, old: bool) {
    let mut root = db.root_mut();
    let mut e = root.add_entry_with_id(id).expect("duplicate entry id");
    e.set_unprotected("Title", title);
    let t = if old { Times::epoch() } else { Times::now() };
    e.times.last_modification = Some(t);
    e.times.location_changed = Some(t);
}

fn pin_root_times(db: &mut Database) {
    let mut root = db.root_mut();
    root.times.last_modification = Some(Times::epoch());
    root.times.location_changed = Some(Times::epoch());
}

#[test]
fn merging_a_database_with_itself_changes_nothing() {
    let root = GroupId::from_uuid(Uuid::from_u128(0x10));
    let mut db = Database::new_with_root_id(root);
    add_entry(&mut db, entry_id(0xA), "A", true);
    pin_root_times(&mut db);
    let bytes = save_bytes(&db, "x");

    let session = begin(&bytes, &pw_creds("x"), policy(false, false, true)).expect("begin failed");
    let r = complete(session, &bytes, &silent_creds());
    let out = r.expect("complete failed");
    assert!(out.report.warnings.is_empty(), "warnings: {:?}", out.report.warnings);
    assert!(out.report.events.is_empty(), "events: {:?}", out.report.events);
    assert_eq!(out.decision, Decision::NothingToMerge);
    assert!(out.persisted.is_none());
    assert!(out.save_error.is_none());
    let wrapped = Ok(out);
    assert!(exit_success(&wrapped));
}

#[test]
fn rename_and_addition_merge_into_destination() {
    let root = GroupId::from_uuid(Uuid::from_u128(0x10));
    let a = entry_id(0xA);
    let b = entry_id(0xB);
    let c = entry_id(0xC);

    let mut dest = Database::new_with_root_id(root);
    add_entry(&mut dest, a, "A", true);
    add_entry(&mut dest, b, "B", true);
    pin_root_times(&mut dest);
    let dest_bytes = save_bytes(&dest, "x");

    let mut src = Database::new_with_root_id(root);
    add_entry(&mut src, b, "B renamed", false);
    add_entry(&mut src, c, "C", true);
    pin_root_times(&mut src);
    let src_bytes = save_bytes(&src, "x");

    let session =
        begin(&dest_bytes, &pw_creds("x"), policy(true, false, false)).expect("begin failed");
    let out = complete(session, &src_bytes, &pw_creds("x")).expect("complete failed");

    // The merge adds C and updates B, and nothing else. The order is the
    // vault library's own insertion order, which reports the addition
    // first — the report keeps it verbatim, never sorted.
    assert_eq!(
        out.report.events,
        vec![
            ReportEvent { entity_id: 0xC, kind: MergeEventKind::Added },
            ReportEvent { entity_id: 0xB, kind: MergeEventKind::Updated },
        ]
    );
    assert_eq!(out.decision, Decision::Persist);
    assert!(out.save_error.is_none(), "save error: {:?}", out.save_error);

    // The persisted image holds A, the renamed B and the new C.
    let new_bytes = out.persisted.expect("no persisted image");
    let merged = Database::parse(&new_bytes, KpKey::new().with_password("x"))
        .expect("persisted image does not open");
    let titles: Vec<(u128, String)> = merged
        .root()
        .entries()
        .map(|e| (e.id().uuid().as_u128(), e.get("Title").unwrap_or("").to_string()))
        .collect();
    assert_eq!(titles.len(), 3, "entries: {:?}", titles);
    assert!(titles.contains(&(0xA, "A".to_string())));
    assert!(titles.contains(&(0xB, "B renamed".to_string())));
    assert!(titles.contains(&(0xC, "C".to_string())));
}

#[test]
fn dry_run_produces_no_bytes() {
    let root = GroupId::from_uuid(Uuid::from_u128(0x11));
    let mut dest = Database::new_with_root_id(root);
    add_entry(&mut dest, entry_id(0xA), "A", true);
    pin_root_times(&mut dest);
    let dest_bytes = save_bytes(&dest, "x");

    let mut src = Database::new_with_root_id(root);
    add_entry(&mut src, entry_id(0xA), "A", true);
    add_entry(&mut src, entry_id(0xC), "C", true);
    pin_root_times(&mut src);
    let src_bytes = save_bytes(&src, "x");

    let session =
        begin(&dest_bytes, &pw_creds("x"), policy(false, true, false)).expect("begin failed");
    let out = complete(session, &src_bytes, &pw_creds("x")).expect("complete failed");
    assert!(!out.report.events.is_empty(), "expected a change to report");
    assert_eq!(out.decision, Decision::DryRun);
    assert!(out.persisted.is_none());
    let wrapped = Ok(out);
    assert!(exit_success(&wrapped));
}

#[test]
fn shared_credentials_fail_on_the_source_role() {
    let mut dest = Database::new_with_root_id(GroupId::from_uuid(Uuid::from_u128(0x12)));
    pin_root_times(&mut dest);
    let dest_bytes = save_bytes(&dest, "x");

    let mut src = Database::new_with_root_id(GroupId::from_uuid(Uuid::from_u128(0x13)));
    pin_root_times(&mut src);
    let src_bytes = save_bytes(&src, "y");

    // The destination opens with "x"; the source really requires "y", so
    // reusing the destination key must fail for the source role, never the
    // destination.
    let session =
        begin(&dest_bytes, &pw_creds("x"), policy(false, false, true)).expect("begin failed");
    let r = complete(session, &src_bytes, &silent_creds());
    match r {
        Err(RunError::Open(DatabaseRole::Source, e)) => {
            assert_eq!(e.kind, VaultErrorKind::BadCredentials, "message: {}", e.message);
        }
        Err(e2) => panic!("wrong error kind: {:?}", kind_name(&e2)),
        Ok(_) => panic!("the source should not open with the destination password"),
    }
}

fn kind_name(e: &RunError) -> &'static str {
    match e {
        RunError::Config(DatabaseRole::Destination, _) => "Config(Destination)",
        RunError::Config(DatabaseRole::Source, _) => "Config(Source)",
        RunError::Open(DatabaseRole::Destination, _) => "Open(Destination)",
        RunError::Open(DatabaseRole::Source, _) => "Open(Source)",
        RunError::Merge(_) => "Merge",
    }
}

#[test]
fn wrong_destination_password_is_bad_credentials() {
    let mut dest = Database::new_with_root_id(GroupId::from_uuid(Uuid::from_u128(0x14)));
    pin_root_times(&mut dest);
    let dest_bytes = save_bytes(&dest, "x");
    let r = begin(&dest_bytes, &pw_creds("z"), policy(false, false, false));
    match r {
        Err(RunError::Open(DatabaseRole::Destination, e)) => {
            assert_eq!(e.kind, VaultErrorKind::BadCredentials, "message: {}", e.message);
        }
        _ => panic!("expected a destination bad-credentials error"),
    }
}

#[test]
fn challenge_response_key_is_unsupported_here() {
    // The slot resolves to the single attached device, so the key itself
    // is fine — but this build has no hardware stack to drive it.
    let creds = RoleCredentials {
        no_password: true,
        password: None,
        keyfile: None,
        slot: Some("2".to_string()),
        serial: None,
        devices: vec![7],
    };
    let r = begin(&vec![0u8; 8], &creds, policy(false, false, false));
    match r {
        Err(RunError::Open(DatabaseRole::Destination, e)) => {
            assert_eq!(e.kind, VaultErrorKind::Unsupported, "message: {}", e.message);
        }
        _ => panic!("expected the unsupported challenge-response error"),
    }
}

#[test]
fn diverged_same_timestamp_entries_are_a_merge_conflict() {
    // The same entry, the same modification time, different contents:
    // the merge cannot reconcile them and reports a conflict, and no new
    // destination image is produced.
    let root = GroupId::from_uuid(Uuid::from_u128(0x15));
    let b = entry_id(0xB);
    let mut dest = Database::new_with_root_id(root);
    add_entry(&mut dest, b, "one title", true);
    pin_root_times(&mut dest);
    let dest_bytes = save_bytes(&dest, "x");
    let mut src = Database::new_with_root_id(root);
    add_entry(&mut src, b, "another title", true);
    pin_root_times(&mut src);
    let src_bytes = save_bytes(&src, "x");

    let session =
        begin(&dest_bytes, &pw_creds("x"), policy(false, false, false)).expect("begin failed");
    let r = complete(session, &src_bytes, &pw_creds("x"));
    match &r {
        Err(RunError::Merge(message)) => {
            assert!(!message.is_empty());
        }
        _ => panic!("expected a merge conflict"),
    }
    assert!(!exit_success(&r));
}

#[test]
fn garbage_destination_is_corrupt() {
    let garbage = vec![9u8; 64];
    let r = begin(&garbage, &pw_creds("x"), policy(false, false, false));
    match r {
        Err(RunError::Open(DatabaseRole::Destination, e)) => {
            assert_eq!(e.kind, VaultErrorKind::Corrupt, "message: {}", e.message);
        }
        _ => panic!("expected a destination corrupt-container error"),
    }
}
