use kdbx_merge::decision::Policy;
use kdbx_merge::keys::{CredentialFactor, DatabaseKey};
use kdbx_merge::orchestrator::begin;
use kdbx_merge::orchestrator::RunError;
use kdbx_merge::resolver::{
    needs_password_prompt, prompt_text, resolve, select_device, ResolutionStrategy, ResolveError,
    RoleCredentials,
};
use kdbx_merge::DatabaseRole;

fn creds(
    no_password: bool,
    password: Option<&str>,
    slot: Option<&str>,
    serial: Option<u32>,
    devices: Vec<u32>,
) -> RoleCredentials {
    RoleCredentials {
        no_password,
        password: password.map(|p| p.to_string()),
        keyfile: None,
        slot: slot.map(|s| s.to_string()),
        serial,
        devices,
    }
}

fn policy() -> Policy {
    Policy { force: false, dry_run: false, same_credentials: false }
}

#[test]
fn empty_key_fails_before_any_open() {
    // No password, no keyfile, no slot: the run must fail with the
    // configuration error, not with a parse error on the garbage bytes —
    // the destination is never even looked at.
    let garbage = vec![0u8; 4];
    let r = begin(&garbage, &creds(true, None, None, None, vec![]), policy());
    match r {
        Err(RunError::Config(DatabaseRole::Destination, ResolveError::EmptyKey)) => {}
        _ => panic!("expected the empty-key configuration error for the destination"),
    }
}

#[test]
fn no_device_present_is_not_found() {
    assert_eq!(select_device(&vec![], None), Err(ResolveError::DeviceNotFound));
}

#[test]
fn single_device_is_selected() {
    assert_eq!(select_device(&vec![7], None), Ok(7));
}

#[test]
fn two_devices_without_serial_are_ambiguous() {
    assert_eq!(select_device(&vec![7, 9], None), Err(ResolveError::DeviceAmbiguous));
}

#[test]
fn serial_singles_out_a_device() {
    assert_eq!(select_device(&vec![7, 9], Some(9)), Ok(9));
}

#[test]
fn absent_serial_is_not_found() {
    assert_eq!(select_device(&vec![7, 9], Some(8)), Err(ResolveError::DeviceNotFound));
}

#[test]
fn device_errors_surface_through_resolve() {
    let c = creds(true, None, Some("2"), None, vec![7, 9]);
    let r = resolve(ResolutionStrategy::Independent, &c, None);
    assert!(matches!(r, Err(ResolveError::DeviceAmbiguous)));
}

#[test]
fn resolved_key_holds_the_selected_device() {
    let c = creds(false, Some("pw"), Some("2"), Some(9), vec![7, 9]);
    let key = resolve(ResolutionStrategy::Independent, &c, None).unwrap();
    assert_eq!(key.password.as_deref(), Some("pw"));
    let challenge = key.challenge.expect("challenge factor expected");
    assert_eq!(challenge.serial, 9);
    assert_eq!(challenge.slot, "2");
}

#[test]
fn shared_resolution_reuses_the_key_verbatim() {
    // The source role's own flags would add a device factor, but a shared
    // resolution reuses the destination key unchanged.
    let dest = creds(false, Some("x"), None, None, vec![]);
    let dest_key = resolve(ResolutionStrategy::Independent, &dest, None).unwrap();
    let src = creds(true, None, Some("1"), None, vec![3]);
    let src_key = resolve(ResolutionStrategy::Shared, &src, Some(&dest_key)).unwrap();
    assert_eq!(src_key.password, dest_key.password);
    assert_eq!(src_key.keyfile, dest_key.keyfile);
    assert!(src_key.challenge.is_none() && dest_key.challenge.is_none());
}

#[test]
fn shared_resolution_never_prompts() {
    assert!(!needs_password_prompt(ResolutionStrategy::Shared, false));
    assert!(!needs_password_prompt(ResolutionStrategy::Shared, true));
    assert!(needs_password_prompt(ResolutionStrategy::Independent, false));
    assert!(!needs_password_prompt(ResolutionStrategy::Independent, true));
}

#[test]
fn prompt_wording_per_role() {
    assert_eq!(
        prompt_text(DatabaseRole::Destination, false),
        "Password for the destination database: "
    );
    assert_eq!(prompt_text(DatabaseRole::Destination, true), "Password for the databases: ");
    assert_eq!(prompt_text(DatabaseRole::Source, false), "Password for the source database: ");
}

#[test]
fn keyfile_alone_is_a_usable_key() {
    let c = RoleCredentials {
        no_password: true,
        password: None,
        keyfile: Some(vec![1, 2, 3]),
        slot: None,
        serial: None,
        devices: vec![],
    };
    let key = resolve(ResolutionStrategy::Independent, &c, None).unwrap();
    assert!(key.password.is_none());
    assert_eq!(key.keyfile.as_deref(), Some(&[1u8, 2, 3][..]));
    assert!(!key.is_empty());
}

#[test]
fn key_builders_keep_one_factor_per_kind() {
    let key = DatabaseKey::new()
        .with_factor(CredentialFactor::Password("a".to_string()))
        .with_factor(CredentialFactor::Password("b".to_string()));
    assert_eq!(key.password.as_deref(), Some("b"));
    assert!(key.keyfile.is_none());
    assert!(key.challenge.is_none());
}
