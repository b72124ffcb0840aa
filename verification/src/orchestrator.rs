//! The run's state machine: open the destination, open the source, merge,
//! decide, persist.
//!
//! The run is split at its one interactive seam. [`begin`] resolves the
//! destination key and opens the destination image; only then may the
//! caller prompt for the source password (ask [`crate::resolver`] whether
//! and with what wording) and call [`complete`], which resolves the source
//! key — reusing the destination key verbatim when the policy says so —
//! opens the source, merges, applies the policy and, only on a `Persist`
//! decision, produces the new destination image. The library never touches
//! a file: the caller supplies byte images and writes back the returned
//! bytes, so every aborting decision leaves the destination untouched by
//! construction.
//!
//! Errors carry the role they arose for: a destination failure is never
//! attributed to the source, nor the other way around.

use vstd::prelude::*;
use vstd::string::StringExecFns;

use crate::DatabaseRole;
use crate::decision::{decide, decision_of, decision_succeeds, decision_is_success, Decision,
    Policy};
use crate::gateway::{open_database, open_outcome, merge_vaults, save_database, build_report,
    VaultError, VaultErrorKind};
use crate::keys::DatabaseKeyView;
use crate::keys::DatabaseKey;
use crate::report::MergeReport;
use crate::resolver::{independent_key, resolve, ResolutionStrategy, ResolveError,
    RoleCredentials, RoleCredentialsView};

verus! {

/// Why a run stopped before a policy decision could be made.
#[derive(Debug)]
pub enum RunError {
    /// A key could not be resolved for the role: nothing was touched.
    Config(DatabaseRole, ResolveError),
    /// The role's database could not be opened with its resolved key.
    Open(DatabaseRole, VaultError),
    /// The merge itself reported an irreconcilable state.
    Merge(String),
}

/// A run that has opened its destination and is waiting for the source.
pub struct MergeSession {
    vault: keepass::Database,
    key: DatabaseKey,
    policy: Policy,
}

impl MergeSession {
    /// The resolved destination key, as a ghost value.
    pub closed spec fn key_view(&self) -> crate::keys::DatabaseKeyView {
        self.key@
    }

    /// The policy this run was started with.
    pub closed spec fn policy_spec(&self) -> Policy {
        self.policy
    }

    /// Whether the session's key can be taken further: at least one
    /// factor, and no challenge-response factor (which this build cannot
    /// exercise). Every session [`begin`] hands out satisfies this; the
    /// check is offered so that an unverified caller can test
    /// [`complete`]'s precondition rather than assume it.
    pub fn key_is_usable(&self) -> (r: bool)
        ensures
            r == (!self.key_view().is_empty() && self.key_view().challenge is None),
    {
        !self.key.is_empty() && self.key.challenge.is_none()
    }
}

/// What a completed run produced: the merge report, the policy decision
/// on it, and — exactly when the decision was to persist and the save
/// succeeded — the new destination image.
pub struct RunOutcome {
    pub report: MergeReport,
    pub decision: Decision,
    pub persisted: Option<Vec<u8>>,
    pub save_error: Option<String>,
}

/// Whether a completed run counts as a success: the decision is not the
/// warnings failure, and no save error occurred.
pub open spec fn outcome_succeeds(o: RunOutcome) -> bool {
    decision_succeeds(o.decision) && o.save_error is None
}

/// The key the source role resolves to: the destination key verbatim when
/// the policy shares credentials, the source role's own independent key
/// otherwise.
pub open spec fn source_key_of(session: MergeSession, src_creds: RoleCredentialsView) -> Result<
    DatabaseKeyView,
    ResolveError,
> {
    if session.policy_spec().same_credentials {
        Ok(session.key_view())
    } else {
        independent_key(src_creds)
    }
}

/// Start a run: resolve the destination key from the destination role's
/// own credentials and open the destination image with it.
///
/// The key is exactly what [`independent_key`] states; a role with no
/// usable factor fails with `EmptyKey` here, before any database is
/// touched. A resolved, challenge-free key is owed a session exactly when
/// the image opens with it, [`open_outcome`]'s word; every failure carries
/// the destination role.
pub fn begin(dest_bytes: &Vec<u8>, dest_creds: &RoleCredentials, policy: Policy) -> (r: Result<
    MergeSession,
    RunError,
>)
    requires
        !dest_creds.no_password ==> dest_creds.password is Some,
    ensures
        r is Ok ==> independent_key(dest_creds@) is Ok && r->Ok_0.key_view() == independent_key(
            dest_creds@,
        )->Ok_0 && r->Ok_0.policy_spec() == policy && !r->Ok_0.key_view().is_empty()
            && r->Ok_0.key_view().challenge is None,
        independent_key(dest_creds@) is Err ==> r is Err && r->Err_0 == RunError::Config(
            DatabaseRole::Destination,
            independent_key(dest_creds@)->Err_0,
        ),
        r is Err && r->Err_0 is Config ==> r->Err_0->Config_0 is Destination && independent_key(
            dest_creds@,
        ) is Err,
        r is Err && r->Err_0 is Open ==> r->Err_0->Open_0 is Destination,
        !(r is Err && r->Err_0 is Merge),
        independent_key(dest_creds@) is Ok && independent_key(dest_creds@)->Ok_0.challenge is Some
            ==> r is Err && r->Err_0 is Open && r->Err_0->Open_1.kind is Unsupported,
        independent_key(dest_creds@) is Ok && independent_key(dest_creds@)->Ok_0.challenge is None
            ==> (r is Ok <==> open_outcome(
            dest_bytes@,
            independent_key(dest_creds@)->Ok_0,
        ) is None),
        independent_key(dest_creds@) is Ok && independent_key(dest_creds@)->Ok_0.challenge is None
            && r is Err ==> r->Err_0 is Open && r->Err_0->Open_1.kind == open_outcome(
            dest_bytes@,
            independent_key(dest_creds@)->Ok_0,
        )->0,
{
    let key = match resolve(ResolutionStrategy::Independent, dest_creds, None) {
        Ok(k) => k,
        Err(e) => {
            return Err(RunError::Config(DatabaseRole::Destination, e));
        },
    };
    if key.challenge.is_some() {
        return Err(
            RunError::Open(
                DatabaseRole::Destination,
                VaultError {
                    kind: VaultErrorKind::Unsupported,
                    message: String::from_str(
                        "challenge-response key factors are not supported by this build",
                    ),
                },
            ),
        );
    }
    proof {
        assert(!key@.is_empty());
    }
    let vault = match open_database(dest_bytes, &key) {
        Ok(v) => v,
        Err(e) => {
            return Err(RunError::Open(DatabaseRole::Destination, e));
        },
    };
    Ok(MergeSession { vault, key, policy })
}

/// Finish a run: resolve the source key, open the source image, merge it
/// into the destination, decide, and persist only if the decision says so.
///
/// When the policy shares credentials, the source key is the destination
/// key verbatim — resolution cannot fail and no prompt was needed. The
/// outcome's decision is exactly the policy decision on the report, and a
/// new destination image exists exactly when that decision is `Persist`
/// and the save succeeded: unforced warnings and dry runs never produce
/// one, so the destination file is left as it was. A resolved,
/// challenge-free source key fails with an open error exactly when the
/// source image does not open with it, [`open_outcome`]'s word — when it
/// does open, the run reaches a decision unless the merge itself reports
/// a conflict. Every resolution or open failure carries the source role.
pub fn complete(session: MergeSession, src_bytes: &Vec<u8>, src_creds: &RoleCredentials) -> (r:
    Result<RunOutcome, RunError>)
    requires
        !session.policy_spec().same_credentials && !src_creds.no_password
            ==> src_creds.password is Some,
        !session.key_view().is_empty(),
        session.key_view().challenge is None,
    ensures
        r is Ok ==> {
            let o = r->Ok_0;
            &&& o.decision == decision_of(
                session.policy_spec(),
                o.report@.warnings.len(),
                o.report@.events.len(),
            )
            &&& (o.persisted is Some ==> o.decision is Persist && o.save_error is None)
            &&& (!(o.decision is Persist) ==> o.persisted is None && o.save_error is None)
            &&& (o.decision is Persist ==> (o.persisted is Some <==> o.save_error is None))
            &&& (!session.policy_spec().force && o.report@.warnings.len() > 0 ==> o.persisted
                is None)
            &&& (session.policy_spec().dry_run ==> o.persisted is None)
        },
        r is Err && r->Err_0 is Config ==> r->Err_0->Config_0 is Source,
        r is Err && r->Err_0 is Open ==> r->Err_0->Open_0 is Source,
        session.policy_spec().same_credentials ==> !(r is Err && r->Err_0 is Config),
        source_key_of(session, src_creds@) is Err ==> r is Err && r->Err_0 == RunError::Config(
            DatabaseRole::Source,
            source_key_of(session, src_creds@)->Err_0,
        ),
        source_key_of(session, src_creds@) is Ok && source_key_of(
            session,
            src_creds@,
        )->Ok_0.challenge is Some ==> r is Err && r->Err_0 is Open && r->Err_0->Open_1.kind
            is Unsupported,
        source_key_of(session, src_creds@) is Ok && source_key_of(
            session,
            src_creds@,
        )->Ok_0.challenge is None ==> ((r is Err && r->Err_0 is Open) <==> open_outcome(
            src_bytes@,
            source_key_of(session, src_creds@)->Ok_0,
        ) is Some),
        source_key_of(session, src_creds@) is Ok && source_key_of(
            session,
            src_creds@,
        )->Ok_0.challenge is None && r is Err && r->Err_0 is Open ==> r->Err_0->Open_1.kind
            == open_outcome(src_bytes@, source_key_of(session, src_creds@)->Ok_0)->0,
{
    let MergeSession { vault, key, policy } = session;
    let mut vault = vault;
    let src_key = if policy.same_credentials {
        match resolve(ResolutionStrategy::Shared, src_creds, Some(&key)) {
            Ok(k) => k,
            Err(e) => {
                return Err(RunError::Config(DatabaseRole::Source, e));
            },
        }
    } else {
        match resolve(ResolutionStrategy::Independent, src_creds, None) {
            Ok(k) => k,
            Err(e) => {
                return Err(RunError::Config(DatabaseRole::Source, e));
            },
        }
    };
    if src_key.challenge.is_some() {
        return Err(
            RunError::Open(
                DatabaseRole::Source,
                VaultError {
                    kind: VaultErrorKind::Unsupported,
                    message: String::from_str(
                        "challenge-response key factors are not supported by this build",
                    ),
                },
            ),
        );
    }
    proof {
        assert(!src_key@.is_empty());
    }
    let src_vault = match open_database(src_bytes, &src_key) {
        Ok(v) => v,
        Err(e) => {
            return Err(RunError::Open(DatabaseRole::Source, e));
        },
    };
    let log = match merge_vaults(&mut vault, &src_vault) {
        Ok(l) => l,
        Err(message) => {
            return Err(RunError::Merge(message));
        },
    };
    let report = build_report(&log);
    let decision = decide(&policy, &report);
    let mut persisted: Option<Vec<u8>> = None;
    let mut save_error: Option<String> = None;
    match decision {
        Decision::Persist => {
            match save_database(&vault, &key) {
                Ok(bytes) => {
                    persisted = Some(bytes);
                },
                Err(message) => {
                    save_error = Some(message);
                },
            }
        },
        _ => {},
    }
    Ok(RunOutcome { report, decision, persisted, save_error })
}

/// The run's exit status: success exactly when the run completed and
/// succeeded — a persisting run whose save went through, a dry run, or a
/// nothing-to-merge run. Every error, the warnings failure and a failed
/// save are failures.
pub fn exit_success(r: &Result<RunOutcome, RunError>) -> (b: bool)
    ensures
        b == match r {
            Ok(o) => outcome_succeeds(*o),
            Err(_) => false,
        },
{
    match r {
        Ok(o) => decision_is_success(o.decision) && o.save_error.is_none(),
        Err(_) => false,
    }
}

} // verus!
