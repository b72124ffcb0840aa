//! The gateway to the vault library.
//!
//! Container decryption, the in-memory merge and re-encryption are done by
//! the `keepass` crate and are out of scope here: each call the library
//! makes is wrapped in one trusted item, and everything around the calls
//! is verified. Databases travel as plain byte images; the gateway never
//! touches a file.
//!
//! Opening is deterministic — `keepass` derives the master key and checks
//! it against the container without consulting a clock, randomness or the
//! environment — so its outcome is a function of the byte image and the
//! key alone and is given a name, [`open_outcome`], that the callers'
//! contracts are exact over. Saving draws fresh random seeds, so nothing
//! of its result can be named. What a merge log holds is named too
//! ([`log_warnings_of`], [`log_events_of`]), so the report handed onward
//! is pinned to the log the merge produced.
//!
//! The build used here has no hardware challenge-response stack, so a key
//! holding a challenge-response factor is refused by the orchestrator with
//! an `Unsupported` error before it reaches the gateway.

use vstd::prelude::*;

use crate::keys::DatabaseKey;
use crate::keys::DatabaseKeyView;
use keepass::db::DatabaseOpenError as OpenErr;
use keepass::db::merge::MergeEventTarget as EvTarget;
use keepass::db::merge::MergeEventType as EvType;
use keepass::DatabaseKey as KpKey;
use crate::report::{MergeEventKind, MergeReport, ReportEvent};

verus! {

/// How an open or save failure is classified.
#[derive(Clone, Copy, PartialEq, Eq, Structural, Debug)]
pub enum VaultErrorKind {
    /// The key does not decrypt the container.
    BadCredentials,
    /// The container is damaged or is not a recognizable database.
    Corrupt,
    /// The container version, or a requested capability, is not supported.
    Unsupported,
}

/// A failure reported by the vault library, with its original message kept
/// intact for the user.
#[derive(Debug)]
pub struct VaultError {
    pub kind: VaultErrorKind,
    pub message: String,
}

#[verifier::external_type_specification]
#[verifier::external_body]
pub struct ExKpDatabase(keepass::Database);

#[verifier::external_type_specification]
#[verifier::external_body]
pub struct ExKpMergeLog(keepass::db::merge::MergeLog);

/// What opening a byte image with a key comes to: `None` when the image
/// decrypts and parses, and the classified failure otherwise. This is the
/// outcome of `keepass::Database::parse` on the image with the key built
/// from the factors, which depends on those two values alone.
pub uninterp spec fn open_outcome(data: Seq<u8>, key: DatabaseKeyView) -> Option<VaultErrorKind>;

/// The warning lines a merge log holds, in log order.
pub uninterp spec fn log_warnings_of(log: keepass::db::merge::MergeLog) -> Seq<Seq<char>>;

/// The events a merge log holds, in log order, each as the changed
/// object's UUID and the kind of change.
pub uninterp spec fn log_events_of(log: keepass::db::merge::MergeLog) -> Seq<ReportEvent>;

/// Open a database from its byte image with a resolved key.
///
/// Relies on keepass::Database::parse, with the key assembled from the
/// library key's factors through keepass's own builders. Failures are
/// classified: key errors and cipher-level errors mean the credentials do
/// not fit, an unsupported container version is reported as such, and
/// everything else (truncated data, malformed headers, I/O shims) means
/// the container is corrupt. The key must hold at least one factor — an
/// empty key is a configuration error that the resolver reports long
/// before this point — and no challenge-response factor, which this build
/// cannot exercise.
#[verifier::external_body]
pub(crate) fn open_database(data: &Vec<u8>, key: &DatabaseKey) -> (r: Result<
    keepass::Database,
    VaultError,
>)
    requires
        !key@.is_empty(),
        key@.challenge is None,
    ensures
        r is Ok <==> open_outcome(data@, key@) is None,
        r is Err ==> r->Err_0.kind == open_outcome(data@, key@)->0,
{
    let mut k = KpKey::new();
    if let Some(p) = &key.password {
        k = k.with_password(p.as_str());
    }
    if let Some(f) = &key.keyfile {
        k = k.with_keyfile(&mut f.as_slice()).map_err(|e| VaultError {
            kind: VaultErrorKind::Corrupt, message: format!("{}", e) })?;
    }
    keepass::Database::parse(data.as_slice(), k).map_err(|e| VaultError {
        kind: match &e {
            OpenErr::Key(_) | OpenErr::Cryptography(_) => VaultErrorKind::BadCredentials,
            OpenErr::UnsupportedVersion => VaultErrorKind::Unsupported,
            _ => VaultErrorKind::Corrupt,
        }, message: format!("{}", e),
    })
}

/// Relies on keepass::Database::merge: merges the other database into this
/// one and reports what changed. The error message is passed through.
#[verifier::external_body]
pub(crate) fn merge_vaults(dest: &mut keepass::Database, src: &keepass::Database) -> Result<
    keepass::db::merge::MergeLog,
    String,
> {
    match dest.merge(src) {
        Ok(log) => Ok(log),
        Err(e) => Err(format!("{}", e)),
    }
}

/// Relies on the merge log's public `warnings` field: the warnings,
/// verbatim and in order.
#[verifier::external_body]
fn log_warnings(log: &keepass::db::merge::MergeLog) -> (r: Vec<String>)
    ensures
        r.deep_view() == log_warnings_of(*log),
{
    log.warnings.clone()
}

/// Relies on the merge log's public `events` field, handing each event out
/// as a plain record: the changed object's UUID (whichever of the entry,
/// group or icon targets carries it) and the kind of change — an object
/// created in the destination was added, a location update is a move. The
/// wildcard arms are dead: this version of the crate has no further
/// variants of either enum.
#[verifier::external_body]
fn log_events(log: &keepass::db::merge::MergeLog) -> (r: Vec<ReportEvent>)
    ensures
        r@ == log_events_of(*log),
{
    log.events.iter().map(|e| ReportEvent {
        entity_id: match &e.target {
            EvTarget::Entry(x) => x.uuid().as_u128(),
            EvTarget::Group(x) => x.uuid().as_u128(),
            EvTarget::Icon(x) => x.uuid().as_u128(),
            _ => 0,
        },
        kind: match &e.event_type {
            EvType::Created => MergeEventKind::Added,
            EvType::Updated => MergeEventKind::Updated,
            EvType::Deleted => MergeEventKind::Deleted,
            EvType::LocationUpdated => MergeEventKind::Moved,
            _ => MergeEventKind::Updated,
        },
    }).collect()
}

/// Encrypt and serialize a database with a resolved key, yielding the byte
/// image to persist.
///
/// Relies on keepass::Database::save into an in-memory buffer, with the
/// key assembled as in [`open_database`]. Saving draws fresh random seeds,
/// so no two images need agree and nothing is stated of the result; the
/// error message is passed through.
#[verifier::external_body]
pub(crate) fn save_database(db: &keepass::Database, key: &DatabaseKey) -> Result<Vec<u8>, String>
    requires
        key@.challenge is None,
{
    let mut k = KpKey::new();
    if let Some(p) = &key.password {
        k = k.with_password(p.as_str());
    }
    if let Some(f) = &key.keyfile {
        k = k.with_keyfile(&mut f.as_slice()).map_err(|e| format!("{}", e))?;
    }
    let mut out: Vec<u8> = Vec::new();
    match db.save(&mut out, k) {
        Ok(()) => Ok(out),
        Err(e) => Err(format!("{}", e)),
    }
}

/// The library's report of a merge log: the warnings verbatim and one
/// plain event per log event, everything in log order.
pub(crate) fn build_report(log: &keepass::db::merge::MergeLog) -> (r: MergeReport)
    ensures
        r@.warnings == log_warnings_of(*log),
        r@.events == log_events_of(*log),
{
    MergeReport { warnings: log_warnings(log), events: log_events(log) }
}

} // verus!
