//! The safety-policy decision that follows a merge.
//!
//! After the merge report is in hand, exactly one of four things happens:
//! unforced warnings block persistence and the run fails; a dry run aborts
//! with success; a merge that changed nothing aborts with success; and
//! otherwise the merged database is persisted. The decision is a pure
//! function of the fixed run policy and the report's shape.

use vstd::prelude::*;
use vstd::string::StringExecFns;

use crate::report::MergeReport;

verus! {

/// The fixed, read-only policy of one run.
#[derive(Clone, Copy, PartialEq, Eq, Structural, Debug)]
pub struct Policy {
    /// Persist even when the merge produced warnings.
    pub force: bool,
    /// Compute and report, but never persist.
    pub dry_run: bool,
    /// Reuse the destination's key for the source database.
    pub same_credentials: bool,
}

/// What the run does after the merge.
#[derive(Clone, Copy, PartialEq, Eq, Structural, Debug)]
pub enum Decision {
    /// Save the merged destination database.
    Persist,
    /// Warnings were produced and `force` is unset: do not save, fail.
    BlockedByWarnings,
    /// Dry run: do not save, succeed.
    DryRun,
    /// The merge changed nothing: do not save, succeed.
    NothingToMerge,
}

/// The decision the policy takes on a report with `warnings` warnings and
/// `events` change events. Unforced warnings come first; then the dry-run
/// abort, whatever the report holds; then the empty, nothing-to-merge case;
/// persistence only when none of these applies.
pub open spec fn decision_of(p: Policy, warnings: nat, events: nat) -> Decision {
    if warnings > 0 && !p.force {
        Decision::BlockedByWarnings
    } else if p.dry_run {
        Decision::DryRun
    } else if events == 0 {
        Decision::NothingToMerge
    } else {
        Decision::Persist
    }
}

/// Whether a decision ends the run as a success. Blocked warnings are the
/// one failure; a dry run and an idempotent re-merge both succeed, and a
/// persisting run's success is settled later by the save itself.
pub open spec fn decision_succeeds(d: Decision) -> bool {
    d != Decision::BlockedByWarnings
}

/// Apply the policy to a merge report.
pub fn decide(p: &Policy, report: &MergeReport) -> (d: Decision)
    ensures
        d == decision_of(*p, report.warnings@.len(), report.events@.len()),
{
    if report.warnings.len() > 0 && !p.force {
        Decision::BlockedByWarnings
    } else if p.dry_run {
        Decision::DryRun
    } else if report.events.len() == 0 {
        Decision::NothingToMerge
    } else {
        Decision::Persist
    }
}

/// Whether a decision ends the run as a success.
pub fn decision_is_success(d: Decision) -> (r: bool)
    ensures
        r == decision_succeeds(d),
{
    match d {
        Decision::BlockedByWarnings => false,
        _ => true,
    }
}

/// The status line each aborting decision prints; `Persist` has none until
/// the save has succeeded.
pub fn decision_message(d: Decision) -> (r: Option<String>)
    ensures
        d is BlockedByWarnings ==> r is Some && r->0@
            == "Warnings were generated by the merge operation. Not saving the database."@,
        d is DryRun ==> r is Some && r->0@
            == "Running in dry-run mode. Not saving the database."@,
        d is NothingToMerge ==> r is Some && r->0@ == "Nothing to merge."@,
        d is Persist ==> r is None,
{
    match d {
        Decision::Persist => None,
        Decision::BlockedByWarnings => Some(
            String::from_str(
                "Warnings were generated by the merge operation. Not saving the database.",
            ),
        ),
        Decision::DryRun => Some(
            String::from_str("Running in dry-run mode. Not saving the database."),
        ),
        Decision::NothingToMerge => Some(String::from_str("Nothing to merge.")),
    }
}

/// Warnings that `force` does not override always block persistence: with
/// `force` unset and at least one warning, the decision is never `Persist`,
/// whatever the events are, so the destination is left untouched.
pub proof fn lemma_unforced_warnings_never_persist(p: Policy, warnings: nat, events: nat)
    requires
        !p.force,
        warnings > 0,
    ensures
        decision_of(p, warnings, events) == Decision::BlockedByWarnings,
        !decision_succeeds(decision_of(p, warnings, events)),
{
}

/// A dry run never persists: whatever the report holds, the decision is
/// either the warnings failure or the dry-run abort, never `Persist`, so
/// the destination is left untouched.
pub proof fn lemma_dry_run_never_persists(p: Policy, warnings: nat, events: nat)
    requires
        p.dry_run,
    ensures
        decision_of(p, warnings, events) != Decision::Persist,
{
}

} // verus!
