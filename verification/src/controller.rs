//! The reconciliation driver: the finalizer protocol around the per-kind
//! state machines, and the fixed-interval retry policy.
//!
//! The watch collaborator loads an object and hands it to the driver; the
//! driver decides which lifecycle step to run, delegates to the kind's
//! Apply or Cleanup machine, and classifies the result into the next
//! scheduling action. Errors are never dropped and never retried faster
//! than the fixed interval.
use vstd::prelude::*;
use crate::Error;
use crate::REQUEUE_SECONDS;
use crate::resources::EventReason;

verus! {

/// What the watch collaborator is told to do next with an object.
#[derive(Clone, Copy, Debug, PartialEq, Eq, Structural)]
pub enum Action {
    /// Check the object again after this many seconds.
    Requeue { seconds: u64 },
    /// Do nothing until the object changes; used once cleanup is done and
    /// the object only awaits removal.
    AwaitChange,
}

/// The lifecycle step the driver runs for a loaded object.
#[derive(Clone, Copy, Debug, PartialEq, Eq, Structural)]
pub enum ReconcileStep {
    /// The object carries no finalizer marker yet: add it (an idempotent
    /// patch), then run the kind's Apply machine.
    AddFinalizerThenApply,
    /// The object carries the marker and is not being deleted: run Apply.
    Apply,
    /// Deletion was requested: run the kind's Cleanup machine and, once it
    /// succeeds, remove the finalizer marker.
    CleanupThenRemoveFinalizer,
    /// The object is already gone; nothing is scheduled again.
    Terminal,
}

/// Decides the lifecycle step from what the load returned: whether the
/// object still exists, whether its deletion was requested, and whether it
/// carries the finalizer marker.
pub fn finalizer_step(exists: bool, deletion_requested: bool, has_finalizer: bool) -> (r:
    ReconcileStep)
    ensures
        !exists ==> r == ReconcileStep::Terminal,
        exists && deletion_requested ==> r == ReconcileStep::CleanupThenRemoveFinalizer,
        exists && !deletion_requested && !has_finalizer ==> r == ReconcileStep::AddFinalizerThenApply,
        exists && !deletion_requested && has_finalizer ==> r == ReconcileStep::Apply,
{
    if !exists {
        ReconcileStep::Terminal
    } else if deletion_requested {
        ReconcileStep::CleanupThenRemoveFinalizer
    } else if !has_finalizer {
        ReconcileStep::AddFinalizerThenApply
    } else {
        ReconcileStep::Apply
    }
}

/// The retry policy: every error schedules another attempt after the fixed
/// interval, never faster, with no back-off growth.
pub fn error_policy(error: &Error) -> (r: Action)
    ensures
        r == (Action::Requeue { seconds: REQUEUE_SECONDS }),
{
    let _ = error;
    Action::Requeue { seconds: REQUEUE_SECONDS }
}

/// The event published when one reconciliation attempt ends: completed on
/// success, failed on error.
pub fn completion_event(succeeded: bool) -> (r: EventReason)
    ensures
        succeeded ==> r == EventReason::ReconcileCompleted,
        !succeeded ==> r == EventReason::ReconcileFailed,
{
    if succeeded {
        EventReason::ReconcileCompleted
    } else {
        EventReason::ReconcileFailed
    }
}

} // verus!
