//! The Bucket resource: a bucket on the object-storage backend, identified
//! after creation by the opaque id the backend assigned.
//!
//! Apply runs in two verified steps around the storage call: `plan_apply`
//! decides whether a bucket must be created, and `on_created` turns the
//! call's outcome into the status patch. Cleanup deletes by the stored id.
use vstd::prelude::*;
use crate::controller::Action;
use crate::garage;
use crate::garage::StorageRequest;
use crate::resources::Metadata;
use crate::resources::illegal_name;
use crate::resources::is_illegal_name;
use crate::Error;
use crate::REQUEUE_SECONDS;

verus! {

/// Desired state of a Bucket resource.
#[derive(Debug)]
pub struct BucketSpec {
    /// Logical bucket name, requested as the bucket's global alias.
    pub name: String,
}

/// Observed state of a Bucket resource.
#[derive(Debug)]
pub struct BucketStatus {
    /// Whether the bucket was created on the storage backend.
    pub created: bool,
    /// The storage-assigned opaque bucket id, once created.
    pub id: String,
}

/// One Bucket desired-state/observed-state object.
pub struct Bucket {
    pub metadata: Metadata,
    pub spec: BucketSpec,
    pub status: Option<BucketStatus>,
}

impl Bucket {
    /// Whether the status records a completed creation.
    pub open spec fn spec_was_created(&self) -> bool {
        match self.status {
            Some(s) => s.created,
            None => false,
        }
    }

    /// Whether the status records a completed creation.
    pub fn was_created(&self) -> (r: bool)
        ensures
            r == self.spec_was_created(),
    {
        match &self.status {
            Some(s) => s.created,
            None => false,
        }
    }
}

/// What Apply decided before any storage call.
#[derive(Debug)]
pub enum BucketApplyStep {
    /// The status already records creation: converged, no external call is
    /// made at all.
    AlreadyCreated,
    /// The bucket must be created: post this request, then hand the outcome
    /// to `on_created`.
    Create { request: StorageRequest },
}

/// The decision Apply takes from the resource alone.
pub open spec fn spec_apply_decision(b: &Bucket) -> Result<bool, Error> {
    if b.spec_was_created() {
        Ok(false)
    } else if b.metadata.name@ == illegal_name() {
        Err(Error::IllegalIdentifier)
    } else {
        Ok(true)
    }
}

/// First Apply step: idempotency check and validation guard, then the one
/// creation request with the desired global alias.
pub fn plan_apply(b: &Bucket) -> (r: Result<BucketApplyStep, Error>)
    ensures
        spec_apply_decision(b) matches Err(e) ==> r == Err::<BucketApplyStep, Error>(e),
        spec_apply_decision(b) == Ok::<bool, Error>(false) ==> r == Ok::<BucketApplyStep, Error>(
            BucketApplyStep::AlreadyCreated,
        ),
        spec_apply_decision(b) == Ok::<bool, Error>(true) ==> (r matches Ok(
            BucketApplyStep::Create { request },
        ) && request matches StorageRequest::CreateBucket { global_alias } && global_alias@
            == b.spec.name@),
{
    if b.was_created() {
        return Ok(BucketApplyStep::AlreadyCreated);
    }
    if is_illegal_name(&b.metadata.name) {
        return Err(Error::IllegalIdentifier);
    }
    Ok(BucketApplyStep::Create {
        request: StorageRequest::CreateBucket { global_alias: b.spec.name.clone() },
    })
}

/// Second Apply step, after the storage call: on success, the status patch
/// storing the backend-assigned id; on failure, the adapter error.
pub fn on_created(outcome: Result<garage::Bucket, garage::Error>) -> (r: Result<
    (BucketStatus, Action),
    Error,
>)
    ensures
        outcome is Err ==> r == Err::<(BucketStatus, Action), Error>(Error::StorageHttpError),
        outcome matches Ok(gb) ==> (r matches Ok((status, action)) && status.created && status.id@
            == gb.id@ && action == (Action::Requeue { seconds: REQUEUE_SECONDS })),
{
    match outcome {
        Err(_) => Err(Error::StorageHttpError),
        Ok(gb) => {
            let status = BucketStatus { created: true, id: gb.id };
            Ok((status, Action::Requeue { seconds: REQUEUE_SECONDS }))
        },
    }
}

/// What Cleanup decided.
#[derive(Debug)]
pub enum BucketCleanupStep {
    /// The stored id names the bucket to delete: post this request, then
    /// hand the outcome to `on_cleaned`.
    Delete { request: StorageRequest },
    /// No bucket was ever created for this object, so there is nothing to
    /// delete.
    NothingToDo,
}

/// Cleanup step: exactly one delete request for the stored id of a created
/// bucket; none for an object that never reached creation.
pub fn plan_cleanup(b: &Bucket) -> (r: BucketCleanupStep)
    ensures
        b.spec_was_created() ==> (r matches BucketCleanupStep::Delete { request }
            && request matches StorageRequest::DeleteBucket { id } && b.status matches Some(s)
            && id@ == s.id@),
        !b.spec_was_created() ==> r is NothingToDo,
{
    match &b.status {
        Some(s) if s.created => BucketCleanupStep::Delete {
            request: StorageRequest::DeleteBucket { id: s.id.clone() },
        },
        _ => BucketCleanupStep::NothingToDo,
    }
}

/// Final Cleanup step: terminal only once the delete call succeeded;
/// otherwise the adapter error, retried by the driver.
pub fn on_cleaned(delete_succeeded: bool) -> (r: Result<Action, Error>)
    ensures
        delete_succeeded ==> r == Ok::<Action, Error>(Action::AwaitChange),
        !delete_succeeded ==> r == Err::<Action, Error>(Error::StorageHttpError),
{
    if delete_succeeded {
        Ok(Action::AwaitChange)
    } else {
        Err(Error::StorageHttpError)
    }
}

/// Law: Apply is idempotent. For any resource whose status already records
/// creation, the Apply decision is the no-op; no event and no storage call
/// belong to that attempt.
pub proof fn lemma_apply_idempotent(b: &Bucket)
    requires
        b.spec_was_created(),
    ensures
        spec_apply_decision(b) == Ok::<bool, Error>(false),
{
}

/// Law: the validation guard. A resource carrying the rejected name always
/// fails Apply with the identifier error before any storage call is
/// reached, unless it already converged.
pub proof fn lemma_illegal_identifier_rejected(b: &Bucket)
    requires
        !b.spec_was_created(),
        b.metadata.name@ == illegal_name(),
    ensures
        spec_apply_decision(b) == Err::<bool, Error>(Error::IllegalIdentifier),
{
}

} // verus!
