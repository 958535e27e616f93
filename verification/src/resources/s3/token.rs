//! The Token resource: an access key on the object-storage backend, granted
//! a permission triple on one referenced bucket, with its credentials
//! persisted as an immutable secret.
//!
//! Apply runs in five verified steps around the storage calls: plan the key
//! creation, persist the issued credentials, resolve the referenced bucket,
//! grant the permissions, and record the status. The grant is an allow call
//! followed — only after the allow call succeeded — by a deny call carrying
//! the same triple, mirroring the storage API's guard against partial
//! application. Cleanup deletes the key by its stored id.
use vstd::prelude::*;
use crate::controller::Action;
use crate::garage;
use crate::garage::BucketPermissions;
use crate::garage::StorageRequest;
use crate::garage::permission_calls;
use crate::resources::Metadata;
use crate::resources::illegal_name;
use crate::resources::is_illegal_name;
use crate::secrets::CredentialData;
use crate::secrets::CredentialSecret;
use crate::secrets::SecretStore;
use crate::Error;
use crate::REQUEUE_SECONDS;

verus! {

/// Desired state of a Token resource.
#[derive(Debug)]
pub struct TokenSpec {
    /// Logical name the key is requested under.
    pub name: String,
    /// Name of the Bucket resource the key is granted access to, in the
    /// same namespace.
    pub bucket: String,
    /// Name of the secret the issued credentials are persisted under.
    pub secret_name: String,
    /// The permission triple to grant on the referenced bucket.
    pub permissions: BucketPermissions,
}

/// Observed state of a Token resource.
#[derive(Debug)]
pub struct TokenStatus {
    /// Whether the key was created on the storage backend.
    pub created: bool,
    /// The storage-assigned access key id, once created.
    pub key_id: String,
}

/// One Token desired-state/observed-state object.
pub struct Token {
    pub metadata: Metadata,
    pub spec: TokenSpec,
    pub status: Option<TokenStatus>,
}

impl Token {
    /// Whether the status records a completed creation.
    pub open spec fn spec_was_created(&self) -> bool {
        match self.status {
            Some(s) => s.created,
            None => false,
        }
    }

    /// Whether the status records a completed creation.
    pub fn was_created(&self) -> (r: bool)
        ensures
            r == self.spec_was_created(),
    {
        match &self.status {
            Some(s) => s.created,
            None => false,
        }
    }
}

/// What Apply decided before any storage call.
#[derive(Debug)]
pub enum TokenApplyStep {
    /// The status already records creation: converged, no external call is
    /// made at all.
    AlreadyCreated,
    /// The key must be created: post this request, then hand the outcome to
    /// `on_key_created`.
    CreateKey { request: StorageRequest },
}

/// The decision Apply takes from the resource alone.
pub open spec fn spec_apply_decision(t: &Token) -> Result<bool, Error> {
    if t.spec_was_created() {
        Ok(false)
    } else if t.metadata.name@ == illegal_name() {
        Err(Error::IllegalIdentifier)
    } else {
        Ok(true)
    }
}

/// First Apply step: idempotency check and validation guard, then the one
/// key-creation request with the desired logical name.
pub fn plan_apply(t: &Token) -> (r: Result<TokenApplyStep, Error>)
    ensures
        spec_apply_decision(t) matches Err(e) ==> r == Err::<TokenApplyStep, Error>(e),
        spec_apply_decision(t) == Ok::<bool, Error>(false) ==> r == Ok::<TokenApplyStep, Error>(
            TokenApplyStep::AlreadyCreated,
        ),
        spec_apply_decision(t) == Ok::<bool, Error>(true) ==> (r matches Ok(
            TokenApplyStep::CreateKey { request },
        ) && request matches StorageRequest::CreateKey { name } && name@ == t.spec.name@),
{
    if t.was_created() {
        return Ok(TokenApplyStep::AlreadyCreated);
    }
    if is_illegal_name(&t.metadata.name) {
        return Err(Error::IllegalIdentifier);
    }
    Ok(TokenApplyStep::CreateKey { request: StorageRequest::CreateKey { name: t.spec.name.clone() } })
}

/// Whether `c` is the credential record that Apply persists for `t` and the
/// issued key: the storage-assigned id and secret, owned by the resource
/// itself.
pub open spec fn spec_token_credential_matches(
    c: &CredentialSecret,
    t: &Token,
    key_id: Seq<char>,
    key_secret: Seq<char>,
) -> bool {
    &&& c.name@ == t.spec.secret_name@
    &&& c.namespace@ == t.metadata.namespace@
    &&& c.owner@ == t.metadata.name@
    &&& c.data matches CredentialData::Storage { access_key_id, secret_access_key }
        && access_key_id@ == key_id && secret_access_key@ == key_secret
}

/// Second Apply step, after the key-creation call: on success, persist the
/// issued credentials (immutably — a second write under the same name is a
/// conflict) and hand the key back for the remaining steps; on failure,
/// report the adapter error and leave the store untouched.
pub fn on_key_created(
    t: &Token,
    outcome: Result<garage::Key, garage::Error>,
    store: &mut SecretStore,
) -> (r: Result<garage::Key, Error>)
    requires
        old(store).well_formed(),
    ensures
        final(store).well_formed(),
        outcome is Err ==> r == Err::<garage::Key, Error>(Error::StorageHttpError)
            && final(store)@ == old(store)@,
        outcome matches Ok(key) ==> (if old(store).spec_contains_name(
            t.metadata.namespace@,
            t.spec.secret_name@,
        ) {
            r == Err::<garage::Key, Error>(Error::SecretConflict) && final(store)@ == old(store)@
        } else {
            r matches Ok(k) && k.id@ == key.id@ && k.secret@ == key.secret@ && k.name@
                == key.name@ && final(store)@.len() == old(store)@.len() + 1 && final(store)@
                == old(store)@.push(final(store)@.last()) && spec_token_credential_matches(
                &final(store)@.last(),
                t,
                key.id@,
                key.secret@,
            )
        }),
{
    match outcome {
        Err(_) => Err(Error::StorageHttpError),
        Ok(key) => {
            let secret = CredentialSecret {
                name: t.spec.secret_name.clone(),
                namespace: t.metadata.namespace.clone(),
                owner: t.metadata.name.clone(),
                data: CredentialData::Storage {
                    access_key_id: key.id.clone(),
                    secret_access_key: key.secret.clone(),
                },
            };
            match store.create(secret) {
                Err(e) => Err(e),
                Ok(()) => Ok(key),
            }
        },
    }
}

/// Third Apply step, after the referenced Bucket resource was looked up:
/// its stored opaque id names the bucket to grant on. A missing or
/// not-yet-created bucket fails the attempt, to be retried once it appears.
/// On success, the allow request carrying the requested triple is next.
pub fn on_bucket_resolved(t: &Token, key_id: &String, bucket_id: Option<&String>) -> (r: Result<
    StorageRequest,
    Error,
>)
    ensures
        bucket_id is None ==> r == Err::<StorageRequest, Error>(Error::NotFound),
        bucket_id matches Some(b) ==> (r matches Ok(StorageRequest::AllowBucketKey {
            bucket_id: bid,
            key_id: kid,
            permissions,
        }) && bid@ == b@ && kid@ == key_id@ && permissions == t.spec.permissions),
{
    match bucket_id {
        None => Err(Error::NotFound),
        Some(b) => {
            let (allow, _deny) = permission_calls(b, key_id, &t.spec.permissions);
            Ok(allow)
        },
    }
}

/// Fourth Apply step, after the allow call: only once it succeeded is the
/// deny call issued, carrying exactly the same permission triple as the
/// allow call did.
pub fn on_allowed(t: &Token, key_id: &String, bucket_id: &String, allow_succeeded: bool) -> (r:
    Result<StorageRequest, Error>)
    ensures
        !allow_succeeded ==> r == Err::<StorageRequest, Error>(Error::StorageHttpError),
        allow_succeeded ==> (r matches Ok(StorageRequest::DenyBucketKey {
            bucket_id: bid,
            key_id: kid,
            permissions,
        }) && bid@ == bucket_id@ && kid@ == key_id@ && permissions == t.spec.permissions),
{
    if !allow_succeeded {
        return Err(Error::StorageHttpError);
    }
    let (_allow, deny) = permission_calls(bucket_id, key_id, &t.spec.permissions);
    Ok(deny)
}

/// Final Apply step, after the deny call: on success, the status patch
/// storing the key id; on failure, the adapter error.
pub fn on_denied(key_id: &String, deny_succeeded: bool) -> (r: Result<
    (TokenStatus, Action),
    Error,
>)
    ensures
        !deny_succeeded ==> r == Err::<(TokenStatus, Action), Error>(Error::StorageHttpError),
        deny_succeeded ==> (r matches Ok((status, action)) && status.created && status.key_id@
            == key_id@ && action == (Action::Requeue { seconds: REQUEUE_SECONDS })),
{
    if !deny_succeeded {
        return Err(Error::StorageHttpError);
    }
    let status = TokenStatus { created: true, key_id: key_id.clone() };
    Ok((status, Action::Requeue { seconds: REQUEUE_SECONDS }))
}

/// What Cleanup decided.
#[derive(Debug)]
pub enum TokenCleanupStep {
    /// The stored id names the key to delete: post this request, then hand
    /// the outcome to `on_cleaned`.
    Delete { request: StorageRequest },
    /// No key was ever created for this object, so there is nothing to
    /// delete.
    NothingToDo,
}

/// Cleanup step: exactly one delete request for the stored id of a created
/// key; none for an object that never reached creation. The associated
/// secret is not deleted here; owner-reference garbage collection removes
/// it together with the resource.
pub fn plan_cleanup(t: &Token) -> (r: TokenCleanupStep)
    ensures
        t.spec_was_created() ==> (r matches TokenCleanupStep::Delete { request }
            && request matches StorageRequest::DeleteKey { id } && t.status matches Some(s) && id@
            == s.key_id@),
        !t.spec_was_created() ==> r is NothingToDo,
{
    match &t.status {
        Some(s) if s.created => TokenCleanupStep::Delete {
            request: StorageRequest::DeleteKey { id: s.key_id.clone() },
        },
        _ => TokenCleanupStep::NothingToDo,
    }
}

/// Final Cleanup step: terminal only once the delete call succeeded;
/// otherwise the adapter error, retried by the driver.
pub fn on_cleaned(delete_succeeded: bool) -> (r: Result<Action, Error>)
    ensures
        delete_succeeded ==> r == Ok::<Action, Error>(Action::AwaitChange),
        !delete_succeeded ==> r == Err::<Action, Error>(Error::StorageHttpError),
{
    if delete_succeeded {
        Ok(Action::AwaitChange)
    } else {
        Err(Error::StorageHttpError)
    }
}

/// Law: Apply is idempotent. For any resource whose status already records
/// creation, the Apply decision is the no-op; no event and no storage call
/// belong to that attempt.
pub proof fn lemma_apply_idempotent(t: &Token)
    requires
        t.spec_was_created(),
    ensures
        spec_apply_decision(t) == Ok::<bool, Error>(false),
{
}

/// Law: the validation guard. A resource carrying the rejected name always
/// fails Apply with the identifier error before any storage call is
/// reached, unless it already converged.
pub proof fn lemma_illegal_identifier_rejected(t: &Token)
    requires
        !t.spec_was_created(),
        t.metadata.name@ == illegal_name(),
    ensures
        spec_apply_decision(t) == Err::<bool, Error>(Error::IllegalIdentifier),
{
}

} // verus!
