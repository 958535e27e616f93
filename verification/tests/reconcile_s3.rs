use console::controller::Action;
use console::garage;
use console::garage::{BucketPermissions, StorageRequest};
use console::resources::s3::bucket::{
    plan_apply as bucket_plan_apply, on_created, plan_cleanup as bucket_plan_cleanup,
    on_cleaned as bucket_on_cleaned, Bucket, BucketApplyStep, BucketCleanupStep, BucketSpec,
    BucketStatus,
};
use console::resources::s3::token::{
    plan_apply as token_plan_apply, on_key_created, on_bucket_resolved, on_allowed, on_denied,
    plan_cleanup as token_plan_cleanup, on_cleaned as token_on_cleaned, Token, TokenApplyStep,
    TokenCleanupStep, TokenSpec, TokenStatus,
};
use console::resources::Metadata;
use console::secrets::{CredentialData, SecretStore};
use console::Error;

fn meta(ns: &str, name: &str) -> Metadata {
    Metadata {
        namespace: ns.to_string(),
        name: name.to_string(),
        deletion_requested: false,
        has_finalizer: true,
    }
}

fn bucket(name: &str) -> Bucket {
    Bucket {
        metadata: meta("ns", name),
        spec: BucketSpec { name: name.to_string() },
        status: None,
    }
}

fn token(name: &str, bucket: &str, secret: &str, read: bool, write: bool, owner: bool) -> Token {
    Token {
        metadata: meta("ns", name),
        spec: TokenSpec {
            name: name.to_string(),
            bucket: bucket.to_string(),
            secret_name: secret.to_string(),
            permissions: BucketPermissions { owner, read, write },
        },
        status: None,
    }
}

#[test]
fn bucket_lifecycle_stores_assigned_id_and_deletes_by_it() {
    // The storage backend assigns an opaque id; status records it, and
    // cleanup deletes exactly that id.
    let b = bucket("b1");
    let step = bucket_plan_apply(&b).unwrap();
    match step {
        BucketApplyStep::Create { request } => match request {
            StorageRequest::CreateBucket { global_alias } => assert_eq!(global_alias, "b1"),
            _ => panic!("expected a create-bucket request"),
        },
        _ => panic!("expected a create step"),
    }
    let outcome = Ok(garage::Bucket { id: "xyz".to_string() });
    let (status, action) = on_created(outcome).unwrap();
    assert!(status.created);
    assert_eq!(status.id, "xyz");
    assert_eq!(action, Action::Requeue { seconds: 300 });

    let created = Bucket { status: Some(status), ..b };
    match bucket_plan_cleanup(&created) {
        BucketCleanupStep::Delete { request } => match request {
            StorageRequest::DeleteBucket { id } => assert_eq!(id, "xyz"),
            _ => panic!("expected a delete-bucket request"),
        },
        BucketCleanupStep::NothingToDo => panic!("expected a delete step"),
    }
    assert_eq!(bucket_on_cleaned(true).unwrap(), Action::AwaitChange);
}

#[test]
fn created_bucket_is_not_reapplied() {
    let mut b = bucket("b1");
    b.status = Some(BucketStatus { created: true, id: "xyz".to_string() });
    let step = bucket_plan_apply(&b).unwrap();
    assert!(matches!(step, BucketApplyStep::AlreadyCreated));
}

#[test]
fn illegal_bucket_name_is_rejected() {
    let b = bucket("illegal");
    assert_eq!(bucket_plan_apply(&b).unwrap_err(), Error::IllegalIdentifier);
}

#[test]
fn bucket_creation_failure_reports_storage_error() {
    let outcome = Err(garage::Error::BadStatusCode(500));
    assert_eq!(on_created(outcome).unwrap_err(), Error::StorageHttpError);
}

#[test]
fn never_created_bucket_cleanup_makes_no_call() {
    let b = bucket("b1");
    assert!(matches!(bucket_plan_cleanup(&b), BucketCleanupStep::NothingToDo));
}

#[test]
fn token_grant_allows_then_denies_the_same_triple() {
    // The full token flow: the key is created, its credentials stored,
    // then the allow call carries the requested triple and the deny call
    // that follows a successful allow carries the very same triple.
    let t = token("t1", "b1", "sec1", true, false, false);
    let step = token_plan_apply(&t).unwrap();
    match step {
        TokenApplyStep::CreateKey { request } => match request {
            StorageRequest::CreateKey { name } => assert_eq!(name, "t1"),
            _ => panic!("expected a create-key request"),
        },
        _ => panic!("expected a create-key step"),
    }

    let issued = Ok(garage::Key {
        name: "t1".to_string(),
        id: "GK1".to_string(),
        secret: "SK1".to_string(),
    });
    let mut store = SecretStore::new();
    let key = on_key_created(&t, issued, &mut store).unwrap();
    assert_eq!(key.id, "GK1");
    assert_eq!(store.len(), 1);
    let secret = store.get(&"ns".to_string(), &"sec1".to_string()).unwrap();
    assert_eq!(secret.owner, "t1");
    match &secret.data {
        CredentialData::Storage { access_key_id, secret_access_key } => {
            assert_eq!(access_key_id, "GK1");
            assert_eq!(secret_access_key, "SK1");
        }
        _ => panic!("expected a storage credential"),
    }

    let bucket_id = "xyz".to_string();
    let allow = on_bucket_resolved(&t, &key.id, Some(&bucket_id)).unwrap();
    match &allow {
        StorageRequest::AllowBucketKey { bucket_id: b, key_id: k, permissions } => {
            assert_eq!(b, "xyz");
            assert_eq!(k, "GK1");
            assert_eq!(*permissions, BucketPermissions { owner: false, read: true, write: false });
        }
        _ => panic!("expected an allow request"),
    }
    let deny = on_allowed(&t, &key.id, &bucket_id, true).unwrap();
    match &deny {
        StorageRequest::DenyBucketKey { bucket_id: b, key_id: k, permissions } => {
            assert_eq!(b, "xyz");
            assert_eq!(k, "GK1");
            assert_eq!(*permissions, BucketPermissions { owner: false, read: true, write: false });
        }
        _ => panic!("expected a deny request"),
    }

    let (status, action) = on_denied(&key.id, true).unwrap();
    assert!(status.created);
    assert_eq!(status.key_id, "GK1");
    assert_eq!(action, Action::Requeue { seconds: 300 });
}

#[test]
fn token_with_missing_bucket_fails_with_not_found() {
    let t = token("t1", "b1", "sec1", true, false, false);
    let r = on_bucket_resolved(&t, &"GK1".to_string(), None);
    assert_eq!(r.unwrap_err(), Error::NotFound);
}

#[test]
fn token_secret_conflict_on_second_issue() {
    let t = token("t1", "b1", "sec1", true, false, false);
    let mut store = SecretStore::new();
    let first = Ok(garage::Key {
        name: "t1".to_string(),
        id: "GK1".to_string(),
        secret: "SK1".to_string(),
    });
    on_key_created(&t, first, &mut store).unwrap();
    let second = Ok(garage::Key {
        name: "t1".to_string(),
        id: "GK2".to_string(),
        secret: "SK2".to_string(),
    });
    let r = on_key_created(&t, second, &mut store);
    assert_eq!(r.unwrap_err(), Error::SecretConflict);
    assert_eq!(store.len(), 1);
    let secret = store.get(&"ns".to_string(), &"sec1".to_string()).unwrap();
    match &secret.data {
        CredentialData::Storage { access_key_id, .. } => assert_eq!(access_key_id, "GK1"),
        _ => panic!("expected a storage credential"),
    }
}

#[test]
fn failed_allow_call_stops_the_grant() {
    let t = token("t1", "b1", "sec1", true, false, false);
    let r = on_allowed(&t, &"GK1".to_string(), &"xyz".to_string(), false);
    assert_eq!(r.unwrap_err(), Error::StorageHttpError);
}

#[test]
fn failed_key_creation_stores_nothing() {
    let t = token("t1", "b1", "sec1", true, false, false);
    let mut store = SecretStore::new();
    let r = on_key_created(&t, Err(garage::Error::Request), &mut store);
    assert_eq!(r.unwrap_err(), Error::StorageHttpError);
    assert_eq!(store.len(), 0);
}

#[test]
fn created_token_is_not_reapplied() {
    let mut t = token("t1", "b1", "sec1", true, false, false);
    t.status = Some(TokenStatus { created: true, key_id: "GK1".to_string() });
    let step = token_plan_apply(&t).unwrap();
    assert!(matches!(step, TokenApplyStep::AlreadyCreated));
}

#[test]
fn illegal_token_name_is_rejected() {
    let t = token("illegal", "b1", "sec1", true, false, false);
    assert_eq!(token_plan_apply(&t).unwrap_err(), Error::IllegalIdentifier);
}

#[test]
fn token_cleanup_deletes_the_stored_key() {
    let mut t = token("t1", "b1", "sec1", true, false, false);
    t.status = Some(TokenStatus { created: true, key_id: "GK1".to_string() });
    match token_plan_cleanup(&t) {
        TokenCleanupStep::Delete { request } => match request {
            StorageRequest::DeleteKey { id } => assert_eq!(id, "GK1"),
            _ => panic!("expected a delete-key request"),
        },
        TokenCleanupStep::NothingToDo => panic!("expected a delete step"),
    }
    assert_eq!(token_on_cleaned(true).unwrap(), Action::AwaitChange);
    assert_eq!(token_on_cleaned(false).unwrap_err(), Error::StorageHttpError);
}
