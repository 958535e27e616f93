//! The storage administrative API as the reconcilers drive it: the shape
//! of every request, the URL each one is posted to, and how a response
//! status is read.
//!
//! Every call is one authenticated POST with no internal retry; the
//! unverified shell owns the HTTP client and the JSON bodies, and hands the
//! response status back. Key creation is posted to the bucket-creation
//! endpoint; the server tells the two apart by the payload shape.
use vstd::prelude::*;
use vstd::string::*;

verus! {

/// A failure of one storage API call.
#[derive(Clone, Copy, Debug, PartialEq, Eq, Structural)]
pub enum Error {
    /// The HTTP request itself failed: no response arrived.
    Request,
    /// The server answered with this non-success status code.
    BadStatusCode(u16),
}

/// A bucket as the storage backend reports it.
#[derive(Debug)]
pub struct Bucket {
    /// The storage-assigned opaque bucket id.
    pub id: String,
}

/// An access key as the storage backend issues it.
#[derive(Debug)]
pub struct Key {
    /// The logical name the key was requested under.
    pub name: String,
    /// The storage-assigned access key id.
    pub id: String,
    /// The storage-assigned secret access key.
    pub secret: String,
}

/// The permission triple granted to one key on one bucket.
#[derive(Clone, Copy, Debug, PartialEq, Eq, Structural)]
pub struct BucketPermissions {
    pub owner: bool,
    pub read: bool,
    pub write: bool,
}

/// One call to the storage administrative API.
#[derive(Debug)]
pub enum StorageRequest {
    /// Creates a bucket under this global alias.
    CreateBucket { global_alias: String },
    /// Deletes the bucket with this storage-assigned id.
    DeleteBucket { id: String },
    /// Creates a never-expiring access key under this logical name, with
    /// bucket creation denied to it.
    CreateKey { name: String },
    /// Deletes the key with this storage-assigned id.
    DeleteKey { id: String },
    /// Grants the permission triple to a key on a bucket.
    AllowBucketKey { bucket_id: String, key_id: String, permissions: BucketPermissions },
    /// Revokes the permission triple from a key on a bucket.
    DenyBucketKey { bucket_id: String, key_id: String, permissions: BucketPermissions },
}

/// The URL one request is posted to, under the configured base address.
pub open spec fn spec_request_url(base: Seq<char>, r: &StorageRequest) -> Seq<char> {
    match r {
        StorageRequest::CreateBucket { .. } => base + "/v2/CreateBucket"@,
        StorageRequest::DeleteBucket { id } => base + "/v2/DeleteBucket?id="@ + id@,
        StorageRequest::CreateKey { .. } => base + "/v2/CreateBucket"@,
        StorageRequest::DeleteKey { id } => base + "/v2/DeleteKey?id="@ + id@,
        StorageRequest::AllowBucketKey { .. } => base + "/v2/AllowBucketKey"@,
        StorageRequest::DenyBucketKey { .. } => base + "/v2/DenyBucketKey"@,
    }
}

/// Builds the URL one request is posted to.
pub fn request_url(base: &String, r: &StorageRequest) -> (u: String)
    ensures
        u@ == spec_request_url(base@, r),
{
    let mut u = base.clone();
    match r {
        StorageRequest::CreateBucket { .. } => u.append("/v2/CreateBucket"),
        StorageRequest::DeleteBucket { id } => {
            u.append("/v2/DeleteBucket?id=");
            u.append(id.as_str());
        },
        StorageRequest::CreateKey { .. } => u.append("/v2/CreateBucket"),
        StorageRequest::DeleteKey { id } => {
            u.append("/v2/DeleteKey?id=");
            u.append(id.as_str());
        },
        StorageRequest::AllowBucketKey { .. } => u.append("/v2/AllowBucketKey"),
        StorageRequest::DenyBucketKey { .. } => u.append("/v2/DenyBucketKey"),
    }
    u
}

/// The text of a JSON boolean.
pub open spec fn spec_bool_text(b: bool) -> Seq<char> {
    if b {
        "true"@
    } else {
        "false"@
    }
}

/// The text of a JSON boolean.
fn bool_text(b: bool) -> (r: &'static str)
    ensures
        r@ == spec_bool_text(b),
{
    if b {
        "true"
    } else {
        "false"
    }
}

/// The JSON body of the permission calls: the key, the bucket, and the
/// permission triple.
pub open spec fn spec_permission_body(
    bucket_id: Seq<char>,
    key_id: Seq<char>,
    p: BucketPermissions,
) -> Seq<char> {
    "{\"accessKeyId\":\""@ + key_id + "\",\"bucketId\":\""@ + bucket_id
        + "\",\"permissions\":{\"owner\":"@ + spec_bool_text(p.owner) + ",\"read\":"@
        + spec_bool_text(p.read) + ",\"write\":"@ + spec_bool_text(p.write) + "}}"@
}

/// The JSON body one request is posted with. Identifiers are pre-validated
/// names and opaque backend-assigned ids, so they stand in the body
/// unescaped. Deletions carry an empty object; their target is named in the
/// URL instead.
pub open spec fn spec_request_body(r: &StorageRequest) -> Seq<char> {
    match r {
        StorageRequest::CreateBucket { global_alias } => "{\"global_alias\":\""@ + global_alias@
            + "\",\"localAlias\":{}}"@,
        StorageRequest::DeleteBucket { .. } => "{}"@,
        StorageRequest::CreateKey { name } => (
        "{\"allow\":{\"createBucket\":false},\"deny\":{\"createBucket\":true},\"neverExpires\":true,\"name\":\""@
            + name@ + "\"}"@),
        StorageRequest::DeleteKey { .. } => "{}"@,
        StorageRequest::AllowBucketKey { bucket_id, key_id, permissions } => spec_permission_body(
            bucket_id@,
            key_id@,
            *permissions,
        ),
        StorageRequest::DenyBucketKey { bucket_id, key_id, permissions } => spec_permission_body(
            bucket_id@,
            key_id@,
            *permissions,
        ),
    }
}

/// Builds the JSON body one request is posted with.
pub fn request_body(r: &StorageRequest) -> (b: String)
    ensures
        b@ == spec_request_body(r),
{
    match r {
        StorageRequest::CreateBucket { global_alias } => {
            let mut b: String = "{\"global_alias\":\"".to_owned();
            b.append(global_alias.as_str());
            b.append("\",\"localAlias\":{}}");
            b
        },
        StorageRequest::DeleteBucket { .. } => "{}".to_owned(),
        StorageRequest::CreateKey { name } => {
            let mut b: String =
                "{\"allow\":{\"createBucket\":false},\"deny\":{\"createBucket\":true},\"neverExpires\":true,\"name\":\"".to_owned();
            b.append(name.as_str());
            b.append("\"}");
            b
        },
        StorageRequest::DeleteKey { .. } => "{}".to_owned(),
        StorageRequest::AllowBucketKey { bucket_id, key_id, permissions } => permission_body(
            bucket_id,
            key_id,
            permissions,
        ),
        StorageRequest::DenyBucketKey { bucket_id, key_id, permissions } => permission_body(
            bucket_id,
            key_id,
            permissions,
        ),
    }
}

/// Builds the JSON body of one permission call.
fn permission_body(bucket_id: &String, key_id: &String, p: &BucketPermissions) -> (b: String)
    ensures
        b@ == spec_permission_body(bucket_id@, key_id@, *p),
{
    let mut b: String = "{\"accessKeyId\":\"".to_owned();
    b.append(key_id.as_str());
    b.append("\",\"bucketId\":\"");
    b.append(bucket_id.as_str());
    b.append("\",\"permissions\":{\"owner\":");
    b.append(bool_text(p.owner));
    b.append(",\"read\":");
    b.append(bool_text(p.read));
    b.append(",\"write\":");
    b.append(bool_text(p.write));
    b.append("}}");
    b
}

/// Whether an HTTP status code counts as success.
pub open spec fn spec_status_is_success(code: u16) -> bool {
    200 <= code < 300
}

/// Reads a response: success status codes pass, every other one is the
/// call's error. Callers never retry within the call.
pub fn interpret_status(code: u16) -> (r: Result<(), Error>)
    ensures
        spec_status_is_success(code) ==> r == Ok::<(), Error>(()),
        !spec_status_is_success(code) ==> r == Err::<(), Error>(Error::BadStatusCode(code)),
{
    if 200 <= code && code < 300 {
        Ok(())
    } else {
        Err(Error::BadStatusCode(code))
    }
}

/// The pair of calls that set one key's permissions on one bucket: an
/// allow call with the requested triple, followed — only once the allow
/// call succeeded — by a deny call carrying the very same triple.
pub fn permission_calls(
    bucket_id: &String,
    key_id: &String,
    permissions: &BucketPermissions,
) -> (r: (StorageRequest, StorageRequest))
    ensures
        r.0 matches StorageRequest::AllowBucketKey { bucket_id: b, key_id: k, permissions: p }
            && b@ == bucket_id@ && k@ == key_id@ && p == *permissions,
        r.1 matches StorageRequest::DenyBucketKey { bucket_id: b, key_id: k, permissions: p }
            && b@ == bucket_id@ && k@ == key_id@ && p == *permissions,
{
    (
        StorageRequest::AllowBucketKey {
            bucket_id: bucket_id.clone(),
            key_id: key_id.clone(),
            permissions: *permissions,
        },
        StorageRequest::DenyBucketKey {
            bucket_id: bucket_id.clone(),
            key_id: key_id.clone(),
            permissions: *permissions,
        },
    )
}

} // verus!
