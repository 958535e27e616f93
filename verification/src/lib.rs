//! Reconciliation engine for a control plane that drives PostgreSQL servers
//! and an S3-compatible object store toward declaratively described state.
//!
//! The library holds the verified core: the per-kind Apply/Cleanup state
//! machines, the finalizer-driven driver protocol, the cross-resource
//! dependency check, credential issuance, and the adapter request planning.
//! The unverified shell around it performs the actual network I/O and feeds
//! results back into these step functions.
use vstd::prelude::*;

pub mod controller;
pub mod garage;
pub mod metrics;
pub mod registry;
pub mod resources;
pub mod secrets;
pub mod state;

verus! {

/// Interval, in seconds, after which a converged or failed resource is
/// checked again.
pub const REQUEUE_SECONDS: u64 = 300;

/// Everything that can go wrong in one reconciliation attempt.
///
/// Every error is reported to the driver, which counts and publishes it and
/// schedules a fixed-interval retry; none is silently dropped.
#[derive(Clone, Copy, Debug, PartialEq, Eq, Structural)]
pub enum Error {
    /// A referenced dependent object (owning user, referenced bucket) does
    /// not exist yet; the attempt is retried since it may appear.
    NotFound,
    /// The backend key named by a resource is not in the registry.
    UnknownBackend,
    /// A dependent resource names a different backend than its dependency.
    BackendMismatch,
    /// The resource name failed the validation guard.
    IllegalIdentifier,
    /// The SQL adapter reported a failure executing a statement.
    SqlError,
    /// The storage adapter's HTTP call failed or returned a non-success
    /// status code.
    StorageHttpError,
    /// The finalizer collaborator's own bookkeeping failed.
    FinalizerProtocolError,
    /// The credential issuer refused a second create for an existing secret
    /// name: secrets are immutable once written.
    SecretConflict,
}

impl Error {
    /// The label under which this error is counted in the failure metric.
    pub fn metric_label(&self) -> (r: String)
        ensures
            r@ == self.spec_metric_label(),
    {
        match self {
            Error::NotFound => "notfound".to_owned(),
            Error::UnknownBackend => "unknownbackend".to_owned(),
            Error::BackendMismatch => "backendmismatch".to_owned(),
            Error::IllegalIdentifier => "illegalidentifier".to_owned(),
            Error::SqlError => "sqlerror".to_owned(),
            Error::StorageHttpError => "storagehttperror".to_owned(),
            Error::FinalizerProtocolError => "finalizerprotocolerror".to_owned(),
            Error::SecretConflict => "secretconflict".to_owned(),
        }
    }

    /// What `metric_label` returns, variant by variant.
    pub open spec fn spec_metric_label(&self) -> Seq<char> {
        match self {
            Error::NotFound => "notfound"@,
            Error::UnknownBackend => "unknownbackend"@,
            Error::BackendMismatch => "backendmismatch"@,
            Error::IllegalIdentifier => "illegalidentifier"@,
            Error::SqlError => "sqlerror"@,
            Error::StorageHttpError => "storagehttperror"@,
            Error::FinalizerProtocolError => "finalizerprotocolerror"@,
            Error::SecretConflict => "secretconflict"@,
        }
    }
}

} // verus!
