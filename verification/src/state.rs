//! Process-wide shared state: the settings the process starts from and the
//! diagnostics record every reconciliation writes.
use vstd::prelude::*;

verus! {

/// Connection parameters of one PostgreSQL backend.
#[derive(Debug)]
pub struct PostgresqlSettings {
    /// Logical backend key, as resources reference it.
    pub name: String,
    pub host: String,
    pub user: String,
    pub password: String,
    pub database: String,
    pub sslmode: String,
    /// Whether an invalid TLS certificate is accepted for this backend.
    pub accept_invalid_certs: bool,
}

/// Connection parameters of the object-storage administrative API.
#[derive(Debug)]
pub struct S3Settings {
    /// Base address the API endpoints are appended to.
    pub address: String,
    /// Bearer token every call is authenticated with.
    pub token: String,
}

/// Everything the process is configured with.
#[derive(Debug)]
pub struct Settings {
    pub s3: S3Settings,
    pub postgresql: Vec<PostgresqlSettings>,
}

/// Relies on `chrono::Utc::now` and `DateTime::timestamp_millis`: the
/// current time as milliseconds since the Unix epoch. `Utc::now` aborts
/// rather than return a pre-epoch time, so a returned value is never
/// negative.
#[verifier::external_body]
fn now_unix_millis() -> (r: i64)
    ensures
        0 <= r,
{
    chrono::Utc::now().timestamp_millis()
}

/// The diagnostics record read by the external health endpoint.
#[derive(Debug)]
pub struct Diagnostics {
    /// When the last reconciliation ran, as milliseconds since the Unix
    /// epoch.
    pub last_event: i64,
    /// The reporter name under which domain events are published.
    pub reporter: String,
}

impl Diagnostics {
    /// A fresh record: the reporter name is fixed, and the timestamp starts
    /// at the moment the record is made.
    pub fn new() -> (r: Diagnostics)
        ensures
            r.reporter@ == "console.tjo.cloud"@,
            0 <= r.last_event,
    {
        Diagnostics { last_event: now_unix_millis(), reporter: "console.tjo.cloud".to_owned() }
    }

    /// Records that a reconciliation ran at `now`.
    pub fn record_event(&mut self, now: i64)
        ensures
            final(self).last_event == now,
            final(self).reporter == old(self).reporter,
    {
        self.last_event = now;
    }

    /// Records that a reconciliation is running right now.
    pub fn touch(&mut self)
        ensures
            0 <= final(self).last_event,
            final(self).reporter == old(self).reporter,
    {
        let now = now_unix_millis();
        self.record_event(now);
    }
}

} // verus!
