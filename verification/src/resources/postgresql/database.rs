//! The Database resource: a database on one PostgreSQL backend, owned by a
//! User resource on the same backend.
//!
//! Apply runs in three verified steps around the driver's I/O: `plan_apply`
//! decides whether anything must be created, `on_owner_loaded` checks the
//! owning user and builds the creation statement, and `on_applied` turns
//! the adapter's outcome into the status patch. Cleanup mirrors it with a
//! drop statement.
use vstd::prelude::*;
use crate::controller::Action;
use crate::registry::BackendRegistry;
use crate::resources::Metadata;
use crate::resources::illegal_name;
use crate::resources::is_illegal_name;
use crate::resources::resolved_identifier;
use crate::resources::spec_resolved_identifier;
use crate::resources::postgresql::SqlStatement;
use crate::resources::postgresql::user::User;
use crate::Error;
use crate::REQUEUE_SECONDS;

verus! {

/// Desired state of a Database resource.
#[derive(Debug)]
pub struct DatabaseSpec {
    /// Logical database name.
    pub name: String,
    /// Key of the backend the database lives on.
    pub backend: String,
    /// Connection limit of the database.
    pub connection_limit: u32,
    /// Name of the owning User resource, in the same namespace.
    pub owner: String,
}

/// Observed state of a Database resource.
#[derive(Debug)]
pub struct DatabaseStatus {
    /// Whether the database was created on the backend.
    pub created: bool,
    /// The backend-side database identifier, once created.
    pub resolved_name: String,
}

/// One Database desired-state/observed-state object.
pub struct Database {
    pub metadata: Metadata,
    pub spec: DatabaseSpec,
    pub status: Option<DatabaseStatus>,
}

impl Database {
    /// Whether the status records a completed creation.
    pub open spec fn spec_was_created(&self) -> bool {
        match self.status {
            Some(s) => s.created,
            None => false,
        }
    }

    /// Whether the status records a completed creation.
    pub fn was_created(&self) -> (r: bool)
        ensures
            r == self.spec_was_created(),
    {
        match &self.status {
            Some(s) => s.created,
            None => false,
        }
    }

    /// The backend-side database identifier of this object.
    pub open spec fn spec_resolved_name(&self) -> Seq<char> {
        spec_resolved_identifier(self.metadata.namespace@, self.metadata.name@)
    }
}

/// What Apply decided before any adapter call.
#[derive(Debug)]
pub enum DatabaseApplyStep {
    /// The status already records creation: converged, no external call is
    /// made at all.
    AlreadyCreated,
    /// The database must be created: load the owning User resource named by
    /// the spec, then hand it to `on_owner_loaded`.
    FetchOwner,
}

/// The decision Apply takes from the resource and the registry alone:
/// `Ok(false)` is the idempotent no-op, `Ok(true)` means creation must
/// proceed with the owner lookup.
pub open spec fn spec_apply_decision(db: &Database, backends: &BackendRegistry) -> Result<
    bool,
    Error,
> {
    if db.spec_was_created() {
        Ok(false)
    } else if db.metadata.name@ == illegal_name() {
        Err(Error::IllegalIdentifier)
    } else if !backends.spec_contains(db.spec.backend@) {
        Err(Error::UnknownBackend)
    } else {
        Ok(true)
    }
}

/// First Apply step: idempotency check, validation guard and backend
/// lookup, in that order. No adapter is invoked here.
pub fn plan_apply(db: &Database, backends: &BackendRegistry) -> (r: Result<
    DatabaseApplyStep,
    Error,
>)
    ensures
        spec_apply_decision(db, backends) matches Err(e) ==> r == Err::<DatabaseApplyStep, Error>(
            e,
        ),
        spec_apply_decision(db, backends) == Ok::<bool, Error>(false) ==> r == Ok::<
            DatabaseApplyStep,
            Error,
        >(DatabaseApplyStep::AlreadyCreated),
        spec_apply_decision(db, backends) == Ok::<bool, Error>(true) ==> r == Ok::<
            DatabaseApplyStep,
            Error,
        >(DatabaseApplyStep::FetchOwner),
{
    if db.was_created() {
        return Ok(DatabaseApplyStep::AlreadyCreated);
    }
    if is_illegal_name(&db.metadata.name) {
        return Err(Error::IllegalIdentifier);
    }
    if !backends.contains(&db.spec.backend) {
        return Err(Error::UnknownBackend);
    }
    Ok(DatabaseApplyStep::FetchOwner)
}

/// The dependency check between a database and what the owner lookup
/// returned: the owner must exist and must live on the same backend.
pub open spec fn spec_owner_check(db: &Database, owner: Option<&User>) -> Result<(), Error> {
    match owner {
        None => Err(Error::NotFound),
        Some(u) => if u.spec.backend@ != db.spec.backend@ {
            Err(Error::BackendMismatch)
        } else {
            Ok(())
        },
    }
}

/// Second Apply step, after the owner lookup: validate the dependency
/// invariant and build the creation statement. When the check fails, no
/// statement exists and the SQL adapter is never invoked for this attempt.
pub fn on_owner_loaded(db: &Database, owner: Option<&User>) -> (r: Result<SqlStatement, Error>)
    requires
        owner matches Some(u) ==> u.metadata.name@ == db.spec.owner@ && u.metadata.namespace@
            == db.metadata.namespace@,
    ensures
        spec_owner_check(db, owner) matches Err(e) ==> r == Err::<SqlStatement, Error>(e),
        spec_owner_check(db, owner) is Ok ==> (owner matches Some(u) && r matches Ok(
            SqlStatement::CreateDatabase { name, owner: o, connection_limit },
        ) && name@ == db.spec_resolved_name() && o@ == u.spec_resolved_name() && connection_limit
            == db.spec.connection_limit),
{
    match owner {
        None => Err(Error::NotFound),
        Some(u) => {
            if !u.spec.backend.eq(&db.spec.backend) {
                return Err(Error::BackendMismatch);
            }
            Ok(SqlStatement::CreateDatabase {
                name: resolved_identifier(&db.metadata.namespace, &db.metadata.name),
                owner: resolved_identifier(&u.metadata.namespace, &u.metadata.name),
                connection_limit: db.spec.connection_limit,
            })
        },
    }
}

/// Third Apply step, after the adapter ran the creation statement: on
/// success, the status patch recording creation and the periodic re-check;
/// on failure, the adapter error.
pub fn on_applied(db: &Database, execute_succeeded: bool) -> (r: Result<
    (DatabaseStatus, Action),
    Error,
>)
    ensures
        !execute_succeeded ==> r == Err::<(DatabaseStatus, Action), Error>(Error::SqlError),
        execute_succeeded ==> (r matches Ok((status, action)) && status.created
            && status.resolved_name@ == db.spec_resolved_name() && action == (Action::Requeue {
            seconds: REQUEUE_SECONDS,
        })),
{
    if !execute_succeeded {
        return Err(Error::SqlError);
    }
    let status = DatabaseStatus {
        created: true,
        resolved_name: resolved_identifier(&db.metadata.namespace, &db.metadata.name),
    };
    Ok((status, Action::Requeue { seconds: REQUEUE_SECONDS }))
}

/// The decision Cleanup takes: the backend must still be known before a
/// drop statement can be issued.
pub open spec fn spec_cleanup_decision(db: &Database, backends: &BackendRegistry) -> Result<
    (),
    Error,
> {
    if !backends.spec_contains(db.spec.backend@) {
        Err(Error::UnknownBackend)
    } else {
        Ok(())
    }
}

/// Cleanup step: exactly one drop statement for the resolved database.
pub fn plan_cleanup(db: &Database, backends: &BackendRegistry) -> (r: Result<SqlStatement, Error>)
    ensures
        spec_cleanup_decision(db, backends) matches Err(e) ==> r == Err::<SqlStatement, Error>(e),
        spec_cleanup_decision(db, backends) is Ok ==> (r matches Ok(SqlStatement::DropDatabase {
            name,
        }) && name@ == db.spec_resolved_name()),
{
    if !backends.contains(&db.spec.backend) {
        return Err(Error::UnknownBackend);
    }
    Ok(SqlStatement::DropDatabase {
        name: resolved_identifier(&db.metadata.namespace, &db.metadata.name),
    })
}

/// Law: Apply is idempotent. For any resource whose status already records
/// creation, the Apply decision is the no-op; no owner lookup, no event and
/// no adapter call belong to that attempt, whatever the registry holds.
pub proof fn lemma_apply_idempotent(db: &Database, backends: &BackendRegistry)
    requires
        db.spec_was_created(),
    ensures
        spec_apply_decision(db, backends) == Ok::<bool, Error>(false),
{
}

/// Law: the dependency invariant. For any database and any owning user on a
/// different backend, the owner check fails with a backend mismatch — and
/// `on_owner_loaded` therefore never builds a statement, so the SQL adapter
/// is not invoked in that case.
pub proof fn lemma_dependency_invariant(db: &Database, u: &User)
    requires
        u.spec.backend@ != db.spec.backend@,
    ensures
        spec_owner_check(db, Some(u)) == Err::<(), Error>(Error::BackendMismatch),
{
}

/// Law: the validation guard. A resource carrying the rejected name always
/// fails Apply with the identifier error before any adapter or lookup is
/// reached, unless it already converged.
pub proof fn lemma_illegal_identifier_rejected(db: &Database, backends: &BackendRegistry)
    requires
        !db.spec_was_created(),
        db.metadata.name@ == illegal_name(),
    ensures
        spec_apply_decision(db, backends) == Err::<bool, Error>(Error::IllegalIdentifier),
{
}

} // verus!
