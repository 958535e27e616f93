//! The User resource: a login role on one PostgreSQL backend, with a
//! generated password persisted as an immutable credential secret.
//!
//! Apply runs in two verified steps around the adapter call: `plan_apply`
//! decides whether a role must be created and builds the statement, and
//! `on_applied` turns the adapter's outcome into the credential record and
//! the status patch. Cleanup mirrors it with a drop statement.
use vstd::prelude::*;
use vstd::string::*;
use crate::controller::Action;
use crate::registry::BackendRegistry;
use crate::resources::Metadata;
use crate::resources::illegal_name;
use crate::resources::is_illegal_name;
use crate::resources::resolved_identifier;
use crate::resources::spec_resolved_identifier;
use crate::resources::postgresql::POSTGRESQL_PORT;
use crate::resources::postgresql::SqlStatement;
use crate::secrets::CredentialData;
use crate::secrets::CredentialSecret;
use crate::secrets::SecretStore;
use crate::Error;
use crate::REQUEUE_SECONDS;

verus! {

/// Desired state of a User resource.
#[derive(Debug)]
pub struct UserSpec {
    /// Logical role name.
    pub name: String,
    /// Key of the backend the role lives on.
    pub backend: String,
    /// Name of the secret the generated password is persisted under.
    pub password_secret_name: String,
    /// Connection limit of the role.
    pub connection_limit: u32,
}

/// Observed state of a User resource.
#[derive(Debug)]
pub struct UserStatus {
    /// Whether the role was created on the backend.
    pub created: bool,
    /// The backend-side role identifier, once created.
    pub resolved_name: String,
}

/// One User desired-state/observed-state object.
pub struct User {
    pub metadata: Metadata,
    pub spec: UserSpec,
    pub status: Option<UserStatus>,
}

impl User {
    /// Whether the status records a completed creation.
    pub open spec fn spec_was_created(&self) -> bool {
        match self.status {
            Some(s) => s.created,
            None => false,
        }
    }

    /// Whether the status records a completed creation.
    pub fn was_created(&self) -> (r: bool)
        ensures
            r == self.spec_was_created(),
    {
        match &self.status {
            Some(s) => s.created,
            None => false,
        }
    }

    /// The backend-side role identifier of this object.
    pub open spec fn spec_resolved_name(&self) -> Seq<char> {
        spec_resolved_identifier(self.metadata.namespace@, self.metadata.name@)
    }
}

/// Length of every generated password.
pub const PASSWORD_LENGTH: usize = 16;

/// Whether `c` is an ASCII letter or digit.
pub open spec fn spec_is_alphanumeric(c: char) -> bool {
    ('0' <= c && c <= '9') || ('A' <= c && c <= 'Z') || ('a' <= c && c <= 'z')
}

/// What a generated password must look like: exactly
/// [`PASSWORD_LENGTH`] ASCII letters and digits.
pub open spec fn spec_is_valid_password(p: Seq<char>) -> bool {
    p.len() == PASSWORD_LENGTH && forall|i: int|
        0 <= i < p.len() ==> spec_is_alphanumeric(#[trigger] p[i])
}

/// Checks a candidate password against the generation rule.
pub fn password_is_valid(p: &str) -> (r: bool)
    ensures
        r == spec_is_valid_password(p@),
{
    let n = p.unicode_len();
    if n != PASSWORD_LENGTH {
        return false;
    }
    let mut i: usize = 0;
    while i < n
        invariant
            n == p@.len() && n == PASSWORD_LENGTH,
            0 <= i <= n,
            forall|j: int| 0 <= j < i ==> spec_is_alphanumeric(#[trigger] p@[j]),
        decreases n - i,
    {
        let c = p.get_char(i);
        let ok = ('0' <= c && c <= '9') || ('A' <= c && c <= 'Z') || ('a' <= c && c <= 'z');
        if !ok {
            return false;
        }
        i += 1;
    }
    true
}

/// What Apply decided before any adapter call.
#[derive(Debug)]
pub enum UserApplyStep {
    /// The status already records creation: converged, no external call is
    /// made at all.
    AlreadyCreated,
    /// The role must be created: execute the statement on the resource's
    /// backend, then hand the outcome to `on_applied`.
    Execute { statement: SqlStatement },
}

/// The decision Apply takes from the resource and the registry alone.
pub open spec fn spec_apply_decision(user: &User, backends: &BackendRegistry) -> Result<
    bool,
    Error,
> {
    if user.spec_was_created() {
        Ok(false)
    } else if user.metadata.name@ == illegal_name() {
        Err(Error::IllegalIdentifier)
    } else if !backends.spec_contains(user.spec.backend@) {
        Err(Error::UnknownBackend)
    } else {
        Ok(true)
    }
}

/// First Apply step: idempotency check, validation guard, backend lookup,
/// and the creation statement, in that order. No adapter is invoked here;
/// an `Execute` result carries the one statement the driver should run.
pub fn plan_apply(user: &User, backends: &BackendRegistry, password: &String) -> (r: Result<
    UserApplyStep,
    Error,
>)
    requires
        spec_is_valid_password(password@),
    ensures
        spec_apply_decision(user, backends) matches Err(e) ==> r == Err::<UserApplyStep, Error>(e),
        spec_apply_decision(user, backends) == Ok::<bool, Error>(false) ==> r == Ok::<
            UserApplyStep,
            Error,
        >(UserApplyStep::AlreadyCreated),
        spec_apply_decision(user, backends) == Ok::<bool, Error>(true) ==> (r matches Ok(
            UserApplyStep::Execute { statement },
        ) && statement matches SqlStatement::CreateUser { name, password: pw, connection_limit }
            && name@ == user.spec_resolved_name() && pw@ == password@ && connection_limit
            == user.spec.connection_limit),
{
    if user.was_created() {
        return Ok(UserApplyStep::AlreadyCreated);
    }
    if is_illegal_name(&user.metadata.name) {
        return Err(Error::IllegalIdentifier);
    }
    if !backends.contains(&user.spec.backend) {
        return Err(Error::UnknownBackend);
    }
    let statement = SqlStatement::CreateUser {
        name: resolved_identifier(&user.metadata.namespace, &user.metadata.name),
        password: password.clone(),
        connection_limit: user.spec.connection_limit,
    };
    Ok(UserApplyStep::Execute { statement })
}

/// Whether `c` is the credential record that Apply persists for `user`: the
/// generated password, the resolved role name, and where the backend
/// listens, owned by the resource itself.
pub open spec fn spec_credential_matches(
    c: &CredentialSecret,
    user: &User,
    password: Seq<char>,
    host: Seq<char>,
) -> bool {
    &&& c.name@ == user.spec.password_secret_name@
    &&& c.namespace@ == user.metadata.namespace@
    &&& c.owner@ == user.metadata.name@
    &&& c.data matches CredentialData::Postgres { password: p, username, host: h, port }
        && p@ == password && username@ == user.spec_resolved_name() && h@ == host && port
        == POSTGRESQL_PORT
}

/// Second Apply step, after the adapter ran the creation statement: on
/// success, persist the credential secret (immutably — a second write under
/// the same name is a conflict) and produce the status patch; on failure,
/// report the adapter error and leave the store untouched.
pub fn on_applied(
    user: &User,
    execute_succeeded: bool,
    store: &mut SecretStore,
    password: &String,
    host: &String,
) -> (r: Result<(UserStatus, Action), Error>)
    requires
        old(store).well_formed(),
    ensures
        final(store).well_formed(),
        !execute_succeeded ==> r is Err && r == Err::<(UserStatus, Action), Error>(Error::SqlError)
            && final(store)@ == old(store)@,
        execute_succeeded && old(store).spec_contains_name(
            user.metadata.namespace@,
            user.spec.password_secret_name@,
        ) ==> r == Err::<(UserStatus, Action), Error>(Error::SecretConflict) && final(store)@
            == old(store)@,
        execute_succeeded && !old(store).spec_contains_name(
            user.metadata.namespace@,
            user.spec.password_secret_name@,
        ) ==> (r matches Ok((status, action)) && status.created && status.resolved_name@
            == user.spec_resolved_name() && action == (Action::Requeue {
            seconds: REQUEUE_SECONDS,
        }) && final(store)@.len() == old(store)@.len() + 1 && final(store)@ == old(store)@.push(
            final(store)@.last(),
        ) && spec_credential_matches(&final(store)@.last(), user, password@, host@)),
{
    if !execute_succeeded {
        return Err(Error::SqlError);
    }
    let resolved = resolved_identifier(&user.metadata.namespace, &user.metadata.name);
    let secret = CredentialSecret {
        name: user.spec.password_secret_name.clone(),
        namespace: user.metadata.namespace.clone(),
        owner: user.metadata.name.clone(),
        data: CredentialData::Postgres {
            password: password.clone(),
            username: resolved.clone(),
            host: host.clone(),
            port: POSTGRESQL_PORT,
        },
    };
    match store.create(secret) {
        Err(e) => Err(e),
        Ok(()) => {
            let status = UserStatus { created: true, resolved_name: resolved };
            Ok((status, Action::Requeue { seconds: REQUEUE_SECONDS }))
        },
    }
}

/// The decision Cleanup takes: the backend must still be known before a
/// drop statement can be issued.
pub open spec fn spec_cleanup_decision(user: &User, backends: &BackendRegistry) -> Result<
    (),
    Error,
> {
    if !backends.spec_contains(user.spec.backend@) {
        Err(Error::UnknownBackend)
    } else {
        Ok(())
    }
}

/// Cleanup step: exactly one drop statement for the resolved role. The
/// associated secret is not deleted here; owner-reference garbage
/// collection removes it together with the resource.
pub fn plan_cleanup(user: &User, backends: &BackendRegistry) -> (r: Result<SqlStatement, Error>)
    ensures
        spec_cleanup_decision(user, backends) matches Err(e) ==> r == Err::<SqlStatement, Error>(
            e,
        ),
        spec_cleanup_decision(user, backends) is Ok ==> (r matches Ok(SqlStatement::DropUser {
            name,
        }) && name@ == user.spec_resolved_name()),
{
    if !backends.contains(&user.spec.backend) {
        return Err(Error::UnknownBackend);
    }
    Ok(SqlStatement::DropUser {
        name: resolved_identifier(&user.metadata.namespace, &user.metadata.name),
    })
}

/// Law: Apply is idempotent. For any resource whose status already records
/// creation, the Apply decision is the no-op; no event and no adapter call
/// belong to that attempt, whatever the registry holds.
pub proof fn lemma_apply_idempotent(user: &User, backends: &BackendRegistry)
    requires
        user.spec_was_created(),
    ensures
        spec_apply_decision(user, backends) == Ok::<bool, Error>(false),
{
}

/// Law: the validation guard. A resource carrying the rejected name always
/// fails Apply with the identifier error before any adapter is reached,
/// unless it already converged.
pub proof fn lemma_illegal_identifier_rejected(user: &User, backends: &BackendRegistry)
    requires
        !user.spec_was_created(),
        user.metadata.name@ == illegal_name(),
    ensures
        spec_apply_decision(user, backends) == Err::<bool, Error>(Error::IllegalIdentifier),
{
}

} // verus!
