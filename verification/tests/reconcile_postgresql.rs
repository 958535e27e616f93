use console::controller::Action;
use console::registry::BackendRegistry;
use console::resources::postgresql::database::{
    plan_apply as db_plan_apply, on_applied as db_on_applied, on_owner_loaded, plan_cleanup
    as db_plan_cleanup, Database, DatabaseApplyStep, DatabaseSpec, DatabaseStatus,
};
use console::resources::postgresql::user::{
    password_is_valid, plan_apply as user_plan_apply, on_applied as user_on_applied,
    plan_cleanup as user_plan_cleanup, User, UserApplyStep, UserSpec, UserStatus,
    PASSWORD_LENGTH,
};
use console::resources::postgresql::{on_cleaned, render, SqlStatement, POSTGRESQL_PORT};
use console::resources::Metadata;
use console::secrets::{CredentialData, SecretStore};
use console::Error;

fn meta(ns: &str, name: &str) -> Metadata {
    Metadata {
        namespace: ns.to_string(),
        name: name.to_string(),
        deletion_requested: false,
        has_finalizer: true,
    }
}

fn user(ns: &str, name: &str, backend: &str, secret: &str, limit: u32) -> User {
    User {
        metadata: meta(ns, name),
        spec: UserSpec {
            name: name.to_string(),
            backend: backend.to_string(),
            password_secret_name: secret.to_string(),
            connection_limit: limit,
        },
        status: None,
    }
}

fn database(ns: &str, name: &str, backend: &str, owner: &str, limit: u32) -> Database {
    Database {
        metadata: meta(ns, name),
        spec: DatabaseSpec {
            name: name.to_string(),
            backend: backend.to_string(),
            connection_limit: limit,
            owner: owner.to_string(),
        },
        status: None,
    }
}

fn registry_with_pg1() -> BackendRegistry {
    let mut r = BackendRegistry::new();
    assert_eq!(r.register("pg1".to_string()), Some(0));
    r
}

const PW: &str = "abcdefghij123456";

#[test]
fn user_apply_plans_create_user_statement() {
    let u = user("ns", "u1", "pg1", "s1", 5);
    let reg = registry_with_pg1();
    let pw = PW.to_string();
    let step = user_plan_apply(&u, &reg, &pw).unwrap();
    match step {
        UserApplyStep::Execute { statement } => {
            assert_eq!(
                render(&statement),
                "CREATE USER \"ns_u1\" WITH PASSWORD 'abcdefghij123456' CONNECTION LIMIT 5"
            );
            match statement {
                SqlStatement::CreateUser { name, password, connection_limit } => {
                    assert_eq!(name, "ns_u1");
                    assert_eq!(password, PW);
                    assert_eq!(connection_limit, 5);
                }
                _ => panic!("expected a create-user statement"),
            }
        }
        _ => panic!("expected an execute step"),
    }
}

#[test]
fn user_apply_stores_secret_and_patches_status() {
    // End to end for the user kind: the adapter call succeeded, the secret
    // holds the generated password and resolved identity, and the status
    // records creation.
    let u = user("ns", "u1", "pg1", "s1", 5);
    let pw = PW.to_string();
    assert!(password_is_valid(&pw));
    assert_eq!(pw.len(), PASSWORD_LENGTH);
    let mut store = SecretStore::new();
    let host = "db.example".to_string();
    let (status, action) = user_on_applied(&u, true, &mut store, &pw, &host).unwrap();
    assert!(status.created);
    assert_eq!(status.resolved_name, "ns_u1");
    assert_eq!(action, Action::Requeue { seconds: 300 });
    assert_eq!(store.len(), 1);
    let secret = store.get(&"ns".to_string(), &"s1".to_string()).unwrap();
    assert_eq!(secret.owner, "u1");
    match &secret.data {
        CredentialData::Postgres { password, username, host: h, port } => {
            assert_eq!(password, PW);
            assert_eq!(username, "ns_u1");
            assert_eq!(h, "db.example");
            assert_eq!(*port, POSTGRESQL_PORT);
        }
        _ => panic!("expected a postgres credential"),
    }
}

#[test]
fn user_apply_failure_reports_sql_error_and_stores_nothing() {
    let u = user("ns", "u1", "pg1", "s1", 5);
    let pw = PW.to_string();
    let mut store = SecretStore::new();
    let host = "db.example".to_string();
    let r = user_on_applied(&u, false, &mut store, &pw, &host);
    assert_eq!(r.unwrap_err(), Error::SqlError);
    assert_eq!(store.len(), 0);
}

#[test]
fn credential_issuer_refuses_second_create() {
    // Immutability of issued credentials: a second create under the same
    // secret name is a conflict and the store stays as it was.
    let u = user("ns", "u1", "pg1", "s1", 5);
    let pw = PW.to_string();
    let mut store = SecretStore::new();
    let host = "db.example".to_string();
    user_on_applied(&u, true, &mut store, &pw, &host).unwrap();
    let again = user_on_applied(&u, true, &mut store, &pw, &host);
    assert_eq!(again.unwrap_err(), Error::SecretConflict);
    assert_eq!(store.len(), 1);
    let secret = store.get(&"ns".to_string(), &"s1".to_string()).unwrap();
    match &secret.data {
        CredentialData::Postgres { password, .. } => assert_eq!(password, PW),
        _ => panic!("expected a postgres credential"),
    }
}

#[test]
fn created_user_is_not_reapplied() {
    // Idempotence: once status records creation, Apply plans no call.
    let mut u = user("ns", "u1", "pg1", "s1", 5);
    u.status = Some(UserStatus { created: true, resolved_name: "ns_u1".to_string() });
    let reg = registry_with_pg1();
    let pw = PW.to_string();
    let step = user_plan_apply(&u, &reg, &pw).unwrap();
    assert!(matches!(step, UserApplyStep::AlreadyCreated));
}

#[test]
fn created_database_is_not_reapplied() {
    let mut d = database("ns", "d1", "pg1", "u1", 10);
    d.status = Some(DatabaseStatus { created: true, resolved_name: "ns_d1".to_string() });
    let reg = registry_with_pg1();
    let step = db_plan_apply(&d, &reg).unwrap();
    assert!(matches!(step, DatabaseApplyStep::AlreadyCreated));
}

#[test]
fn illegal_database_name_is_rejected() {
    let d = database("ns", "illegal", "pg1", "u1", 10);
    let reg = registry_with_pg1();
    assert_eq!(db_plan_apply(&d, &reg).unwrap_err(), Error::IllegalIdentifier);
}

#[test]
fn illegal_user_name_is_rejected() {
    let u = user("ns", "illegal", "pg1", "s1", 5);
    let reg = registry_with_pg1();
    let pw = PW.to_string();
    assert_eq!(user_plan_apply(&u, &reg, &pw).unwrap_err(), Error::IllegalIdentifier);
}

#[test]
fn unknown_backend_is_rejected() {
    let d = database("ns", "d1", "pg9", "u1", 10);
    let reg = registry_with_pg1();
    assert_eq!(db_plan_apply(&d, &reg).unwrap_err(), Error::UnknownBackend);
}

#[test]
fn database_before_user_fails_with_not_found() {
    // The owning user does not exist yet: the attempt fails, nothing is
    // patched, and the driver will retry later.
    let d = database("ns", "d1", "pg1", "u1", 10);
    let reg = registry_with_pg1();
    let step = db_plan_apply(&d, &reg).unwrap();
    assert!(matches!(step, DatabaseApplyStep::FetchOwner));
    let r = on_owner_loaded(&d, None);
    assert_eq!(r.unwrap_err(), Error::NotFound);
    assert!(!d.was_created());
}

#[test]
fn backend_mismatch_fails_dependency_check() {
    // The dependency invariant: the owning user lives on another backend,
    // so no statement is built and the adapter is never invoked.
    let d = database("ns", "d1", "pg2", "u1", 10);
    let u = user("ns", "u1", "pg1", "s1", 5);
    let r = on_owner_loaded(&d, Some(&u));
    assert_eq!(r.unwrap_err(), Error::BackendMismatch);
}

#[test]
fn database_apply_builds_create_database_statement() {
    let d = database("ns", "d1", "pg1", "u1", 10);
    let u = user("ns", "u1", "pg1", "s1", 5);
    let statement = on_owner_loaded(&d, Some(&u)).unwrap();
    match statement {
        SqlStatement::CreateDatabase { name, owner, connection_limit } => {
            assert_eq!(name, "ns_d1");
            assert_eq!(owner, "ns_u1");
            assert_eq!(connection_limit, 10);
        }
        _ => panic!("expected a create-database statement"),
    }
}

#[test]
fn database_apply_success_patches_status() {
    let d = database("ns", "d1", "pg1", "u1", 10);
    let (status, action) = db_on_applied(&d, true).unwrap();
    assert!(status.created);
    assert_eq!(status.resolved_name, "ns_d1");
    assert_eq!(action, Action::Requeue { seconds: 300 });
}

#[test]
fn database_apply_failure_reports_sql_error() {
    let d = database("ns", "d1", "pg1", "u1", 10);
    assert_eq!(db_on_applied(&d, false).unwrap_err(), Error::SqlError);
}

#[test]
fn database_cleanup_issues_one_drop_statement() {
    // Cleanup completeness for the database kind: exactly one drop call,
    // terminal only once it succeeded.
    let d = database("ns", "d1", "pg1", "u1", 10);
    let reg = registry_with_pg1();
    let statement = db_plan_cleanup(&d, &reg).unwrap();
    match statement {
        SqlStatement::DropDatabase { name } => assert_eq!(name, "ns_d1"),
        _ => panic!("expected a drop-database statement"),
    }
    assert_eq!(on_cleaned(true).unwrap(), Action::AwaitChange);
    assert_eq!(on_cleaned(false).unwrap_err(), Error::SqlError);
}

#[test]
fn user_cleanup_issues_one_drop_statement() {
    let u = user("ns", "u1", "pg1", "s1", 5);
    let reg = registry_with_pg1();
    let statement = user_plan_cleanup(&u, &reg).unwrap();
    match statement {
        SqlStatement::DropUser { name } => assert_eq!(name, "ns_u1"),
        _ => panic!("expected a drop-user statement"),
    }
}

#[test]
fn cleanup_with_unknown_backend_is_rejected() {
    let d = database("ns", "d1", "pg9", "u1", 10);
    let reg = registry_with_pg1();
    assert_eq!(db_plan_cleanup(&d, &reg).unwrap_err(), Error::UnknownBackend);
    let u = user("ns", "u1", "pg9", "s1", 5);
    assert_eq!(user_plan_cleanup(&u, &reg).unwrap_err(), Error::UnknownBackend);
}
