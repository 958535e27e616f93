//! The credential issuer: key-value records persisted for generated
//! credentials, written exactly once and never mutated afterwards.
//!
//! Each record is owned by exactly one resource; the platform's
//! owner-reference garbage collection removes it together with its owner,
//! so no delete operation exists here at all. A second create under an
//! already written name is refused with a conflict.
use vstd::prelude::*;
use crate::Error;

verus! {

/// The payload of one issued credential.
#[derive(Debug)]
pub enum CredentialData {
    /// A generated SQL login: password, resolved role name, and where the
    /// backend listens.
    Postgres { password: String, username: String, host: String, port: u16 },
    /// A storage access key as the storage backend assigned it.
    Storage { access_key_id: String, secret_access_key: String },
}

/// One immutable credential record.
#[derive(Debug)]
pub struct CredentialSecret {
    /// Record name, as the owning resource's spec requested it.
    pub name: String,
    /// Namespace of the owning resource; records are namespaced with it.
    pub namespace: String,
    /// Name of the owning resource, for cascade deletion.
    pub owner: String,
    /// The credential itself.
    pub data: CredentialData,
}

/// The issuer's record of everything written so far.
pub struct SecretStore {
    secrets: Vec<CredentialSecret>,
}

impl SecretStore {
    /// The written records, oldest first.
    pub closed spec fn view(&self) -> Seq<CredentialSecret> {
        self.secrets@
    }

    /// Whether a record was already written under this namespace and name.
    pub open spec fn spec_contains_name(&self, namespace: Seq<char>, name: Seq<char>) -> bool {
        exists|i: int|
            0 <= i < self@.len() && self@[i].namespace@ == namespace && self@[i].name@ == name
    }

    /// No two records share a namespace and name.
    pub open spec fn well_formed(&self) -> bool {
        forall|i: int, j: int|
            0 <= i < j < self@.len() ==> !(self@[i].namespace@ == self@[j].namespace@
                && self@[i].name@ == self@[j].name@)
    }

    /// What `create` returns: a conflict exactly when the name was already
    /// written.
    pub open spec fn spec_create_result(&self, s: CredentialSecret) -> Result<(), Error> {
        if self.spec_contains_name(s.namespace@, s.name@) {
            Err(Error::SecretConflict)
        } else {
            Ok(())
        }
    }

    /// The records after `create`: unchanged on a conflict, extended by the
    /// new record otherwise.
    pub open spec fn spec_create_store(&self, s: CredentialSecret) -> Seq<CredentialSecret> {
        if self.spec_contains_name(s.namespace@, s.name@) {
            self@
        } else {
            self@.push(s)
        }
    }

    pub fn new() -> (r: SecretStore)
        ensures
            r@ == Seq::<CredentialSecret>::empty(),
            r.well_formed(),
    {
        SecretStore { secrets: Vec::new() }
    }

    /// Writes one record, refusing to overwrite: a record under an existing
    /// (namespace, name) is left exactly as it was and the caller gets a
    /// conflict error.
    pub fn create(&mut self, s: CredentialSecret) -> (r: Result<(), Error>)
        requires
            old(self).well_formed(),
        ensures
            final(self).well_formed(),
            r == old(self).spec_create_result(s),
            final(self)@ == old(self).spec_create_store(s),
    {
        if self.contains_name(&s.namespace, &s.name) {
            Err(Error::SecretConflict)
        } else {
            let ghost pre = self@;
            self.secrets.push(s);
            assert(self@ =~= pre.push(self@[pre.len() as int]));
            Ok(())
        }
    }

    /// Whether a record was already written under this namespace and name.
    pub fn contains_name(&self, namespace: &String, name: &String) -> (r: bool)
        ensures
            r == self.spec_contains_name(namespace@, name@),
    {
        self.get(namespace, name).is_some()
    }

    /// The record written under this namespace and name, if any.
    pub fn get(&self, namespace: &String, name: &String) -> (r: Option<&CredentialSecret>)
        ensures
            r is Some <==> self.spec_contains_name(namespace@, name@),
            r matches Some(c) ==> exists|i: int|
                0 <= i < self@.len() && self@[i] == *c && c.namespace@ == namespace@
                    && c.name@ == name@,
    {
        let mut i: usize = 0;
        while i < self.secrets.len()
            invariant
                0 <= i <= self.secrets.len(),
                forall|j: int|
                    0 <= j < i ==> !(self@[j].namespace@ == namespace@ && self@[j].name@
                        == name@),
            decreases self.secrets.len() - i,
        {
            if self.secrets[i].namespace.eq(namespace) && self.secrets[i].name.eq(name) {
                return Some(&self.secrets[i]);
            }
            i += 1;
        }
        None
    }

    /// How many records were written.
    pub fn len(&self) -> (r: usize)
        ensures
            r == self@.len(),
    {
        self.secrets.len()
    }
}

/// Law: credentials are immutable once written. After a create of `s`
/// succeeds, any later create of a record `t` under the same namespace and
/// name is refused with a conflict, and the stored records stay exactly as
/// they were.
pub proof fn lemma_credential_immutability(
    store: SecretStore,
    next: SecretStore,
    s: CredentialSecret,
    t: CredentialSecret,
)
    requires
        store.spec_create_result(s) == Ok::<(), Error>(()),
        next@ == store.spec_create_store(s),
        t.namespace@ == s.namespace@,
        t.name@ == s.name@,
    ensures
        next.spec_create_result(t) == Err::<(), Error>(Error::SecretConflict),
        next.spec_create_store(t) == next@,
{
    assert(next@[store@.len() as int] == s);
    assert(next.spec_contains_name(t.namespace@, t.name@));
}

} // verus!
