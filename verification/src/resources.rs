//! The reconciled resource kinds and what they share: object identity, the
//! validation guard on names, and the derivation of globally unique backend
//! identifiers.
use vstd::prelude::*;
use vstd::string::*;

pub mod postgresql;
pub mod s3;

verus! {

/// Identity and lifecycle markers of one desired-state object.
#[derive(Debug)]
pub struct Metadata {
    /// Namespace the object lives in.
    pub namespace: String,
    /// Object name; also the identifier checked by the validation guard.
    pub name: String,
    /// Whether deletion of the object has been requested.
    pub deletion_requested: bool,
    /// Whether the object carries this controller's finalizer marker.
    pub has_finalizer: bool,
}

/// Reasons of the domain events published while reconciling.
#[derive(Clone, Copy, Debug, PartialEq, Eq, Structural)]
pub enum EventReason {
    /// Creation of the backing object was requested.
    CreationRequested,
    /// The backing object exists and status was patched.
    CreationCompleted,
    /// Deletion of the backing object was requested.
    DeleteRequested,
    /// One reconciliation attempt finished without error.
    ReconcileCompleted,
    /// One reconciliation attempt failed.
    ReconcileFailed,
}

/// The event Apply publishes before doing anything else: a creation
/// request, unless the status already records creation — a converged
/// resource is reconciled silently.
pub fn apply_start_event(already_created: bool) -> (r: Option<EventReason>)
    ensures
        already_created ==> r is None,
        !already_created ==> r == Some(EventReason::CreationRequested),
{
    if already_created {
        None
    } else {
        Some(EventReason::CreationRequested)
    }
}

/// The one identifier that the validation guard rejects.
pub open spec fn illegal_name() -> Seq<char> {
    "illegal"@
}

/// Whether `name` is the identifier that the validation guard rejects.
pub fn is_illegal_name(name: &String) -> (r: bool)
    ensures
        r == (name@ == illegal_name()),
{
    let guard: String = "illegal".to_owned();
    name.eq(&guard)
}

/// The backend-side identifier derived from an object's identity: namespace
/// and name joined by an underscore, so that objects of equal name in
/// different namespaces never collide on a shared backend.
pub open spec fn spec_resolved_identifier(namespace: Seq<char>, name: Seq<char>) -> Seq<char> {
    namespace + "_"@ + name
}

/// Derives the backend-side identifier of the object with this `namespace`
/// and `name`.
pub fn resolved_identifier(namespace: &String, name: &String) -> (r: String)
    ensures
        r@ == spec_resolved_identifier(namespace@, name@),
{
    let mut r = namespace.clone();
    r.append("_");
    r.append(name.as_str());
    r
}

/// No underscore occurs in `s`. Namespaces obey this: their names are
/// drawn from lowercase letters, digits and dashes.
pub open spec fn spec_underscore_free(s: Seq<char>) -> bool {
    forall|i: int| 0 <= i < s.len() ==> s[i] != '_'
}

/// Law: the identifier derivation is injective. Two objects with
/// underscore-free namespaces receive the same backend-side identifier
/// only when namespace and name both agree, so objects of equal name in
/// different namespaces never collide on a shared backend.
pub proof fn lemma_resolved_identifier_injective(
    ns1: Seq<char>,
    n1: Seq<char>,
    ns2: Seq<char>,
    n2: Seq<char>,
)
    requires
        spec_underscore_free(ns1),
        spec_underscore_free(ns2),
        spec_resolved_identifier(ns1, n1) == spec_resolved_identifier(ns2, n2),
    ensures
        ns1 == ns2,
        n1 == n2,
{
    reveal_strlit("_");
    let a = spec_resolved_identifier(ns1, n1);
    let b = spec_resolved_identifier(ns2, n2);
    assert(a.len() == ns1.len() + 1 + n1.len());
    assert(b.len() == ns2.len() + 1 + n2.len());
    assert(a[ns1.len() as int] == '_');
    assert(b[ns2.len() as int] == '_');
    if ns1.len() < ns2.len() {
        assert(b[ns1.len() as int] == ns2[ns1.len() as int]);
        assert(a[ns1.len() as int] == b[ns1.len() as int]);
        assert(false);
    }
    if ns2.len() < ns1.len() {
        assert(a[ns2.len() as int] == ns1[ns2.len() as int]);
        assert(a[ns2.len() as int] == b[ns2.len() as int]);
        assert(false);
    }
    assert(ns1 =~= ns2) by {
        assert(forall|i: int| 0 <= i < ns1.len() ==> a[i] == ns1[i] && b[i] == ns2[i]);
        assert(forall|i: int| 0 <= i < ns1.len() ==> a[i] == b[i]);
    }
    assert(n1 =~= n2) by {
        assert(forall|i: int|
            0 <= i < n1.len() ==> a[ns1.len() + 1 + i] == #[trigger] n1[i] && b[ns2.len() + 1 + i]
                == n2[i]);
    }
}

} // verus!
