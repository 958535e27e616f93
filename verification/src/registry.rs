//! Registry of logical backend names.
//!
//! The process connects one SQL adapter per configured backend at startup and
//! never afterwards; reconciliations only look backends up by their logical
//! key. The registry records the keys in connection order, so a key's
//! position doubles as the handle under which the unverified shell stores the
//! connected adapter.
use vstd::prelude::*;

verus! {

/// The set of known logical backend keys, built once at startup and
/// read-only afterwards.
pub struct BackendRegistry {
    keys: Vec<String>,
}

impl BackendRegistry {
    /// The registered keys, in registration order.
    pub closed spec fn view(&self) -> Seq<Seq<char>> {
        self.keys@.map(|i: int, k: String| k@)
    }

    /// Whether some backend was registered under the key `k`.
    pub open spec fn spec_contains(&self, k: Seq<char>) -> bool {
        exists|i: int| 0 <= i < self@.len() && self@[i] == k
    }

    /// No key is registered twice.
    pub open spec fn well_formed(&self) -> bool {
        forall|i: int, j: int|
            0 <= i < j < self@.len() ==> self@[i] != self@[j]
    }

    pub fn new() -> (r: BackendRegistry)
        ensures
            r@ == Seq::<Seq<char>>::empty(),
            r.well_formed(),
    {
        BackendRegistry { keys: Vec::new() }
    }

    /// Registers `key` and returns its handle; refuses a duplicate so that
    /// every handle denotes exactly one backend.
    pub fn register(&mut self, key: String) -> (r: Option<usize>)
        requires
            old(self).well_formed(),
        ensures
            final(self).well_formed(),
            old(self).spec_contains(key@) ==> r is None && final(self)@ == old(self)@,
            !old(self).spec_contains(key@) ==> r == Some(old(self)@.len() as usize)
                && final(self)@ == old(self)@.push(key@),
    {
        if self.contains(&key) {
            None
        } else {
            let h = self.keys.len();
            self.keys.push(key);
            assert(self@ =~= old(self)@.push(self.keys@[h as int]@));
            Some(h)
        }
    }

    /// Whether `key` is registered.
    pub fn contains(&self, key: &String) -> (r: bool)
        ensures
            r == self.spec_contains(key@),
    {
        self.lookup(key).is_some()
    }

    /// The handle of the backend registered under `key`, if any.
    pub fn lookup(&self, key: &String) -> (r: Option<usize>)
        ensures
            r is Some <==> self.spec_contains(key@),
            r matches Some(i) ==> 0 <= i < self@.len() && self@[i as int] == key@,
    {
        let mut i: usize = 0;
        while i < self.keys.len()
            invariant
                0 <= i <= self.keys.len(),
                forall|j: int| 0 <= j < i ==> self@[j] != key@,
            decreases self.keys.len() - i,
        {
            if self.keys[i].eq(key) {
                assert(self@[i as int] == key@);
                return Some(i);
            }
            i += 1;
        }
        None
    }

    /// How many backends are registered.
    pub fn len(&self) -> (r: usize)
        ensures
            r == self@.len(),
    {
        self.keys.len()
    }
}

} // verus!
