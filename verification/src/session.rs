//! Session key records and the registry that maps each credential public key
//! to its delegation record.
//!
//! The registry models the long-lived persistent tier of the ledger: one
//! record per distinct public key, created or overwritten by the owner,
//! removed on revocation, and otherwise kept indefinitely. Its mathematical
//! model is a `Map` from the key's bytes to the record's view.

use vstd::prelude::*;
use vstd::pervasive::VecAdditionalExecFns;

verus! {

/// Length in bytes of a session key's public key.
pub const PUBLIC_KEY_LEN: usize = 32;

/// A delegated, time-boxed, permission-scoped signing credential.
#[derive(Debug)]
pub struct SessionKey {
    /// Fixed-size byte identifier of the credential; also the registry key.
    pub public_key: Vec<u8>,
    /// Absolute timestamp after which the record is invalid for authorization.
    pub expires_at: u64,
    /// Ordered list of capability codes scoping what the credential may do.
    pub permissions: Vec<u32>,
}

/// Mathematical model of a session key record.
#[verifier::ext_equal]
pub ghost struct SessionKeyView {
    pub public_key: Seq<u8>,
    pub expires_at: u64,
    pub permissions: Seq<u32>,
}

impl SessionKeyView {
    /// A record is well formed when its public key has the fixed size.
    pub open spec fn wf(self) -> bool {
        self.public_key.len() == PUBLIC_KEY_LEN
    }
}

impl View for SessionKey {
    type V = SessionKeyView;

    open spec fn view(&self) -> SessionKeyView {
        SessionKeyView {
            public_key: self.public_key@,
            expires_at: self.expires_at,
            permissions: self.permissions@,
        }
    }
}

impl SessionKey {
    /// Well-formedness of the executable record.
    pub open spec fn wf(self) -> bool {
        self@.wf()
    }
}

/// Whether some record in `s` carries the public key `pk`.
pub open spec fn reg_has_key(s: Seq<SessionKey>, pk: Seq<u8>) -> bool {
    exists|i: int| 0 <= i < s.len() && (#[trigger] s[i]).public_key@ == pk
}

/// The index of the record carrying `pk`; meaningful only under `reg_wf`,
/// which makes that index unique.
pub open spec fn reg_index_of(s: Seq<SessionKey>, pk: Seq<u8>) -> int {
    choose|i: int| 0 <= i < s.len() && (#[trigger] s[i]).public_key@ == pk
}

/// The registry's mathematical model: each stored public key maps to the
/// view of its record.
pub open spec fn reg_map(s: Seq<SessionKey>) -> Map<Seq<u8>, SessionKeyView> {
    Map::new(|pk: Seq<u8>| reg_has_key(s, pk), |pk: Seq<u8>| s[reg_index_of(s, pk)]@)
}

/// Internal invariant of the record list: public keys are distinct, and each
/// record is well formed.
pub open spec fn reg_wf(s: Seq<SessionKey>) -> bool {
    &&& forall|i: int, j: int|
        0 <= i < j < s.len() ==> (#[trigger] s[i]).public_key@ != (#[trigger] s[j]).public_key@
    &&& forall|i: int| 0 <= i < s.len() ==> (#[trigger] s[i])@.wf()
}

/// Under `reg_wf`, the record index for a stored key is exactly the position
/// where that key stands.
proof fn lemma_reg_index_unique(s: Seq<SessionKey>, i: int)
    requires
        reg_wf(s),
        0 <= i < s.len(),
    ensures
        reg_has_key(s, s[i].public_key@),
        reg_index_of(s, s[i].public_key@) == i,
{
    let pk = s[i].public_key@;
    assert(reg_has_key(s, pk));
    let j = reg_index_of(s, pk);
    if j < i {
        assert(s[j].public_key@ != s[i].public_key@);
    } else if i < j {
        assert(s[i].public_key@ != s[j].public_key@);
    }
}

/// Replacing the record at a stored key's own position updates the map at
/// that key and keeps every other entry.
proof fn lemma_reg_map_update(s: Seq<SessionKey>, i: int, k: SessionKey)
    requires
        reg_wf(s),
        0 <= i < s.len(),
        k.public_key@ == s[i].public_key@,
        k@.wf(),
    ensures
        reg_wf(s.update(i, k)),
        reg_map(s.update(i, k)) == reg_map(s).insert(k.public_key@, k@),
{
    let t = s.update(i, k);
    let pk = k.public_key@;
    assert(forall|x: int| 0 <= x < t.len() ==> (#[trigger] t[x]).public_key@ == s[x].public_key@);
    assert(forall|x: int| 0 <= x < t.len() ==> (#[trigger] t[x])@.wf());
    assert forall|q: Seq<u8>| reg_has_key(t, q) == reg_has_key(s, q) by {
        if reg_has_key(t, q) {
            let x = choose|x: int| 0 <= x < t.len() && (#[trigger] t[x]).public_key@ == q;
            assert(s[x].public_key@ == q);
        }
        if reg_has_key(s, q) {
            let x = choose|x: int| 0 <= x < s.len() && (#[trigger] s[x]).public_key@ == q;
            assert(t[x].public_key@ == q);
        }
    }
    assert forall|q: Seq<u8>| #[trigger] reg_map(t).contains_key(q) implies reg_map(t)[q]
        == reg_map(s).insert(pk, k@)[q] by {
        if q == pk {
            lemma_reg_index_unique(t, i);
            assert(reg_map(t)[q] == t[i]@);
        } else {
            let x = reg_index_of(s, q);
            lemma_reg_index_unique(s, x);
            lemma_reg_index_unique(t, x);
            assert(x != i);
            assert(reg_map(t)[q] == t[x]@);
            assert(reg_map(s)[q] == s[x]@);
        }
    }
    assert(reg_has_key(t, pk));
    assert(reg_map(t) =~= reg_map(s).insert(pk, k@));
}

/// Appending a record with a fresh key adds exactly that entry to the map.
proof fn lemma_reg_map_push(s: Seq<SessionKey>, k: SessionKey)
    requires
        reg_wf(s),
        !reg_has_key(s, k.public_key@),
        k@.wf(),
    ensures
        reg_wf(s.push(k)),
        reg_map(s.push(k)) == reg_map(s).insert(k.public_key@, k@),
{
    let t = s.push(k);
    let pk = k.public_key@;
    assert(forall|x: int| 0 <= x < s.len() ==> (#[trigger] t[x]) == s[x]);
    assert(t[s.len() as int] == k);
    assert forall|a: int, b: int| 0 <= a < b < t.len() implies (#[trigger] t[a]).public_key@
        != (#[trigger] t[b]).public_key@ by {
        if b == s.len() as int {
            assert(t[a] == s[a]);
            assert(!(s[a].public_key@ == pk));
        }
    }
    assert forall|q: Seq<u8>| reg_has_key(t, q) == (q == pk || reg_has_key(s, q)) by {
        if reg_has_key(t, q) {
            let x = choose|x: int| 0 <= x < t.len() && (#[trigger] t[x]).public_key@ == q;
            if x < s.len() {
                assert(s[x].public_key@ == q);
            }
        }
        if q == pk {
            assert(t[s.len() as int].public_key@ == q);
        }
        if reg_has_key(s, q) {
            let x = choose|x: int| 0 <= x < s.len() && (#[trigger] s[x]).public_key@ == q;
            assert(t[x].public_key@ == q);
        }
    }
    assert forall|q: Seq<u8>| #[trigger] reg_map(t).contains_key(q) implies reg_map(t)[q]
        == reg_map(s).insert(pk, k@)[q] by {
        if q == pk {
            lemma_reg_index_unique(t, s.len() as int);
            assert(reg_map(t)[q] == k@);
        } else {
            let x = reg_index_of(s, q);
            lemma_reg_index_unique(s, x);
            lemma_reg_index_unique(t, x);
            assert(reg_map(t)[q] == t[x]@);
            assert(reg_map(s)[q] == s[x]@);
        }
    }
    assert(reg_map(t) =~= reg_map(s).insert(pk, k@));
}

/// Removing the record at a stored key's position removes exactly that key
/// from the map.
proof fn lemma_reg_map_remove(s: Seq<SessionKey>, i: int)
    requires
        reg_wf(s),
        0 <= i < s.len(),
    ensures
        reg_wf(s.remove(i)),
        reg_map(s.remove(i)) == reg_map(s).remove(s[i].public_key@),
{
    let t = s.remove(i);
    let pk = s[i].public_key@;
    assert(forall|x: int| 0 <= x < i ==> (#[trigger] t[x]) == s[x]);
    assert(forall|x: int| i <= x < t.len() ==> (#[trigger] t[x]) == s[x + 1]);
    assert forall|a: int, b: int| 0 <= a < b < t.len() implies (#[trigger] t[a]).public_key@
        != (#[trigger] t[b]).public_key@ by {
        let a0 = if a < i { a } else { a + 1 };
        let b0 = if b < i { b } else { b + 1 };
        assert(t[a] == s[a0]);
        assert(t[b] == s[b0]);
        assert(s[a0].public_key@ != s[b0].public_key@);
    }
    assert forall|x: int| 0 <= x < t.len() implies (#[trigger] t[x])@.wf() by {
        let x0 = if x < i { x } else { x + 1 };
        assert(t[x] == s[x0]);
    }
    assert forall|q: Seq<u8>| reg_has_key(t, q) == (q != pk && reg_has_key(s, q)) by {
        if reg_has_key(t, q) {
            let x = choose|x: int| 0 <= x < t.len() && (#[trigger] t[x]).public_key@ == q;
            let x0 = if x < i { x } else { x + 1 };
            assert(t[x] == s[x0]);
            assert(s[x0].public_key@ == q);
            if q == pk {
                lemma_reg_index_unique(s, x0);
                lemma_reg_index_unique(s, i);
            }
        }
        if q != pk && reg_has_key(s, q) {
            let x = choose|x: int| 0 <= x < s.len() && (#[trigger] s[x]).public_key@ == q;
            assert(x != i);
            let x1 = if x < i { x } else { x - 1 };
            assert(t[x1] == s[x]);
            assert(t[x1].public_key@ == q);
        }
    }
    assert forall|q: Seq<u8>| #[trigger] reg_map(t).contains_key(q) implies reg_map(t)[q]
        == reg_map(s).remove(pk)[q] by {
        let x = reg_index_of(s, q);
        lemma_reg_index_unique(s, x);
        let x1 = if x < i { x } else { x - 1 };
        assert(t[x1] == s[x]);
        lemma_reg_index_unique(t, x1);
        assert(reg_map(t)[q] == t[x1]@);
        assert(reg_map(s)[q] == s[x]@);
    }
    assert(reg_map(t) =~= reg_map(s).remove(pk));
}

/// Byte-for-byte equality of two byte vectors.
fn bytes_eq(a: &Vec<u8>, b: &Vec<u8>) -> (r: bool)
    ensures
        r == (a@ == b@),
{
    if a.len() != b.len() {
        return false;
    }
    let mut i: usize = 0;
    while i < a.len()
        invariant
            i <= a@.len(),
            a@.len() == b@.len(),
            forall|j: int| 0 <= j < i ==> a@[j] == b@[j],
        decreases a@.len() - i,
    {
        if a[i] != b[i] {
            return false;
        }
        i += 1;
    }
    proof {
        assert(a@ =~= b@);
    }
    true
}

/// Copy of a vector of plain values.
fn copy_vec<T: Copy>(a: &Vec<T>) -> (r: Vec<T>)
    ensures
        r@ == a@,
{
    let mut r: Vec<T> = Vec::new();
    let mut i: usize = 0;
    while i < a.len()
        invariant
            i <= a@.len(),
            r@ == a@.subrange(0, i as int),
        decreases a@.len() - i,
    {
        r.push(a[i]);
        proof {
            assert(a@.subrange(0, i + 1) =~= a@.subrange(0, i as int).push(a@[i as int]));
        }
        i += 1;
    }
    proof {
        assert(a@.subrange(0, a@.len() as int) =~= a@);
    }
    r
}

impl Clone for SessionKey {
    /// A clone carries exactly the same key, expiry and permissions.
    fn clone(&self) -> (res: Self)
        ensures
            res@ == self@,
    {
        SessionKey {
            public_key: copy_vec(&self.public_key),
            expires_at: self.expires_at,
            permissions: copy_vec(&self.permissions),
        }
    }
}

/// The registry of session key records, keyed by public key.
pub struct SessionKeyRegistry {
    records: Vec<SessionKey>,
}

impl View for SessionKeyRegistry {
    type V = Map<Seq<u8>, SessionKeyView>;

    closed spec fn view(&self) -> Map<Seq<u8>, SessionKeyView> {
        reg_map(self.records@)
    }
}

impl SessionKeyRegistry {
    /// Internal invariant: distinct keys, well-formed records.
    pub closed spec fn wf(&self) -> bool {
        reg_wf(self.records@)
    }

    /// An empty registry.
    pub fn new() -> (r: Self)
        ensures
            r.wf(),
            r@ == Map::<Seq<u8>, SessionKeyView>::empty(),
    {
        let r = SessionKeyRegistry { records: Vec::new() };
        proof {
            assert(r@ =~= Map::<Seq<u8>, SessionKeyView>::empty());
        }
        r
    }

    /// The position of the record carrying `public_key`, if any.
    fn find_index(&self, public_key: &Vec<u8>) -> (r: Option<usize>)
        ensures
            match r {
                Some(i) => i < self.records@.len()
                    && self.records@[i as int].public_key@ == public_key@,
                None => !reg_has_key(self.records@, public_key@),
            },
    {
        let mut i: usize = 0;
        while i < self.records.len()
            invariant
                i <= self.records@.len(),
                forall|j: int|
                    0 <= j < i ==> (#[trigger] self.records@[j]).public_key@ != public_key@,
            decreases self.records@.len() - i,
        {
            if bytes_eq(&self.records[i].public_key, public_key) {
                return Some(i);
            }
            i += 1;
        }
        None
    }

    /// Stores `record` under its public key, overwriting any record already
    /// stored there.
    pub fn insert(&mut self, record: SessionKey)
        requires
            old(self).wf(),
            record.wf(),
        ensures
            final(self).wf(),
            final(self)@ == old(self)@.insert(record.public_key@, record@),
    {
        let position = self.find_index(&record.public_key);
        match position {
            Some(i) => {
                proof {
                    lemma_reg_map_update(self.records@, i as int, record);
                }
                self.records.set(i, record);
            }
            None => {
                proof {
                    lemma_reg_map_push(self.records@, record);
                }
                self.records.push(record);
            }
        }
    }

    /// Removes the record stored under `public_key`; removing an absent key
    /// changes nothing.
    pub fn remove(&mut self, public_key: &Vec<u8>)
        requires
            old(self).wf(),
        ensures
            final(self).wf(),
            final(self)@ == old(self)@.remove(public_key@),
    {
        let position = self.find_index(public_key);
        match position {
            Some(i) => {
                proof {
                    lemma_reg_map_remove(self.records@, i as int);
                }
                let _removed: SessionKey = self.records.remove(i);
            }
            None => {
                proof {
                    assert(self@.remove(public_key@) =~= self@);
                }
            }
        }
    }

    /// The record stored under `public_key`, if any.
    pub fn lookup(&self, public_key: &Vec<u8>) -> (r: Option<SessionKey>)
        requires
            self.wf(),
        ensures
            match r {
                Some(record) => self@.contains_key(public_key@) && record@ == self@[public_key@],
                None => !self@.contains_key(public_key@),
            },
    {
        let position = self.find_index(public_key);
        match position {
            Some(i) => {
                proof {
                    lemma_reg_index_unique(self.records@, i as int);
                }
                Some(self.records[i].clone())
            }
            None => None,
        }
    }
}

} // verus!
