//! A storage actor for trusted public identities, keyed by the hash of
//! each identity's key.
//!
//! Many instances may be spawned to offer different access policies.  The
//! store below is the whole decision state; the surrounding actor task
//! only feeds requests to these methods, and a stopped store answers
//! every further request with a send failure.

use vstd::prelude::*;

verus! {

/// The map a store's entry list denotes: later entries shadow earlier
/// ones, though a well-formed list never holds a hash twice.
pub open spec fn entries_map<V>(s: Seq<(Vec<u8>, V)>) -> Map<Seq<u8>, V>
    decreases s.len(),
{
    if s.len() == 0 {
        Map::empty()
    } else {
        entries_map(s.drop_last()).insert(s.last().0@, s.last().1)
    }
}

/// No two entries share a hash.
pub open spec fn distinct_hashes<V>(s: Seq<(Vec<u8>, V)>) -> bool {
    forall|i: int, j: int| 0 <= i < j < s.len() ==> s[i].0@ != s[j].0@
}

proof fn lemma_entries_map_contains<V>(s: Seq<(Vec<u8>, V)>, key: Seq<u8>)
    ensures
        entries_map(s).contains_key(key) <==> exists|i: int| 0 <= i < s.len() && s[i].0@ == key,
    decreases s.len(),
{
    if s.len() > 0 {
        lemma_entries_map_contains(s.drop_last(), key);
        if entries_map(s).contains_key(key) {
            if s.last().0@ != key {
                let w = choose|i: int| 0 <= i < s.len() - 1 && s.drop_last()[i].0@ == key;
                assert(s[w].0@ == key);
            } else {
                assert(s[s.len() - 1].0@ == key);
            }
        }
        if exists|i: int| 0 <= i < s.len() && s[i].0@ == key {
            let w = choose|i: int| 0 <= i < s.len() && s[i].0@ == key;
            if w < s.len() - 1 {
                assert(s.drop_last()[w].0@ == key);
            }
        }
    }
}

proof fn lemma_entries_map_found<V>(s: Seq<(Vec<u8>, V)>, i: int)
    requires
        distinct_hashes(s),
        0 <= i < s.len(),
    ensures
        entries_map(s).contains_key(s[i].0@),
        entries_map(s)[s[i].0@] == s[i].1,
    decreases s.len(),
{
    if i == s.len() - 1 {
    } else {
        assert(s.drop_last()[i] == s[i]);
        lemma_entries_map_found(s.drop_last(), i);
        assert(s.last().0@ != s[i].0@);
    }
}

proof fn lemma_entries_map_remove<V>(s: Seq<(Vec<u8>, V)>, i: int)
    requires
        distinct_hashes(s),
        0 <= i < s.len(),
    ensures
        entries_map(s.remove(i)) =~= entries_map(s).remove(s[i].0@),
    decreases s.len(),
{
    let key = s[i].0@;
    if i == s.len() - 1 {
        assert(s.remove(i) =~= s.drop_last());
        lemma_entries_map_contains(s.drop_last(), key);
        assert forall|j: int| 0 <= j < s.len() - 1 implies s.drop_last()[j].0@ != key by {
            assert(s[j].0@ != s[i].0@);
        }
        assert(entries_map(s.drop_last()) =~= entries_map(s.drop_last()).insert(
            key,
            s[i].1,
        ).remove(key));
    } else {
        let last = s.last();
        assert(s.remove(i).last() == last);
        assert(s.remove(i).drop_last() =~= s.drop_last().remove(i));
        assert(s.drop_last()[i] == s[i]);
        lemma_entries_map_remove(s.drop_last(), i);
        assert(last.0@ != key);
        assert(entries_map(s.remove(i)) =~= entries_map(s.drop_last()).remove(key).insert(
            last.0@,
            last.1,
        ));
        assert(entries_map(s.drop_last()).remove(key).insert(last.0@, last.1) =~= entries_map(
            s.drop_last(),
        ).insert(last.0@, last.1).remove(key));
    }
}

/// Storage service for trusted identities, keyed by the hash of each
/// identity's key.  `V` is whatever the deployment stores under a hash.
#[derive(Debug)]
pub struct TrustStore<V> {
    entries: Vec<(Vec<u8>, V)>,
    stopped: bool,
}

/// Errors when talking to a trust store.
#[derive(Debug, Clone, PartialEq, Eq, Structural)]
pub enum TrustStoreError {
    /// The request could not be handed to the store.
    Send,
    /// No response came back from the store.
    Recv,
}

impl<V> TrustStore<V> {
    /// The map this store denotes.
    pub closed spec fn store_map(&self) -> Map<Seq<u8>, V> {
        entries_map(self.entries@)
    }

    /// Well-formedness: no hash is held twice.
    pub closed spec fn wf(&self) -> bool {
        distinct_hashes(self.entries@)
    }

    /// Whether the store has been stopped.
    pub closed spec fn is_stopped(&self) -> bool {
        self.stopped
    }

    /// Spawn an empty trust store; identities can be stored later on.
    pub fn spawn() -> (r: Self)
        ensures
            r.wf(),
            !r.is_stopped(),
            r.store_map() == Map::<Seq<u8>, V>::empty(),
    {
        TrustStore { entries: Vec::new(), stopped: false }
    }

    /// The index of the entry holding this hash, if any.
    fn find_index(&self, hash: &[u8]) -> (r: Option<usize>)
        ensures
            match r {
                Some(i) => i < self.entries@.len() && self.entries@[i as int].0@ == hash@,
                None => forall|j: int|
                    0 <= j < self.entries@.len() ==> self.entries@[j].0@ != hash@,
            },
    {
        let n = self.entries.len();
        let mut i: usize = 0;
        while i < n
            invariant
                n == self.entries@.len(),
                i <= n,
                forall|j: int| 0 <= j < i ==> self.entries@[j].0@ != hash@,
            decreases n - i,
        {
            if crate::router::bytes_eq(self.entries[i].0.as_slice(), hash) {
                return Some(i);
            }
            i += 1;
        }
        None
    }

    /// Fetch the identity stored under this hash.  Fails once the store
    /// is stopped; an absent identity is `Ok(None)`.
    pub fn fetch(&self, hash: &[u8]) -> (r: Result<Option<&V>, TrustStoreError>)
        requires
            self.wf(),
        ensures
            self.is_stopped() ==> r == Err::<Option<&V>, TrustStoreError>(TrustStoreError::Send),
            !self.is_stopped() ==> match r {
                Ok(Some(v)) => self.store_map().contains_key(hash@) && *v
                    == self.store_map()[hash@],
                Ok(None) => !self.store_map().contains_key(hash@),
                Err(_) => false,
            },
    {
        if self.stopped {
            return Err(TrustStoreError::Send);
        }
        match self.find_index(hash) {
            Some(i) => {
                proof {
                    lemma_entries_map_found(self.entries@, i as int);
                }
                Ok(Some(&self.entries[i].1))
            },
            None => {
                proof {
                    lemma_entries_map_contains(self.entries@, hash@);
                }
                Ok(None)
            },
        }
    }

    /// Whether an identity is stored under this hash.  Fails once the
    /// store is stopped.
    pub fn contains(&self, hash: &[u8]) -> (r: Result<bool, TrustStoreError>)
        requires
            self.wf(),
        ensures
            self.is_stopped() ==> r == Err::<bool, TrustStoreError>(TrustStoreError::Send),
            !self.is_stopped() ==> r == Ok::<bool, TrustStoreError>(
                self.store_map().contains_key(hash@),
            ),
    {
        if self.stopped {
            return Err(TrustStoreError::Send);
        }
        proof {
            lemma_entries_map_contains(self.entries@, hash@);
        }
        match self.find_index(hash) {
            Some(i) => {
                proof {
                    lemma_entries_map_found(self.entries@, i as int);
                }
                Ok(true)
            },
            None => Ok(false),
        }
    }

    /// Insert an identity under its hash, replacing any identity already
    /// stored under the same hash.  Fails once the store is stopped.
    pub fn store(&mut self, hash: Vec<u8>, id: V) -> (r: Result<(), TrustStoreError>)
        requires
            old(self).wf(),
        ensures
            final(self).wf(),
            old(self).is_stopped() ==> (r == Err::<(), TrustStoreError>(TrustStoreError::Send)
                && *final(self) == *old(self)),
            !old(self).is_stopped() ==> (r == Ok::<(), TrustStoreError>(())
                && final(self).store_map() == old(self).store_map().insert(hash@, id)
                && !final(self).is_stopped()),
    {
        if self.stopped {
            return Err(TrustStoreError::Send);
        }
        let ghost key = hash@;
        match self.find_index(hash.as_slice()) {
            Some(i) => {
                let ghost s = self.entries@;
                self.entries.remove(i);
                proof {
                    lemma_entries_map_remove(s, i as int);
                    assert forall|j: int|
                        0 <= j < self.entries@.len() implies self.entries@[j].0@ != key by {
                        if j < i {
                            assert(s[j].0@ != s[i as int].0@);
                        } else {
                            assert(self.entries@[j] == s[j + 1]);
                            assert(s[i as int].0@ != s[j + 1].0@);
                        }
                    }
                }
            },
            None => {
                proof {
                    lemma_entries_map_contains(self.entries@, key);
                    assert(self.store_map() =~= self.store_map().remove(key));
                }
            },
        }
        let ghost cleared = self.entries@;
        self.entries.push((hash, id));
        proof {
            assert(self.entries@.drop_last() =~= cleared);
            assert forall|i: int, j: int|
                0 <= i < j < self.entries@.len() implies self.entries@[i].0@
                != self.entries@[j].0@ by {
                if j == self.entries@.len() - 1 {
                    assert(cleared[i].0@ != key);
                }
            }
            assert(self.store_map() =~= old(self).store_map().insert(key, id));
        }
        Ok(())
    }

    /// Stop the store; every further request fails.
    pub fn stop(&mut self)
        ensures
            final(self).wf() == old(self).wf(),
            final(self).is_stopped(),
    {
        self.stopped = true;
    }
}

} // verus!
