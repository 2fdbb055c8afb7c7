//! The ephemeral-state cache: a store for short-lived protocol artifacts
//! (pending challenges, pending handshake states, pending session proofs and
//! confirmed sessions), keyed by transaction nonces and by binary digests.
//!
//! The two key spaces are independent, so a nonce can never collide with a
//! digest.  The cache is modelled as a pair of maps; every operation states
//! exactly how it transforms them.  `consume` reads and deletes in one step,
//! so that two racing finish calls can never both succeed on the same
//! pending state once the caller serialises access to the cache value.

use vstd::prelude::*;
use vstd::string::StringSliceAdditionalSpecFns;
use vstd::string::StrSliceExecFns;

use crate::codec;

verus! {

/// Mathematical model of the cache: the nonce-keyed entries and the
/// digest-keyed entries.
pub ghost struct CacheModel {
    pub pending: Map<u32, Seq<u8>>,
    pub bin: Map<Seq<u8>, Seq<u8>>,
}

/// In-memory store for short-lived protocol state.  Values are plain byte
/// strings; nothing in it is ever persisted.
pub struct EphemeralStateCache {
    nonce_entries: Vec<(u32, Vec<u8>)>,
    bin_entries: Vec<(Vec<u8>, Vec<u8>)>,
}

spec fn nonce_keys_unique(s: Seq<(u32, Vec<u8>)>) -> bool {
    forall|i: int, j: int| 0 <= i < j < s.len() ==> (#[trigger] s[i]).0 != (#[trigger] s[j]).0
}

spec fn bin_keys_unique(s: Seq<(Vec<u8>, Vec<u8>)>) -> bool {
    forall|i: int, j: int| 0 <= i < j < s.len() ==> (#[trigger] s[i]).0@ != (#[trigger] s[j]).0@
}

spec fn nonce_has_key(s: Seq<(u32, Vec<u8>)>, k: u32) -> bool {
    exists|i: int| 0 <= i < s.len() && (#[trigger] s[i]).0 == k
}

spec fn bin_has_key(s: Seq<(Vec<u8>, Vec<u8>)>, k: Seq<u8>) -> bool {
    exists|i: int| 0 <= i < s.len() && (#[trigger] s[i]).0@ == k
}

spec fn nonce_index_of(s: Seq<(u32, Vec<u8>)>, k: u32) -> int {
    choose|i: int| 0 <= i < s.len() && (#[trigger] s[i]).0 == k
}

spec fn bin_index_of(s: Seq<(Vec<u8>, Vec<u8>)>, k: Seq<u8>) -> int {
    choose|i: int| 0 <= i < s.len() && (#[trigger] s[i]).0@ == k
}

spec fn nonce_map(s: Seq<(u32, Vec<u8>)>) -> Map<u32, Seq<u8>> {
    Map::new(|k: u32| nonce_has_key(s, k), |k: u32| s[nonce_index_of(s, k)].1@)
}

spec fn bin_map(s: Seq<(Vec<u8>, Vec<u8>)>) -> Map<Seq<u8>, Seq<u8>> {
    Map::new(|k: Seq<u8>| bin_has_key(s, k), |k: Seq<u8>| s[bin_index_of(s, k)].1@)
}

impl View for EphemeralStateCache {
    type V = CacheModel;

    closed spec fn view(&self) -> CacheModel {
        CacheModel {
            pending: nonce_map(self.nonce_entries@),
            bin: bin_map(self.bin_entries@),
        }
    }
}

proof fn lemma_nonce_index(s: Seq<(u32, Vec<u8>)>, k: u32, i: int)
    requires
        nonce_keys_unique(s),
        0 <= i < s.len(),
        s[i].0 == k,
    ensures
        nonce_has_key(s, k),
        nonce_index_of(s, k) == i,
        nonce_map(s)[k] == s[i].1@,
{
    assert(nonce_has_key(s, k));
    let j = nonce_index_of(s, k);
    assert(0 <= j < s.len() && s[j].0 == k);
}

proof fn lemma_bin_index(s: Seq<(Vec<u8>, Vec<u8>)>, k: Seq<u8>, i: int)
    requires
        bin_keys_unique(s),
        0 <= i < s.len(),
        s[i].0@ == k,
    ensures
        bin_has_key(s, k),
        bin_index_of(s, k) == i,
        bin_map(s)[k] == s[i].1@,
{
    assert(bin_has_key(s, k));
    let j = bin_index_of(s, k);
    assert(0 <= j < s.len() && s[j].0@ == k);
}

proof fn lemma_nonce_push(s: Seq<(u32, Vec<u8>)>, k: u32, v: Vec<u8>)
    requires
        nonce_keys_unique(s),
        !nonce_has_key(s, k),
    ensures
        nonce_keys_unique(s.push((k, v))),
        nonce_map(s.push((k, v))) == nonce_map(s).insert(k, v@),
{
    let s2 = s.push((k, v));
    assert forall|i: int| 0 <= i < s.len() implies (#[trigger] s2[i]) == s[i] by {}
    assert(s2[s.len() as int].0 == k);
    assert forall|i: int, j: int| 0 <= i < j < s2.len() implies (#[trigger] s2[i]).0
        != (#[trigger] s2[j]).0 by {
        if j < s.len() {
        } else {
            assert(s2[j].0 == k);
            assert(s2[i] == s[i]);
        }
    }
    assert forall|k2: u32| #[trigger] nonce_has_key(s2, k2) implies nonce_map(s2).contains_key(
        k2,
    ) by {}
    assert forall|k2: u32| true implies #[trigger] nonce_map(s2).contains_key(k2) <==> nonce_map(
        s,
    ).insert(k, v@).contains_key(k2) by {
        if k2 == k {
            lemma_nonce_index(s2, k, s.len() as int);
        } else {
            if nonce_has_key(s2, k2) {
                let w = choose|w: int| 0 <= w < s2.len() && (#[trigger] s2[w]).0 == k2;
                assert(w < s.len());
                assert(s[w].0 == k2);
                assert(nonce_has_key(s, k2));
            }
            if nonce_has_key(s, k2) {
                let w = choose|w: int| 0 <= w < s.len() && (#[trigger] s[w]).0 == k2;
                assert(s2[w].0 == k2);
                assert(nonce_has_key(s2, k2));
            }
        }
    }
    assert forall|k2: u32| nonce_map(s2).contains_key(k2) implies nonce_map(s2)[k2] == nonce_map(
        s,
    ).insert(k, v@)[k2] by {
        if k2 == k {
            lemma_nonce_index(s2, k, s.len() as int);
        } else {
            let w = choose|w: int| 0 <= w < s2.len() && (#[trigger] s2[w]).0 == k2;
            assert(w < s.len());
            assert(s[w].0 == k2);
            lemma_nonce_index(s2, k2, w);
            lemma_nonce_index(s, k2, w);
        }
    }
    assert(nonce_map(s2) =~= nonce_map(s).insert(k, v@));
}

proof fn lemma_bin_push(s: Seq<(Vec<u8>, Vec<u8>)>, k: Vec<u8>, v: Vec<u8>)
    requires
        bin_keys_unique(s),
        !bin_has_key(s, k@),
    ensures
        bin_keys_unique(s.push((k, v))),
        bin_map(s.push((k, v))) == bin_map(s).insert(k@, v@),
{
    let s2 = s.push((k, v));
    assert forall|i: int| 0 <= i < s.len() implies (#[trigger] s2[i]) == s[i] by {}
    assert(s2[s.len() as int].0@ == k@);
    assert forall|i: int, j: int| 0 <= i < j < s2.len() implies (#[trigger] s2[i]).0@
        != (#[trigger] s2[j]).0@ by {
        if j < s.len() {
        } else {
            assert(s2[j].0@ == k@);
            assert(s2[i] == s[i]);
        }
    }
    assert forall|k2: Seq<u8>| true implies #[trigger] bin_map(s2).contains_key(k2) <==> bin_map(
        s,
    ).insert(k@, v@).contains_key(k2) by {
        if k2 == k@ {
            lemma_bin_index(s2, k@, s.len() as int);
        } else {
            if bin_has_key(s2, k2) {
                let w = choose|w: int| 0 <= w < s2.len() && (#[trigger] s2[w]).0@ == k2;
                assert(w < s.len());
                assert(s[w].0@ == k2);
                assert(bin_has_key(s, k2));
            }
            if bin_has_key(s, k2) {
                let w = choose|w: int| 0 <= w < s.len() && (#[trigger] s[w]).0@ == k2;
                assert(s2[w].0@ == k2);
                assert(bin_has_key(s2, k2));
            }
        }
    }
    assert forall|k2: Seq<u8>| bin_map(s2).contains_key(k2) implies bin_map(s2)[k2] == bin_map(
        s,
    ).insert(k@, v@)[k2] by {
        if k2 == k@ {
            lemma_bin_index(s2, k@, s.len() as int);
        } else {
            let w = choose|w: int| 0 <= w < s2.len() && (#[trigger] s2[w]).0@ == k2;
            assert(w < s.len());
            assert(s[w].0@ == k2);
            lemma_bin_index(s2, k2, w);
            lemma_bin_index(s, k2, w);
        }
    }
    assert(bin_map(s2) =~= bin_map(s).insert(k@, v@));
}

proof fn lemma_nonce_remove(s: Seq<(u32, Vec<u8>)>, i: int)
    requires
        nonce_keys_unique(s),
        0 <= i < s.len(),
    ensures
        nonce_keys_unique(s.remove(i)),
        !nonce_has_key(s.remove(i), s[i].0),
        nonce_map(s.remove(i)) == nonce_map(s).remove(s[i].0),
{
    let k = s[i].0;
    let s2 = s.remove(i);
    assert forall|m: int| 0 <= m < s2.len() implies (#[trigger] s2[m]) == (if m < i {
        s[m]
    } else {
        s[m + 1]
    }) by {}
    assert forall|m: int, j: int| 0 <= m < j < s2.len() implies (#[trigger] s2[m]).0
        != (#[trigger] s2[j]).0 by {
        let m0 = if m < i { m } else { m + 1 };
        let j0 = if j < i { j } else { j + 1 };
        assert(s2[m] == s[m0]);
        assert(s2[j] == s[j0]);
    }
    assert forall|m: int| 0 <= m < s2.len() implies (#[trigger] s2[m]).0 != k by {
        let m0 = if m < i { m } else { m + 1 };
        assert(s2[m] == s[m0]);
        assert(m0 != i);
    }
    assert(!nonce_has_key(s2, k));
    assert forall|k2: u32| true implies #[trigger] nonce_map(s2).contains_key(k2) <==> nonce_map(
        s,
    ).remove(k).contains_key(k2) by {
        if k2 != k {
            if nonce_has_key(s2, k2) {
                let w = choose|w: int| 0 <= w < s2.len() && (#[trigger] s2[w]).0 == k2;
                let w0 = if w < i { w } else { w + 1 };
                assert(s[w0].0 == k2);
                assert(nonce_has_key(s, k2));
            }
            if nonce_has_key(s, k2) {
                let w = choose|w: int| 0 <= w < s.len() && (#[trigger] s[w]).0 == k2;
                assert(w != i);
                let w2 = if w < i { w } else { w - 1 };
                assert(s2[w2] == s[w]);
                assert(nonce_has_key(s2, k2));
            }
        }
    }
    assert forall|k2: u32| nonce_map(s2).contains_key(k2) implies nonce_map(s2)[k2] == nonce_map(
        s,
    ).remove(k)[k2] by {
        let w = choose|w: int| 0 <= w < s2.len() && (#[trigger] s2[w]).0 == k2;
        let w0 = if w < i { w } else { w + 1 };
        assert(s2[w] == s[w0]);
        lemma_nonce_index(s2, k2, w);
        lemma_nonce_index(s, k2, w0);
    }
    assert(nonce_map(s2) =~= nonce_map(s).remove(k));
}

proof fn lemma_bin_remove(s: Seq<(Vec<u8>, Vec<u8>)>, i: int)
    requires
        bin_keys_unique(s),
        0 <= i < s.len(),
    ensures
        bin_keys_unique(s.remove(i)),
        !bin_has_key(s.remove(i), s[i].0@),
        bin_map(s.remove(i)) == bin_map(s).remove(s[i].0@),
{
    let k = s[i].0@;
    let s2 = s.remove(i);
    assert forall|m: int| 0 <= m < s2.len() implies (#[trigger] s2[m]) == (if m < i {
        s[m]
    } else {
        s[m + 1]
    }) by {}
    assert forall|m: int, j: int| 0 <= m < j < s2.len() implies (#[trigger] s2[m]).0@
        != (#[trigger] s2[j]).0@ by {
        let m0 = if m < i { m } else { m + 1 };
        let j0 = if j < i { j } else { j + 1 };
        assert(s2[m] == s[m0]);
        assert(s2[j] == s[j0]);
    }
    assert forall|m: int| 0 <= m < s2.len() implies (#[trigger] s2[m]).0@ != k by {
        let m0 = if m < i { m } else { m + 1 };
        assert(s2[m] == s[m0]);
        assert(m0 != i);
    }
    assert(!bin_has_key(s2, k));
    assert forall|k2: Seq<u8>| true implies #[trigger] bin_map(s2).contains_key(k2) <==> bin_map(
        s,
    ).remove(k).contains_key(k2) by {
        if k2 != k {
            if bin_has_key(s2, k2) {
                let w = choose|w: int| 0 <= w < s2.len() && (#[trigger] s2[w]).0@ == k2;
                let w0 = if w < i { w } else { w + 1 };
                assert(s[w0].0@ == k2);
                assert(bin_has_key(s, k2));
            }
            if bin_has_key(s, k2) {
                let w = choose|w: int| 0 <= w < s.len() && (#[trigger] s[w]).0@ == k2;
                assert(w != i);
                let w2 = if w < i { w } else { w - 1 };
                assert(s2[w2] == s[w]);
                assert(bin_has_key(s2, k2));
            }
        }
    }
    assert forall|k2: Seq<u8>| bin_map(s2).contains_key(k2) implies bin_map(s2)[k2] == bin_map(
        s,
    ).remove(k)[k2] by {
        let w = choose|w: int| 0 <= w < s2.len() && (#[trigger] s2[w]).0@ == k2;
        let w0 = if w < i { w } else { w + 1 };
        assert(s2[w] == s[w0]);
        lemma_bin_index(s2, k2, w);
        lemma_bin_index(s, k2, w0);
    }
    assert(bin_map(s2) =~= bin_map(s).remove(k));
}

impl EphemeralStateCache {
    #[verifier::type_invariant]
    spec fn wf(self) -> bool {
        nonce_keys_unique(self.nonce_entries@) && bin_keys_unique(self.bin_entries@)
    }

    /// An empty cache.
    pub fn new() -> (r: Self)
        ensures
            r@.pending == Map::<u32, Seq<u8>>::empty(),
            r@.bin == Map::<Seq<u8>, Seq<u8>>::empty(),
    {
        let r = EphemeralStateCache { nonce_entries: Vec::new(), bin_entries: Vec::new() };
        proof {
            assert(r@.pending =~= Map::<u32, Seq<u8>>::empty());
            assert(r@.bin =~= Map::<Seq<u8>, Seq<u8>>::empty());
        }
        r
    }

    fn find_nonce(&self, k: u32) -> (r: Option<usize>)
        requires
            nonce_keys_unique(self.nonce_entries@),
        ensures
            match r {
                Some(i) => i < self.nonce_entries@.len() && self.nonce_entries@[i as int].0 == k,
                None => !nonce_has_key(self.nonce_entries@, k),
            },
    {
        let mut i: usize = 0;
        while i < self.nonce_entries.len()
            invariant
                i <= self.nonce_entries@.len(),
                forall|j: int| 0 <= j < i ==> (#[trigger] self.nonce_entries@[j]).0 != k,
            decreases self.nonce_entries@.len() - i,
        {
            if self.nonce_entries[i].0 == k {
                return Some(i);
            }
            i += 1;
        }
        None
    }

    fn find_bin(&self, k: &[u8]) -> (r: Option<usize>)
        requires
            bin_keys_unique(self.bin_entries@),
        ensures
            match r {
                Some(i) => i < self.bin_entries@.len() && self.bin_entries@[i as int].0@ == k@,
                None => !bin_has_key(self.bin_entries@, k@),
            },
    {
        let mut i: usize = 0;
        while i < self.bin_entries.len()
            invariant
                i <= self.bin_entries@.len(),
                forall|j: int| 0 <= j < i ==> (#[trigger] self.bin_entries@[j]).0@ != k@,
            decreases self.bin_entries@.len() - i,
        {
            if codec::bytes_eq(self.bin_entries[i].0.as_slice(), k) {
                return Some(i);
            }
            i += 1;
        }
        None
    }

    /// Store a value under a transaction nonce, replacing any earlier value.
    pub fn insert(&mut self, k: u32, v: Vec<u8>)
        ensures
            final(self)@.pending == old(self)@.pending.insert(k, v@),
            final(self)@.bin == old(self)@.bin,
    {
        proof {
            use_type_invariant(&*self);
        }
        let found = self.find_nonce(k);
        let mut entries: Vec<(u32, Vec<u8>)> = Vec::new();
        core::mem::swap(&mut entries, &mut self.nonce_entries);
        let ghost s0 = entries@;
        match found {
            Some(i) => {
                proof {
                    lemma_nonce_remove(s0, i as int);
                    lemma_nonce_index(s0, k, i as int);
                }
                entries.remove(i);
                proof {
                    lemma_nonce_push(entries@, k, v);
                }
                entries.push((k, v));
                proof {
                    assert(nonce_map(s0).remove(k).insert(k, v@) =~= nonce_map(s0).insert(k, v@));
                }
            },
            None => {
                proof {
                    lemma_nonce_push(s0, k, v);
                }
                entries.push((k, v));
            },
        }
        self.nonce_entries = entries;
    }

    /// Store a string under a transaction nonce, as its UTF-8 bytes.
    pub fn insert_str(&mut self, k: u32, s: &str)
        ensures
            final(self)@.pending == old(self)@.pending.insert(k, s.spec_bytes()),
            final(self)@.bin == old(self)@.bin,
    {
        let v = s.as_bytes_vec();
        self.insert(k, v);
    }

    /// Store a value under a binary digest, replacing any earlier value.
    pub fn insert_bin(&mut self, k: Vec<u8>, v: Vec<u8>)
        ensures
            final(self)@.bin == old(self)@.bin.insert(k@, v@),
            final(self)@.pending == old(self)@.pending,
    {
        proof {
            use_type_invariant(&*self);
        }
        let found = self.find_bin(k.as_slice());
        let mut entries: Vec<(Vec<u8>, Vec<u8>)> = Vec::new();
        core::mem::swap(&mut entries, &mut self.bin_entries);
        let ghost s0 = entries@;
        match found {
            Some(i) => {
                proof {
                    lemma_bin_remove(s0, i as int);
                    lemma_bin_index(s0, k@, i as int);
                }
                entries.remove(i);
                proof {
                    lemma_bin_push(entries@, k, v);
                }
                entries.push((k, v));
                proof {
                    assert(bin_map(s0).remove(k@).insert(k@, v@) =~= bin_map(s0).insert(k@, v@));
                }
            },
            None => {
                proof {
                    lemma_bin_push(s0, k, v);
                }
                entries.push((k, v));
            },
        }
        self.bin_entries = entries;
    }

    /// Read the value stored under a transaction nonce, if any.
    pub fn get(&self, k: &u32) -> (r: Option<Vec<u8>>)
        ensures
            match r {
                Some(v) => self@.pending.contains_key(*k) && v@ == self@.pending[*k],
                None => !self@.pending.contains_key(*k),
            },
    {
        proof {
            use_type_invariant(self);
        }
        match self.find_nonce(*k) {
            Some(i) => {
                proof {
                    lemma_nonce_index(self.nonce_entries@, *k, i as int);
                }
                Some(vstd::slice::slice_to_vec(self.nonce_entries[i].1.as_slice()))
            },
            None => None,
        }
    }

    /// Read the value stored under a transaction nonce as a string.
    pub fn get_str(&self, k: &u32) -> (r: Option<String>)
        ensures
            match r {
                Some(s) => self@.pending.contains_key(*k) && s@ == codec::utf8_lossy_of(
                    self@.pending[*k],
                ),
                None => !self@.pending.contains_key(*k),
            },
    {
        proof {
            use_type_invariant(self);
        }
        match self.find_nonce(*k) {
            Some(i) => {
                proof {
                    lemma_nonce_index(self.nonce_entries@, *k, i as int);
                }
                Some(codec::bytes_to_string_lossy(self.nonce_entries[i].1.as_slice()))
            },
            None => None,
        }
    }

    /// Read the value stored under a binary digest, if any.
    pub fn get_bin(&self, k: &[u8]) -> (r: Option<Vec<u8>>)
        ensures
            match r {
                Some(v) => self@.bin.contains_key(k@) && v@ == self@.bin[k@],
                None => !self@.bin.contains_key(k@),
            },
    {
        proof {
            use_type_invariant(self);
        }
        match self.find_bin(k) {
            Some(i) => {
                proof {
                    lemma_bin_index(self.bin_entries@, k@, i as int);
                }
                Some(vstd::slice::slice_to_vec(self.bin_entries[i].1.as_slice()))
            },
            None => None,
        }
    }

    /// Read and delete the value stored under a transaction nonce, in one
    /// step: after the call the nonce is gone, whatever was found.
    pub fn consume(&mut self, k: u32) -> (r: Option<Vec<u8>>)
        ensures
            final(self)@.pending == old(self)@.pending.remove(k),
            final(self)@.bin == old(self)@.bin,
            match r {
                Some(v) => old(self)@.pending.contains_key(k) && v@ == old(self)@.pending[k],
                None => !old(self)@.pending.contains_key(k),
            },
    {
        proof {
            use_type_invariant(&*self);
        }
        let found = self.find_nonce(k);
        match found {
            Some(i) => {
                let mut entries: Vec<(u32, Vec<u8>)> = Vec::new();
                core::mem::swap(&mut entries, &mut self.nonce_entries);
                proof {
                    lemma_nonce_remove(entries@, i as int);
                    lemma_nonce_index(entries@, k, i as int);
                }
                let pair = entries.remove(i);
                self.nonce_entries = entries;
                Some(pair.1)
            },
            None => {
                proof {
                    assert(old(self)@.pending =~= old(self)@.pending.remove(k));
                }
                None
            },
        }
    }

    /// Delete the value stored under a binary digest; reports whether one
    /// was there.
    pub fn delete_bin(&mut self, k: &[u8]) -> (r: bool)
        ensures
            final(self)@.bin == old(self)@.bin.remove(k@),
            final(self)@.pending == old(self)@.pending,
            r <==> old(self)@.bin.contains_key(k@),
    {
        proof {
            use_type_invariant(&*self);
        }
        let found = self.find_bin(k);
        match found {
            Some(i) => {
                let mut entries: Vec<(Vec<u8>, Vec<u8>)> = Vec::new();
                core::mem::swap(&mut entries, &mut self.bin_entries);
                proof {
                    lemma_bin_remove(entries@, i as int);
                    lemma_bin_index(entries@, k@, i as int);
                }
                entries.remove(i);
                self.bin_entries = entries;
                true
            },
            None => {
                proof {
                    assert(old(self)@.bin =~= old(self)@.bin.remove(k@));
                }
                false
            },
        }
    }
}

} // verus!
