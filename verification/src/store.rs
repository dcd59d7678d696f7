//! Typed tables over the module's persistent key-value store.
//!
//! The host gives this module a namespaced byte-key/byte-value store; the
//! module organizes it into prefixed regions (token registry, alias
//! registry, custom-alias pointers).  Each region is held here as a flat
//! list of entries with pairwise-distinct keys and is viewed, for
//! specification purposes, as a map from key characters to value
//! characters.

use vstd::prelude::*;

verus! {

/// One key/value pair of a prefixed storage region.
pub struct StoreEntry {
    pub key: String,
    pub value: String,
}

/// A typed table over one prefixed region of the store.
pub struct StoreMap {
    pub entries: Vec<StoreEntry>,
}

/// The map denoted by a list of entries; a later entry for the same key
/// wins, and well-formed tables never hold two entries for one key.
pub open spec fn map_of(s: Seq<StoreEntry>) -> Map<Seq<char>, Seq<char>>
    decreases s.len(),
{
    if s.len() == 0 {
        Map::empty()
    } else {
        map_of(s.drop_last()).insert(s.last().key@, s.last().value@)
    }
}

impl View for StoreMap {
    type V = Map<Seq<char>, Seq<char>>;

    open spec fn view(&self) -> Map<Seq<char>, Seq<char>> {
        map_of(self.entries@)
    }
}

/// A key is in the map of an entry list exactly when some entry carries it.
pub proof fn lemma_map_of_contains(s: Seq<StoreEntry>, k: Seq<char>)
    ensures
        map_of(s).contains_key(k) <==> exists|i: int| 0 <= i < s.len() && s[i].key@ == k,
    decreases s.len(),
{
    if s.len() > 0 {
        lemma_map_of_contains(s.drop_last(), k);
        if s.last().key@ == k {
            assert(s[s.len() - 1].key@ == k);
        } else if map_of(s.drop_last()).contains_key(k) {
            let i = choose|i: int| 0 <= i < s.drop_last().len() && s.drop_last()[i].key@ == k;
            assert(s[i].key@ == k);
        } else if exists|i: int| 0 <= i < s.len() && s[i].key@ == k {
            let i = choose|i: int| 0 <= i < s.len() && s[i].key@ == k;
            assert(s.drop_last()[i].key@ == k);
        }
    }
}

/// An entry whose key is repeated by no later entry gives the map's value.
pub proof fn lemma_map_of_get(s: Seq<StoreEntry>, i: int)
    requires
        0 <= i < s.len(),
        forall|j: int| i < j < s.len() ==> s[j].key@ != s[i].key@,
    ensures
        map_of(s).contains_key(s[i].key@),
        map_of(s)[s[i].key@] == s[i].value@,
    decreases s.len(),
{
    if i < s.len() - 1 {
        assert(s.drop_last()[i] == s[i]);
        lemma_map_of_get(s.drop_last(), i);
    }
}

impl StoreMap {
    /// Keys are pairwise distinct.
    pub open spec fn wf(self) -> bool {
        forall|i: int, j: int|
            0 <= i < j < self.entries@.len() ==> self.entries@[i].key@ != self.entries@[j].key@
    }

    /// An empty table.
    pub fn new() -> (r: StoreMap)
        ensures
            r.wf(),
            r@ == Map::<Seq<char>, Seq<char>>::empty(),
    {
        StoreMap { entries: Vec::new() }
    }

    /// Retrieves the value stored under `key`, or `None` if there is no
    /// entry with that key.
    pub fn may_load(&self, key: &String) -> (r: Option<String>)
        requires
            self.wf(),
        ensures
            match r {
                Some(v) => self@.contains_key(key@) && v@ == self@[key@],
                None => !self@.contains_key(key@),
            },
    {
        let n: usize = self.entries.len();
        let mut i: usize = 0;
        while i < n
            invariant
                n == self.entries@.len(),
                0 <= i <= n,
                self.wf(),
                self@ == map_of(self.entries@),
                forall|j: int| 0 <= j < i ==> self.entries@[j].key@ != key@,
            decreases n - i,
        {
            if self.entries[i].key == *key {
                proof {
                    lemma_map_of_get(self.entries@, i as int);
                }
                return Some(self.entries[i].value.clone());
            }
            i = i + 1;
        }
        proof {
            lemma_map_of_contains(self.entries@, key@);
        }
        None
    }

    /// Stores `value` under `key`, overwriting any previous entry with
    /// that key (re-registration and reassignment are permitted).
    pub fn save(&mut self, key: &String, value: String)
        requires
            old(self).wf(),
        ensures
            final(self).wf(),
            final(self)@ == old(self)@.insert(key@, value@),
    {
        let n: usize = self.entries.len();
        let mut i: usize = 0;
        while i < n
            invariant
                n == self.entries@.len(),
                0 <= i <= n,
                self == old(self),
                old(self).wf(),
                forall|j: int| 0 <= j < i ==> self.entries@[j].key@ != key@,
            decreases n - i,
        {
            if self.entries[i].key == *key {
                proof {
                    lemma_map_of_remove(self.entries@, i as int);
                }
                self.entries.remove(i);
                proof {
                    assert(forall|a: int, b: int|
                        0 <= a < b < self.entries@.len() ==> self.entries@[a].key@
                            != self.entries@[b].key@);
                    assert(forall|j: int|
                        0 <= j < self.entries@.len() ==> self.entries@[j].key@ != key@);
                    lemma_map_of_contains(self.entries@, key@);
                }
                let ghost s_mid = self.entries@;
                self.entries.push(StoreEntry { key: key.clone(), value });
                proof {
                    assert(self.entries@.drop_last() =~= s_mid);
                    assert(final(self)@ =~= old(self)@.insert(key@, value@));
                }
                return ;
            }
            i = i + 1;
        }
        proof {
            lemma_map_of_contains(self.entries@, key@);
        }
        let ghost s_mid = self.entries@;
        self.entries.push(StoreEntry { key: key.clone(), value });
        proof {
            assert(self.entries@.drop_last() =~= s_mid);
        }
    }

    /// Decides well-formedness at run time, for callers that rebuild a
    /// table from raw storage and must check it before using it.
    pub fn is_well_formed(&self) -> (r: bool)
        ensures
            r == self.wf(),
    {
        let n: usize = self.entries.len();
        let mut i: usize = 0;
        while i < n
            invariant
                n == self.entries@.len(),
                0 <= i <= n,
                forall|a: int, b: int|
                    0 <= a < b < n && a < i ==> self.entries@[a].key@ != self.entries@[b].key@,
            decreases n - i,
        {
            let mut j: usize = i + 1;
            while j < n
                invariant
                    n == self.entries@.len(),
                    0 <= i < j <= n,
                    forall|b: int|
                        i < b < j ==> self.entries@[i as int].key@ != self.entries@[b].key@,
                decreases n - j,
            {
                if self.entries[i].key == self.entries[j].key {
                    return false;
                }
                j = j + 1;
            }
            i = i + 1;
        }
        true
    }

    /// Deletes the entry stored under `key`, if any.
    pub fn remove(&mut self, key: &String)
        requires
            old(self).wf(),
        ensures
            final(self).wf(),
            final(self)@ == old(self)@.remove(key@),
    {
        let n: usize = self.entries.len();
        let mut i: usize = 0;
        while i < n
            invariant
                n == self.entries@.len(),
                0 <= i <= n,
                self == old(self),
                old(self).wf(),
                forall|j: int| 0 <= j < i ==> self.entries@[j].key@ != key@,
            decreases n - i,
        {
            if self.entries[i].key == *key {
                proof {
                    lemma_map_of_remove(self.entries@, i as int);
                }
                self.entries.remove(i);
                return ;
            }
            i = i + 1;
        }
        proof {
            lemma_map_of_contains(self.entries@, key@);
            assert(old(self)@.remove(key@) =~= old(self)@);
        }
    }
}

/// Removing the entry at `i` removes exactly its key from the map, when no
/// other entry repeats that key.
pub proof fn lemma_map_of_remove(s: Seq<StoreEntry>, i: int)
    requires
        0 <= i < s.len(),
        forall|a: int, b: int| 0 <= a < b < s.len() ==> s[a].key@ != s[b].key@,
    ensures
        map_of(s.remove(i)) == map_of(s).remove(s[i].key@),
    decreases s.len(),
{
    let k = s[i].key@;
    if i == s.len() - 1 {
        assert(s.remove(i) =~= s.drop_last());
        lemma_map_of_contains(s.drop_last(), k);
        assert(!map_of(s.drop_last()).contains_key(k));
        assert(map_of(s.drop_last()).insert(k, s[i].value@).remove(k) =~= map_of(s.drop_last()));
    } else {
        lemma_map_of_remove(s.drop_last(), i);
        assert(s.remove(i).drop_last() =~= s.drop_last().remove(i));
        assert(s.remove(i).last() == s.last());
        // map_of(s.remove(i)) == map_of(s.drop_last().remove(i)).insert(last)
        //                     == map_of(s.drop_last()).remove(k).insert(last)
        assert(map_of(s).remove(k) =~= map_of(s.drop_last()).remove(k).insert(
            s.last().key@,
            s.last().value@,
        ));
    }
}

} // verus!
