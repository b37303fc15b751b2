//! A map keyed by 16-byte identifiers, kept as a list of entries whose keys
//! are pairwise distinct.

use vstd::prelude::*;

verus! {

broadcast use vstd::array::group_array_axioms;

/// The map that a list of entries stands for: a later entry overrides an
/// earlier one with the same key.
pub open spec fn entries_map<V>(s: Seq<([u8; 16], V)>) -> Map<[u8; 16], V>
    decreases s.len(),
{
    if s.len() == 0 {
        Map::empty()
    } else {
        entries_map(s.drop_last()).insert(s.last().0, s.last().1)
    }
}

/// No two entries share a key.
pub open spec fn keys_distinct<V>(s: Seq<([u8; 16], V)>) -> bool {
    forall|i: int, j: int| 0 <= i < j < s.len() ==> s[i].0 != s[j].0
}

proof fn lemma_entries_map_contains<V>(s: Seq<([u8; 16], V)>, k: [u8; 16])
    ensures
        entries_map(s).contains_key(k) <==> exists|i: int| 0 <= i < s.len() && s[i].0 == k,
    decreases s.len(),
{
    if s.len() > 0 {
        lemma_entries_map_contains(s.drop_last(), k);
        if entries_map(s.drop_last()).contains_key(k) {
            let i = choose|i: int| 0 <= i < s.drop_last().len() && s.drop_last()[i].0 == k;
            assert(s[i].0 == k);
        }
        if exists|i: int| 0 <= i < s.len() && s[i].0 == k {
            let i = choose|i: int| 0 <= i < s.len() && s[i].0 == k;
            if i < s.len() - 1 {
                assert(s.drop_last()[i].0 == k);
            }
        }
    }
}

proof fn lemma_entries_map_index<V>(s: Seq<([u8; 16], V)>, i: int)
    requires
        keys_distinct(s),
        0 <= i < s.len(),
    ensures
        entries_map(s).contains_key(s[i].0),
        entries_map(s)[s[i].0] == s[i].1,
    decreases s.len(),
{
    if i < s.len() - 1 {
        lemma_entries_map_index(s.drop_last(), i);
        assert(s.drop_last()[i] == s[i]);
    }
}

proof fn lemma_entries_map_update<V>(s: Seq<([u8; 16], V)>, i: int, v: V)
    requires
        keys_distinct(s),
        0 <= i < s.len(),
    ensures
        entries_map(s.update(i, (s[i].0, v))) =~= entries_map(s).insert(s[i].0, v),
    decreases s.len(),
{
    let k = s[i].0;
    let t = s.update(i, (k, v));
    if i == s.len() - 1 {
        assert(t.drop_last() =~= s.drop_last());
    } else {
        assert(t.drop_last() =~= s.drop_last().update(i, (k, v)));
        lemma_entries_map_update(s.drop_last(), i, v);
        assert(s.last().0 != k);
    }
}

/// A map from 16-byte identifiers to values.
pub struct IdMap<V> {
    entries: Vec<([u8; 16], V)>,
}

impl<V> View for IdMap<V> {
    type V = Map<[u8; 16], V>;

    closed spec fn view(&self) -> Map<[u8; 16], V> {
        entries_map(self.entries@)
    }
}

/// Whether two identifiers are equal, byte by byte.
pub fn id_eq(a: &[u8; 16], b: &[u8; 16]) -> (res: bool)
    ensures
        res <==> *a == *b,
{
    let mut i: usize = 0;
    while i < 16
        invariant
            i <= 16,
            forall|j: int| 0 <= j < i ==> a@[j] == b@[j],
        decreases 16 - i,
    {
        if a[i] != b[i] {
            return false;
        }
        i = i + 1;
    }
    assert(*a =~= *b);
    true
}

impl<V> IdMap<V> {
    /// The entries' keys are pairwise distinct.
    pub closed spec fn wf(&self) -> bool {
        keys_distinct(self.entries@)
    }

    /// An empty map.
    pub fn new() -> (m: Self)
        ensures
            m.wf(),
            m@ == Map::<[u8; 16], V>::empty(),
    {
        IdMap { entries: Vec::new() }
    }

    /// The position of the entry with key `id`, if there is one.
    fn find(&self, id: &[u8; 16]) -> (res: Option<usize>)
        requires
            self.wf(),
        ensures
            match res {
                Some(i) => i < self.entries@.len() && self.entries@[i as int].0 == *id,
                None => !self@.contains_key(*id),
            },
    {
        let mut i: usize = 0;
        while i < self.entries.len()
            invariant
                i <= self.entries@.len(),
                forall|j: int| 0 <= j < i ==> self.entries@[j].0 != *id,
            decreases self.entries@.len() - i,
        {
            if id_eq(&self.entries[i].0, id) {
                return Some(i);
            }
            i = i + 1;
        }
        proof {
            lemma_entries_map_contains(self.entries@, *id);
        }
        None
    }

    /// The value stored under `id`.
    pub fn get(&self, id: &[u8; 16]) -> (res: Option<&V>)
        requires
            self.wf(),
        ensures
            match res {
                Some(v) => self@.contains_key(*id) && self@[*id] == *v,
                None => !self@.contains_key(*id),
            },
    {
        match self.find(id) {
            Some(i) => {
                proof {
                    lemma_entries_map_index(self.entries@, i as int);
                }
                Some(&self.entries[i].1)
            },
            None => None,
        }
    }

    /// Whether a value is stored under `id`.
    pub fn contains_key(&self, id: &[u8; 16]) -> (res: bool)
        requires
            self.wf(),
        ensures
            res == self@.contains_key(*id),
    {
        match self.find(id) {
            Some(i) => {
                proof {
                    lemma_entries_map_index(self.entries@, i as int);
                }
                true
            },
            None => false,
        }
    }

    /// Stores `v` under `id`, replacing the value stored there before.
    pub fn insert(&mut self, id: [u8; 16], v: V)
        requires
            old(self).wf(),
        ensures
            final(self).wf(),
            final(self)@ == old(self)@.insert(id, v),
    {
        match self.find(&id) {
            Some(i) => {
                proof {
                    lemma_entries_map_update(self.entries@, i as int, v);
                }
                self.entries.set(i, (id, v));
            },
            None => {
                proof {
                    lemma_entries_map_contains(self.entries@, id);
                }
                self.entries.push((id, v));
                proof {
                    assert(self.entries@.drop_last() =~= old(self).entries@);
                }
            },
        }
    }

    /// The number of identifiers with a stored value.
    pub fn len(&self) -> (n: usize)
        requires
            self.wf(),
        ensures
            n == self@.len(),
    {
        proof {
            lemma_entries_map_len(self.entries@);
        }
        self.entries.len()
    }
}

proof fn lemma_entries_map_len<V>(s: Seq<([u8; 16], V)>)
    requires
        keys_distinct(s),
    ensures
        entries_map(s).dom().finite(),
        entries_map(s).len() == s.len(),
    decreases s.len(),
{
    if s.len() > 0 {
        let t = s.drop_last();
        assert(keys_distinct(t));
        lemma_entries_map_len(t);
        lemma_entries_map_contains(t, s.last().0);
        assert(!entries_map(t).contains_key(s.last().0));
    }
}

} // verus!
