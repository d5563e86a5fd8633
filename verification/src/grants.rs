//! Small ordered containers backing the projected aggregate state: a map
//! from journal id to tenant grant, and a set of journal ids.  Both keep
//! their entries in insertion order, so listings derived from a projection
//! are deterministic.

use vstd::prelude::*;

use crate::journal::JournalTenantInfo;

verus! {

/// One (journal id, grant) entry of a [`GrantMap`].
#[derive(Clone, Copy, Debug, PartialEq, Eq, Structural)]
pub struct GrantEntry {
    pub journal: u128,
    pub info: JournalTenantInfo,
}

/// Index of the first entry for `j`, or -1 if there is none.
pub open spec fn grant_index_of(s: Seq<GrantEntry>, j: u128) -> int
    decreases s.len(),
{
    if s.len() == 0 {
        -1
    } else if s[0].journal == j {
        0
    } else {
        let rest = grant_index_of(s.drop_first(), j);
        if rest < 0 {
            -1
        } else {
            rest + 1
        }
    }
}

/// Some entry of `s` is keyed by `j`.
pub open spec fn grant_has(s: Seq<GrantEntry>, j: u128) -> bool {
    grant_index_of(s, j) >= 0
}

/// The grant of the first entry keyed by `j`.
pub open spec fn grant_get(s: Seq<GrantEntry>, j: u128) -> JournalTenantInfo {
    s[grant_index_of(s, j)].info
}

/// Map-style insert on the entry sequence: overwrite in place if the key
/// is present, else append.
pub open spec fn grant_seq_insert(s: Seq<GrantEntry>, j: u128, info: JournalTenantInfo) -> Seq<
    GrantEntry,
> {
    if grant_has(s, j) {
        s.update(grant_index_of(s, j), GrantEntry { journal: j, info })
    } else {
        s.push(GrantEntry { journal: j, info })
    }
}

/// Map-style remove on the entry sequence: drop the first entry for the
/// key if present.
pub open spec fn grant_seq_remove(s: Seq<GrantEntry>, j: u128) -> Seq<GrantEntry> {
    if grant_has(s, j) {
        s.remove(grant_index_of(s, j))
    } else {
        s
    }
}

/// `grant_index_of` finds exactly the first entry keyed by `j`.
pub proof fn lemma_grant_index_of(s: Seq<GrantEntry>, j: u128)
    ensures
        grant_index_of(s, j) >= 0 ==> {
            &&& grant_index_of(s, j) < s.len()
            &&& s[grant_index_of(s, j)].journal == j
            &&& forall|k: int| 0 <= k < grant_index_of(s, j) ==> s[k].journal != j
        },
        grant_index_of(s, j) < 0 ==> grant_index_of(s, j) == -1 && forall|k: int|
            0 <= k < s.len() ==> s[k].journal != j,
    decreases s.len(),
{
    if s.len() > 0 && s[0].journal != j {
        let rest = s.drop_first();
        lemma_grant_index_of(rest, j);
        let r = grant_index_of(rest, j);
        if r >= 0 {
            assert(s[r + 1] == rest[r]);
            assert forall|k: int| 0 <= k < r + 1 implies s[k].journal != j by {
                if k > 0 {
                    assert(rest[k - 1] == s[k]);
                }
            }
        } else {
            assert forall|k: int| 0 <= k < s.len() implies s[k].journal != j by {
                if k > 0 {
                    assert(rest[k - 1] == s[k]);
                }
            }
        }
    }
}

/// If `s[i]` is the first entry keyed by `j`, then `grant_index_of` is `i`.
pub proof fn lemma_grant_index_first(s: Seq<GrantEntry>, j: u128, i: int)
    requires
        0 <= i < s.len(),
        s[i].journal == j,
        forall|k: int| 0 <= k < i ==> s[k].journal != j,
    ensures
        grant_index_of(s, j) == i,
    decreases s.len(),
{
    if i > 0 {
        let rest = s.drop_first();
        assert(rest[i - 1] == s[i]);
        assert forall|k: int| 0 <= k < i - 1 implies rest[k].journal != j by {
            assert(rest[k] == s[k + 1]);
        }
        lemma_grant_index_first(rest, j, i - 1);
    }
}

/// Distinct keys, as [`GrantMap::wf`] demands of its entry sequence.
pub open spec fn grant_keys_distinct(s: Seq<GrantEntry>) -> bool {
    forall|i: int, k: int| 0 <= i < k < s.len() ==> s[i].journal != s[k].journal
}

/// What a map-style insert does to key membership.
pub proof fn lemma_grant_insert_has(s: Seq<GrantEntry>, j: u128, info: JournalTenantInfo, k: u128)
    ensures
        grant_has(grant_seq_insert(s, j, info), k) == (k == j || grant_has(s, k)),
{
    lemma_grant_index_of(s, j);
    let s1 = grant_seq_insert(s, j, info);
    lemma_grant_index_of(s1, k);
    lemma_grant_index_of(s, k);
    if grant_has(s1, k) {
        let i = grant_index_of(s1, k);
        if k != j {
            assert(s[i].journal == k);
            lemma_grant_index_first(s, k, grant_index_of(s, k));
        }
    } else {
        if k == j {
            if grant_has(s, j) {
                assert(s1[grant_index_of(s, j)].journal == j);
            } else {
                assert(s1[s.len() as int].journal == j);
            }
        } else if grant_has(s, k) {
            let i = grant_index_of(s, k);
            assert(s1[i].journal == k);
        }
    }
}

/// What a map-style insert preserves: key distinctness.
pub proof fn lemma_grant_insert_wf(s: Seq<GrantEntry>, j: u128, info: JournalTenantInfo)
    requires
        grant_keys_distinct(s),
    ensures
        grant_keys_distinct(grant_seq_insert(s, j, info)),
{
    lemma_grant_index_of(s, j);
}

/// What a map-style remove does to key membership, under distinct keys.
pub proof fn lemma_grant_remove_has(s: Seq<GrantEntry>, j: u128, k: u128)
    requires
        grant_keys_distinct(s),
    ensures
        grant_has(grant_seq_remove(s, j), k) == (grant_has(s, k) && k != j),
{
    lemma_grant_index_of(s, j);
    let s1 = grant_seq_remove(s, j);
    lemma_grant_index_of(s1, k);
    lemma_grant_index_of(s, k);
    if !grant_has(s, j) {
        return ;
    }
    let rj = grant_index_of(s, j);
    assert(forall|i: int|
        0 <= i < s1.len() ==> s1[i] == (if i < rj {
            s[i]
        } else {
            s[i + 1]
        }));
    if grant_has(s1, k) {
        let i = grant_index_of(s1, k);
        if i < rj {
            assert(s[i].journal == k);
        } else {
            assert(s[i + 1].journal == k);
        }
        if k == j {
            assert(false);
        }
    } else {
        if grant_has(s, k) && k != j {
            let i = grant_index_of(s, k);
            if i < rj {
                assert(s1[i].journal == k);
            } else {
                assert(i != rj);
                assert(s1[i - 1].journal == k);
            }
        }
    }
}

/// What a map-style remove preserves: key distinctness.
pub proof fn lemma_grant_remove_wf(s: Seq<GrantEntry>, j: u128)
    requires
        grant_keys_distinct(s),
    ensures
        grant_keys_distinct(grant_seq_remove(s, j)),
{
    lemma_grant_index_of(s, j);
    if grant_has(s, j) {
        let rj = grant_index_of(s, j);
        let s1 = s.remove(rj);
        assert(forall|i: int|
            0 <= i < s1.len() ==> s1[i] == (if i < rj {
                s[i]
            } else {
                s[i + 1]
            }));
    }
}

/// Map from journal id to tenant grant, with distinct keys, kept in
/// insertion order.
#[derive(Debug)]
pub struct GrantMap {
    entries: Vec<GrantEntry>,
}

impl View for GrantMap {
    type V = Seq<GrantEntry>;

    closed spec fn view(&self) -> Seq<GrantEntry> {
        self.entries@
    }
}

impl GrantMap {
    /// Keys are pairwise distinct.
    pub open spec fn wf(&self) -> bool {
        grant_keys_distinct(self@)
    }

    pub fn new() -> (r: GrantMap)
        ensures
            r.wf(),
            r@ == Seq::<GrantEntry>::empty(),
    {
        GrantMap { entries: Vec::new() }
    }

    pub fn len(&self) -> (r: usize)
        ensures
            r == self@.len(),
    {
        self.entries.len()
    }

    /// Position of the entry for `j`, if any.
    fn index_of(&self, j: u128) -> (r: Option<usize>)
        ensures
            r matches Some(i) ==> grant_index_of(self@, j) == i as int,
            r is None ==> grant_index_of(self@, j) == -1,
    {
        let n = self.entries.len();
        let mut i: usize = 0;
        while i < n
            invariant
                n == self@.len(),
                i <= n,
                forall|k: int| 0 <= k < i ==> self@[k].journal != j,
            decreases n - i,
        {
            if self.entries[i].journal == j {
                proof {
                    lemma_grant_index_first(self@, j, i as int);
                }
                return Some(i);
            }
            i += 1;
        }
        proof {
            lemma_grant_index_of(self@, j);
        }
        None
    }

    pub fn contains_key(&self, j: u128) -> (r: bool)
        ensures
            r == grant_has(self@, j),
    {
        self.index_of(j).is_some()
    }

    pub fn get(&self, j: u128) -> (r: Option<JournalTenantInfo>)
        ensures
            grant_has(self@, j) ==> r == Some(grant_get(self@, j)),
            !grant_has(self@, j) ==> r is None,
    {
        match self.index_of(j) {
            Some(i) => {
                proof {
                    lemma_grant_index_of(self@, j);
                }
                Some(self.entries[i].info)
            },
            None => None,
        }
    }

    /// Insert or overwrite the grant for `j` (last write wins).
    pub fn insert(&mut self, j: u128, info: JournalTenantInfo)
        requires
            old(self).wf(),
        ensures
            final(self).wf(),
            final(self)@ == grant_seq_insert(old(self)@, j, info),
    {
        let entry = GrantEntry { journal: j, info };
        match self.index_of(j) {
            Some(i) => {
                proof {
                    lemma_grant_index_of(self@, j);
                }
                self.entries[i] = entry;
            },
            None => {
                self.entries.push(entry);
                proof {
                    lemma_grant_index_of(old(self)@, j);
                }
            },
        }
    }

    /// Remove the entry for `j`, handing back its grant if it was present.
    pub fn remove(&mut self, j: u128) -> (r: Option<JournalTenantInfo>)
        requires
            old(self).wf(),
        ensures
            final(self).wf(),
            final(self)@ == grant_seq_remove(old(self)@, j),
            grant_has(old(self)@, j) ==> r == Some(grant_get(old(self)@, j)),
            !grant_has(old(self)@, j) ==> r is None,
    {
        match self.index_of(j) {
            Some(i) => {
                proof {
                    lemma_grant_index_of(self@, j);
                }
                let e = self.entries.remove(i);
                Some(e.info)
            },
            None => None,
        }
    }

    /// The entries, in insertion order.
    pub fn entries(&self) -> (r: &Vec<GrantEntry>)
        ensures
            r@ == self@,
    {
        &self.entries
    }
}

/// Index of the first occurrence of `j`, or -1.
pub open spec fn id_index_of(s: Seq<u128>, j: u128) -> int
    decreases s.len(),
{
    if s.len() == 0 {
        -1
    } else if s[0] == j {
        0
    } else {
        let rest = id_index_of(s.drop_first(), j);
        if rest < 0 {
            -1
        } else {
            rest + 1
        }
    }
}

/// Some element of `s` equals `j`.
pub open spec fn id_has(s: Seq<u128>, j: u128) -> bool {
    id_index_of(s, j) >= 0
}

/// Set-style insert: append only if absent.
pub open spec fn id_seq_insert(s: Seq<u128>, j: u128) -> Seq<u128> {
    if id_has(s, j) {
        s
    } else {
        s.push(j)
    }
}

/// `id_index_of` finds exactly the first occurrence of `j`.
pub proof fn lemma_id_index_of(s: Seq<u128>, j: u128)
    ensures
        id_index_of(s, j) >= 0 ==> {
            &&& id_index_of(s, j) < s.len()
            &&& s[id_index_of(s, j)] == j
            &&& forall|k: int| 0 <= k < id_index_of(s, j) ==> s[k] != j
        },
        id_index_of(s, j) < 0 ==> id_index_of(s, j) == -1 && forall|k: int|
            0 <= k < s.len() ==> s[k] != j,
    decreases s.len(),
{
    if s.len() > 0 && s[0] != j {
        let rest = s.drop_first();
        lemma_id_index_of(rest, j);
        let r = id_index_of(rest, j);
        if r >= 0 {
            assert(s[r + 1] == rest[r]);
            assert forall|k: int| 0 <= k < r + 1 implies s[k] != j by {
                if k > 0 {
                    assert(rest[k - 1] == s[k]);
                }
            }
        } else {
            assert forall|k: int| 0 <= k < s.len() implies s[k] != j by {
                if k > 0 {
                    assert(rest[k - 1] == s[k]);
                }
            }
        }
    }
}

/// If `s[i]` is the first occurrence of `j`, then `id_index_of` is `i`.
pub proof fn lemma_id_index_first(s: Seq<u128>, j: u128, i: int)
    requires
        0 <= i < s.len(),
        s[i] == j,
        forall|k: int| 0 <= k < i ==> s[k] != j,
    ensures
        id_index_of(s, j) == i,
    decreases s.len(),
{
    if i > 0 {
        let rest = s.drop_first();
        assert(rest[i - 1] == s[i]);
        assert forall|k: int| 0 <= k < i - 1 implies rest[k] != j by {
            assert(rest[k] == s[k + 1]);
        }
        lemma_id_index_first(rest, j, i - 1);
    }
}

/// Set of journal ids, with distinct elements, kept in insertion order.
#[derive(Debug)]
pub struct IdSet {
    ids: Vec<u128>,
}

impl View for IdSet {
    type V = Seq<u128>;

    closed spec fn view(&self) -> Seq<u128> {
        self.ids@
    }
}

impl IdSet {
    /// Elements are pairwise distinct.
    pub open spec fn wf(&self) -> bool {
        forall|i: int, k: int| 0 <= i < k < self@.len() ==> self@[i] != self@[k]
    }

    pub fn new() -> (r: IdSet)
        ensures
            r.wf(),
            r@ == Seq::<u128>::empty(),
    {
        IdSet { ids: Vec::new() }
    }

    pub fn len(&self) -> (r: usize)
        ensures
            r == self@.len(),
    {
        self.ids.len()
    }

    pub fn contains(&self, j: u128) -> (r: bool)
        ensures
            r == id_has(self@, j),
    {
        let n = self.ids.len();
        let mut i: usize = 0;
        while i < n
            invariant
                n == self@.len(),
                i <= n,
                forall|k: int| 0 <= k < i ==> self@[k] != j,
            decreases n - i,
        {
            if self.ids[i] == j {
                proof {
                    lemma_id_index_first(self@, j, i as int);
                }
                return true;
            }
            i += 1;
        }
        proof {
            lemma_id_index_of(self@, j);
        }
        false
    }

    /// Insert `j` if it is not already present.
    pub fn insert(&mut self, j: u128)
        requires
            old(self).wf(),
        ensures
            final(self).wf(),
            final(self)@ == id_seq_insert(old(self)@, j),
    {
        if !self.contains(j) {
            proof {
                lemma_id_index_of(self@, j);
            }
            self.ids.push(j);
        }
    }

    /// The elements, in insertion order.
    pub fn elements(&self) -> (r: &Vec<u128>)
        ensures
            r@ == self@,
    {
        &self.ids
    }
}

} // verus!
