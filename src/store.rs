use vstd::prelude::*;

use crate::types::{Digest, Owner};

verus! {

/// What a digest maps to in the abstract store: the owner's identifier and the
/// time of notarization.
pub type RecordView = (Seq<u8>, u64);

/// One digest with its record.
#[derive(Debug)]
struct Entry {
    digest: Digest,
    owner: Owner,
    timestamp: u64,
}

impl Entry {
    spec fn record(&self) -> RecordView {
        (self.owner@, self.timestamp)
    }
}

/// The map that a sequence of entries denotes; a later entry for a digest
/// takes precedence over an earlier one.
spec fn entries_map(s: Seq<Entry>) -> Map<Seq<u8>, RecordView>
    decreases s.len(),
{
    if s.len() == 0 {
        Map::empty()
    } else {
        entries_map(s.drop_last()).insert(s.last().digest@, s.last().record())
    }
}

/// No two entries share a digest.
spec fn keys_unique(s: Seq<Entry>) -> bool {
    forall|i: int, j: int| 0 <= i < j < s.len() ==> s[i].digest@ != s[j].digest@
}

proof fn lemma_entry_in_map(s: Seq<Entry>, i: int)
    requires
        keys_unique(s),
        0 <= i < s.len(),
    ensures
        entries_map(s).contains_key(s[i].digest@),
        entries_map(s)[s[i].digest@] == s[i].record(),
    decreases s.len(),
{
    if i < s.len() - 1 {
        let p = s.drop_last();
        assert(p[i] == s[i]);
        assert(keys_unique(p));
        lemma_entry_in_map(p, i);
        assert(s.last().digest@ != s[i].digest@);
    }
}

proof fn lemma_absent_from_map(s: Seq<Entry>, k: Seq<u8>)
    requires
        forall|i: int| 0 <= i < s.len() ==> s[i].digest@ != k,
    ensures
        !entries_map(s).contains_key(k),
    decreases s.len(),
{
    if s.len() > 0 {
        let p = s.drop_last();
        assert forall|i: int| 0 <= i < p.len() implies p[i].digest@ != k by {
            assert(p[i] == s[i]);
        }
        lemma_absent_from_map(p, k);
        assert(s.last() == s[s.len() - 1]);
    }
}

proof fn lemma_map_keys_at_indices(s: Seq<Entry>, k: Seq<u8>)
    requires
        entries_map(s).contains_key(k),
    ensures
        exists|i: int| 0 <= i < s.len() && s[i].digest@ == k,
{
    if !(exists|i: int| 0 <= i < s.len() && s[i].digest@ == k) {
        lemma_absent_from_map(s, k);
    }
}

proof fn lemma_update_entry(s: Seq<Entry>, i: int, e: Entry)
    requires
        0 <= i < s.len(),
        s[i].digest@ == e.digest@,
        keys_unique(s),
    ensures
        entries_map(s.update(i, e)) == entries_map(s).insert(e.digest@, e.record()),
    decreases s.len(),
{
    let u = s.update(i, e);
    let p = s.drop_last();
    if i == s.len() - 1 {
        assert(u.drop_last() =~= p);
        assert(entries_map(u) =~= entries_map(s).insert(e.digest@, e.record()));
    } else {
        assert(u.drop_last() =~= p.update(i, e));
        assert(keys_unique(p));
        assert(p[i] == s[i]);
        lemma_update_entry(p, i, e);
        assert(s.last().digest@ != s[i].digest@);
        assert(u.last() == s.last());
        assert(entries_map(u) =~= entries_map(s).insert(e.digest@, e.record()));
    }
}

/// Position of the entry for `d` in `entries`, if there is one.
fn find(entries: &Vec<Entry>, d: &Digest) -> (r: Option<usize>)
    ensures
        match r {
            Some(i) => i < entries@.len() && entries@[i as int].digest@ == d@,
            None => forall|i: int| 0 <= i < entries@.len() ==> entries@[i].digest@ != d@,
        },
{
    let mut i: usize = 0;
    while i < entries.len()
        invariant
            i <= entries@.len(),
            forall|j: int| 0 <= j < i ==> entries@[j].digest@ != d@,
        decreases entries@.len() - i,
    {
        if entries[i].digest.same_as(d) {
            return Some(i);
        }
        i = i + 1;
    }
    None
}

/// The mapping from digests to records, one record per digest.
#[derive(Debug)]
pub struct RecordStore {
    entries: Vec<Entry>,
}

impl View for RecordStore {
    type V = Map<Seq<u8>, RecordView>;

    closed spec fn view(&self) -> Map<Seq<u8>, RecordView> {
        entries_map(self.entries@)
    }
}

impl RecordStore {
    /// The store's internal invariant: each digest occurs in one entry at most.
    #[verifier::type_invariant]
    spec fn wf(&self) -> bool {
        keys_unique(self.entries@)
    }

    /// Number of records held.
    pub closed spec fn size(&self) -> nat {
        self.entries@.len()
    }

    /// The digest of the record at position `i`.
    pub closed spec fn key_at(&self, i: int) -> Seq<u8> {
        self.entries@[i].digest@
    }

    /// An empty store.
    pub fn new() -> (s: RecordStore)
        ensures
            s@ == Map::<Seq<u8>, RecordView>::empty(),
            s.size() == 0,
    {
        RecordStore { entries: Vec::new() }
    }

    /// Number of records held. The digests at the positions `0..n` are
    /// distinct and are exactly the keys of the store.
    pub fn len(&self) -> (n: usize)
        ensures
            n == self.size(),
            forall|i: int, j: int| 0 <= i < j < n ==> self.key_at(i) != self.key_at(j),
            forall|k: Seq<u8>|
                self@.contains_key(k) <==> exists|i: int| 0 <= i < n && self.key_at(i) == k,
    {
        proof {
            use_type_invariant(self);
            assert forall|k: Seq<u8>|
                self@.contains_key(k) <==> exists|i: int| 0 <= i < self.size() && self.key_at(i) == k by {
                if self@.contains_key(k) {
                    lemma_map_keys_at_indices(self.entries@, k);
                    let i = choose|i: int| 0 <= i < self.entries@.len() && self.entries@[i].digest@ == k;
                    assert(self.key_at(i) == k);
                }
                if exists|i: int| 0 <= i < self.size() && self.key_at(i) == k {
                    let i = choose|i: int| 0 <= i < self.size() && self.key_at(i) == k;
                    lemma_entry_in_map(self.entries@, i);
                }
            }
        }
        self.entries.len()
    }

    /// Whether `d` has a record.
    pub fn contains(&self, d: &Digest) -> (r: bool)
        ensures
            r == self@.contains_key(d@),
    {
        proof {
            use_type_invariant(self);
        }
        match find(&self.entries, d) {
            Some(i) => {
                proof {
                    lemma_entry_in_map(self.entries@, i as int);
                }
                true
            },
            None => {
                proof {
                    lemma_absent_from_map(self.entries@, d@);
                }
                false
            },
        }
    }

    /// The owner and timestamp recorded for `d`, if any.
    pub fn lookup(&self, d: &Digest) -> (r: Option<(Owner, u64)>)
        ensures
            match r {
                Some(p) => self@.contains_key(d@) && self@[d@] == (p.0@, p.1),
                None => !self@.contains_key(d@),
            },
    {
        proof {
            use_type_invariant(self);
        }
        match find(&self.entries, d) {
            Some(i) => {
                proof {
                    lemma_entry_in_map(self.entries@, i as int);
                }
                let e = &self.entries[i];
                Some((e.owner.duplicate(), e.timestamp))
            },
            None => {
                proof {
                    lemma_absent_from_map(self.entries@, d@);
                }
                None
            },
        }
    }

    /// The record at position `i`, with its digest.
    pub fn entry(&self, i: usize) -> (r: (Digest, Owner, u64))
        requires
            i < self.size(),
        ensures
            r.0@ == self.key_at(i as int),
            self@.contains_key(r.0@),
            self@[r.0@] == (r.1@, r.2),
    {
        proof {
            use_type_invariant(self);
            lemma_entry_in_map(self.entries@, i as int);
        }
        let e = &self.entries[i];
        (e.digest, e.owner.duplicate(), e.timestamp)
    }

    /// Sets the record of `d` to `(owner, timestamp)`, replacing any earlier one.
    pub fn insert(&mut self, d: Digest, owner: Owner, timestamp: u64)
        ensures
            final(self)@ == old(self)@.insert(d@, (owner@, timestamp)),
    {
        proof {
            use_type_invariant(&*self);
        }
        let mut entries: Vec<Entry> = Vec::new();
        std::mem::swap(&mut entries, &mut self.entries);
        let ghost before = entries@;
        let e = Entry { digest: d, owner, timestamp };
        match find(&entries, &d) {
            Some(i) => {
                proof {
                    lemma_update_entry(entries@, i as int, e);
                }
                entries.set(i, e);
                assert(keys_unique(entries@));
            },
            None => {
                entries.push(e);
                assert(entries@.drop_last() =~= before);
                assert(keys_unique(entries@));
            },
        }
        self.entries = entries;
    }
}

} // verus!
