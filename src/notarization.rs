use vstd::prelude::*;

use crate::details::Details;
use crate::ledger::ledger_timestamp;
use crate::store::{RecordStore, RecordView};
use crate::types::{Digest, Owner};

verus! {

/// The store after `notarize(d, o)` at time `t` on store `m`.
pub open spec fn notarized(m: Map<Seq<u8>, RecordView>, d: Seq<u8>, o: Seq<u8>, t: u64) -> Map<
    Seq<u8>,
    RecordView,
> {
    m.insert(d, (o, t))
}

/// What `verify(d)` reports on store `m`.
pub open spec fn verified(m: Map<Seq<u8>, RecordView>, d: Seq<u8>) -> bool {
    m.contains_key(d)
}

/// What `get_details(d)` reports on store `m`.
pub open spec fn details_of(m: Map<Seq<u8>, RecordView>, d: Seq<u8>) -> Option<RecordView> {
    if m.contains_key(d) {
        Some(m[d])
    } else {
        None
    }
}

/// The notarization registry: a persistent slot that holds the record store
/// once the first notarization has created it.
#[derive(Debug)]
pub struct Notarization {
    records: Option<RecordStore>,
}

impl View for Notarization {
    type V = Map<Seq<u8>, RecordView>;

    /// An absent store is an empty store.
    closed spec fn view(&self) -> Map<Seq<u8>, RecordView> {
        match self.records {
            Some(s) => s@,
            None => Map::empty(),
        }
    }
}

impl Notarization {
    /// Whether the slot holds a store.
    pub closed spec fn initialized(&self) -> bool {
        self.records is Some
    }

    /// A registry whose slot is still empty.
    pub fn new() -> (n: Notarization)
        ensures
            !n.initialized(),
            n@ == Map::<Seq<u8>, RecordView>::empty(),
    {
        Notarization { records: None }
    }

    /// A registry over the contents of a persisted slot.
    pub fn from_slot(records: Option<RecordStore>) -> (n: Notarization)
        ensures
            n.initialized() == records is Some,
            n@ == match records {
                Some(s) => s@,
                None => Map::empty(),
            },
    {
        Notarization { records }
    }

    /// The contents of the slot, for persisting.
    pub fn into_slot(self) -> (r: Option<RecordStore>)
        ensures
            r is Some == self.initialized(),
            r matches Some(s) ==> s@ == self@,
    {
        self.records
    }

    /// Records `owner` and `timestamp` for `digest`, replacing any earlier
    /// record of it; creates the store on first use.
    pub fn notarize(&mut self, digest: Digest, owner: Owner, timestamp: u64)
        ensures
            final(self).initialized(),
            final(self)@ == notarized(old(self)@, digest@, owner@, timestamp),
    {
        let mut store = match self.records.take() {
            Some(s) => s,
            None => RecordStore::new(),
        };
        store.insert(digest, owner, timestamp);
        self.records = Some(store);
    }

    /// Notarizes `digest` for `owner` at the current ledger time, and returns
    /// that time.
    pub fn notarize_now(&mut self, env: &soroban_sdk::Env, digest: Digest, owner: Owner) -> (t: u64)
        ensures
            final(self).initialized(),
            final(self)@ == notarized(old(self)@, digest@, owner@, t),
    {
        let t = ledger_timestamp(env);
        self.notarize(digest, owner, t);
        t
    }

    /// Whether `digest` has a record.
    pub fn verify(&self, digest: &Digest) -> (r: bool)
        ensures
            r == verified(self@, digest@),
    {
        match &self.records {
            Some(s) => s.contains(digest),
            None => false,
        }
    }

    /// The owner and timestamp recorded for `digest`, or `NotFound`.
    pub fn get_details(&self, digest: &Digest) -> (r: Details)
        ensures
            r@ == details_of(self@, digest@),
    {
        match &self.records {
            Some(s) => match s.lookup(digest) {
                Some(p) => Details::Found { owner: p.0, timestamp: p.1 },
                None => Details::NotFound,
            },
            None => Details::NotFound,
        }
    }
}

} // verus!
