use vstd::prelude::*;

use crate::details::{encoding, FieldView, FOUND_FLAG, NOT_FOUND_FLAG};
use crate::notarization::{details_of, notarized, verified};
use crate::store::RecordView;

verus! {

/// One notarization call: digest, owner and the time it was made at.
pub type Notarize = (Seq<u8>, Seq<u8>, u64);

/// The store that a run of notarizations builds from an empty store.
pub open spec fn replay(h: Seq<Notarize>) -> Map<Seq<u8>, RecordView>
    decreases h.len(),
{
    if h.len() == 0 {
        Map::empty()
    } else {
        notarized(replay(h.drop_last()), h.last().0, h.last().1, h.last().2)
    }
}

/// After `d` is notarized, `verify(d)` reports it, whatever the store held.
pub proof fn lemma_notarize_then_verify(m: Map<Seq<u8>, RecordView>, d: Seq<u8>, o: Seq<u8>, t: u64)
    ensures
        verified(notarized(m, d, o, t), d),
{
}

/// A digest that no notarization in a run named is not reported by `verify`;
/// this covers the empty store, where the run is empty.
pub proof fn lemma_never_notarized(h: Seq<Notarize>, d: Seq<u8>)
    requires
        forall|i: int| 0 <= i < h.len() ==> h[i].0 != d,
    ensures
        !verified(replay(h), d),
    decreases h.len(),
{
    if h.len() > 0 {
        let p = h.drop_last();
        assert forall|i: int| 0 <= i < p.len() implies p[i].0 != d by {
            assert(p[i] == h[i]);
        }
        lemma_never_notarized(p, d);
        assert(h.last() == h[h.len() - 1]);
    }
}

/// Notarizing `d` twice leaves one record for it, the second: the store is
/// what the second call alone would have made, it holds no more digests than
/// after the first call, and its details are the second owner and time.
pub proof fn lemma_overwrite(
    m: Map<Seq<u8>, RecordView>,
    d: Seq<u8>,
    o1: Seq<u8>,
    t1: u64,
    o2: Seq<u8>,
    t2: u64,
)
    ensures
        notarized(notarized(m, d, o1, t1), d, o2, t2) == notarized(m, d, o2, t2),
        notarized(notarized(m, d, o1, t1), d, o2, t2).dom() == notarized(m, d, o1, t1).dom(),
        details_of(notarized(notarized(m, d, o1, t1), d, o2, t2), d) == Some((o2, t2)),
{
    assert(notarized(notarized(m, d, o1, t1), d, o2, t2) =~= notarized(m, d, o2, t2));
    assert(notarized(notarized(m, d, o1, t1), d, o2, t2).dom() =~= notarized(m, d, o1, t1).dom());
}

/// Notarizing `d1` changes neither what `verify` nor what `get_details`
/// reports for any other digest.
pub proof fn lemma_isolation(
    m: Map<Seq<u8>, RecordView>,
    d1: Seq<u8>,
    o: Seq<u8>,
    t: u64,
    d2: Seq<u8>,
)
    requires
        d1 != d2,
    ensures
        verified(notarized(m, d1, o, t), d2) == verified(m, d2),
        details_of(notarized(m, d1, o, t), d2) == details_of(m, d2),
{
}

/// The details of a digest without a record encode as `[0]`; those of a
/// digest just notarized as `[1, owner, timestamp]` of that call.
pub proof fn lemma_detail_shape(m: Map<Seq<u8>, RecordView>, d: Seq<u8>, o: Seq<u8>, t: u64)
    ensures
        !verified(m, d) ==> encoding(details_of(m, d)) == seq![FieldView::Flag(NOT_FOUND_FLAG)],
        !verified(m, d) ==> encoding(details_of(m, d)).len() == 1,
        encoding(details_of(notarized(m, d, o, t), d)) == seq![
            FieldView::Flag(FOUND_FLAG),
            FieldView::Owner(o),
            FieldView::Timestamp(t),
        ],
{
}

} // verus!
