use notarization::details::{FOUND_FLAG, NOT_FOUND_FLAG};
use notarization::{Details, Digest, Field, Notarization, Owner, RecordStore};

fn owner(tag: u8) -> Owner {
    Owner::new(vec![b'G', tag, tag, tag])
}

fn digest(byte: u8) -> Digest {
    Digest::new([byte; 32])
}

#[test]
fn lib_test_notarize_and_verify() {
    let mut n = Notarization::new();
    let file_hash = digest(7);
    n.notarize(file_hash, owner(1), 100);
    assert!(n.verify(&file_hash));

    let other = digest(1);
    assert!(!n.verify(&other));
}

#[test]
fn test_test_notarize_and_verify() {
    let mut n = Notarization::new();
    let file_hash = digest(1);
    n.notarize(file_hash, owner(1), 100);
    let result = n.verify(&file_hash);
    assert!(result);
}

#[test]
fn scenario_notarize_then_query() {
    let mut n = Notarization::new();
    n.notarize(digest(7), owner(b'A'), 1234);
    assert!(n.verify(&digest(7)));
    assert!(!n.verify(&digest(1)));
    assert_eq!(
        n.get_details(&digest(7)),
        Details::Found { owner: owner(b'A'), timestamp: 1234 }
    );
    assert_eq!(n.get_details(&digest(1)), Details::NotFound);
    assert_eq!(
        n.get_details(&digest(7)).to_fields(),
        vec![Field::Flag(1), Field::Owner(owner(b'A')), Field::Timestamp(1234)]
    );
    assert_eq!(n.get_details(&digest(1)).to_fields(), vec![Field::Flag(0)]);
}

#[test]
fn empty_store_verifies_nothing() {
    let n = Notarization::new();
    assert!(!n.verify(&digest(0)));
    assert!(!n.verify(&digest(255)));
    assert_eq!(n.get_details(&digest(0)), Details::NotFound);
    assert!(n.into_slot().is_none());
}

#[test]
fn round_trip_for_several_digests() {
    let mut n = Notarization::new();
    for b in [0u8, 1, 2, 128, 255] {
        n.notarize(digest(b), owner(b), b as u64);
        assert!(n.verify(&digest(b)));
    }
    for b in [0u8, 1, 2, 128, 255] {
        assert_eq!(
            n.get_details(&digest(b)),
            Details::Found { owner: owner(b), timestamp: b as u64 }
        );
    }
}

#[test]
fn overwrite_keeps_last_record_only() {
    let mut n = Notarization::new();
    n.notarize(digest(9), owner(1), 10);
    n.notarize(digest(9), owner(2), 20);
    assert_eq!(
        n.get_details(&digest(9)),
        Details::Found { owner: owner(2), timestamp: 20 }
    );
    let store = n.into_slot().unwrap();
    assert_eq!(store.len(), 1);
}

#[test]
fn overwrite_with_same_owner_takes_new_time() {
    let mut n = Notarization::new();
    n.notarize(digest(3), owner(5), 1);
    n.notarize(digest(3), owner(5), 2);
    assert_eq!(
        n.get_details(&digest(3)),
        Details::Found { owner: owner(5), timestamp: 2 }
    );
}

#[test]
fn isolation_between_digests() {
    let mut n = Notarization::new();
    n.notarize(digest(4), owner(1), 7);
    let mut near = [4u8; 32];
    near[31] = 5;
    assert!(!n.verify(&Digest::new(near)));
    near[31] = 4;
    assert!(n.verify(&Digest::new(near)));
    let mut first_differs = [4u8; 32];
    first_differs[0] = 0;
    assert!(!n.verify(&Digest::new(first_differs)));
    assert_eq!(n.get_details(&Digest::new(first_differs)), Details::NotFound);
}

#[test]
fn detail_encoding_shapes() {
    let absent = Details::NotFound.to_fields();
    assert_eq!(absent.len(), 1);
    assert_eq!(absent, vec![Field::Flag(NOT_FOUND_FLAG)]);
    let present = Details::Found { owner: owner(3), timestamp: u64::MAX }.to_fields();
    assert_eq!(present.len(), 3);
    assert_eq!(
        present,
        vec![
            Field::Flag(FOUND_FLAG),
            Field::Owner(owner(3)),
            Field::Timestamp(u64::MAX)
        ]
    );
    assert!(Details::Found { owner: owner(3), timestamp: 0 }.is_found());
    assert!(!Details::NotFound.is_found());
}

#[test]
fn slot_round_trip() {
    let mut store = RecordStore::new();
    assert_eq!(store.len(), 0);
    store.insert(digest(1), owner(1), 11);
    store.insert(digest(2), owner(2), 22);
    store.insert(digest(1), owner(3), 33);
    assert_eq!(store.len(), 2);
    let mut n = Notarization::from_slot(Some(store));
    assert!(n.verify(&digest(1)));
    assert!(n.verify(&digest(2)));
    assert!(!n.verify(&digest(3)));
    n.notarize(digest(3), owner(4), 44);
    let store = n.into_slot().unwrap();
    assert_eq!(store.len(), 3);
    let mut seen = Vec::new();
    for i in 0..store.len() {
        seen.push(store.entry(i));
    }
    seen.sort_by_key(|e| e.0.bytes[0]);
    assert_eq!(
        seen,
        vec![
            (digest(1), owner(3), 33),
            (digest(2), owner(2), 22),
            (digest(3), owner(4), 44)
        ]
    );
}

#[test]
fn lookup_and_contains_on_store() {
    let mut store = RecordStore::new();
    assert!(!store.contains(&digest(6)));
    assert_eq!(store.lookup(&digest(6)), None);
    store.insert(digest(6), owner(6), 66);
    assert!(store.contains(&digest(6)));
    assert_eq!(store.lookup(&digest(6)), Some((owner(6), 66)));
}

#[test]
fn empty_slot_counts_as_empty_store() {
    let n = Notarization::from_slot(None);
    assert!(!n.verify(&digest(7)));
    assert_eq!(n.get_details(&digest(7)), Details::NotFound);
    let mut n = Notarization::from_slot(Some(RecordStore::new()));
    assert!(!n.verify(&digest(7)));
    n.notarize(digest(7), owner(0), 0);
    assert!(n.into_slot().is_some());
}

#[test]
fn digest_comparison_is_byte_exact() {
    let a = digest(2);
    let mut bytes = [2u8; 32];
    assert!(a.same_as(&Digest::new(bytes)));
    bytes[16] = 3;
    assert!(!a.same_as(&Digest::new(bytes)));
}

#[test]
fn owner_duplicate_keeps_identifier() {
    let o = Owner::new(vec![]);
    assert_eq!(o.duplicate(), o);
    let o = owner(9);
    assert_eq!(o.duplicate().id, vec![b'G', 9, 9, 9]);
}
