use inclusion_gossip::cache::InclusionListCache;
use inclusion_gossip::types::{InclusionList, SignedInclusionList};

fn list(slot: u64, validator_index: u64, txs: &[&[u8]], sig: u8) -> SignedInclusionList {
    SignedInclusionList {
        message: InclusionList {
            slot,
            validator_index,
            inclusion_list_committee_root: [1u8; 32],
            transactions: txs.iter().map(|t| t.to_vec()).collect(),
        },
        signature: [sig; 96],
    }
}

#[test]
fn unopened_slot_has_no_transactions() {
    let cache = InclusionListCache::new();
    assert_eq!(cache.get_inclusion_list_transactions(5), None);
}

#[test]
fn submission_for_unopened_slot_is_ignored() {
    let mut cache = InclusionListCache::default();
    cache.initialize(4);
    cache.on_inclusion_list(list(5, 1, &[b"a"], 0));
    assert_eq!(cache.get_inclusion_list_transactions(5), None);
    assert_eq!(cache.get_inclusion_list_transactions(4), Some(vec![]));
}

#[test]
fn cleared_slot_ignores_submissions() {
    let mut cache = InclusionListCache::new();
    cache.initialize(5);
    cache.clear_cache(5);
    cache.on_inclusion_list(list(5, 1, &[b"a"], 0));
    assert_eq!(cache.get_inclusion_list_transactions(5), None);
    assert!(!cache.is_equivocator(5, 1));
}

#[test]
fn first_submission_is_accepted() {
    let mut cache = InclusionListCache::new();
    cache.initialize(5);
    cache.on_inclusion_list(list(5, 1, &[b"a", b"b"], 0));
    assert_eq!(cache.get_inclusion_list_transactions(5), Some(vec![b"a".to_vec(), b"b".to_vec()]));
}

#[test]
fn identical_resubmission_changes_nothing() {
    let mut cache = InclusionListCache::new();
    cache.initialize(5);
    cache.on_inclusion_list(list(5, 1, &[b"a", b"b"], 0));
    cache.on_inclusion_list(list(5, 1, &[b"a", b"b"], 0));
    assert_eq!(cache.get_inclusion_list_transactions(5), Some(vec![b"a".to_vec(), b"b".to_vec()]));
    assert!(!cache.is_equivocator(5, 1));
}

#[test]
fn conflicting_list_marks_equivocator() {
    let mut cache = InclusionListCache::new();
    cache.initialize(5);
    cache.on_inclusion_list(list(5, 1, &[b"a"], 0));
    cache.on_inclusion_list(list(5, 1, &[b"c"], 0));
    assert!(cache.is_equivocator(5, 1));
    // The conflicting list's transactions are not merged.
    assert_eq!(cache.get_inclusion_list_transactions(5), Some(vec![b"a".to_vec()]));
    // Even the first list again is discarded, and nothing is added later.
    cache.on_inclusion_list(list(5, 1, &[b"a"], 0));
    cache.on_inclusion_list(list(5, 1, &[b"d"], 9));
    assert!(cache.is_equivocator(5, 1));
    assert_eq!(cache.get_inclusion_list_transactions(5), Some(vec![b"a".to_vec()]));
}

#[test]
fn different_signature_is_a_different_list() {
    let mut cache = InclusionListCache::new();
    cache.initialize(5);
    cache.on_inclusion_list(list(5, 1, &[b"a"], 0));
    cache.on_inclusion_list(list(5, 1, &[b"a"], 1));
    assert!(cache.is_equivocator(5, 1));
}

#[test]
fn transactions_are_the_union_in_first_seen_order() {
    let mut cache = InclusionListCache::new();
    cache.initialize(5);
    cache.on_inclusion_list(list(5, 1, &[b"a", b"b"], 0));
    cache.on_inclusion_list(list(5, 2, &[b"b", b"c", b"c"], 0));
    cache.on_inclusion_list(list(5, 3, &[], 0));
    cache.on_inclusion_list(list(5, 4, &[b"a", b"d"], 0));
    assert_eq!(
        cache.get_inclusion_list_transactions(5),
        Some(vec![b"a".to_vec(), b"b".to_vec(), b"c".to_vec(), b"d".to_vec()])
    );
}

#[test]
fn slots_are_kept_apart() {
    let mut cache = InclusionListCache::new();
    cache.initialize(5);
    cache.initialize(6);
    cache.on_inclusion_list(list(5, 1, &[b"a"], 0));
    cache.on_inclusion_list(list(6, 1, &[b"z"], 0));
    assert!(!cache.is_equivocator(5, 1));
    assert!(!cache.is_equivocator(6, 1));
    assert_eq!(cache.get_inclusion_list_transactions(5), Some(vec![b"a".to_vec()]));
    assert_eq!(cache.get_inclusion_list_transactions(6), Some(vec![b"z".to_vec()]));
    cache.clear_cache(5);
    assert_eq!(cache.get_inclusion_list_transactions(5), None);
    assert_eq!(cache.get_inclusion_list_transactions(6), Some(vec![b"z".to_vec()]));
}

#[test]
fn initialize_resets_an_open_slot() {
    let mut cache = InclusionListCache::new();
    cache.initialize(5);
    cache.on_inclusion_list(list(5, 1, &[b"a"], 0));
    cache.on_inclusion_list(list(5, 1, &[b"b"], 0));
    cache.initialize(5);
    assert_eq!(cache.get_inclusion_list_transactions(5), Some(vec![]));
    assert!(!cache.is_equivocator(5, 1));
}
