use inclusion_gossip::cache::InclusionListCache;
use inclusion_gossip::types::{InclusionList, SignedInclusionList};
use inclusion_gossip::verification::{GossipVerifiedInclusionList, SignatureCheck};

fn list(slot: u64, validator_index: u64, txs: &[&[u8]]) -> SignedInclusionList {
    SignedInclusionList {
        message: InclusionList {
            slot,
            validator_index,
            inclusion_list_committee_root: [2u8; 32],
            transactions: txs.iter().map(|t| t.to_vec()).collect(),
        },
        signature: [5u8; 96],
    }
}

/// Admits `il` with a one-slot tolerance around `now` and records it.
fn accept(cache: &mut InclusionListCache, il: &SignedInclusionList, now: u64) {
    let verified =
        GossipVerifiedInclusionList::verify(il, Some(now - 1), Some(now + 1), 16, SignatureCheck::Valid)
            .expect("admitted");
    cache.on_inclusion_list(verified.signed_il);
}

#[test]
fn equivocation_end_to_end() {
    let now = 100;
    let mut cache = InclusionListCache::new();
    cache.initialize(now);
    let a = list(now, 7, &[b"tx-1", b"tx-2"]);
    let b = list(now, 7, &[b"tx-3"]);

    accept(&mut cache, &a, now);
    assert_eq!(
        cache.get_inclusion_list_transactions(now),
        Some(vec![b"tx-1".to_vec(), b"tx-2".to_vec()])
    );

    accept(&mut cache, &b, now);
    assert!(cache.is_equivocator(now, 7));
    assert_eq!(
        cache.get_inclusion_list_transactions(now),
        Some(vec![b"tx-1".to_vec(), b"tx-2".to_vec()])
    );

    accept(&mut cache, &a, now);
    assert_eq!(
        cache.get_inclusion_list_transactions(now),
        Some(vec![b"tx-1".to_vec(), b"tx-2".to_vec()])
    );
}
