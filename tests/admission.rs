use inclusion_gossip::types::{InclusionList, SignedInclusionList};
use inclusion_gossip::verification::{
    check_message, BeaconChainError, GossipInclusionListError, GossipVerifiedInclusionList,
    SignatureCheck,
};

fn list(slot: u64, validator_index: u64, txs: usize) -> SignedInclusionList {
    SignedInclusionList {
        message: InclusionList {
            slot,
            validator_index,
            inclusion_list_committee_root: [7u8; 32],
            transactions: (0..txs).map(|i| vec![i as u8, 0xaa]).collect(),
        },
        signature: [3u8; 96],
    }
}

#[test]
fn past_slot_is_rejected() {
    let il = list(8, 1, 2);
    let r = GossipVerifiedInclusionList::verify(&il, Some(9), Some(11), 16, SignatureCheck::Valid);
    assert_eq!(
        r.err(),
        Some(GossipInclusionListError::PastSlot { message_slot: 8, earliest_permissible_slot: 9 })
    );
}

#[test]
fn future_slot_is_rejected() {
    let il = list(12, 1, 2);
    let r = GossipVerifiedInclusionList::verify(&il, Some(9), Some(11), 16, SignatureCheck::Valid);
    assert_eq!(
        r.err(),
        Some(GossipInclusionListError::FutureSlot { message_slot: 12, latest_permissible_slot: 11 })
    );
}

#[test]
fn window_bounds_are_inclusive() {
    for slot in [9u64, 10, 11] {
        let il = list(slot, 1, 2);
        let r = GossipVerifiedInclusionList::verify(&il, Some(9), Some(11), 16, SignatureCheck::Valid);
        let v = r.expect("slot inside the window is admitted");
        assert_eq!(v.signed_il.message.slot, slot);
        assert_eq!(v.signed_il.message.transactions, il.message.transactions);
        assert_eq!(v.signed_il.signature, il.signature);
    }
}

#[test]
fn too_many_transactions_whatever_the_signature() {
    let il = list(10, 1, 17);
    for sig in [
        SignatureCheck::Valid,
        SignatureCheck::Invalid,
        SignatureCheck::UnknownValidator,
        SignatureCheck::EpochUnreadable,
    ] {
        let r = GossipVerifiedInclusionList::verify(&il, Some(9), Some(11), 16, sig);
        assert_eq!(r.err(), Some(GossipInclusionListError::TooManyTransactions));
    }
}

#[test]
fn exactly_max_transactions_is_admitted() {
    let il = list(10, 1, 16);
    let r = GossipVerifiedInclusionList::verify(&il, Some(9), Some(11), 16, SignatureCheck::Valid);
    assert!(r.is_ok());
}

#[test]
fn empty_list_is_admitted() {
    let il = list(10, 1, 0);
    assert!(check_message(&il, Some(10), Some(10), 0).is_ok());
    let r = GossipVerifiedInclusionList::verify(&il, Some(10), Some(10), 0, SignatureCheck::Valid);
    assert!(r.is_ok());
}

#[test]
fn invalid_signature_is_rejected() {
    let il = list(10, 1, 2);
    let r = GossipVerifiedInclusionList::verify(&il, Some(9), Some(11), 16, SignatureCheck::Invalid);
    assert_eq!(r.err(), Some(GossipInclusionListError::InvalidSignature));
}

#[test]
fn unknown_validator_is_rejected() {
    let il = list(10, 42, 2);
    let r = GossipVerifiedInclusionList::verify(
        &il,
        Some(9),
        Some(11),
        16,
        SignatureCheck::UnknownValidator,
    );
    assert_eq!(
        r.err(),
        Some(GossipInclusionListError::BeaconChainError(BeaconChainError::ValidatorIndexUnknown(42)))
    );
}

#[test]
fn unreadable_clock_is_a_chain_error() {
    let il = list(10, 1, 2);
    let unreadable =
        Some(GossipInclusionListError::BeaconChainError(BeaconChainError::UnableToReadSlot));
    let r = GossipVerifiedInclusionList::verify(&il, None, Some(11), 16, SignatureCheck::Valid);
    assert_eq!(r.err(), unreadable);
    let r = GossipVerifiedInclusionList::verify(&il, Some(9), None, 16, SignatureCheck::Valid);
    assert_eq!(r.err(), unreadable);
    let r = GossipVerifiedInclusionList::verify(
        &il,
        Some(9),
        Some(11),
        16,
        SignatureCheck::EpochUnreadable,
    );
    assert_eq!(r.err(), unreadable);
}

#[test]
fn past_slot_checked_before_unreadable_future_bound() {
    let il = list(3, 1, 40);
    let r = GossipVerifiedInclusionList::verify(&il, Some(9), None, 16, SignatureCheck::Invalid);
    assert_eq!(
        r.err(),
        Some(GossipInclusionListError::PastSlot { message_slot: 3, earliest_permissible_slot: 9 })
    );
}

#[test]
fn slot_checks_come_before_size_check() {
    let il = list(20, 1, 40);
    assert_eq!(
        check_message(&il, Some(9), Some(11), 16),
        Err(GossipInclusionListError::FutureSlot { message_slot: 20, latest_permissible_slot: 11 })
    );
}

#[test]
fn chain_error_converts_into_gossip_error() {
    let e: GossipInclusionListError = BeaconChainError::UnableToReadSlot.into();
    assert_eq!(e, GossipInclusionListError::BeaconChainError(BeaconChainError::UnableToReadSlot));
}

#[test]
fn same_submission_compares_every_field() {
    let a = list(10, 1, 3);
    let b = a.clone();
    assert!(a.same_submission(&b));
    let mut c = a.clone();
    c.signature[95] = 0;
    assert!(!a.same_submission(&c));
    let mut d = a.clone();
    d.message.transactions[2].push(1);
    assert!(!a.same_submission(&d));
    let mut e = a.clone();
    e.message.inclusion_list_committee_root[0] = 0;
    assert!(!a.same_submission(&e));
}
