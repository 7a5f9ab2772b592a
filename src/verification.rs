//! Gossip admission of signed inclusion lists: a stateless check of one message
//! against the slot window, the size bound and the validator's signature.

use vstd::prelude::*;
use crate::types::{SignedInclusionList, SignedInclusionListView, Slot};

verus! {

/// Failures reported by the chain while a message is checked.
#[derive(Debug, PartialEq, Eq, Clone, Copy)]
pub enum BeaconChainError {
    /// The slot clock could not be read.
    UnableToReadSlot,
    /// No public key is known for this validator index.
    ValidatorIndexUnknown(u64),
}

/// Why a gossiped inclusion list was not admitted.
#[derive(Debug, PartialEq, Eq, Clone, Copy)]
pub enum GossipInclusionListError {
    FutureSlot { message_slot: Slot, latest_permissible_slot: Slot },
    PastSlot { message_slot: Slot, earliest_permissible_slot: Slot },
    /// Reserved: the committee root is not checked yet (see [`GossipVerifiedInclusionList::verify`]).
    InvalidCommitteeRoot,
    /// Reserved: committee membership is not checked yet (see [`GossipVerifiedInclusionList::verify`]).
    ValidatorNotInCommittee,
    TooManyTransactions,
    InvalidSignature,
    BeaconChainError(BeaconChainError),
}

impl From<BeaconChainError> for GossipInclusionListError {
    fn from(value: BeaconChainError) -> (r: Self)
        ensures
            r == GossipInclusionListError::BeaconChainError(value),
    {
        GossipInclusionListError::BeaconChainError(value)
    }
}

impl vstd::std_specs::convert::FromSpecImpl<BeaconChainError> for GossipInclusionListError {
    open spec fn obeys_from_spec() -> bool {
        true
    }

    open spec fn from_spec(v: BeaconChainError) -> Self {
        GossipInclusionListError::BeaconChainError(v)
    }
}

/// What the chain found when it checked the signature of a list: it derives
/// the signing root from the current epoch, the fork, the genesis validators
/// root and the inclusion-list committee domain, resolves the validator's
/// public key and verifies the signature over that root.
#[derive(Debug, PartialEq, Eq, Clone, Copy)]
pub enum SignatureCheck {
    /// The current epoch could not be read, so no signing root was derived.
    EpochUnreadable,
    /// The registry holds no public key for the validator index.
    UnknownValidator,
    /// The signature does not verify against the key and the signing root.
    Invalid,
    /// The signature verifies.
    Valid,
}

/// The first failure among the checks that come before the signature, in
/// their order: past slot, future slot, size bound.
pub open spec fn pre_signature_error(
    il: SignedInclusionListView,
    earliest: Option<Slot>,
    latest: Option<Slot>,
    max_transactions: nat,
) -> Option<GossipInclusionListError> {
    let slot = il.message.slot;
    match earliest {
        None => Some(GossipInclusionListError::BeaconChainError(BeaconChainError::UnableToReadSlot)),
        Some(e) => if slot < e {
            Some(
                GossipInclusionListError::PastSlot { message_slot: slot, earliest_permissible_slot: e },
            )
        } else {
            match latest {
                None => Some(
                    GossipInclusionListError::BeaconChainError(BeaconChainError::UnableToReadSlot),
                ),
                Some(l) => if slot > l {
                    Some(
                        GossipInclusionListError::FutureSlot {
                            message_slot: slot,
                            latest_permissible_slot: l,
                        },
                    )
                } else if il.message.transactions.len() > max_transactions {
                    Some(GossipInclusionListError::TooManyTransactions)
                } else {
                    None
                },
            }
        },
    }
}

/// The failure that the signature check reports, if any.
pub open spec fn signature_error(validator_index: u64, signature: SignatureCheck) -> Option<
    GossipInclusionListError,
> {
    match signature {
        SignatureCheck::EpochUnreadable => Some(
            GossipInclusionListError::BeaconChainError(BeaconChainError::UnableToReadSlot),
        ),
        SignatureCheck::UnknownValidator => Some(
            GossipInclusionListError::BeaconChainError(
                BeaconChainError::ValidatorIndexUnknown(validator_index),
            ),
        ),
        SignatureCheck::Invalid => Some(GossipInclusionListError::InvalidSignature),
        SignatureCheck::Valid => None,
    }
}

/// The outcome of admission: the first failing check, cheapest first and the
/// signature last, or `None` when the list is admitted.
pub open spec fn admission_error(
    il: SignedInclusionListView,
    earliest: Option<Slot>,
    latest: Option<Slot>,
    max_transactions: nat,
    signature: SignatureCheck,
) -> Option<GossipInclusionListError> {
    match pre_signature_error(il, earliest, latest, max_transactions) {
        Some(e) => Some(e),
        None => signature_error(il.message.validator_index, signature),
    }
}

/// A slot before the earliest permissible slot fails with `PastSlot`, one
/// after the latest with `FutureSlot`, and one in between, bounds included,
/// passes the slot checks.
pub proof fn lemma_slot_window(
    il: SignedInclusionListView,
    earliest: Slot,
    latest: Slot,
    max_transactions: nat,
    signature: SignatureCheck,
)
    requires
        earliest <= latest,
    ensures
        il.message.slot < earliest ==> admission_error(
            il,
            Some(earliest),
            Some(latest),
            max_transactions,
            signature,
        ) == Some(
            GossipInclusionListError::PastSlot {
                message_slot: il.message.slot,
                earliest_permissible_slot: earliest,
            },
        ),
        il.message.slot > latest ==> admission_error(
            il,
            Some(earliest),
            Some(latest),
            max_transactions,
            signature,
        ) == Some(
            GossipInclusionListError::FutureSlot {
                message_slot: il.message.slot,
                latest_permissible_slot: latest,
            },
        ),
        earliest <= il.message.slot <= latest ==> match admission_error(
            il,
            Some(earliest),
            Some(latest),
            max_transactions,
            signature,
        ) {
            Some(GossipInclusionListError::PastSlot { .. }) => false,
            Some(GossipInclusionListError::FutureSlot { .. }) => false,
            _ => true,
        },
{
}

/// Within the slot window, a list with more than `max_transactions`
/// transactions fails with `TooManyTransactions`, whatever its signature.
pub proof fn lemma_too_many_transactions(
    il: SignedInclusionListView,
    earliest: Slot,
    latest: Slot,
    max_transactions: nat,
    signature: SignatureCheck,
)
    requires
        earliest <= il.message.slot <= latest,
        il.message.transactions.len() > max_transactions,
    ensures
        admission_error(il, Some(earliest), Some(latest), max_transactions, signature) == Some(
            GossipInclusionListError::TooManyTransactions,
        ),
{
}

/// A list that passes every other check but whose signature does not verify
/// against the validator's key fails with `InvalidSignature`.
pub proof fn lemma_invalid_signature_rejected(
    il: SignedInclusionListView,
    earliest: Option<Slot>,
    latest: Option<Slot>,
    max_transactions: nat,
)
    requires
        pre_signature_error(il, earliest, latest, max_transactions) is None,
    ensures
        admission_error(il, earliest, latest, max_transactions, SignatureCheck::Invalid) == Some(
            GossipInclusionListError::InvalidSignature,
        ),
{
}

/// Runs the checks that come before the signature: `earliest` and `latest`
/// are the clock's current slot with the past and the future gossip
/// tolerance (`None` when the clock cannot be read).
pub fn check_message(
    signed_il: &SignedInclusionList,
    earliest: Option<Slot>,
    latest: Option<Slot>,
    max_transactions: usize,
) -> (r: Result<(), GossipInclusionListError>)
    ensures
        match pre_signature_error(signed_il@, earliest, latest, max_transactions as nat) {
            Some(e) => r == Err::<(), GossipInclusionListError>(e),
            None => r is Ok,
        },
{
    let message_slot = signed_il.message.slot;
    let earliest_permissible_slot = match earliest {
        Some(e) => e,
        None => {
            return Err(GossipInclusionListError::from(BeaconChainError::UnableToReadSlot));
        },
    };
    if message_slot < earliest_permissible_slot {
        return Err(GossipInclusionListError::PastSlot { message_slot, earliest_permissible_slot });
    }
    let latest_permissible_slot = match latest {
        Some(l) => l,
        None => {
            return Err(GossipInclusionListError::from(BeaconChainError::UnableToReadSlot));
        },
    };
    if message_slot > latest_permissible_slot {
        return Err(GossipInclusionListError::FutureSlot { message_slot, latest_permissible_slot });
    }
    proof {
        assert(signed_il@.message.transactions.len() == signed_il.message.transactions@.len());
    }
    if signed_il.message.transactions.len() > max_transactions {
        return Err(GossipInclusionListError::TooManyTransactions);
    }
    Ok(())
}

/// An inclusion list that passed gossip admission.
pub struct GossipVerifiedInclusionList {
    pub signed_il: SignedInclusionList,
}

impl GossipVerifiedInclusionList {
    /// Admits `signed_il` or says why not. The checks run in this order and
    /// the first failure is returned: the slot is not before `earliest`, not
    /// after `latest`, the list holds at most `max_transactions`
    /// transactions, and `signature` reports a valid signature.
    ///
    /// Two checks of the protocol are not performed (known gaps): that the
    /// committee root is the root of the expected committee, and that the
    /// validator belongs to that committee. Neither `InvalidCommitteeRoot` nor
    /// `ValidatorNotInCommittee` is ever returned, and whether this is the
    /// validator's first or second message is left to the equivocation cache.
    pub fn verify(
        signed_il: &SignedInclusionList,
        earliest: Option<Slot>,
        latest: Option<Slot>,
        max_transactions: usize,
        signature: SignatureCheck,
    ) -> (r: Result<Self, GossipInclusionListError>)
        ensures
            match admission_error(
                signed_il@,
                earliest,
                latest,
                max_transactions as nat,
                signature,
            ) {
                Some(e) => r matches Err(x) && x == e,
                None => r matches Ok(v) && v.signed_il@ == signed_il@,
            },
    {
        match check_message(signed_il, earliest, latest, max_transactions) {
            Ok(()) => {},
            Err(e) => {
                return Err(e);
            },
        }
        match signature {
            SignatureCheck::EpochUnreadable => {
                return Err(GossipInclusionListError::from(BeaconChainError::UnableToReadSlot));
            },
            SignatureCheck::UnknownValidator => {
                return Err(
                    GossipInclusionListError::from(
                        BeaconChainError::ValidatorIndexUnknown(signed_il.message.validator_index),
                    ),
                );
            },
            SignatureCheck::Invalid => {
                return Err(GossipInclusionListError::InvalidSignature);
            },
            SignatureCheck::Valid => {},
        }
        Ok(GossipVerifiedInclusionList { signed_il: signed_il.clone() })
    }
}

} // verus!
