//! The inclusion-list data model and its mathematical views.

use vstd::prelude::*;

verus! {

/// A slot number.
pub type Slot = u64;

/// A 32-byte hash (a tree-hash root).
pub type Hash256 = [u8; 32];

/// A compressed BLS signature.
pub type Signature = [u8; 96];

/// An opaque execution-layer transaction.
pub type Transaction = Vec<u8>;

/// The list of transactions that a validator asks the next proposer to include.
#[derive(Debug)]
pub struct InclusionList {
    pub slot: Slot,
    pub validator_index: u64,
    pub inclusion_list_committee_root: Hash256,
    pub transactions: Vec<Transaction>,
}

/// An inclusion list together with the signature of its validator.
#[derive(Debug)]
pub struct SignedInclusionList {
    pub message: InclusionList,
    pub signature: Signature,
}

/// A validator's duty to produce an inclusion list during `slot`.
#[derive(Debug, PartialEq, Clone, Copy, Default)]
pub struct InclusionListDuty {
    /// The slot during which the validator must produce an inclusion list.
    pub slot: Slot,
    /// The index of the validator.
    pub validator_index: u64,
    /// The hash tree root of the inclusion list committee.
    pub committee_root: Hash256,
}

/// The value of an [`InclusionList`], byte for byte.
pub struct InclusionListView {
    pub slot: Slot,
    pub validator_index: u64,
    pub committee_root: Seq<u8>,
    pub transactions: Seq<Seq<u8>>,
}

/// The value of a [`SignedInclusionList`], byte for byte.
pub struct SignedInclusionListView {
    pub message: InclusionListView,
    pub signature: Seq<u8>,
}

/// The transactions of a list, each as its bytes.
pub open spec fn transactions_view(txs: Seq<Transaction>) -> Seq<Seq<u8>> {
    txs.map_values(|t: Transaction| t@)
}

impl View for InclusionList {
    type V = InclusionListView;

    open spec fn view(&self) -> InclusionListView {
        InclusionListView {
            slot: self.slot,
            validator_index: self.validator_index,
            committee_root: self.inclusion_list_committee_root@,
            transactions: transactions_view(self.transactions@),
        }
    }
}

impl View for SignedInclusionList {
    type V = SignedInclusionListView;

    open spec fn view(&self) -> SignedInclusionListView {
        SignedInclusionListView { message: self.message@, signature: self.signature@ }
    }
}

/// Whether two byte strings are identical.
pub fn bytes_equal(a: &[u8], b: &[u8]) -> (r: bool)
    ensures
        r == (a@ == b@),
{
    if a.len() != b.len() {
        return false;
    }
    let mut i: usize = 0;
    while i < a.len()
        invariant
            a@.len() == b@.len(),
            i <= a@.len(),
            forall|j: int| 0 <= j < i ==> a@[j] == b@[j],
        decreases a@.len() - i,
    {
        if a[i] != b[i] {
            return false;
        }
        i = i + 1;
    }
    assert(a@ =~= b@);
    true
}

/// Whether two transaction lists hold the same transactions in the same order.
pub fn transactions_equal(a: &Vec<Transaction>, b: &Vec<Transaction>) -> (r: bool)
    ensures
        r == (transactions_view(a@) == transactions_view(b@)),
{
    if a.len() != b.len() {
        assert(transactions_view(a@).len() != transactions_view(b@).len());
        return false;
    }
    let mut i: usize = 0;
    while i < a.len()
        invariant
            a@.len() == b@.len(),
            i <= a@.len(),
            forall|j: int| 0 <= j < i ==> a@[j]@ == b@[j]@,
        decreases a@.len() - i,
    {
        if !bytes_equal(a[i].as_slice(), b[i].as_slice()) {
            assert(transactions_view(a@)[i as int] != transactions_view(b@)[i as int]);
            return false;
        }
        i = i + 1;
    }
    assert(transactions_view(a@) =~= transactions_view(b@));
    true
}

/// A copy of a byte string.
pub fn copy_bytes(b: &Vec<u8>) -> (r: Vec<u8>)
    ensures
        r@ == b@,
{
    let r = b.clone();
    assert(r@ =~= b@);
    r
}

/// A copy of a transaction list.
pub fn copy_transactions(txs: &Vec<Transaction>) -> (r: Vec<Transaction>)
    ensures
        transactions_view(r@) == transactions_view(txs@),
{
    let mut r: Vec<Transaction> = Vec::new();
    let mut i: usize = 0;
    while i < txs.len()
        invariant
            i <= txs@.len(),
            r@.len() == i,
            forall|j: int| 0 <= j < i ==> r@[j]@ == txs@[j]@,
        decreases txs@.len() - i,
    {
        r.push(copy_bytes(&txs[i]));
        i = i + 1;
    }
    assert(transactions_view(r@) =~= transactions_view(txs@));
    r
}

impl Clone for InclusionList {
    fn clone(&self) -> (r: Self)
        ensures
            r@ == self@,
    {
        InclusionList {
            slot: self.slot,
            validator_index: self.validator_index,
            inclusion_list_committee_root: self.inclusion_list_committee_root,
            transactions: copy_transactions(&self.transactions),
        }
    }
}

impl Clone for SignedInclusionList {
    fn clone(&self) -> (r: Self)
        ensures
            r@ == self@,
    {
        SignedInclusionList { message: self.message.clone(), signature: self.signature }
    }
}

impl SignedInclusionList {
    /// Whether `self` and `other` are the same submission: equal in every
    /// field, signature included.
    pub fn same_submission(&self, other: &SignedInclusionList) -> (r: bool)
        ensures
            r == (self@ == other@),
    {
        let r = self.message.slot == other.message.slot
            && self.message.validator_index == other.message.validator_index
            && bytes_equal(
            self.message.inclusion_list_committee_root.as_slice(),
            other.message.inclusion_list_committee_root.as_slice(),
        ) && transactions_equal(&self.message.transactions, &other.message.transactions)
            && bytes_equal(self.signature.as_slice(), other.signature.as_slice());
        r
    }
}

} // verus!
