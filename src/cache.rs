//! The per-slot equivocation cache: which validators submitted an inclusion
//! list for a slot, which of them equivocated, and the union of the
//! transactions that were accepted.
//!
//! The cache is not synchronised: the owner of the chain state calls it under
//! the same exclusive access that guards the rest of the slot's state.

use vstd::prelude::*;
use std::collections::{HashMap, HashSet};
use crate::types::{
    bytes_equal, copy_bytes, transactions_view, SignedInclusionList, SignedInclusionListView, Slot,
    Transaction,
};

verus! {

broadcast use vstd::std_specs::hash::group_hash_axioms;

/// What the cache holds for one open slot.
pub struct SlotEntryView {
    /// The lists accepted, one per validator, in the order they came.
    pub lists: Seq<SignedInclusionListView>,
    /// The validators that submitted a list.
    pub seen: Set<u64>,
    /// The validators that submitted two different lists.
    pub equivocators: Set<u64>,
    /// The transactions of the accepted lists, each once, in first-seen order.
    pub transactions: Seq<Seq<u8>>,
}

/// An open slot with nothing submitted yet.
pub open spec fn empty_entry() -> SlotEntryView {
    SlotEntryView {
        lists: Seq::empty(),
        seen: Set::empty(),
        equivocators: Set::empty(),
        transactions: Seq::empty(),
    }
}

/// `acc` followed by each transaction of `txs` that is not already there,
/// in the order of `txs`.
pub open spec fn merge_transactions(acc: Seq<Seq<u8>>, txs: Seq<Seq<u8>>) -> Seq<Seq<u8>>
    decreases txs.len(),
{
    if txs.len() == 0 {
        acc
    } else {
        let next = if acc.contains(txs[0]) {
            acc
        } else {
            acc.push(txs[0])
        };
        merge_transactions(next, txs.drop_first())
    }
}

/// The cache after `l` is submitted.
pub open spec fn after_submission(
    c: Map<Slot, SlotEntryView>,
    l: SignedInclusionListView,
) -> Map<Slot, SlotEntryView> {
    let s = l.message.slot;
    let v = l.message.validator_index;
    if !c.contains_key(s) {
        c
    } else {
        let e = c[s];
        if e.equivocators.contains(v) {
            c
        } else if e.seen.contains(v) && !e.lists.contains(l) {
            c.insert(s, SlotEntryView { equivocators: e.equivocators.insert(v), ..e })
        } else if e.seen.contains(v) {
            c
        } else {
            c.insert(
                s,
                SlotEntryView {
                    lists: e.lists.push(l),
                    seen: e.seen.insert(v),
                    equivocators: e.equivocators,
                    transactions: merge_transactions(e.transactions, l.message.transactions),
                },
            )
        }
    }
}

/// Whether `t` is a transaction of one of the accepted lists `lists`.
pub open spec fn in_some_list(lists: Seq<SignedInclusionListView>, t: Seq<u8>) -> bool {
    exists|i: int| 0 <= i < lists.len() && #[trigger] lists[i].message.transactions.contains(t)
}

/// The invariant of the entry of slot `s`.
pub open spec fn entry_well_formed(s: Slot, e: SlotEntryView) -> bool {
    &&& forall|i: int| 0 <= i < e.lists.len() ==> #[trigger] e.lists[i].message.slot == s
    &&& forall|i: int|
        0 <= i < e.lists.len() ==> e.seen.contains(#[trigger] e.lists[i].message.validator_index)
    &&& forall|v: u64|
        #[trigger] e.seen.contains(v) ==> exists|i: int|
            0 <= i < e.lists.len() && #[trigger] e.lists[i].message.validator_index == v
    &&& forall|i: int, j: int|
        0 <= i < e.lists.len() && 0 <= j < e.lists.len() && i != j
            ==> #[trigger] e.lists[i].message.validator_index
            != #[trigger] e.lists[j].message.validator_index
    &&& forall|v: u64| #[trigger] e.equivocators.contains(v) ==> e.seen.contains(v)
    &&& e.transactions.no_duplicates()
    &&& forall|t: Seq<u8>| #[trigger] e.transactions.contains(t) <==> in_some_list(e.lists, t)
}

/// The invariant of every open slot.
pub open spec fn cache_well_formed(c: Map<Slot, SlotEntryView>) -> bool {
    forall|s: Slot| #[trigger] c.contains_key(s) ==> entry_well_formed(s, c[s])
}

/// Merging keeps the transactions distinct and adds exactly those of `txs`.
proof fn lemma_merge_transactions(acc: Seq<Seq<u8>>, txs: Seq<Seq<u8>>)
    requires
        acc.no_duplicates(),
    ensures
        merge_transactions(acc, txs).no_duplicates(),
        forall|t: Seq<u8>| #[trigger]
            merge_transactions(acc, txs).contains(t) <==> acc.contains(t) || txs.contains(t),
    decreases txs.len(),
{
    if txs.len() > 0 {
        let next = if acc.contains(txs[0]) {
            acc
        } else {
            acc.push(txs[0])
        };
        assert forall|t: Seq<u8>| #[trigger] next.contains(t) <==> acc.contains(t) || t == txs[0] by {
            if !acc.contains(txs[0]) && t == txs[0] {
                assert(next[acc.len() as int] == t);
            }
            if acc.contains(t) {
                let k = choose|k: int| 0 <= k < acc.len() && acc[k] == t;
                assert(next[k] == t);
            }
            if next.contains(t) && !acc.contains(txs[0]) && t != txs[0] {
                let k = choose|k: int| 0 <= k < next.len() && next[k] == t;
                assert(acc[k] == t);
            }
        }
        assert(next.no_duplicates());
        lemma_merge_transactions(next, txs.drop_first());
        assert forall|t: Seq<u8>| #[trigger] txs.contains(t) <==> t == txs[0]
            || txs.drop_first().contains(t) by {
            if txs.contains(t) && t != txs[0] {
                let k = choose|k: int| 0 <= k < txs.len() && txs[k] == t;
                assert(txs.drop_first()[k - 1] == t);
            }
            if txs.drop_first().contains(t) {
                let k = choose|k: int| 0 <= k < txs.drop_first().len() && txs.drop_first()[k] == t;
                assert(txs[k + 1] == t);
            }
            if t == txs[0] {
                assert(txs[0] == t);
            }
        }
    }
}

/// Every submission keeps the invariant of every open slot.
pub proof fn lemma_submission_keeps_well_formed(c: Map<Slot, SlotEntryView>, l: SignedInclusionListView)
    requires
        cache_well_formed(c),
    ensures
        cache_well_formed(after_submission(c, l)),
{
    let s = l.message.slot;
    let v = l.message.validator_index;
    if c.contains_key(s) {
        let e = c[s];
        assert(entry_well_formed(s, e));
        if !e.equivocators.contains(v) && !e.seen.contains(v) {
            let n = after_submission(c, l)[s];
            lemma_merge_transactions(e.transactions, l.message.transactions);
            assert forall|i: int| 0 <= i < n.lists.len() implies #[trigger] n.lists[i].message.slot
                == s by {
                if i < e.lists.len() {
                    assert(n.lists[i] == e.lists[i]);
                }
            }
            assert forall|i: int| 0 <= i < n.lists.len() implies n.seen.contains(
                #[trigger] n.lists[i].message.validator_index,
            ) by {
                if i < e.lists.len() {
                    assert(n.lists[i] == e.lists[i]);
                }
            }
            assert forall|w: u64| #[trigger] n.seen.contains(w) implies exists|i: int|
                0 <= i < n.lists.len() && #[trigger] n.lists[i].message.validator_index == w by {
                if w == v {
                    assert(n.lists[e.lists.len() as int].message.validator_index == w);
                } else {
                    assert(e.seen.contains(w));
                    let i = choose|i: int|
                        0 <= i < e.lists.len() && #[trigger] e.lists[i].message.validator_index == w;
                    assert(n.lists[i] == e.lists[i]);
                }
            }
            assert forall|i: int, j: int|
                0 <= i < n.lists.len() && 0 <= j < n.lists.len() && i != j
                    implies #[trigger] n.lists[i].message.validator_index
                != #[trigger] n.lists[j].message.validator_index by {
                if i < e.lists.len() {
                    assert(n.lists[i] == e.lists[i]);
                    assert(e.seen.contains(e.lists[i].message.validator_index));
                }
                if j < e.lists.len() {
                    assert(n.lists[j] == e.lists[j]);
                    assert(e.seen.contains(e.lists[j].message.validator_index));
                }
            }
            assert forall|t: Seq<u8>| #[trigger] n.transactions.contains(t) <==> in_some_list(
                n.lists,
                t,
            ) by {
                if e.transactions.contains(t) {
                    let i = choose|i: int|
                        0 <= i < e.lists.len() && #[trigger] e.lists[i].message.transactions.contains(t);
                    assert(n.lists[i] == e.lists[i]);
                }
                if l.message.transactions.contains(t) {
                    assert(n.lists[e.lists.len() as int] == l);
                }
                if in_some_list(n.lists, t) {
                    let i = choose|i: int|
                        0 <= i < n.lists.len() && #[trigger] n.lists[i].message.transactions.contains(t);
                    if i < e.lists.len() {
                        assert(n.lists[i] == e.lists[i]);
                        assert(in_some_list(e.lists, t));
                    }
                }
            }
            assert(entry_well_formed(s, n));
        }
        assert forall|x: Slot| #[trigger] after_submission(c, l).contains_key(x) implies entry_well_formed(
            x,
            after_submission(c, l)[x],
        ) by {
            if x != s {
                assert(c.contains_key(x));
            }
        }
    }
}

/// Submitting the same list a second time changes nothing: no transaction is
/// added twice and its validator is not marked as an equivocator.
pub proof fn lemma_resubmission_is_idempotent(c: Map<Slot, SlotEntryView>, l: SignedInclusionListView)
    requires
        cache_well_formed(c),
    ensures
        after_submission(after_submission(c, l), l) == after_submission(c, l),
{
    let s = l.message.slot;
    let v = l.message.validator_index;
    if c.contains_key(s) {
        let e = c[s];
        assert(entry_well_formed(s, e));
        if !e.equivocators.contains(v) && !e.seen.contains(v) {
            let n = after_submission(c, l)[s];
            assert(n.lists[e.lists.len() as int] == l);
            assert(n.lists.contains(l));
            assert(!n.equivocators.contains(v));
        }
    }
}

/// Two different lists from one validator for one open slot mark the
/// validator as an equivocator, and any later list of that validator for the
/// slot, even the first one again, is discarded.
pub proof fn lemma_conflicting_lists_mark_equivocator(
    c: Map<Slot, SlotEntryView>,
    first: SignedInclusionListView,
    second: SignedInclusionListView,
    later: SignedInclusionListView,
)
    requires
        cache_well_formed(c),
        c.contains_key(first.message.slot),
        second.message.slot == first.message.slot,
        later.message.slot == first.message.slot,
        second.message.validator_index == first.message.validator_index,
        later.message.validator_index == first.message.validator_index,
        first != second,
    ensures
        ({
            let c2 = after_submission(after_submission(c, first), second);
            &&& c2[first.message.slot].equivocators.contains(first.message.validator_index)
            &&& after_submission(c2, later) == c2
        }),
{
    let s = first.message.slot;
    let v = first.message.validator_index;
    let e = c[s];
    let c1 = after_submission(c, first);
    assert(entry_well_formed(s, e));
    lemma_submission_keeps_well_formed(c, first);
    let e1 = c1[s];
    assert(c1.contains_key(s));
    assert(entry_well_formed(s, e1));
    if !e1.equivocators.contains(v) {
        assert(e1.seen.contains(v));
        // The only accepted list of `v` is `first`.
        assert(e1.lists.contains(first)) by {
            if e.seen.contains(v) {
                assert(e.lists.contains(first));
            } else {
                assert(e1.lists[e.lists.len() as int] == first);
            }
        }
        if e1.lists.contains(second) {
            let i = choose|i: int| 0 <= i < e1.lists.len() && e1.lists[i] == first;
            let j = choose|j: int| 0 <= j < e1.lists.len() && e1.lists[j] == second;
            assert(e1.lists[i].message.validator_index == e1.lists[j].message.validator_index);
        }
    }
}

/// Submissions for a slot that was opened and closed again, or never opened,
/// change nothing.
pub proof fn lemma_closed_slot_ignores_submissions(
    c: Map<Slot, SlotEntryView>,
    slot: Slot,
    l: SignedInclusionListView,
)
    ensures
        l.message.slot == slot ==> after_submission(
            c.insert(slot, empty_entry()).remove(slot),
            l,
        ) == c.insert(slot, empty_entry()).remove(slot),
        !c.contains_key(l.message.slot) ==> after_submission(c, l) == c,
{
}

/// The transactions of an open slot are exactly the union of the
/// transactions of the lists it accepted, each once.
pub proof fn lemma_transactions_are_union_of_accepted(c: Map<Slot, SlotEntryView>, slot: Slot)
    requires
        cache_well_formed(c),
        c.contains_key(slot),
    ensures
        c[slot].transactions.no_duplicates(),
        forall|t: Seq<u8>| #[trigger]
            c[slot].transactions.contains(t) <==> exists|i: int|
                0 <= i < c[slot].lists.len() && #[trigger] c[slot].lists[i].message.transactions.contains(
                    t,
                ),
{
    assert(entry_well_formed(slot, c[slot]));
}

/// A list that reveals an equivocation is not accepted: the slot's accepted
/// lists and transactions stay as they were.
pub proof fn lemma_equivocating_list_not_merged(c: Map<Slot, SlotEntryView>, l: SignedInclusionListView)
    requires
        c.contains_key(l.message.slot),
        c[l.message.slot].seen.contains(l.message.validator_index),
        !c[l.message.slot].lists.contains(l),
    ensures
        after_submission(c, l)[l.message.slot].lists == c[l.message.slot].lists,
        after_submission(c, l)[l.message.slot].transactions == c[l.message.slot].transactions,
        after_submission(c, l)[l.message.slot].equivocators.contains(l.message.validator_index),
{
}

/// A submission never takes a validator out of a slot's equivocators, nor out
/// of the validators seen, nor removes an accepted list.
pub proof fn lemma_submission_only_adds(c: Map<Slot, SlotEntryView>, l: SignedInclusionListView, slot: Slot)
    requires
        c.contains_key(slot),
    ensures
        after_submission(c, l).contains_key(slot),
        c[slot].equivocators.subset_of(after_submission(c, l)[slot].equivocators),
        c[slot].seen.subset_of(after_submission(c, l)[slot].seen),
        c[slot].lists.is_prefix_of(after_submission(c, l)[slot].lists),
{
    let n = after_submission(c, l)[slot];
    assert(c[slot].lists =~= n.lists.subrange(0, c[slot].lists.len() as int));
}

/// The state of one open slot.
pub struct SlotEntry {
    inclusion_lists: Vec<SignedInclusionList>,
    inclusion_lists_seen: HashSet<u64>,
    inclusion_list_equivocators: HashSet<u64>,
    inclusion_list_transactions: Vec<Transaction>,
}

impl View for SlotEntry {
    type V = SlotEntryView;

    closed spec fn view(&self) -> SlotEntryView {
        SlotEntryView {
            lists: self.inclusion_lists@.map_values(|l: SignedInclusionList| l@),
            seen: self.inclusion_lists_seen@,
            equivocators: self.inclusion_list_equivocators@,
            transactions: transactions_view(self.inclusion_list_transactions@),
        }
    }
}

/// Map from slot to the inclusion lists submitted for it.
pub struct InclusionListCache {
    inner_map: HashMap<Slot, SlotEntry>,
}

impl View for InclusionListCache {
    type V = Map<Slot, SlotEntryView>;

    closed spec fn view(&self) -> Map<Slot, SlotEntryView> {
        self.inner_map@.map_values(|e: SlotEntry| e@)
    }
}

/// Whether `lists` holds a list equal to `l` in every field.
fn contains_list(lists: &Vec<SignedInclusionList>, l: &SignedInclusionList) -> (r: bool)
    ensures
        r == lists@.map_values(|x: SignedInclusionList| x@).contains(l@),
{
    let ghost views = lists@.map_values(|x: SignedInclusionList| x@);
    let mut i: usize = 0;
    while i < lists.len()
        invariant
            i <= lists@.len(),
            views == lists@.map_values(|x: SignedInclusionList| x@),
            forall|j: int| 0 <= j < i ==> views[j] != l@,
        decreases lists@.len() - i,
    {
        if lists[i].same_submission(l) {
            assert(views[i as int] == l@);
            return true;
        }
        i = i + 1;
    }
    false
}

/// Whether `txs` holds the transaction `t`.
fn contains_transaction(txs: &Vec<Transaction>, t: &Transaction) -> (r: bool)
    ensures
        r == transactions_view(txs@).contains(t@),
{
    let ghost views = transactions_view(txs@);
    let mut i: usize = 0;
    while i < txs.len()
        invariant
            i <= txs@.len(),
            views == transactions_view(txs@),
            forall|j: int| 0 <= j < i ==> views[j] != t@,
        decreases txs@.len() - i,
    {
        if bytes_equal(txs[i].as_slice(), t.as_slice()) {
            assert(views[i as int] == t@);
            return true;
        }
        i = i + 1;
    }
    false
}

impl Default for InclusionListCache {
    fn default() -> (r: Self)
        ensures
            r@ == Map::<Slot, SlotEntryView>::empty(),
    {
        InclusionListCache::new()
    }
}

impl InclusionListCache {
    /// A cache with no open slot.
    pub fn new() -> (r: Self)
        ensures
            r@ == Map::<Slot, SlotEntryView>::empty(),
            cache_well_formed(r@),
    {
        let r = InclusionListCache { inner_map: HashMap::new() };
        assert(r@ =~= Map::<Slot, SlotEntryView>::empty());
        r
    }

    /// Opens `slot` with an empty entry, replacing any entry it had.
    pub fn initialize(&mut self, slot: Slot)
        ensures
            final(self)@ == old(self)@.insert(slot, empty_entry()),
            cache_well_formed(old(self)@) ==> cache_well_formed(final(self)@),
    {
        let inner = SlotEntry {
            inclusion_lists: Vec::new(),
            inclusion_lists_seen: HashSet::new(),
            inclusion_list_equivocators: HashSet::new(),
            inclusion_list_transactions: Vec::new(),
        };
        proof {
            assert(inner@.lists =~= Seq::<SignedInclusionListView>::empty());
            assert(inner@.transactions =~= Seq::<Seq<u8>>::empty());
        }
        self.inner_map.insert(slot, inner);
        assert(self@ =~= old(self)@.insert(slot, empty_entry()));
    }

    /// Closes `slot`: its entry is removed and later submissions for it are
    /// ignored.
    pub fn clear_cache(&mut self, slot: Slot)
        ensures
            final(self)@ == old(self)@.remove(slot),
            cache_well_formed(old(self)@) ==> cache_well_formed(final(self)@),
    {
        self.inner_map.remove(&slot);
        assert(self@ =~= old(self)@.remove(slot));
    }

    /// Records a submission. Nothing changes when its slot is not open or its
    /// validator already equivocated. A list that differs from the one its
    /// validator already submitted marks the validator as an equivocator and
    /// is itself dropped; the exact list again changes nothing. A validator's
    /// first list is accepted and its transactions are added to the slot's.
    pub fn on_inclusion_list(&mut self, inclusion_list: SignedInclusionList)
        ensures
            final(self)@ == after_submission(old(self)@, inclusion_list@),
            cache_well_formed(old(self)@) ==> cache_well_formed(final(self)@),
    {
        proof {
            if cache_well_formed(old(self)@) {
                lemma_submission_keeps_well_formed(old(self)@, inclusion_list@);
            }
        }
        let slot = inclusion_list.message.slot;
        let validator_index = inclusion_list.message.validator_index;
        let mut inner = match self.inner_map.remove(&slot) {
            Some(inner) => inner,
            None => {
                assert(self@ =~= old(self)@);
                return;
            },
        };
        proof {
            assert(old(self)@.contains_key(slot));
            assert(old(self)@[slot] == inner@);
        }
        if inner.inclusion_list_equivocators.contains(&validator_index) {
            self.inner_map.insert(slot, inner);
            assert(self@ =~= old(self)@);
            return;
        }
        let seen = inner.inclusion_lists_seen.contains(&validator_index);
        let known = contains_list(&inner.inclusion_lists, &inclusion_list);
        if seen && !known {
            inner.inclusion_list_equivocators.insert(validator_index);
            self.inner_map.insert(slot, inner);
            assert(self@ =~= after_submission(old(self)@, inclusion_list@));
            return;
        }
        // Skip inserting into the cache if we've already seen an identical list.
        if seen {
            self.inner_map.insert(slot, inner);
            assert(self@ =~= old(self)@);
            return;
        }
        let ghost start = inner@;
        let ghost txs = transactions_view(inclusion_list.message.transactions@);
        let ghost target = merge_transactions(start.transactions, txs);
        let mut i: usize = 0;
        assert(txs.skip(0) =~= txs);
        while i < inclusion_list.message.transactions.len()
            invariant
                i <= inclusion_list.message.transactions@.len(),
                txs == transactions_view(inclusion_list.message.transactions@),
                merge_transactions(transactions_view(inner.inclusion_list_transactions@), txs.skip(i as int)) == target,
                inner@.lists == start.lists,
                inner@.seen == start.seen,
                inner@.equivocators == start.equivocators,
            decreases inclusion_list.message.transactions@.len() - i,
        {
            let ghost acc = transactions_view(inner.inclusion_list_transactions@);
            let transaction = &inclusion_list.message.transactions[i];
            proof {
                assert(txs.skip(i as int).drop_first() =~= txs.skip(i + 1));
                assert(txs.skip(i as int)[0] == transaction@);
            }
            if !contains_transaction(&inner.inclusion_list_transactions, transaction) {
                inner.inclusion_list_transactions.push(copy_bytes(transaction));
                assert(transactions_view(inner.inclusion_list_transactions@) =~= acc.push(transaction@));
            }
            i = i + 1;
        }
        proof {
            assert(txs.skip(i as int) =~= Seq::<Seq<u8>>::empty());
        }
        inner.inclusion_lists_seen.insert(validator_index);
        inner.inclusion_lists.push(inclusion_list);
        proof {
            assert(inner@.lists =~= start.lists.push(inclusion_list@));
        }
        self.inner_map.insert(slot, inner);
        assert(self@ =~= after_submission(old(self)@, inclusion_list@));
    }

    /// Whether `validator_index` equivocated in the open slot `slot`.
    pub fn is_equivocator(&self, slot: Slot, validator_index: u64) -> (r: bool)
        ensures
            r == (self@.contains_key(slot) && self@[slot].equivocators.contains(validator_index)),
    {
        match self.inner_map.get(&slot) {
            Some(inner) => inner.inclusion_list_equivocators.contains(&validator_index),
            None => false,
        }
    }

    /// The transactions accepted for `slot`, each once, in the order they
    /// were first seen; `None` when the slot is not open.
    pub fn get_inclusion_list_transactions(&self, slot: Slot) -> (r: Option<Vec<Transaction>>)
        ensures
            match r {
                None => !self@.contains_key(slot),
                Some(txs) => self@.contains_key(slot) && transactions_view(txs@)
                    == self@[slot].transactions,
            },
    {
        let inner = match self.inner_map.get(&slot) {
            Some(inner) => inner,
            None => {
                return None;
            },
        };
        let mut il: Vec<Transaction> = Vec::new();
        let mut i: usize = 0;
        while i < inner.inclusion_list_transactions.len()
            invariant
                i <= inner.inclusion_list_transactions@.len(),
                il@.len() == i,
                forall|j: int| 0 <= j < i ==> il@[j]@ == inner.inclusion_list_transactions@[j]@,
            decreases inner.inclusion_list_transactions@.len() - i,
        {
            il.push(copy_bytes(&inner.inclusion_list_transactions[i]));
            i = i + 1;
        }
        assert(transactions_view(il@) =~= transactions_view(inner.inclusion_list_transactions@));
        Some(il)
    }
}

} // verus!
