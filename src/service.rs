//! The decisions of the validator-side service that, three quarters into each
//! slot, fetches one inclusion list from a beacon node, has it signed by every
//! validator with an inclusion-list duty for that slot, and publishes the
//! signed lists.

use vstd::prelude::*;
use crate::types::{InclusionListDuty, SignedInclusionList, SignedInclusionListView, Slot};

verus! {

/// What the service loop does next.
#[derive(Debug, PartialEq, Eq, Clone, Copy)]
pub enum ServiceStep {
    /// Wait `delay_ms`, then produce the slot's inclusion lists.
    Produce { delay_ms: u64 },
    /// The clock could not be read: wait `delay_ms` and look again.
    Retry { delay_ms: u64 },
}

/// The next step of the service loop, in milliseconds: with the time to the
/// next slot known, wake three quarters of a slot after that slot starts
/// (saturating at `u64::MAX`); without it, wait one slot and retry.
pub fn next_service_step(duration_to_next_slot_ms: Option<u64>, slot_duration_ms: u64) -> (r:
    ServiceStep)
    ensures
        r == match duration_to_next_slot_ms {
            Some(d) => ServiceStep::Produce {
                delay_ms: if d + (3 * slot_duration_ms) / 4 <= u64::MAX {
                    (d + (3 * slot_duration_ms) / 4) as u64
                } else {
                    u64::MAX
                },
            },
            None => ServiceStep::Retry { delay_ms: slot_duration_ms },
        },
{
    match duration_to_next_slot_ms {
        Some(d) => {
            let three_quarters = ((slot_duration_ms as u128) * 3 / 4) as u64;
            ServiceStep::Produce { delay_ms: d.saturating_add(three_quarters) }
        },
        None => ServiceStep::Retry { delay_ms: slot_duration_ms },
    }
}

/// The duties of `duties` whose slot is `slot`, in order.
pub open spec fn duties_at(slot: Slot, duties: Seq<InclusionListDuty>) -> Seq<InclusionListDuty>
    decreases duties.len(),
{
    if duties.len() == 0 {
        Seq::empty()
    } else {
        let rest = duties_at(slot, duties.drop_last());
        if duties.last().slot == slot {
            rest.push(duties.last())
        } else {
            rest
        }
    }
}

/// The duties that may sign a list fetched for `list_slot`: a duty for
/// another slot is inconsistent and is skipped.
pub fn duties_for_list(list_slot: Slot, duties: &Vec<InclusionListDuty>) -> (r: Vec<
    InclusionListDuty,
>)
    ensures
        r@ == duties_at(list_slot, duties@),
{
    let mut r: Vec<InclusionListDuty> = Vec::new();
    let mut i: usize = 0;
    while i < duties.len()
        invariant
            i <= duties@.len(),
            r@ == duties_at(list_slot, duties@.subrange(0, i as int)),
        decreases duties@.len() - i,
    {
        proof {
            assert(duties@.subrange(0, i + 1).drop_last() =~= duties@.subrange(0, i as int));
        }
        let duty = duties[i];
        if duty.slot == list_slot {
            r.push(duty);
        }
        i = i + 1;
    }
    assert(duties@.subrange(0, i as int) =~= duties@);
    r
}

/// What signing the fetched list for one duty gave.
#[derive(Debug)]
pub enum SigningOutcome {
    /// Signed by the validator with this index.
    Signed(SignedInclusionList, u64),
    /// The validator's key is no longer known (it may have been removed).
    UnknownPubkey,
    /// Signing failed.
    Failed,
}

/// The signed lists of `outcomes` with their validators' indices, in order.
pub open spec fn signed_of(outcomes: Seq<SigningOutcome>) -> Seq<(SignedInclusionListView, u64)>
    decreases outcomes.len(),
{
    if outcomes.len() == 0 {
        Seq::empty()
    } else {
        let rest = signed_of(outcomes.drop_last());
        match outcomes.last() {
            SigningOutcome::Signed(l, i) => rest.push((l@, i)),
            _ => rest,
        }
    }
}

/// Splits the successful outcomes into the lists to publish and the indices
/// of the validators that signed them.
pub fn collect_signed(outcomes: Vec<SigningOutcome>) -> (r: (Vec<SignedInclusionList>, Vec<u64>))
    ensures
        r.0@.len() == signed_of(outcomes@).len(),
        r.1@.len() == signed_of(outcomes@).len(),
        forall|k: int|
            0 <= k < r.0@.len() ==> (#[trigger] r.0@[k])@ == signed_of(outcomes@)[k].0 && r.1@[k]
                == signed_of(outcomes@)[k].1,
{
    let ghost all = outcomes@;
    let count: usize = outcomes.len();
    let mut rest = outcomes;
    let mut lists: Vec<SignedInclusionList> = Vec::new();
    let mut indices: Vec<u64> = Vec::new();
    let mut i: usize = 0;
    while rest.len() > 0
        invariant
            all.len() == count,
            i + rest@.len() == all.len(),
            rest@ == all.subrange(i as int, all.len() as int),
            lists@.len() == signed_of(all.subrange(0, i as int)).len(),
            indices@.len() == signed_of(all.subrange(0, i as int)).len(),
            forall|k: int|
                0 <= k < lists@.len() ==> (#[trigger] lists@[k])@ == signed_of(
                    all.subrange(0, i as int),
                )[k].0 && indices@[k] == signed_of(all.subrange(0, i as int))[k].1,
        decreases rest@.len(),
    {
        let outcome = rest.remove(0);
        proof {
            let next = (i + 1) as int;
            assert(all.subrange(0, next).drop_last() =~= all.subrange(0, i as int));
            assert(all.subrange(0, next).last() == outcome);
        }
        match outcome {
            SigningOutcome::Signed(il, validator_index) => {
                lists.push(il);
                indices.push(validator_index);
            },
            _ => {},
        }
        i = i + 1;
        assert(rest@ =~= all.subrange(i as int, all.len() as int));
    }
    assert(all.subrange(0, i as int) =~= all);
    (lists, indices)
}

} // verus!
