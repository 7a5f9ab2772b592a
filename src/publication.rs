//! Gradual publication of recovered blobs and data columns: the artifacts are
//! shuffled, then handed out in batches, one batch per round. Blob batches
//! start at one and double each round; data-column batches have a fixed size.

use vstd::prelude::*;
use rand::seq::SliceRandom;
use vstd::arithmetic::power2::{pow2, lemma_pow2_unfold};
use vstd::arithmetic::div_mod::{lemma_div_plus_one, lemma_fundamental_div_mod};

verus! {

/// Blob batches grow by this factor from one round to the next.
pub const BLOB_PUBLICATION_EXP_FACTOR: usize = 2;

/// Relies on rand's `SliceRandom::shuffle` with the thread-local generator:
/// it only swaps elements, so the result is a permutation of the input. (The
/// generator panics only if the operating system cannot seed it.)
#[verifier::external_body]
fn shuffle<T>(items: &mut Vec<T>)
    ensures
        final(items)@.len() == old(items)@.len(),
        final(items)@.to_multiset() == old(items)@.to_multiset(),
{
    items.shuffle(&mut rand::thread_rng());
}

/// The number of rounds that hand out `remaining` artifacts, starting with
/// batches of `batch_size`, doubled after each round when `doubling` holds.
pub open spec fn rounds(remaining: nat, batch_size: nat, doubling: bool) -> nat
    decreases remaining,
{
    if remaining == 0 || batch_size == 0 {
        0
    } else if remaining <= batch_size {
        1
    } else {
        1 + rounds(
            (remaining - batch_size) as nat,
            if doubling {
                2 * batch_size
            } else {
                batch_size
            },
            doubling,
        )
    }
}

/// What a schedule still has to hand out, and how.
pub struct PublicationScheduleView<T> {
    /// The artifacts not handed out yet, in the order they will go.
    pub pending: Seq<T>,
    /// The size of the next batch.
    pub batch_size: nat,
    /// Whether the batch size doubles after each round.
    pub doubling: bool,
}

impl<T> PublicationScheduleView<T> {
    /// The number of rounds left.
    pub open spec fn rounds_left(self) -> nat {
        rounds(self.pending.len(), self.batch_size, self.doubling)
    }
}

/// The batches in which a set of recovered artifacts is republished.
pub struct PublicationSchedule<T> {
    pending: Vec<T>,
    batch_size: usize,
    doubling: bool,
}

impl<T> View for PublicationSchedule<T> {
    type V = PublicationScheduleView<T>;

    closed spec fn view(&self) -> PublicationScheduleView<T> {
        PublicationScheduleView {
            pending: self.pending@,
            batch_size: self.batch_size as nat,
            doubling: self.doubling,
        }
    }
}

impl<T> PublicationSchedule<T> {
    /// The schedule's invariant.
    pub closed spec fn well_formed(&self) -> bool {
        &&& self.batch_size > 0
        &&& self.doubling ==> self.pending@.len() + self.batch_size <= usize::MAX + 1
    }

    /// Schedules blobs: shuffled, in batches of 1, 2, 4, ...
    pub fn for_blobs(blobs: Vec<T>) -> (r: Self)
        ensures
            r.well_formed(),
            r@.pending.to_multiset() == blobs@.to_multiset(),
            r@.pending.len() == blobs@.len(),
            r@.batch_size == 1,
            r@.doubling,
    {
        let mut pending = blobs;
        shuffle(&mut pending);
        let count: usize = pending.len();
        assert(pending@.len() == count);
        PublicationSchedule { pending, batch_size: 1, doubling: true }
    }

    /// Schedules data columns: shuffled, in batches of
    /// `number_of_columns / batches` columns, the last one possibly smaller.
    pub fn for_data_columns(columns: Vec<T>, number_of_columns: usize, batches: usize) -> (r: Self)
        requires
            0 < batches <= number_of_columns,
        ensures
            r.well_formed(),
            r@.pending.to_multiset() == columns@.to_multiset(),
            r@.pending.len() == columns@.len(),
            r@.batch_size == number_of_columns / batches,
            !r@.doubling,
    {
        let mut pending = columns;
        shuffle(&mut pending);
        let batch_size = number_of_columns / batches;
        assert(batch_size > 0) by (nonlinear_arith)
            requires
                0 < batches <= number_of_columns,
                batch_size == number_of_columns / batches,
        ;
        PublicationSchedule { pending, batch_size, doubling: false }
    }

    /// Whether every artifact has been handed out.
    pub fn is_done(&self) -> (r: bool)
        ensures
            r == (self@.pending.len() == 0),
    {
        self.pending.len() == 0
    }

    /// Hands out the next batch: the first `batch_size` pending artifacts, or
    /// all of them if fewer are left; `None` once every artifact went out.
    pub fn next_batch(&mut self) -> (r: Option<Vec<T>>)
        requires
            old(self).well_formed(),
        ensures
            final(self).well_formed(),
            final(self)@.doubling == old(self)@.doubling,
            old(self)@.pending.len() == 0 ==> r is None && final(self)@ == old(self)@,
            old(self)@.pending.len() > 0 ==> (r matches Some(batch) && ({
                let k = if old(self)@.pending.len() < old(self)@.batch_size {
                    old(self)@.pending.len()
                } else {
                    old(self)@.batch_size
                };
                &&& batch@ == old(self)@.pending.subrange(0, k as int)
                &&& final(self)@.pending == old(self)@.pending.subrange(
                    k as int,
                    old(self)@.pending.len() as int,
                )
                &&& final(self)@.pending.len() > 0 ==> final(self)@.batch_size == if old(
                    self,
                )@.doubling {
                    2 * old(self)@.batch_size
                } else {
                    old(self)@.batch_size
                }
                &&& final(self)@.rounds_left() + 1 == old(self)@.rounds_left()
            })),
    {
        let len = self.pending.len();
        if len == 0 {
            return None;
        }
        let take = if len < self.batch_size {
            len
        } else {
            self.batch_size
        };
        let mut batch = self.pending.split_off(take);
        std::mem::swap(&mut self.pending, &mut batch);
        if self.pending.len() > 0 && self.doubling {
            self.batch_size = self.batch_size * BLOB_PUBLICATION_EXP_FACTOR;
        }
        Some(batch)
    }
}

/// What happened when an artifact of a batch was marked as observed.
#[derive(Debug, PartialEq, Eq, Clone, Copy)]
pub enum Observation {
    /// Newly observed: it is published in this round.
    Fresh,
    /// Already published or received meanwhile: dropped silently.
    AlreadyKnown,
    /// Marking failed for another reason: dropped, and worth a warning.
    Failed,
}

/// The artifacts of `batch` whose observation is `Fresh`, in batch order.
pub open spec fn fresh_only<T>(batch: Seq<T>, observations: Seq<Observation>) -> Seq<T>
    decreases batch.len(),
{
    if batch.len() == 0 || observations.len() == 0 {
        Seq::empty()
    } else {
        let rest = fresh_only(batch.drop_last(), observations.drop_last());
        if observations.last() == Observation::Fresh {
            rest.push(batch.last())
        } else {
            rest
        }
    }
}

/// The part of a batch that is published this round: the artifacts that were
/// newly observed, `observations[i]` being the outcome for `batch[i]`.
pub fn publishable<T>(batch: Vec<T>, observations: &Vec<Observation>) -> (r: Vec<T>)
    requires
        batch@.len() == observations@.len(),
    ensures
        r@ == fresh_only(batch@, observations@),
{
    let ghost all = batch@;
    let count: usize = batch.len();
    let mut rest = batch;
    let mut kept: Vec<T> = Vec::new();
    let mut i: usize = 0;
    assert(all.subrange(0, 0) =~= Seq::<T>::empty());
    while rest.len() > 0
        invariant
            all.len() == observations@.len(),
            all.len() == count,
            i + rest@.len() == all.len(),
            rest@ == all.subrange(i as int, all.len() as int),
            kept@ == fresh_only(all.subrange(0, i as int), observations@.subrange(0, i as int)),
        decreases rest@.len(),
    {
        let item = rest.remove(0);
        proof {
            let next = (i + 1) as int;
            assert(all.subrange(0, next).drop_last() =~= all.subrange(0, i as int));
            assert(observations@.subrange(0, next).drop_last() =~= observations@.subrange(
                0,
                i as int,
            ));
            assert(all.subrange(0, next).last() == item);
        }
        if matches!(observations[i], Observation::Fresh) {
            kept.push(item);
        }
        i = i + 1;
        assert(rest@ =~= all.subrange(i as int, all.len() as int));
    }
    assert(all.subrange(0, i as int) =~= all);
    assert(observations@.subrange(0, i as int) =~= observations@);
    kept
}

/// Starting from batches of `pow2(j)` that double, `r` artifacts take `k`
/// rounds with `pow2(j + k - 1) <= r + pow2(j) - 1 < pow2(j + k)`.
proof fn lemma_doubling_rounds(r: nat, j: nat)
    requires
        r > 0,
    ensures
        rounds(r, pow2(j), true) >= 1,
        pow2((j + rounds(r, pow2(j), true) - 1) as nat) <= r + pow2(j) - 1,
        r + pow2(j) - 1 < pow2(j + rounds(r, pow2(j), true)),
    decreases r,
{
    lemma_pow2_unfold(j + 1);
    vstd::arithmetic::power2::lemma_pow2_pos(j);
    if r > pow2(j) {
        lemma_doubling_rounds((r - pow2(j)) as nat, j + 1);
    }
}

/// Blob publication with `n` artifacts takes `ceil(log2(n + 1))` rounds: no
/// round for no blob, else the `k` with `pow2(k - 1) <= n < pow2(k)`.
pub proof fn lemma_blob_rounds(n: nat)
    ensures
        n == 0 ==> rounds(n, 1, true) == 0,
        n > 0 ==> rounds(n, 1, true) >= 1 && pow2((rounds(n, 1, true) - 1) as nat) <= n < pow2(
            rounds(n, 1, true),
        ),
{
    if n > 0 {
        assert(pow2(0) == 1) by {
            reveal(vstd::arithmetic::power::pow);
        }
        lemma_doubling_rounds(n, 0);
    }
}

/// Fixed batches of `batch_size` hand out `n` artifacts in
/// `ceil(n / batch_size)` rounds.
proof fn lemma_fixed_rounds(n: nat, batch_size: nat)
    requires
        batch_size > 0,
    ensures
        rounds(n, batch_size, false) == (n + batch_size - 1) / (batch_size as int),
    decreases n,
{
    let b = batch_size as int;
    if n == 0 {
        assert((b - 1) / b == 0) by (nonlinear_arith)
            requires b > 0;
    } else if n <= batch_size {
        assert((n + b - 1) / b == 1) by (nonlinear_arith)
            requires b > 0, 0 < n <= b;
    } else {
        lemma_fixed_rounds((n - batch_size) as nat, batch_size);
        lemma_div_plus_one(n - 1, b);
    }
}

/// Data-column publication of `count` columns takes `ceil(count / size)`
/// rounds of `size = number_of_columns / batches` columns, the last one
/// possibly partial; with all the columns, and `batches` dividing their
/// number, it takes exactly `batches` rounds.
pub proof fn lemma_data_column_rounds(count: nat, number_of_columns: nat, batches: nat)
    requires
        0 < batches <= number_of_columns,
    ensures
        number_of_columns / batches > 0,
        rounds(count, number_of_columns / batches, false) == (count + number_of_columns / batches
            - 1) / ((number_of_columns / batches) as int),
        count == number_of_columns && number_of_columns % batches == 0 ==> rounds(
            count,
            number_of_columns / batches,
            false,
        ) == batches,
{
    let size = number_of_columns / batches;
    assert(size > 0) by (nonlinear_arith)
        requires 0 < batches <= number_of_columns, size == number_of_columns / batches;
    lemma_fixed_rounds(count, size);
    if count == number_of_columns && number_of_columns % batches == 0 {
        lemma_fundamental_div_mod(number_of_columns as int, batches as int);
        assert(count == batches * size);
        assert((count + size - 1) / (size as int) == batches) by (nonlinear_arith)
            requires count == batches * size, size > 0, batches > 0;
    }
}

} // verus!
