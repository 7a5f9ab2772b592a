//! What the dispatcher does after the recovery flows: fetching missing blobs
//! or columns from the execution engine, and reconstructing data columns from
//! the erasure code. Failures are soft: they are reported and nothing is
//! retried here; the next missing-components signal triggers a new attempt.

use vstd::prelude::*;
use crate::publication::PublicationSchedule;
use crate::types::{Hash256, Slot};

verus! {

/// Where a block stands once new components were processed.
#[derive(Debug, PartialEq, Eq, Clone, Copy)]
pub enum AvailabilityProcessingStatus {
    /// The block was imported.
    Imported(Hash256),
    /// The block at this slot and root still misses components.
    MissingComponents(Slot, Hash256),
}

/// The outcome of fetching a block's blobs from the execution engine.
#[derive(Debug, PartialEq, Eq, Clone, Copy)]
pub enum EngineFetchOutcome {
    /// The fetched components were processed.
    Processed(AvailabilityProcessingStatus),
    /// The fetch completed without anything to import.
    NothingImported,
    /// The block had already been fully imported.
    DuplicateFullyImported,
    /// Fetching or processing failed.
    Failed,
}

/// What follows a recovery attempt.
#[derive(Debug, PartialEq, Eq, Clone, Copy)]
pub enum FollowUp {
    /// The block was imported: recompute the head.
    RecomputeHead,
    /// Nothing to do.
    Nothing,
    /// Report the failure; nothing is retried.
    ReportError,
}

/// After an engine fetch: an import recomputes the head, a failure other
/// than a duplicate import is reported, and anything else needs nothing.
pub fn after_engine_fetch(outcome: EngineFetchOutcome) -> (r: FollowUp)
    ensures
        r == match outcome {
            EngineFetchOutcome::Processed(AvailabilityProcessingStatus::Imported(_)) => FollowUp::RecomputeHead,
            EngineFetchOutcome::Failed => FollowUp::ReportError,
            _ => FollowUp::Nothing,
        },
{
    match outcome {
        EngineFetchOutcome::Processed(AvailabilityProcessingStatus::Imported(_)) => FollowUp::RecomputeHead,
        EngineFetchOutcome::Processed(AvailabilityProcessingStatus::MissingComponents(_, _)) => FollowUp::Nothing,
        EngineFetchOutcome::NothingImported => FollowUp::Nothing,
        EngineFetchOutcome::DuplicateFullyImported => FollowUp::Nothing,
        EngineFetchOutcome::Failed => FollowUp::ReportError,
    }
}

/// Artifacts recovered for one block.
pub enum Recovered<B, C> {
    Blobs(Vec<B>),
    DataColumns(Vec<C>),
}

/// A gradual publication of recovered artifacts.
pub enum Publication<B, C> {
    Blobs(PublicationSchedule<B>),
    DataColumns(PublicationSchedule<C>),
}

/// The gradual publication of what the engine returned: none unless
/// `publish` holds; blobs in doubling batches; columns in fixed batches of
/// `number_of_columns / batches`.
pub fn schedule_recovered<B, C>(
    recovered: Recovered<B, C>,
    publish: bool,
    number_of_columns: usize,
    batches: usize,
) -> (r: Option<Publication<B, C>>)
    requires
        0 < batches <= number_of_columns,
    ensures
        !publish ==> r is None,
        publish ==> match (recovered, r) {
            (Recovered::Blobs(b), Some(Publication::Blobs(s))) => {
                &&& s.well_formed()
                &&& s@.pending.to_multiset() == b@.to_multiset()
                &&& s@.batch_size == 1
                &&& s@.doubling
            },
            (Recovered::DataColumns(c), Some(Publication::DataColumns(s))) => {
                &&& s.well_formed()
                &&& s@.pending.to_multiset() == c@.to_multiset()
                &&& s@.batch_size == number_of_columns / batches
                &&& !s@.doubling
            },
            _ => false,
        },
{
    if !publish {
        return None;
    }
    match recovered {
        Recovered::Blobs(blobs) => Some(Publication::Blobs(PublicationSchedule::for_blobs(blobs))),
        Recovered::DataColumns(columns) => Some(
            Publication::DataColumns(
                PublicationSchedule::for_data_columns(columns, number_of_columns, batches),
            ),
        ),
    }
}

/// Whether to reconstruct a block's data columns: only a node that custodies
/// every column does, and only with at least half of them but not all.
pub fn should_attempt_reconstruction(
    custody_all_columns: bool,
    available: usize,
    number_of_columns: usize,
) -> (r: bool)
    ensures
        r == (custody_all_columns && 2 * available >= number_of_columns && available
            < number_of_columns),
{
    custody_all_columns && available >= number_of_columns - number_of_columns / 2 && available
        < number_of_columns
}

/// The outcome of reconstructing a block's data columns.
pub enum ReconstructionOutcome<C> {
    /// The columns were reconstructed and processed; these are the ones to
    /// publish.
    Reconstructed(AvailabilityProcessingStatus, Vec<C>),
    /// Reconstruction was not required.
    NotRequired,
    /// Reconstruction failed.
    Failed,
}

/// What follows a reconstruction attempt.
pub struct ReconstructionFollowUp<C> {
    /// The columns to publish gradually, if any.
    pub publish: Option<Vec<C>>,
    pub follow_up: FollowUp,
    /// The block's status when reconstruction took place.
    pub result: Option<AvailabilityProcessingStatus>,
}

/// After a reconstruction: reconstructed columns are published, an import
/// recomputes the head, and the status is returned; a failure is reported;
/// a reconstruction that was not required needs nothing.
pub fn after_reconstruction<C>(outcome: ReconstructionOutcome<C>) -> (r: ReconstructionFollowUp<C>)
    ensures
        match outcome {
            ReconstructionOutcome::Reconstructed(status, columns) => {
                &&& r.publish == Some(columns)
                &&& r.result == Some(status)
                &&& r.follow_up == if status is Imported {
                    FollowUp::RecomputeHead
                } else {
                    FollowUp::Nothing
                }
            },
            ReconstructionOutcome::NotRequired => {
                &&& r.publish is None
                &&& r.result is None
                &&& r.follow_up == FollowUp::Nothing
            },
            ReconstructionOutcome::Failed => {
                &&& r.publish is None
                &&& r.result is None
                &&& r.follow_up == FollowUp::ReportError
            },
        },
{
    match outcome {
        ReconstructionOutcome::Reconstructed(status, columns) => {
            let follow_up = match status {
                AvailabilityProcessingStatus::Imported(_) => FollowUp::RecomputeHead,
                AvailabilityProcessingStatus::MissingComponents(_, _) => FollowUp::Nothing,
            };
            ReconstructionFollowUp { publish: Some(columns), follow_up, result: Some(status) }
        },
        ReconstructionOutcome::NotRequired => ReconstructionFollowUp {
            publish: None,
            follow_up: FollowUp::Nothing,
            result: None,
        },
        ReconstructionOutcome::Failed => ReconstructionFollowUp {
            publish: None,
            follow_up: FollowUp::ReportError,
            result: None,
        },
    }
}

} // verus!
