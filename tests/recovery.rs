use inclusion_gossip::recovery::{
    after_engine_fetch, after_reconstruction, schedule_recovered, should_attempt_reconstruction,
    AvailabilityProcessingStatus, EngineFetchOutcome, FollowUp, Publication, ReconstructionOutcome,
    Recovered,
};

#[test]
fn engine_fetch_follow_ups() {
    let imported = AvailabilityProcessingStatus::Imported([1u8; 32]);
    let missing = AvailabilityProcessingStatus::MissingComponents(9, [1u8; 32]);
    assert_eq!(after_engine_fetch(EngineFetchOutcome::Processed(imported)), FollowUp::RecomputeHead);
    assert_eq!(after_engine_fetch(EngineFetchOutcome::Processed(missing)), FollowUp::Nothing);
    assert_eq!(after_engine_fetch(EngineFetchOutcome::NothingImported), FollowUp::Nothing);
    assert_eq!(after_engine_fetch(EngineFetchOutcome::DuplicateFullyImported), FollowUp::Nothing);
    assert_eq!(after_engine_fetch(EngineFetchOutcome::Failed), FollowUp::ReportError);
}

#[test]
fn recovered_artifacts_published_only_on_request() {
    let r: Option<Publication<u8, u16>> = schedule_recovered(Recovered::Blobs(vec![1, 2, 3]), false, 128, 4);
    assert!(r.is_none());
    match schedule_recovered::<u8, u16>(Recovered::Blobs(vec![1, 2, 3]), true, 128, 4) {
        Some(Publication::Blobs(mut s)) => {
            assert_eq!(s.next_batch().map(|b| b.len()), Some(1));
            assert_eq!(s.next_batch().map(|b| b.len()), Some(2));
            assert!(s.next_batch().is_none());
        }
        _ => panic!("expected a blob publication"),
    }
    match schedule_recovered::<u8, u16>(Recovered::DataColumns((0..128).collect()), true, 128, 4) {
        Some(Publication::DataColumns(mut s)) => {
            assert_eq!(s.next_batch().map(|b| b.len()), Some(32));
        }
        _ => panic!("expected a column publication"),
    }
}

#[test]
fn reconstruction_needs_half_but_not_all() {
    assert!(should_attempt_reconstruction(true, 64, 128));
    assert!(should_attempt_reconstruction(true, 127, 128));
    assert!(!should_attempt_reconstruction(true, 63, 128));
    assert!(!should_attempt_reconstruction(true, 128, 128));
    assert!(!should_attempt_reconstruction(false, 100, 128));
    assert!(should_attempt_reconstruction(true, 2, 3));
    assert!(!should_attempt_reconstruction(true, 1, 3));
}

#[test]
fn reconstruction_follow_ups() {
    let imported = AvailabilityProcessingStatus::Imported([2u8; 32]);
    let r = after_reconstruction(ReconstructionOutcome::Reconstructed(imported, vec![5u8, 6]));
    assert_eq!(r.publish, Some(vec![5, 6]));
    assert_eq!(r.follow_up, FollowUp::RecomputeHead);
    assert_eq!(r.result, Some(imported));
    let missing = AvailabilityProcessingStatus::MissingComponents(3, [2u8; 32]);
    let r = after_reconstruction(ReconstructionOutcome::Reconstructed(missing, vec![7u8]));
    assert_eq!(r.publish, Some(vec![7]));
    assert_eq!(r.follow_up, FollowUp::Nothing);
    assert_eq!(r.result, Some(missing));
    let r = after_reconstruction(ReconstructionOutcome::<u8>::NotRequired);
    assert_eq!((r.publish, r.follow_up, r.result), (None, FollowUp::Nothing, None));
    let r = after_reconstruction(ReconstructionOutcome::<u8>::Failed);
    assert_eq!((r.publish, r.follow_up, r.result), (None, FollowUp::ReportError, None));
}
