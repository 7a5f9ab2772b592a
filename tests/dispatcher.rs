use std::time::Duration;
use inclusion_gossip::processor::{InvalidBlockStorage, NetworkBeaconProcessor};
use inclusion_gossip::work::{
    notify_execution_layer, BlockProcessType, ChainSegmentProcessId, NotifyExecutionLayer,
    Strategies, Work, WorkEvent,
};
use tokio::sync::mpsc::error::{TryRecvError, TrySendError};
use tokio::sync::mpsc::{channel, Receiver};

fn processor(capacity: usize) -> (NetworkBeaconProcessor, Receiver<WorkEvent>) {
    let (tx, rx) = channel(capacity);
    (NetworkBeaconProcessor::new(tx, InvalidBlockStorage::Disabled), rx)
}

fn ts() -> Duration {
    Duration::from_millis(1500)
}

#[test]
fn attestation_is_droppable_and_batchable() {
    let (p, mut rx) = processor(4);
    p.send_unaggregated_attestation(vec![1], vec![2], vec![3, 4], 9, true, ts()).unwrap();
    let ev = rx.try_recv().unwrap();
    assert!(ev.drop_during_sync);
    assert_eq!(ev.work.strategies(), Strategies::IndividualOrBatch);
    match ev.work {
        Work::GossipAttestation { attestation } => {
            assert_eq!(attestation.message_id, vec![1]);
            assert_eq!(attestation.peer_id, vec![2]);
            assert_eq!(attestation.attestation, vec![3, 4]);
            assert_eq!(attestation.subnet_id, 9);
            assert!(attestation.should_import);
            assert_eq!(attestation.seen_timestamp, ts());
        }
        other => panic!("unexpected work {:?}", other),
    }
}

#[test]
fn aggregate_keeps_its_block_root() {
    let (p, mut rx) = processor(4);
    p.send_aggregated_attestation(vec![1], vec![2], vec![3], [9u8; 32], ts()).unwrap();
    let ev = rx.try_recv().unwrap();
    assert!(ev.drop_during_sync);
    assert_eq!(ev.work.strategies(), Strategies::IndividualOrBatch);
    match ev.work {
        Work::GossipAggregate { aggregate } => assert_eq!(aggregate.beacon_block_root, [9u8; 32]),
        other => panic!("unexpected work {:?}", other),
    }
}

#[test]
fn block_is_not_droppable() {
    let (p, mut rx) = processor(4);
    p.send_gossip_beacon_block(vec![1], vec![2], b"lighthouse".to_vec(), vec![7], ts()).unwrap();
    let ev = rx.try_recv().unwrap();
    assert!(!ev.drop_during_sync);
    assert_eq!(ev.work.strategies(), Strategies::IndividualOnly);
    assert!(matches!(ev.work, Work::GossipBlock { .. }));
}

#[test]
fn drop_policy_per_category() {
    let (p, mut rx) = processor(64);
    p.send_gossip_blob_sidecar(vec![], vec![], vec![], 0, vec![], ts()).unwrap();
    p.send_gossip_data_column_sidecar(vec![], vec![], vec![], 3, vec![], ts()).unwrap();
    p.send_gossip_sync_signature(vec![], vec![], vec![], 1, ts()).unwrap();
    p.send_gossip_sync_contribution(vec![], vec![], vec![], ts()).unwrap();
    p.send_gossip_voluntary_exit(vec![], vec![], vec![]).unwrap();
    p.send_gossip_proposer_slashing(vec![], vec![], vec![]).unwrap();
    p.send_gossip_light_client_finality_update(vec![], vec![], vec![], ts()).unwrap();
    p.send_gossip_light_client_optimistic_update(vec![], vec![], vec![], ts()).unwrap();
    p.send_gossip_attester_slashing(vec![], vec![], vec![]).unwrap();
    p.send_gossip_bls_to_execution_change(vec![], vec![], vec![]).unwrap();
    p.send_rpc_beacon_block([0u8; 32], vec![], ts(), BlockProcessType::SingleBlock { id: 1 }).unwrap();
    p.send_rpc_custody_columns([0u8; 32], vec![], ts(), BlockProcessType::SingleCustodyColumn(2))
        .unwrap();
    p.send_rpc_validate_data_columns([0u8; 32], vec![], ts(), 5).unwrap();
    p.send_sampling_completed([0u8; 32]).unwrap();
    p.send_status_message(vec![], vec![]).unwrap();
    p.send_blocks_by_range_request(vec![], 1, 2, 3, vec![]).unwrap();
    p.send_blocks_by_roots_request(vec![], 1, 2, 3, vec![]).unwrap();
    p.send_blobs_by_range_request(vec![], 1, 2, 3, vec![]).unwrap();
    p.send_blobs_by_roots_request(vec![], 1, 2, 3, vec![]).unwrap();
    p.send_data_columns_by_roots_request(vec![], 1, 2, 3, vec![]).unwrap();
    p.send_data_columns_by_range_request(vec![], 1, 2, 3, vec![]).unwrap();
    p.send_light_client_bootstrap_request(vec![], 1, 2, 3, vec![]).unwrap();
    p.send_light_client_optimistic_update_request(vec![], 1, 2, 3).unwrap();
    p.send_light_client_finality_update_request(vec![], 1, 2, 3).unwrap();
    p.send_light_client_updates_by_range_request(vec![], 1, 2, 3, vec![]).unwrap();
    let expected = [
        false, false, true, true, false, false, true, true, false, false, false, false, false,
        false, false, false, false, false, false, false, false, true, true, true, true,
    ];
    for want in expected {
        let ev = rx.try_recv().unwrap();
        assert_eq!(ev.drop_during_sync, want, "{:?}", ev.work);
        assert_eq!(ev.work.drop_during_sync(), want);
    }
    assert_eq!(rx.try_recv().err(), Some(TryRecvError::Empty));
}

#[test]
fn full_channel_sheds_the_event() {
    let (p, mut rx) = processor(1);
    p.send_gossip_voluntary_exit(vec![1], vec![1], vec![1]).unwrap();
    let r = p.send_gossip_voluntary_exit(vec![2], vec![2], vec![2]);
    match r {
        Err(TrySendError::Full(ev)) => match ev.work {
            Work::GossipVoluntaryExit { message_id, .. } => assert_eq!(message_id, vec![2]),
            other => panic!("unexpected work {:?}", other),
        },
        other => panic!("expected a full channel, got {:?}", other.is_ok()),
    }
    // Only the first event is queued.
    assert_eq!(p.beacon_processor_send.capacity(), 0);
    let first = rx.try_recv().unwrap();
    assert!(matches!(first.work, Work::GossipVoluntaryExit { .. }));
    assert_eq!(rx.try_recv().err(), Some(TryRecvError::Empty));
}

#[test]
fn closed_channel_returns_the_event() {
    let (p, rx) = processor(2);
    drop(rx);
    match p.send_sampling_completed([4u8; 32]) {
        Err(TrySendError::Closed(ev)) => {
            assert!(!ev.drop_during_sync);
            assert!(matches!(ev.work, Work::SamplingResult { block_root } if block_root == [4u8; 32]));
        }
        _ => panic!("expected a closed channel"),
    }
}

#[test]
fn rpc_blobs_without_any_blob_sends_nothing() {
    let (p, mut rx) = processor(1);
    p.send_rpc_blobs([0u8; 32], vec![None, None], ts(), BlockProcessType::SingleBlob { id: 3 })
        .unwrap();
    p.send_rpc_blobs([0u8; 32], vec![], ts(), BlockProcessType::SingleBlob { id: 3 }).unwrap();
    assert_eq!(rx.try_recv().err(), Some(TryRecvError::Empty));
    p.send_rpc_blobs([0u8; 32], vec![None, Some(vec![1])], ts(), BlockProcessType::SingleBlob { id: 3 })
        .unwrap();
    let ev = rx.try_recv().unwrap();
    assert!(!ev.drop_during_sync);
    match ev.work {
        Work::RpcBlobs { blobs, .. } => assert_eq!(blobs, vec![None, Some(vec![1])]),
        other => panic!("unexpected work {:?}", other),
    }
}

#[test]
fn backfill_segments_have_their_own_category() {
    let (p, mut rx) = processor(4);
    p.send_chain_segment(ChainSegmentProcessId::BackSyncBatchId(10), vec![vec![1]]).unwrap();
    p.send_chain_segment(ChainSegmentProcessId::RangeBatchId(1, 10), vec![vec![2]]).unwrap();
    let backfill = rx.try_recv().unwrap();
    assert!(!backfill.drop_during_sync);
    assert!(matches!(backfill.work, Work::ChainSegmentBackfill { .. }));
    let forward = rx.try_recv().unwrap();
    assert!(!forward.drop_during_sync);
    assert!(matches!(forward.work, Work::ChainSegment { .. }));
}

#[test]
fn execution_layer_notified_unless_syncing_finalized() {
    assert_eq!(notify_execution_layer(true), NotifyExecutionLayer::No);
    assert_eq!(notify_execution_layer(false), NotifyExecutionLayer::Yes);
}

#[test]
fn work_event_new_sets_the_policy_flag() {
    let ev = WorkEvent::new(Work::LightClientOptimisticUpdateRequest {
        from: inclusion_gossip::work::InboundRequest {
            peer_id: vec![],
            connection_id: 0,
            substream_id: 0,
            request_id: 0,
        },
    });
    assert!(ev.drop_during_sync);
    let ev = WorkEvent::new(Work::Status { peer_id: vec![], message: vec![] });
    assert!(!ev.drop_during_sync);
}
