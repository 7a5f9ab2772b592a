//! The work dispatcher: every inbound network event becomes a work event that
//! is offered, without waiting, to the bounded channel of the worker pool. A
//! full channel sheds the event: it is never retried and the producer never
//! blocks.

use vstd::prelude::*;
use std::path::PathBuf;
use std::time::Duration;
use tokio::sync::mpsc::Sender;
use tokio::sync::mpsc::error::TrySendError;
use crate::types::Hash256;
use crate::work::{
    event_for, BlockProcessType, ChainSegmentProcessId, Client, ConnectionId, Encoded,
    GossipAggregatePackage, GossipAttestationPackage, InboundRequest, MessageId, PeerId, RequestId,
    SamplingId, SubstreamId, Work, WorkEvent,
};

verus! {

#[verifier::external_type_specification]
#[verifier::external_body]
#[verifier::reject_recursive_types(T)]
pub struct ExSender<T>(Sender<T>);

#[verifier::external_type_specification]
#[verifier::reject_recursive_types(T)]
pub struct ExTrySendError<T>(TrySendError<T>);

#[verifier::external_type_specification]
#[verifier::external_body]
pub struct ExPathBuf(PathBuf);

/// Relies on tokio's `Sender::try_send`: it never waits, and when the channel
/// is full or closed the message comes back in the error, unchanged (and so
/// was not queued).
pub assume_specification<T>[ Sender::<T>::try_send ](sender: &Sender<T>, message: T) -> (r: Result<
    (),
    TrySendError<T>,
>)
    ensures
        r matches Err(TrySendError::Full(m)) ==> m == message,
        r matches Err(TrySendError::Closed(m)) ==> m == message,
;

/// The failure to hand an event to the worker pool: the channel was full or
/// closed, and the event comes back.
pub type Error = TrySendError<WorkEvent>;

/// The event that a failed send handed back.
pub open spec fn returned_event(e: Error) -> WorkEvent {
    match e {
        TrySendError::Full(m) => m,
        TrySendError::Closed(m) => m,
    }
}

/// Defines if and where we will store the SSZ files of invalid blocks.
pub enum InvalidBlockStorage {
    Enabled(PathBuf),
    Disabled,
}

/// Whether a blob list holds at least one blob.
pub open spec fn has_blob(blobs: Seq<Option<Encoded>>) -> bool {
    exists|i: int| 0 <= i < blobs.len() && #[trigger] blobs[i] is Some
}

/// The interface through which the network hands work to the worker pool.
pub struct NetworkBeaconProcessor {
    pub beacon_processor_send: Sender<WorkEvent>,
    pub invalid_block_storage: InvalidBlockStorage,
}

impl NetworkBeaconProcessor {
    pub fn new(
        beacon_processor_send: Sender<WorkEvent>,
        invalid_block_storage: InvalidBlockStorage,
    ) -> (r: Self)
        ensures
            r.beacon_processor_send == beacon_processor_send,
            r.invalid_block_storage == invalid_block_storage,
    {
        NetworkBeaconProcessor { beacon_processor_send, invalid_block_storage }
    }

    /// Offers `event` to the worker pool without waiting.
    fn try_send(&self, event: WorkEvent) -> (r: Result<(), Error>)
        ensures
            r matches Err(e) ==> returned_event(e) == event,
    {
        self.beacon_processor_send.try_send(event)
    }

    /// Create a new `Work` event for some unaggregated attestation.
    pub fn send_unaggregated_attestation(
        &self,
        message_id: MessageId,
        peer_id: PeerId,
        attestation: Encoded,
        subnet_id: u64,
        should_import: bool,
        seen_timestamp: Duration,
    ) -> (r: Result<(), Error>)
        ensures
            r matches Err(e) ==> returned_event(e) == event_for(
                (Work::GossipAttestation {
                    attestation: GossipAttestationPackage {
                        message_id,
                        peer_id,
                        attestation,
                        subnet_id,
                        should_import,
                        seen_timestamp,
                    },
                })
            ),
    {
        let work = Work::GossipAttestation {
            attestation: GossipAttestationPackage {
                message_id,
                peer_id,
                attestation,
                subnet_id,
                should_import,
                seen_timestamp,
            },
        };
        self.try_send(WorkEvent::new(work))
    }

    /// Create a new `Work` event for some aggregated attestation, which
    /// votes for `beacon_block_root`.
    pub fn send_aggregated_attestation(
        &self,
        message_id: MessageId,
        peer_id: PeerId,
        aggregate: Encoded,
        beacon_block_root: Hash256,
        seen_timestamp: Duration,
    ) -> (r: Result<(), Error>)
        ensures
            r matches Err(e) ==> returned_event(e) == event_for(
                (Work::GossipAggregate {
                    aggregate: GossipAggregatePackage {
                        message_id,
                        peer_id,
                        aggregate,
                        beacon_block_root,
                        seen_timestamp,
                    },
                })
            ),
    {
        let work = Work::GossipAggregate {
            aggregate: GossipAggregatePackage {
                message_id,
                peer_id,
                aggregate,
                beacon_block_root,
                seen_timestamp,
            },
        };
        self.try_send(WorkEvent::new(work))
    }

    /// Create a new `Work` event for some block.
    pub fn send_gossip_beacon_block(
        &self,
        message_id: MessageId,
        peer_id: PeerId,
        peer_client: Client,
        block: Encoded,
        seen_timestamp: Duration,
    ) -> (r: Result<(), Error>)
        ensures
            r matches Err(e) ==> returned_event(e) == event_for(
                (Work::GossipBlock { message_id, peer_id, peer_client, block, seen_timestamp })
            ),
    {
        let work = Work::GossipBlock { message_id, peer_id, peer_client, block, seen_timestamp };
        self.try_send(WorkEvent::new(work))
    }

    /// Create a new `Work` event for some blob sidecar.
    pub fn send_gossip_blob_sidecar(
        &self,
        message_id: MessageId,
        peer_id: PeerId,
        peer_client: Client,
        blob_index: u64,
        blob_sidecar: Encoded,
        seen_timestamp: Duration,
    ) -> (r: Result<(), Error>)
        ensures
            r matches Err(e) ==> returned_event(e) == event_for(
                (Work::GossipBlobSidecar {
                    message_id,
                    peer_id,
                    peer_client,
                    blob_index,
                    blob_sidecar,
                    seen_timestamp,
                })
            ),
    {
        let work = Work::GossipBlobSidecar {
            message_id,
            peer_id,
            peer_client,
            blob_index,
            blob_sidecar,
            seen_timestamp,
        };
        self.try_send(WorkEvent::new(work))
    }

    /// Create a new `Work` event for some data column sidecar.
    pub fn send_gossip_data_column_sidecar(
        &self,
        message_id: MessageId,
        peer_id: PeerId,
        peer_client: Client,
        subnet_id: u64,
        column_sidecar: Encoded,
        seen_timestamp: Duration,
    ) -> (r: Result<(), Error>)
        ensures
            r matches Err(e) ==> returned_event(e) == event_for(
                (Work::GossipDataColumnSidecar {
                    message_id,
                    peer_id,
                    peer_client,
                    subnet_id,
                    column_sidecar,
                    seen_timestamp,
                })
            ),
    {
        let work = Work::GossipDataColumnSidecar {
            message_id,
            peer_id,
            peer_client,
            subnet_id,
            column_sidecar,
            seen_timestamp,
        };
        self.try_send(WorkEvent::new(work))
    }

    /// Create a new `Work` event for some sync committee signature.
    pub fn send_gossip_sync_signature(
        &self,
        message_id: MessageId,
        peer_id: PeerId,
        sync_signature: Encoded,
        subnet_id: u64,
        seen_timestamp: Duration,
    ) -> (r: Result<(), Error>)
        ensures
            r matches Err(e) ==> returned_event(e) == event_for(
                (Work::GossipSyncSignature { message_id, peer_id, sync_signature, subnet_id, seen_timestamp })
            ),
    {
        let work = Work::GossipSyncSignature { message_id, peer_id, sync_signature, subnet_id, seen_timestamp };
        self.try_send(WorkEvent::new(work))
    }

    /// Create a new `Work` event for some sync committee contribution.
    pub fn send_gossip_sync_contribution(
        &self,
        message_id: MessageId,
        peer_id: PeerId,
        sync_contribution: Encoded,
        seen_timestamp: Duration,
    ) -> (r: Result<(), Error>)
        ensures
            r matches Err(e) ==> returned_event(e) == event_for(
                (Work::GossipSyncContribution { message_id, peer_id, sync_contribution, seen_timestamp })
            ),
    {
        let work = Work::GossipSyncContribution { message_id, peer_id, sync_contribution, seen_timestamp };
        self.try_send(WorkEvent::new(work))
    }

    /// Create a new `Work` event for some exit.
    pub fn send_gossip_voluntary_exit(
        &self,
        message_id: MessageId,
        peer_id: PeerId,
        voluntary_exit: Encoded,
    ) -> (r: Result<(), Error>)
        ensures
            r matches Err(e) ==> returned_event(e) == event_for(
                (Work::GossipVoluntaryExit { message_id, peer_id, voluntary_exit })
            ),
    {
        let work = Work::GossipVoluntaryExit { message_id, peer_id, voluntary_exit };
        self.try_send(WorkEvent::new(work))
    }

    /// Create a new `Work` event for some proposer slashing.
    pub fn send_gossip_proposer_slashing(
        &self,
        message_id: MessageId,
        peer_id: PeerId,
        proposer_slashing: Encoded,
    ) -> (r: Result<(), Error>)
        ensures
            r matches Err(e) ==> returned_event(e) == event_for(
                (Work::GossipProposerSlashing { message_id, peer_id, proposer_slashing })
            ),
    {
        let work = Work::GossipProposerSlashing { message_id, peer_id, proposer_slashing };
        self.try_send(WorkEvent::new(work))
    }

    /// Create a new `Work` event for some light client finality update.
    pub fn send_gossip_light_client_finality_update(
        &self,
        message_id: MessageId,
        peer_id: PeerId,
        light_client_finality_update: Encoded,
        seen_timestamp: Duration,
    ) -> (r: Result<(), Error>)
        ensures
            r matches Err(e) ==> returned_event(e) == event_for(
                (Work::GossipLightClientFinalityUpdate {
                    message_id,
                    peer_id,
                    light_client_finality_update,
                    seen_timestamp,
                })
            ),
    {
        let work = Work::GossipLightClientFinalityUpdate {
            message_id,
            peer_id,
            light_client_finality_update,
            seen_timestamp,
        };
        self.try_send(WorkEvent::new(work))
    }

    /// Create a new `Work` event for some light client optimistic update.
    pub fn send_gossip_light_client_optimistic_update(
        &self,
        message_id: MessageId,
        peer_id: PeerId,
        light_client_optimistic_update: Encoded,
        seen_timestamp: Duration,
    ) -> (r: Result<(), Error>)
        ensures
            r matches Err(e) ==> returned_event(e) == event_for(
                (Work::GossipLightClientOptimisticUpdate {
                    message_id,
                    peer_id,
                    light_client_optimistic_update,
                    seen_timestamp,
                })
            ),
    {
        let work = Work::GossipLightClientOptimisticUpdate {
            message_id,
            peer_id,
            light_client_optimistic_update,
            seen_timestamp,
        };
        self.try_send(WorkEvent::new(work))
    }

    /// Create a new `Work` event for some attester slashing.
    pub fn send_gossip_attester_slashing(
        &self,
        message_id: MessageId,
        peer_id: PeerId,
        attester_slashing: Encoded,
    ) -> (r: Result<(), Error>)
        ensures
            r matches Err(e) ==> returned_event(e) == event_for(
                (Work::GossipAttesterSlashing { message_id, peer_id, attester_slashing })
            ),
    {
        let work = Work::GossipAttesterSlashing { message_id, peer_id, attester_slashing };
        self.try_send(WorkEvent::new(work))
    }

    /// Create a new `Work` event for some BLS to execution change.
    pub fn send_gossip_bls_to_execution_change(
        &self,
        message_id: MessageId,
        peer_id: PeerId,
        bls_to_execution_change: Encoded,
    ) -> (r: Result<(), Error>)
        ensures
            r matches Err(e) ==> returned_event(e) == event_for(
                (Work::GossipBlsToExecutionChange { message_id, peer_id, bls_to_execution_change })
            ),
    {
        let work = Work::GossipBlsToExecutionChange { message_id, peer_id, bls_to_execution_change };
        self.try_send(WorkEvent::new(work))
    }

    /// Create a new `Work` event for some block requested by sync.
    pub fn send_rpc_beacon_block(
        &self,
        block_root: Hash256,
        block: Encoded,
        seen_timestamp: Duration,
        process_type: BlockProcessType,
    ) -> (r: Result<(), Error>)
        ensures
            r matches Err(e) ==> returned_event(e) == event_for(
                (Work::RpcBlock { block_root, block, seen_timestamp, process_type })
            ),
    {
        let work = Work::RpcBlock { block_root, block, seen_timestamp, process_type };
        self.try_send(WorkEvent::new(work))
    }

    /// Create a new `Work` event for some custody columns requested by sync.
    pub fn send_rpc_custody_columns(
        &self,
        block_root: Hash256,
        custody_columns: Vec<Encoded>,
        seen_timestamp: Duration,
        process_type: BlockProcessType,
    ) -> (r: Result<(), Error>)
        ensures
            r matches Err(e) ==> returned_event(e) == event_for(
                (Work::RpcCustodyColumn { block_root, custody_columns, seen_timestamp, process_type })
            ),
    {
        let work = Work::RpcCustodyColumn { block_root, custody_columns, seen_timestamp, process_type };
        self.try_send(WorkEvent::new(work))
    }

    /// Create a new `Work` event that verifies some sampled columns; the
    /// result goes back to the sampling request `id`.
    pub fn send_rpc_validate_data_columns(
        &self,
        block_root: Hash256,
        data_columns: Vec<Encoded>,
        seen_timestamp: Duration,
        id: SamplingId,
    ) -> (r: Result<(), Error>)
        ensures
            r matches Err(e) ==> returned_event(e) == event_for(
                (Work::RpcVerifyDataColumn { block_root, data_columns, seen_timestamp, id })
            ),
    {
        let work = Work::RpcVerifyDataColumn { block_root, data_columns, seen_timestamp, id };
        self.try_send(WorkEvent::new(work))
    }

    /// Create a new `Work` event with a block sampling completed result.
    pub fn send_sampling_completed(
        &self,
        block_root: Hash256,
    ) -> (r: Result<(), Error>)
        ensures
            r matches Err(e) ==> returned_event(e) == event_for(
                (Work::SamplingResult { block_root })
            ),
    {
        let work = Work::SamplingResult { block_root };
        self.try_send(WorkEvent::new(work))
    }

    /// Create a new work event to process a `Status` message from the RPC network.
    pub fn send_status_message(
        &self,
        peer_id: PeerId,
        message: Encoded,
    ) -> (r: Result<(), Error>)
        ensures
            r matches Err(e) ==> returned_event(e) == event_for(
                (Work::Status { peer_id, message })
            ),
    {
        let work = Work::Status { peer_id, message };
        self.try_send(WorkEvent::new(work))
    }

    /// Create a new work event to process a `BlocksByRange` request from the RPC network.
    pub fn send_blocks_by_range_request(
        &self,
        peer_id: PeerId,
        connection_id: ConnectionId,
        substream_id: SubstreamId,
        request_id: RequestId,
        request: Encoded,
    ) -> (r: Result<(), Error>)
        ensures
            r matches Err(e) ==> returned_event(e) == event_for(
                (Work::BlocksByRangeRequest {
                    from: InboundRequest { peer_id, connection_id, substream_id, request_id },
                    request,
                })
            ),
    {
        let work = Work::BlocksByRangeRequest {
            from: InboundRequest { peer_id, connection_id, substream_id, request_id },
            request,
        };
        self.try_send(WorkEvent::new(work))
    }

    /// Create a new work event to process a `BlocksByRoot` request from the RPC network.
    pub fn send_blocks_by_roots_request(
        &self,
        peer_id: PeerId,
        connection_id: ConnectionId,
        substream_id: SubstreamId,
        request_id: RequestId,
        request: Encoded,
    ) -> (r: Result<(), Error>)
        ensures
            r matches Err(e) ==> returned_event(e) == event_for(
                (Work::BlocksByRootsRequest {
                    from: InboundRequest { peer_id, connection_id, substream_id, request_id },
                    request,
                })
            ),
    {
        let work = Work::BlocksByRootsRequest {
            from: InboundRequest { peer_id, connection_id, substream_id, request_id },
            request,
        };
        self.try_send(WorkEvent::new(work))
    }

    /// Create a new work event to process a `BlobsByRange` request from the RPC network.
    pub fn send_blobs_by_range_request(
        &self,
        peer_id: PeerId,
        connection_id: ConnectionId,
        substream_id: SubstreamId,
        request_id: RequestId,
        request: Encoded,
    ) -> (r: Result<(), Error>)
        ensures
            r matches Err(e) ==> returned_event(e) == event_for(
                (Work::BlobsByRangeRequest {
                    from: InboundRequest { peer_id, connection_id, substream_id, request_id },
                    request,
                })
            ),
    {
        let work = Work::BlobsByRangeRequest {
            from: InboundRequest { peer_id, connection_id, substream_id, request_id },
            request,
        };
        self.try_send(WorkEvent::new(work))
    }

    /// Create a new work event to process a `BlobsByRoot` request from the RPC network.
    pub fn send_blobs_by_roots_request(
        &self,
        peer_id: PeerId,
        connection_id: ConnectionId,
        substream_id: SubstreamId,
        request_id: RequestId,
        request: Encoded,
    ) -> (r: Result<(), Error>)
        ensures
            r matches Err(e) ==> returned_event(e) == event_for(
                (Work::BlobsByRootsRequest {
                    from: InboundRequest { peer_id, connection_id, substream_id, request_id },
                    request,
                })
            ),
    {
        let work = Work::BlobsByRootsRequest {
            from: InboundRequest { peer_id, connection_id, substream_id, request_id },
            request,
        };
        self.try_send(WorkEvent::new(work))
    }

    /// Create a new work event to process a `DataColumnsByRoot` request from the RPC network.
    pub fn send_data_columns_by_roots_request(
        &self,
        peer_id: PeerId,
        connection_id: ConnectionId,
        substream_id: SubstreamId,
        request_id: RequestId,
        request: Encoded,
    ) -> (r: Result<(), Error>)
        ensures
            r matches Err(e) ==> returned_event(e) == event_for(
                (Work::DataColumnsByRootsRequest {
                    from: InboundRequest { peer_id, connection_id, substream_id, request_id },
                    request,
                })
            ),
    {
        let work = Work::DataColumnsByRootsRequest {
            from: InboundRequest { peer_id, connection_id, substream_id, request_id },
            request,
        };
        self.try_send(WorkEvent::new(work))
    }

    /// Create a new work event to process a `DataColumnsByRange` request from the RPC network.
    pub fn send_data_columns_by_range_request(
        &self,
        peer_id: PeerId,
        connection_id: ConnectionId,
        substream_id: SubstreamId,
        request_id: RequestId,
        request: Encoded,
    ) -> (r: Result<(), Error>)
        ensures
            r matches Err(e) ==> returned_event(e) == event_for(
                (Work::DataColumnsByRangeRequest {
                    from: InboundRequest { peer_id, connection_id, substream_id, request_id },
                    request,
                })
            ),
    {
        let work = Work::DataColumnsByRangeRequest {
            from: InboundRequest { peer_id, connection_id, substream_id, request_id },
            request,
        };
        self.try_send(WorkEvent::new(work))
    }

    /// Create a new work event to process a `LightClientBootstrap` request from the RPC network.
    pub fn send_light_client_bootstrap_request(
        &self,
        peer_id: PeerId,
        connection_id: ConnectionId,
        substream_id: SubstreamId,
        request_id: RequestId,
        request: Encoded,
    ) -> (r: Result<(), Error>)
        ensures
            r matches Err(e) ==> returned_event(e) == event_for(
                (Work::LightClientBootstrapRequest {
                    from: InboundRequest { peer_id, connection_id, substream_id, request_id },
                    request,
                })
            ),
    {
        let work = Work::LightClientBootstrapRequest {
            from: InboundRequest { peer_id, connection_id, substream_id, request_id },
            request,
        };
        self.try_send(WorkEvent::new(work))
    }

    /// Create a new work event to process a `LightClientOptimisticUpdate` request from the RPC network.
    pub fn send_light_client_optimistic_update_request(
        &self,
        peer_id: PeerId,
        connection_id: ConnectionId,
        substream_id: SubstreamId,
        request_id: RequestId,
    ) -> (r: Result<(), Error>)
        ensures
            r matches Err(e) ==> returned_event(e) == event_for(
                (Work::LightClientOptimisticUpdateRequest {
                    from: InboundRequest { peer_id, connection_id, substream_id, request_id },
                })
            ),
    {
        let work = Work::LightClientOptimisticUpdateRequest {
            from: InboundRequest { peer_id, connection_id, substream_id, request_id },
        };
        self.try_send(WorkEvent::new(work))
    }

    /// Create a new work event to process a `LightClientFinalityUpdate` request from the RPC network.
    pub fn send_light_client_finality_update_request(
        &self,
        peer_id: PeerId,
        connection_id: ConnectionId,
        substream_id: SubstreamId,
        request_id: RequestId,
    ) -> (r: Result<(), Error>)
        ensures
            r matches Err(e) ==> returned_event(e) == event_for(
                (Work::LightClientFinalityUpdateRequest {
                    from: InboundRequest { peer_id, connection_id, substream_id, request_id },
                })
            ),
    {
        let work = Work::LightClientFinalityUpdateRequest {
            from: InboundRequest { peer_id, connection_id, substream_id, request_id },
        };
        self.try_send(WorkEvent::new(work))
    }

    /// Create a new work event to process a `LightClientUpdatesByRange` request from the RPC network.
    pub fn send_light_client_updates_by_range_request(
        &self,
        peer_id: PeerId,
        connection_id: ConnectionId,
        substream_id: SubstreamId,
        request_id: RequestId,
        request: Encoded,
    ) -> (r: Result<(), Error>)
        ensures
            r matches Err(e) ==> returned_event(e) == event_for(
                (Work::LightClientUpdatesByRangeRequest {
                    from: InboundRequest { peer_id, connection_id, substream_id, request_id },
                    request,
                })
            ),
    {
        let work = Work::LightClientUpdatesByRangeRequest {
            from: InboundRequest { peer_id, connection_id, substream_id, request_id },
            request,
        };
        self.try_send(WorkEvent::new(work))
    }

    /// Create a new `Work` event for some blobs requested by sync. A list
    /// without any blob makes no work and succeeds.
    pub fn send_rpc_blobs(
        &self,
        block_root: Hash256,
        blobs: Vec<Option<Encoded>>,
        seen_timestamp: Duration,
        process_type: BlockProcessType,
    ) -> (r: Result<(), Error>)
        ensures
            !has_blob(blobs@) ==> r is Ok,
            r matches Err(e) ==> has_blob(blobs@) && returned_event(e) == event_for(
                (Work::RpcBlobs { block_root, blobs, seen_timestamp, process_type })
            ),
    {
        let mut blob_count: usize = 0;
        let mut i: usize = 0;
        while i < blobs.len()
            invariant
                i <= blobs@.len(),
                blob_count <= i,
                blob_count == 0 <==> forall|j: int| 0 <= j < i ==> blobs@[j] is None,
            decreases blobs@.len() - i,
        {
            if blobs[i].is_some() {
                blob_count = blob_count + 1;
            }
            i = i + 1;
        }
        if blob_count == 0 {
            return Ok(());
        }
        let work = Work::RpcBlobs { block_root, blobs, seen_timestamp, process_type };
        self.try_send(WorkEvent::new(work))
    }

    /// Create a new work event to import `blocks` as a beacon chain segment.
    /// Back-sync batches go out as `ChainSegmentBackfill`, so that they can be
    /// rate-limited apart from forward sync.
    pub fn send_chain_segment(
        &self,
        process_id: ChainSegmentProcessId,
        blocks: Vec<Encoded>,
    ) -> (r: Result<(), Error>)
        ensures
            r matches Err(e) ==> returned_event(e) == event_for(
                if process_id is BackSyncBatchId {
                    (Work::ChainSegmentBackfill { process_id, blocks })
                } else {
                    (Work::ChainSegment { process_id, blocks })
                },
            ),
    {
        let is_backfill = matches!(process_id, ChainSegmentProcessId::BackSyncBatchId(..));
        let work = if is_backfill {
            Work::ChainSegmentBackfill { process_id, blocks }
        } else {
            Work::ChainSegment { process_id, blocks }
        };
        self.try_send(WorkEvent::new(work))
    }
}

} // verus!
