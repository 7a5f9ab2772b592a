//! Units of work for the worker pool: one variant per message category, each
//! carrying its payload, and the envelope that crosses the bounded channel.
//!
//! Payloads travel in their SSZ encoding: the dispatcher reads none of them,
//! and the worker that runs the item decodes it.

use vstd::prelude::*;
use std::time::Duration;
use crate::types::Hash256;

verus! {

/// A message as it arrived from the network, SSZ-encoded.
pub type Encoded = Vec<u8>;

/// The gossipsub identifier of a message.
pub type MessageId = Vec<u8>;

/// The libp2p identity of a peer, as bytes.
pub type PeerId = Vec<u8>;

/// The agent string a peer announced.
pub type Client = Vec<u8>;

/// Identifies the libp2p connection an RPC request came on.
pub type ConnectionId = u64;

/// Identifies the substream an RPC request came on.
pub type SubstreamId = u64;

/// Identifies an inbound RPC request on its substream.
pub type RequestId = u64;

/// Identifies the sampling request a verification result goes back to.
pub type SamplingId = u64;

/// The sync lookup that a block or its blobs or columns were requested by.
#[derive(Debug, PartialEq, Eq, Clone, Copy)]
pub enum BlockProcessType {
    SingleBlock { id: u32 },
    SingleBlob { id: u32 },
    SingleCustodyColumn(u32),
}

/// Identifies a batch of blocks handed over by sync for import.
#[derive(Debug, PartialEq, Eq, Clone, Copy)]
pub enum ChainSegmentProcessId {
    /// A batch of a forward range sync: the chain and the batch's epoch.
    RangeBatchId(u64, u64),
    /// A batch of a backwards (backfill) sync: the batch's epoch.
    BackSyncBatchId(u64),
}

/// An unaggregated attestation received on gossip.
#[derive(Debug)]
pub struct GossipAttestationPackage {
    pub message_id: MessageId,
    pub peer_id: PeerId,
    pub attestation: Encoded,
    pub subnet_id: u64,
    pub should_import: bool,
    pub seen_timestamp: Duration,
}

/// An aggregate and proof received on gossip.
#[derive(Debug)]
pub struct GossipAggregatePackage {
    pub message_id: MessageId,
    pub peer_id: PeerId,
    pub aggregate: Encoded,
    /// The block that the aggregated attestation votes for.
    pub beacon_block_root: Hash256,
    pub seen_timestamp: Duration,
}

/// Where an inbound RPC request came from, so that the answer goes back there.
#[derive(Debug)]
pub struct InboundRequest {
    pub peer_id: PeerId,
    pub connection_id: ConnectionId,
    pub substream_id: SubstreamId,
    pub request_id: RequestId,
}

/// One unit of work.
#[derive(Debug)]
pub enum Work {
    GossipAttestation { attestation: GossipAttestationPackage },
    GossipAggregate { aggregate: GossipAggregatePackage },
    GossipBlock {
        message_id: MessageId,
        peer_id: PeerId,
        peer_client: Client,
        block: Encoded,
        seen_timestamp: Duration,
    },
    GossipBlobSidecar {
        message_id: MessageId,
        peer_id: PeerId,
        peer_client: Client,
        blob_index: u64,
        blob_sidecar: Encoded,
        seen_timestamp: Duration,
    },
    GossipDataColumnSidecar {
        message_id: MessageId,
        peer_id: PeerId,
        peer_client: Client,
        subnet_id: u64,
        column_sidecar: Encoded,
        seen_timestamp: Duration,
    },
    GossipSyncSignature {
        message_id: MessageId,
        peer_id: PeerId,
        sync_signature: Encoded,
        subnet_id: u64,
        seen_timestamp: Duration,
    },
    GossipSyncContribution {
        message_id: MessageId,
        peer_id: PeerId,
        sync_contribution: Encoded,
        seen_timestamp: Duration,
    },
    GossipVoluntaryExit { message_id: MessageId, peer_id: PeerId, voluntary_exit: Encoded },
    GossipProposerSlashing { message_id: MessageId, peer_id: PeerId, proposer_slashing: Encoded },
    GossipLightClientFinalityUpdate {
        message_id: MessageId,
        peer_id: PeerId,
        light_client_finality_update: Encoded,
        seen_timestamp: Duration,
    },
    GossipLightClientOptimisticUpdate {
        message_id: MessageId,
        peer_id: PeerId,
        light_client_optimistic_update: Encoded,
        seen_timestamp: Duration,
    },
    GossipAttesterSlashing { message_id: MessageId, peer_id: PeerId, attester_slashing: Encoded },
    GossipBlsToExecutionChange {
        message_id: MessageId,
        peer_id: PeerId,
        bls_to_execution_change: Encoded,
    },
    RpcBlock {
        block_root: Hash256,
        block: Encoded,
        seen_timestamp: Duration,
        process_type: BlockProcessType,
    },
    RpcBlobs {
        block_root: Hash256,
        blobs: Vec<Option<Encoded>>,
        seen_timestamp: Duration,
        process_type: BlockProcessType,
    },
    RpcCustodyColumn {
        block_root: Hash256,
        custody_columns: Vec<Encoded>,
        seen_timestamp: Duration,
        process_type: BlockProcessType,
    },
    RpcVerifyDataColumn {
        block_root: Hash256,
        data_columns: Vec<Encoded>,
        seen_timestamp: Duration,
        id: SamplingId,
    },
    SamplingResult { block_root: Hash256 },
    ChainSegment { process_id: ChainSegmentProcessId, blocks: Vec<Encoded> },
    ChainSegmentBackfill { process_id: ChainSegmentProcessId, blocks: Vec<Encoded> },
    Status { peer_id: PeerId, message: Encoded },
    BlocksByRangeRequest { from: InboundRequest, request: Encoded },
    BlocksByRootsRequest { from: InboundRequest, request: Encoded },
    BlobsByRangeRequest { from: InboundRequest, request: Encoded },
    BlobsByRootsRequest { from: InboundRequest, request: Encoded },
    DataColumnsByRootsRequest { from: InboundRequest, request: Encoded },
    DataColumnsByRangeRequest { from: InboundRequest, request: Encoded },
    LightClientBootstrapRequest { from: InboundRequest, request: Encoded },
    LightClientOptimisticUpdateRequest { from: InboundRequest },
    LightClientFinalityUpdateRequest { from: InboundRequest },
    LightClientUpdatesByRangeRequest { from: InboundRequest, request: Encoded },
}

/// A unit of work on its way to the worker pool.
#[derive(Debug)]
pub struct WorkEvent {
    /// Whether the pool may discard the item while the node syncs far
    /// behind the head.
    pub drop_during_sync: bool,
    pub work: Work,
}

/// Whether work of this category may be discarded while the node syncs:
/// attestations, aggregates, sync-committee messages and light-client
/// messages and requests may; blocks, blobs, columns, exits, slashings, BLS
/// changes, the other RPC requests and chain segments may not.
pub open spec fn droppable_during_sync(w: Work) -> bool {
    match w {
        Work::GossipAttestation { .. } => true,
        Work::GossipAggregate { .. } => true,
        Work::GossipSyncSignature { .. } => true,
        Work::GossipSyncContribution { .. } => true,
        Work::GossipLightClientFinalityUpdate { .. } => true,
        Work::GossipLightClientOptimisticUpdate { .. } => true,
        Work::LightClientBootstrapRequest { .. } => true,
        Work::LightClientOptimisticUpdateRequest { .. } => true,
        Work::LightClientFinalityUpdateRequest { .. } => true,
        Work::LightClientUpdatesByRangeRequest { .. } => true,
        _ => false,
    }
}

/// The event that carries `w`.
pub open spec fn event_for(w: Work) -> WorkEvent {
    WorkEvent { drop_during_sync: droppable_during_sync(w), work: w }
}

/// How the worker pool may run a unit of work.
#[derive(Debug, PartialEq, Eq, Clone, Copy)]
pub enum Strategies {
    /// Each item on its own.
    IndividualOnly,
    /// On its own, or coalesced with other pending items of its category so
    /// that their signatures are verified as one batch.
    IndividualOrBatch,
}

/// Whether the import of a chain segment notifies the execution layer.
#[derive(Debug, PartialEq, Eq, Clone, Copy)]
pub enum NotifyExecutionLayer {
    Yes,
    No,
}

/// A segment imported while the node syncs finalized history does not
/// notify the execution layer; any other does.
pub fn notify_execution_layer(syncing_finalized: bool) -> (r: NotifyExecutionLayer)
    ensures
        r == (if syncing_finalized {
            NotifyExecutionLayer::No
        } else {
            NotifyExecutionLayer::Yes
        }),
{
    if syncing_finalized {
        NotifyExecutionLayer::No
    } else {
        NotifyExecutionLayer::Yes
    }
}

impl Work {
    /// Whether this work may be discarded while the node syncs.
    pub fn drop_during_sync(&self) -> (r: bool)
        ensures
            r == droppable_during_sync(*self),
    {
        match self {
            Work::GossipAttestation { .. } => true,
            Work::GossipAggregate { .. } => true,
            Work::GossipSyncSignature { .. } => true,
            Work::GossipSyncContribution { .. } => true,
            Work::GossipLightClientFinalityUpdate { .. } => true,
            Work::GossipLightClientOptimisticUpdate { .. } => true,
            Work::LightClientBootstrapRequest { .. } => true,
            Work::LightClientOptimisticUpdateRequest { .. } => true,
            Work::LightClientFinalityUpdateRequest { .. } => true,
            Work::LightClientUpdatesByRangeRequest { .. } => true,
            _ => false,
        }
    }

    /// Attestations and aggregates may be run alone or in a batch; every
    /// other category alone.
    pub fn strategies(&self) -> (r: Strategies)
        ensures
            r == (if self is GossipAttestation || self is GossipAggregate {
                Strategies::IndividualOrBatch
            } else {
                Strategies::IndividualOnly
            }),
    {
        match self {
            Work::GossipAttestation { .. } => Strategies::IndividualOrBatch,
            Work::GossipAggregate { .. } => Strategies::IndividualOrBatch,
            _ => Strategies::IndividualOnly,
        }
    }
}

impl WorkEvent {
    /// Wraps `work` with the drop-during-sync flag of its category.
    pub fn new(work: Work) -> (r: Self)
        ensures
            r == event_for(work),
    {
        let drop_during_sync = work.drop_during_sync();
        WorkEvent { drop_during_sync, work }
    }
}

} // verus!
