//! The typed Kafka messages of `kafka-protocol`, one variant per API key,
//! and the dispatch from an API key to the decoder of its message.
use crate::kafka::api::is_api_key;
use kafka_protocol::messages::{
    ProduceRequest,
    FetchRequest,
    ListOffsetsRequest,
    MetadataRequest,
    LeaderAndIsrRequest,
    StopReplicaRequest,
    UpdateMetadataRequest,
    ControlledShutdownRequest,
    OffsetCommitRequest,
    OffsetFetchRequest,
    FindCoordinatorRequest,
    JoinGroupRequest,
    HeartbeatRequest,
    LeaveGroupRequest,
    SyncGroupRequest,
    DescribeGroupsRequest,
    ListGroupsRequest,
    SaslHandshakeRequest,
    ApiVersionsRequest,
    CreateTopicsRequest,
    DeleteTopicsRequest,
    DeleteRecordsRequest,
    InitProducerIdRequest,
    OffsetForLeaderEpochRequest,
    AddPartitionsToTxnRequest,
    AddOffsetsToTxnRequest,
    EndTxnRequest,
    WriteTxnMarkersRequest,
    TxnOffsetCommitRequest,
    DescribeAclsRequest,
    CreateAclsRequest,
    DeleteAclsRequest,
    DescribeConfigsRequest,
    AlterConfigsRequest,
    AlterReplicaLogDirsRequest,
    DescribeLogDirsRequest,
    SaslAuthenticateRequest,
    CreatePartitionsRequest,
    CreateDelegationTokenRequest,
    RenewDelegationTokenRequest,
    ExpireDelegationTokenRequest,
    DescribeDelegationTokenRequest,
    DeleteGroupsRequest,
    ElectLeadersRequest,
    IncrementalAlterConfigsRequest,
    AlterPartitionReassignmentsRequest,
    ListPartitionReassignmentsRequest,
    OffsetDeleteRequest,
    DescribeClientQuotasRequest,
    AlterClientQuotasRequest,
    DescribeUserScramCredentialsRequest,
    AlterUserScramCredentialsRequest,
    VoteRequest,
    BeginQuorumEpochRequest,
    EndQuorumEpochRequest,
    DescribeQuorumRequest,
    AlterPartitionRequest,
    UpdateFeaturesRequest,
    EnvelopeRequest,
    FetchSnapshotRequest,
    DescribeClusterRequest,
    DescribeProducersRequest,
    BrokerRegistrationRequest,
    BrokerHeartbeatRequest,
    UnregisterBrokerRequest,
    DescribeTransactionsRequest,
    ListTransactionsRequest,
    AllocateProducerIdsRequest,
    ConsumerGroupHeartbeatRequest,
    ConsumerGroupDescribeRequest,
    ControllerRegistrationRequest,
    GetTelemetrySubscriptionsRequest,
    PushTelemetryRequest,
    AssignReplicasToDirsRequest,
    ListClientMetricsResourcesRequest,
    DescribeTopicPartitionsRequest,
    ProduceResponse,
    FetchResponse,
    ListOffsetsResponse,
    MetadataResponse,
    LeaderAndIsrResponse,
    StopReplicaResponse,
    UpdateMetadataResponse,
    ControlledShutdownResponse,
    OffsetCommitResponse,
    OffsetFetchResponse,
    FindCoordinatorResponse,
    JoinGroupResponse,
    HeartbeatResponse,
    LeaveGroupResponse,
    SyncGroupResponse,
    DescribeGroupsResponse,
    ListGroupsResponse,
    SaslHandshakeResponse,
    ApiVersionsResponse,
    CreateTopicsResponse,
    DeleteTopicsResponse,
    DeleteRecordsResponse,
    InitProducerIdResponse,
    OffsetForLeaderEpochResponse,
    AddPartitionsToTxnResponse,
    AddOffsetsToTxnResponse,
    EndTxnResponse,
    WriteTxnMarkersResponse,
    TxnOffsetCommitResponse,
    DescribeAclsResponse,
    CreateAclsResponse,
    DeleteAclsResponse,
    DescribeConfigsResponse,
    AlterConfigsResponse,
    AlterReplicaLogDirsResponse,
    DescribeLogDirsResponse,
    SaslAuthenticateResponse,
    CreatePartitionsResponse,
    CreateDelegationTokenResponse,
    RenewDelegationTokenResponse,
    ExpireDelegationTokenResponse,
    DescribeDelegationTokenResponse,
    DeleteGroupsResponse,
    ElectLeadersResponse,
    IncrementalAlterConfigsResponse,
    AlterPartitionReassignmentsResponse,
    ListPartitionReassignmentsResponse,
    OffsetDeleteResponse,
    DescribeClientQuotasResponse,
    AlterClientQuotasResponse,
    DescribeUserScramCredentialsResponse,
    AlterUserScramCredentialsResponse,
    VoteResponse,
    BeginQuorumEpochResponse,
    EndQuorumEpochResponse,
    DescribeQuorumResponse,
    AlterPartitionResponse,
    UpdateFeaturesResponse,
    EnvelopeResponse,
    FetchSnapshotResponse,
    DescribeClusterResponse,
    DescribeProducersResponse,
    BrokerRegistrationResponse,
    BrokerHeartbeatResponse,
    UnregisterBrokerResponse,
    DescribeTransactionsResponse,
    ListTransactionsResponse,
    AllocateProducerIdsResponse,
    ConsumerGroupHeartbeatResponse,
    ConsumerGroupDescribeResponse,
    ControllerRegistrationResponse,
    GetTelemetrySubscriptionsResponse,
    PushTelemetryResponse,
    AssignReplicasToDirsResponse,
    ListClientMetricsResourcesResponse,
    DescribeTopicPartitionsResponse,
};
use kafka_protocol::protocol::{Decodable, Encodable};
use vstd::prelude::*;

verus! {
#[verifier::external_type_specification]
#[verifier::external_body]
pub struct ExProduceRequest(ProduceRequest);
#[verifier::external_type_specification]
#[verifier::external_body]
pub struct ExFetchRequest(FetchRequest);
#[verifier::external_type_specification]
#[verifier::external_body]
pub struct ExListOffsetsRequest(ListOffsetsRequest);
#[verifier::external_type_specification]
#[verifier::external_body]
pub struct ExMetadataRequest(MetadataRequest);
#[verifier::external_type_specification]
#[verifier::external_body]
pub struct ExLeaderAndIsrRequest(LeaderAndIsrRequest);
#[verifier::external_type_specification]
#[verifier::external_body]
pub struct ExStopReplicaRequest(StopReplicaRequest);
#[verifier::external_type_specification]
#[verifier::external_body]
pub struct ExUpdateMetadataRequest(UpdateMetadataRequest);
#[verifier::external_type_specification]
#[verifier::external_body]
pub struct ExControlledShutdownRequest(ControlledShutdownRequest);
#[verifier::external_type_specification]
#[verifier::external_body]
pub struct ExOffsetCommitRequest(OffsetCommitRequest);
#[verifier::external_type_specification]
#[verifier::external_body]
pub struct ExOffsetFetchRequest(OffsetFetchRequest);
#[verifier::external_type_specification]
#[verifier::external_body]
pub struct ExFindCoordinatorRequest(FindCoordinatorRequest);
#[verifier::external_type_specification]
#[verifier::external_body]
pub struct ExJoinGroupRequest(JoinGroupRequest);
#[verifier::external_type_specification]
#[verifier::external_body]
pub struct ExHeartbeatRequest(HeartbeatRequest);
#[verifier::external_type_specification]
#[verifier::external_body]
pub struct ExLeaveGroupRequest(LeaveGroupRequest);
#[verifier::external_type_specification]
#[verifier::external_body]
pub struct ExSyncGroupRequest(SyncGroupRequest);
#[verifier::external_type_specification]
#[verifier::external_body]
pub struct ExDescribeGroupsRequest(DescribeGroupsRequest);
#[verifier::external_type_specification]
#[verifier::external_body]
pub struct ExListGroupsRequest(ListGroupsRequest);
#[verifier::external_type_specification]
#[verifier::external_body]
pub struct ExSaslHandshakeRequest(SaslHandshakeRequest);
#[verifier::external_type_specification]
#[verifier::external_body]
pub struct ExApiVersionsRequest(ApiVersionsRequest);
#[verifier::external_type_specification]
#[verifier::external_body]
pub struct ExCreateTopicsRequest(CreateTopicsRequest);
#[verifier::external_type_specification]
#[verifier::external_body]
pub struct ExDeleteTopicsRequest(DeleteTopicsRequest);
#[verifier::external_type_specification]
#[verifier::external_body]
pub struct ExDeleteRecordsRequest(DeleteRecordsRequest);
#[verifier::external_type_specification]
#[verifier::external_body]
pub struct ExInitProducerIdRequest(InitProducerIdRequest);
#[verifier::external_type_specification]
#[verifier::external_body]
pub struct ExOffsetForLeaderEpochRequest(OffsetForLeaderEpochRequest);
#[verifier::external_type_specification]
#[verifier::external_body]
pub struct ExAddPartitionsToTxnRequest(AddPartitionsToTxnRequest);
#[verifier::external_type_specification]
#[verifier::external_body]
pub struct ExAddOffsetsToTxnRequest(AddOffsetsToTxnRequest);
#[verifier::external_type_specification]
#[verifier::external_body]
pub struct ExEndTxnRequest(EndTxnRequest);
#[verifier::external_type_specification]
#[verifier::external_body]
pub struct ExWriteTxnMarkersRequest(WriteTxnMarkersRequest);
#[verifier::external_type_specification]
#[verifier::external_body]
pub struct ExTxnOffsetCommitRequest(TxnOffsetCommitRequest);
#[verifier::external_type_specification]
#[verifier::external_body]
pub struct ExDescribeAclsRequest(DescribeAclsRequest);
#[verifier::external_type_specification]
#[verifier::external_body]
pub struct ExCreateAclsRequest(CreateAclsRequest);
#[verifier::external_type_specification]
#[verifier::external_body]
pub struct ExDeleteAclsRequest(DeleteAclsRequest);
#[verifier::external_type_specification]
#[verifier::external_body]
pub struct ExDescribeConfigsRequest(DescribeConfigsRequest);
#[verifier::external_type_specification]
#[verifier::external_body]
pub struct ExAlterConfigsRequest(AlterConfigsRequest);
#[verifier::external_type_specification]
#[verifier::external_body]
pub struct ExAlterReplicaLogDirsRequest(AlterReplicaLogDirsRequest);
#[verifier::external_type_specification]
#[verifier::external_body]
pub struct ExDescribeLogDirsRequest(DescribeLogDirsRequest);
#[verifier::external_type_specification]
#[verifier::external_body]
pub struct ExSaslAuthenticateRequest(SaslAuthenticateRequest);
#[verifier::external_type_specification]
#[verifier::external_body]
pub struct ExCreatePartitionsRequest(CreatePartitionsRequest);
#[verifier::external_type_specification]
#[verifier::external_body]
pub struct ExCreateDelegationTokenRequest(CreateDelegationTokenRequest);
#[verifier::external_type_specification]
#[verifier::external_body]
pub struct ExRenewDelegationTokenRequest(RenewDelegationTokenRequest);
#[verifier::external_type_specification]
#[verifier::external_body]
pub struct ExExpireDelegationTokenRequest(ExpireDelegationTokenRequest);
#[verifier::external_type_specification]
#[verifier::external_body]
pub struct ExDescribeDelegationTokenRequest(DescribeDelegationTokenRequest);
#[verifier::external_type_specification]
#[verifier::external_body]
pub struct ExDeleteGroupsRequest(DeleteGroupsRequest);
#[verifier::external_type_specification]
#[verifier::external_body]
pub struct ExElectLeadersRequest(ElectLeadersRequest);
#[verifier::external_type_specification]
#[verifier::external_body]
pub struct ExIncrementalAlterConfigsRequest(IncrementalAlterConfigsRequest);
#[verifier::external_type_specification]
#[verifier::external_body]
pub struct ExAlterPartitionReassignmentsRequest(AlterPartitionReassignmentsRequest);
#[verifier::external_type_specification]
#[verifier::external_body]
pub struct ExListPartitionReassignmentsRequest(ListPartitionReassignmentsRequest);
#[verifier::external_type_specification]
#[verifier::external_body]
pub struct ExOffsetDeleteRequest(OffsetDeleteRequest);
#[verifier::external_type_specification]
#[verifier::external_body]
pub struct ExDescribeClientQuotasRequest(DescribeClientQuotasRequest);
#[verifier::external_type_specification]
#[verifier::external_body]
pub struct ExAlterClientQuotasRequest(AlterClientQuotasRequest);
#[verifier::external_type_specification]
#[verifier::external_body]
pub struct ExDescribeUserScramCredentialsRequest(DescribeUserScramCredentialsRequest);
#[verifier::external_type_specification]
#[verifier::external_body]
pub struct ExAlterUserScramCredentialsRequest(AlterUserScramCredentialsRequest);
#[verifier::external_type_specification]
#[verifier::external_body]
pub struct ExVoteRequest(VoteRequest);
#[verifier::external_type_specification]
#[verifier::external_body]
pub struct ExBeginQuorumEpochRequest(BeginQuorumEpochRequest);
#[verifier::external_type_specification]
#[verifier::external_body]
pub struct ExEndQuorumEpochRequest(EndQuorumEpochRequest);
#[verifier::external_type_specification]
#[verifier::external_body]
pub struct ExDescribeQuorumRequest(DescribeQuorumRequest);
#[verifier::external_type_specification]
#[verifier::external_body]
pub struct ExAlterPartitionRequest(AlterPartitionRequest);
#[verifier::external_type_specification]
#[verifier::external_body]
pub struct ExUpdateFeaturesRequest(UpdateFeaturesRequest);
#[verifier::external_type_specification]
#[verifier::external_body]
pub struct ExEnvelopeRequest(EnvelopeRequest);
#[verifier::external_type_specification]
#[verifier::external_body]
pub struct ExFetchSnapshotRequest(FetchSnapshotRequest);
#[verifier::external_type_specification]
#[verifier::external_body]
pub struct ExDescribeClusterRequest(DescribeClusterRequest);
#[verifier::external_type_specification]
#[verifier::external_body]
pub struct ExDescribeProducersRequest(DescribeProducersRequest);
#[verifier::external_type_specification]
#[verifier::external_body]
pub struct ExBrokerRegistrationRequest(BrokerRegistrationRequest);
#[verifier::external_type_specification]
#[verifier::external_body]
pub struct ExBrokerHeartbeatRequest(BrokerHeartbeatRequest);
#[verifier::external_type_specification]
#[verifier::external_body]
pub struct ExUnregisterBrokerRequest(UnregisterBrokerRequest);
#[verifier::external_type_specification]
#[verifier::external_body]
pub struct ExDescribeTransactionsRequest(DescribeTransactionsRequest);
#[verifier::external_type_specification]
#[verifier::external_body]
pub struct ExListTransactionsRequest(ListTransactionsRequest);
#[verifier::external_type_specification]
#[verifier::external_body]
pub struct ExAllocateProducerIdsRequest(AllocateProducerIdsRequest);
#[verifier::external_type_specification]
#[verifier::external_body]
pub struct ExConsumerGroupHeartbeatRequest(ConsumerGroupHeartbeatRequest);
#[verifier::external_type_specification]
#[verifier::external_body]
pub struct ExConsumerGroupDescribeRequest(ConsumerGroupDescribeRequest);
#[verifier::external_type_specification]
#[verifier::external_body]
pub struct ExControllerRegistrationRequest(ControllerRegistrationRequest);
#[verifier::external_type_specification]
#[verifier::external_body]
pub struct ExGetTelemetrySubscriptionsRequest(GetTelemetrySubscriptionsRequest);
#[verifier::external_type_specification]
#[verifier::external_body]
pub struct ExPushTelemetryRequest(PushTelemetryRequest);
#[verifier::external_type_specification]
#[verifier::external_body]
pub struct ExAssignReplicasToDirsRequest(AssignReplicasToDirsRequest);
#[verifier::external_type_specification]
#[verifier::external_body]
pub struct ExListClientMetricsResourcesRequest(ListClientMetricsResourcesRequest);
#[verifier::external_type_specification]
#[verifier::external_body]
pub struct ExDescribeTopicPartitionsRequest(DescribeTopicPartitionsRequest);
#[verifier::external_type_specification]
#[verifier::external_body]
pub struct ExProduceResponse(ProduceResponse);
#[verifier::external_type_specification]
#[verifier::external_body]
pub struct ExFetchResponse(FetchResponse);
#[verifier::external_type_specification]
#[verifier::external_body]
pub struct ExListOffsetsResponse(ListOffsetsResponse);
#[verifier::external_type_specification]
#[verifier::external_body]
pub struct ExMetadataResponse(MetadataResponse);
#[verifier::external_type_specification]
#[verifier::external_body]
pub struct ExLeaderAndIsrResponse(LeaderAndIsrResponse);
#[verifier::external_type_specification]
#[verifier::external_body]
pub struct ExStopReplicaResponse(StopReplicaResponse);
#[verifier::external_type_specification]
#[verifier::external_body]
pub struct ExUpdateMetadataResponse(UpdateMetadataResponse);
#[verifier::external_type_specification]
#[verifier::external_body]
pub struct ExControlledShutdownResponse(ControlledShutdownResponse);
#[verifier::external_type_specification]
#[verifier::external_body]
pub struct ExOffsetCommitResponse(OffsetCommitResponse);
#[verifier::external_type_specification]
#[verifier::external_body]
pub struct ExOffsetFetchResponse(OffsetFetchResponse);
#[verifier::external_type_specification]
#[verifier::external_body]
pub struct ExFindCoordinatorResponse(FindCoordinatorResponse);
#[verifier::external_type_specification]
#[verifier::external_body]
pub struct ExJoinGroupResponse(JoinGroupResponse);
#[verifier::external_type_specification]
#[verifier::external_body]
pub struct ExHeartbeatResponse(HeartbeatResponse);
#[verifier::external_type_specification]
#[verifier::external_body]
pub struct ExLeaveGroupResponse(LeaveGroupResponse);
#[verifier::external_type_specification]
#[verifier::external_body]
pub struct ExSyncGroupResponse(SyncGroupResponse);
#[verifier::external_type_specification]
#[verifier::external_body]
pub struct ExDescribeGroupsResponse(DescribeGroupsResponse);
#[verifier::external_type_specification]
#[verifier::external_body]
pub struct ExListGroupsResponse(ListGroupsResponse);
#[verifier::external_type_specification]
#[verifier::external_body]
pub struct ExSaslHandshakeResponse(SaslHandshakeResponse);
#[verifier::external_type_specification]
#[verifier::external_body]
pub struct ExApiVersionsResponse(ApiVersionsResponse);
#[verifier::external_type_specification]
#[verifier::external_body]
pub struct ExCreateTopicsResponse(CreateTopicsResponse);
#[verifier::external_type_specification]
#[verifier::external_body]
pub struct ExDeleteTopicsResponse(DeleteTopicsResponse);
#[verifier::external_type_specification]
#[verifier::external_body]
pub struct ExDeleteRecordsResponse(DeleteRecordsResponse);
#[verifier::external_type_specification]
#[verifier::external_body]
pub struct ExInitProducerIdResponse(InitProducerIdResponse);
#[verifier::external_type_specification]
#[verifier::external_body]
pub struct ExOffsetForLeaderEpochResponse(OffsetForLeaderEpochResponse);
#[verifier::external_type_specification]
#[verifier::external_body]
pub struct ExAddPartitionsToTxnResponse(AddPartitionsToTxnResponse);
#[verifier::external_type_specification]
#[verifier::external_body]
pub struct ExAddOffsetsToTxnResponse(AddOffsetsToTxnResponse);
#[verifier::external_type_specification]
#[verifier::external_body]
pub struct ExEndTxnResponse(EndTxnResponse);
#[verifier::external_type_specification]
#[verifier::external_body]
pub struct ExWriteTxnMarkersResponse(WriteTxnMarkersResponse);
#[verifier::external_type_specification]
#[verifier::external_body]
pub struct ExTxnOffsetCommitResponse(TxnOffsetCommitResponse);
#[verifier::external_type_specification]
#[verifier::external_body]
pub struct ExDescribeAclsResponse(DescribeAclsResponse);
#[verifier::external_type_specification]
#[verifier::external_body]
pub struct ExCreateAclsResponse(CreateAclsResponse);
#[verifier::external_type_specification]
#[verifier::external_body]
pub struct ExDeleteAclsResponse(DeleteAclsResponse);
#[verifier::external_type_specification]
#[verifier::external_body]
pub struct ExDescribeConfigsResponse(DescribeConfigsResponse);
#[verifier::external_type_specification]
#[verifier::external_body]
pub struct ExAlterConfigsResponse(AlterConfigsResponse);
#[verifier::external_type_specification]
#[verifier::external_body]
pub struct ExAlterReplicaLogDirsResponse(AlterReplicaLogDirsResponse);
#[verifier::external_type_specification]
#[verifier::external_body]
pub struct ExDescribeLogDirsResponse(DescribeLogDirsResponse);
#[verifier::external_type_specification]
#[verifier::external_body]
pub struct ExSaslAuthenticateResponse(SaslAuthenticateResponse);
#[verifier::external_type_specification]
#[verifier::external_body]
pub struct ExCreatePartitionsResponse(CreatePartitionsResponse);
#[verifier::external_type_specification]
#[verifier::external_body]
pub struct ExCreateDelegationTokenResponse(CreateDelegationTokenResponse);
#[verifier::external_type_specification]
#[verifier::external_body]
pub struct ExRenewDelegationTokenResponse(RenewDelegationTokenResponse);
#[verifier::external_type_specification]
#[verifier::external_body]
pub struct ExExpireDelegationTokenResponse(ExpireDelegationTokenResponse);
#[verifier::external_type_specification]
#[verifier::external_body]
pub struct ExDescribeDelegationTokenResponse(DescribeDelegationTokenResponse);
#[verifier::external_type_specification]
#[verifier::external_body]
pub struct ExDeleteGroupsResponse(DeleteGroupsResponse);
#[verifier::external_type_specification]
#[verifier::external_body]
pub struct ExElectLeadersResponse(ElectLeadersResponse);
#[verifier::external_type_specification]
#[verifier::external_body]
pub struct ExIncrementalAlterConfigsResponse(IncrementalAlterConfigsResponse);
#[verifier::external_type_specification]
#[verifier::external_body]
pub struct ExAlterPartitionReassignmentsResponse(AlterPartitionReassignmentsResponse);
#[verifier::external_type_specification]
#[verifier::external_body]
pub struct ExListPartitionReassignmentsResponse(ListPartitionReassignmentsResponse);
#[verifier::external_type_specification]
#[verifier::external_body]
pub struct ExOffsetDeleteResponse(OffsetDeleteResponse);
#[verifier::external_type_specification]
#[verifier::external_body]
pub struct ExDescribeClientQuotasResponse(DescribeClientQuotasResponse);
#[verifier::external_type_specification]
#[verifier::external_body]
pub struct ExAlterClientQuotasResponse(AlterClientQuotasResponse);
#[verifier::external_type_specification]
#[verifier::external_body]
pub struct ExDescribeUserScramCredentialsResponse(DescribeUserScramCredentialsResponse);
#[verifier::external_type_specification]
#[verifier::external_body]
pub struct ExAlterUserScramCredentialsResponse(AlterUserScramCredentialsResponse);
#[verifier::external_type_specification]
#[verifier::external_body]
pub struct ExVoteResponse(VoteResponse);
#[verifier::external_type_specification]
#[verifier::external_body]
pub struct ExBeginQuorumEpochResponse(BeginQuorumEpochResponse);
#[verifier::external_type_specification]
#[verifier::external_body]
pub struct ExEndQuorumEpochResponse(EndQuorumEpochResponse);
#[verifier::external_type_specification]
#[verifier::external_body]
pub struct ExDescribeQuorumResponse(DescribeQuorumResponse);
#[verifier::external_type_specification]
#[verifier::external_body]
pub struct ExAlterPartitionResponse(AlterPartitionResponse);
#[verifier::external_type_specification]
#[verifier::external_body]
pub struct ExUpdateFeaturesResponse(UpdateFeaturesResponse);
#[verifier::external_type_specification]
#[verifier::external_body]
pub struct ExEnvelopeResponse(EnvelopeResponse);
#[verifier::external_type_specification]
#[verifier::external_body]
pub struct ExFetchSnapshotResponse(FetchSnapshotResponse);
#[verifier::external_type_specification]
#[verifier::external_body]
pub struct ExDescribeClusterResponse(DescribeClusterResponse);
#[verifier::external_type_specification]
#[verifier::external_body]
pub struct ExDescribeProducersResponse(DescribeProducersResponse);
#[verifier::external_type_specification]
#[verifier::external_body]
pub struct ExBrokerRegistrationResponse(BrokerRegistrationResponse);
#[verifier::external_type_specification]
#[verifier::external_body]
pub struct ExBrokerHeartbeatResponse(BrokerHeartbeatResponse);
#[verifier::external_type_specification]
#[verifier::external_body]
pub struct ExUnregisterBrokerResponse(UnregisterBrokerResponse);
#[verifier::external_type_specification]
#[verifier::external_body]
pub struct ExDescribeTransactionsResponse(DescribeTransactionsResponse);
#[verifier::external_type_specification]
#[verifier::external_body]
pub struct ExListTransactionsResponse(ListTransactionsResponse);
#[verifier::external_type_specification]
#[verifier::external_body]
pub struct ExAllocateProducerIdsResponse(AllocateProducerIdsResponse);
#[verifier::external_type_specification]
#[verifier::external_body]
pub struct ExConsumerGroupHeartbeatResponse(ConsumerGroupHeartbeatResponse);
#[verifier::external_type_specification]
#[verifier::external_body]
pub struct ExConsumerGroupDescribeResponse(ConsumerGroupDescribeResponse);
#[verifier::external_type_specification]
#[verifier::external_body]
pub struct ExControllerRegistrationResponse(ControllerRegistrationResponse);
#[verifier::external_type_specification]
#[verifier::external_body]
pub struct ExGetTelemetrySubscriptionsResponse(GetTelemetrySubscriptionsResponse);
#[verifier::external_type_specification]
#[verifier::external_body]
pub struct ExPushTelemetryResponse(PushTelemetryResponse);
#[verifier::external_type_specification]
#[verifier::external_body]
pub struct ExAssignReplicasToDirsResponse(AssignReplicasToDirsResponse);
#[verifier::external_type_specification]
#[verifier::external_body]
pub struct ExListClientMetricsResourcesResponse(ListClientMetricsResourcesResponse);
#[verifier::external_type_specification]
#[verifier::external_body]
pub struct ExDescribeTopicPartitionsResponse(DescribeTopicPartitionsResponse);

/// What `Decodable::decode` of `kafka-protocol`, for the request type of
/// the API with key `key`, makes of the front of `bytes` under API version
/// `version`: the request, and how many bytes it took; `None` where it
/// refuses them.
pub uninterp spec fn request_decoding(key: i16, version: i16, bytes: Seq<u8>) -> Option<(KafkaRequest, nat)>;

/// What `Decodable::decode` of `kafka-protocol`, for the response type of
/// the API with key `key`, makes of the front of `bytes` under API version
/// `version`: the response, and how many bytes it took; `None` where it
/// refuses them.
pub uninterp spec fn response_decoding(key: i16, version: i16, bytes: Seq<u8>) -> Option<(KafkaResponse, nat)>;

/// The bytes that `Encodable::encode` of `kafka-protocol` writes for the
/// request under API version `version`; `None` where it refuses to.
pub uninterp spec fn request_encoding(message: KafkaRequest, version: i16) -> Option<Seq<u8>>;

/// The bytes that `Encodable::encode` of `kafka-protocol` writes for the
/// response under API version `version`; `None` where it refuses to.
pub uninterp spec fn response_encoding(message: KafkaResponse, version: i16) -> Option<Seq<u8>>;

/// How many bytes the decoder of the request of API `key` takes from the
/// front of `bytes` under API version `version`; `None` where it refuses
/// them.
pub open spec fn request_body_len(key: i16, version: i16, bytes: Seq<u8>) -> Option<nat> {
    match request_decoding(key, version, bytes) {
        Some((_, n)) => Some(n),
        None => None,
    }
}

/// How many bytes the decoder of the response of API `key` takes from the
/// front of `bytes` under API version `version`; `None` where it refuses
/// them.
pub open spec fn response_body_len(key: i16, version: i16, bytes: Seq<u8>) -> Option<nat> {
    match response_decoding(key, version, bytes) {
        Some((_, n)) => Some(n),
        None => None,
    }
}

/// `ProduceRequest::decode` of `kafka-protocol` (`Decodable`), from the front of
/// `bytes` under the given API version: it succeeds exactly where
/// `request_decoding` has a result for API key 0, and then hands back that
/// message and the number of bytes after it; on failure, the text of the
/// decoder's error.
#[verifier::external_body]
fn decode_produce_request(bytes: &[u8], version: i16) -> (r: Result<(ProduceRequest, usize), String>)
    ensures
        r is Ok <==> request_decoding(0, version, bytes@) is Some,
        r matches Ok((m, rest)) ==> rest <= bytes@.len() && request_decoding(0, version, bytes@) == Some(
            (KafkaRequest::ProduceRequest(m), (bytes@.len() - rest) as nat),
        ),
{
    let mut rest = bytes;
    match ProduceRequest::decode(&mut rest, version) {
        Ok(m) => Ok((m, rest.len())),
        Err(e) => Err(e.to_string()),
    }
}

/// `ProduceRequest::encode` of `kafka-protocol` (`Encodable`), under the given
/// API version into a fresh buffer: it succeeds exactly where
/// `request_encoding` has bytes for the message, and gives those bytes.
#[verifier::external_body]
fn encode_produce_request(message: &ProduceRequest, version: i16) -> (r: Result<Vec<u8>, ()>)
    ensures
        r is Ok <==> request_encoding(KafkaRequest::ProduceRequest(*message), version) is Some,
        r matches Ok(b) ==> request_encoding(KafkaRequest::ProduceRequest(*message), version) == Some(b@),
{
    let mut out: Vec<u8> = Vec::new();
    match message.encode(&mut out, version) {
        Ok(()) => Ok(out),
        Err(_) => Err(()),
    }
}

/// `FetchRequest::decode` of `kafka-protocol` (`Decodable`), from the front of
/// `bytes` under the given API version: it succeeds exactly where
/// `request_decoding` has a result for API key 1, and then hands back that
/// message and the number of bytes after it; on failure, the text of the
/// decoder's error.
#[verifier::external_body]
fn decode_fetch_request(bytes: &[u8], version: i16) -> (r: Result<(FetchRequest, usize), String>)
    ensures
        r is Ok <==> request_decoding(1, version, bytes@) is Some,
        r matches Ok((m, rest)) ==> rest <= bytes@.len() && request_decoding(1, version, bytes@) == Some(
            (KafkaRequest::FetchRequest(m), (bytes@.len() - rest) as nat),
        ),
{
    let mut rest = bytes;
    match FetchRequest::decode(&mut rest, version) {
        Ok(m) => Ok((m, rest.len())),
        Err(e) => Err(e.to_string()),
    }
}

/// `FetchRequest::encode` of `kafka-protocol` (`Encodable`), under the given
/// API version into a fresh buffer: it succeeds exactly where
/// `request_encoding` has bytes for the message, and gives those bytes.
#[verifier::external_body]
fn encode_fetch_request(message: &FetchRequest, version: i16) -> (r: Result<Vec<u8>, ()>)
    ensures
        r is Ok <==> request_encoding(KafkaRequest::FetchRequest(*message), version) is Some,
        r matches Ok(b) ==> request_encoding(KafkaRequest::FetchRequest(*message), version) == Some(b@),
{
    let mut out: Vec<u8> = Vec::new();
    match message.encode(&mut out, version) {
        Ok(()) => Ok(out),
        Err(_) => Err(()),
    }
}

/// `ListOffsetsRequest::decode` of `kafka-protocol` (`Decodable`), from the front of
/// `bytes` under the given API version: it succeeds exactly where
/// `request_decoding` has a result for API key 2, and then hands back that
/// message and the number of bytes after it; on failure, the text of the
/// decoder's error.
#[verifier::external_body]
fn decode_list_offsets_request(bytes: &[u8], version: i16) -> (r: Result<(ListOffsetsRequest, usize), String>)
    ensures
        r is Ok <==> request_decoding(2, version, bytes@) is Some,
        r matches Ok((m, rest)) ==> rest <= bytes@.len() && request_decoding(2, version, bytes@) == Some(
            (KafkaRequest::ListOffsetsRequest(m), (bytes@.len() - rest) as nat),
        ),
{
    let mut rest = bytes;
    match ListOffsetsRequest::decode(&mut rest, version) {
        Ok(m) => Ok((m, rest.len())),
        Err(e) => Err(e.to_string()),
    }
}

/// `ListOffsetsRequest::encode` of `kafka-protocol` (`Encodable`), under the given
/// API version into a fresh buffer: it succeeds exactly where
/// `request_encoding` has bytes for the message, and gives those bytes.
#[verifier::external_body]
fn encode_list_offsets_request(message: &ListOffsetsRequest, version: i16) -> (r: Result<Vec<u8>, ()>)
    ensures
        r is Ok <==> request_encoding(KafkaRequest::ListOffsetsRequest(*message), version) is Some,
        r matches Ok(b) ==> request_encoding(KafkaRequest::ListOffsetsRequest(*message), version) == Some(b@),
{
    let mut out: Vec<u8> = Vec::new();
    match message.encode(&mut out, version) {
        Ok(()) => Ok(out),
        Err(_) => Err(()),
    }
}

/// `MetadataRequest::decode` of `kafka-protocol` (`Decodable`), from the front of
/// `bytes` under the given API version: it succeeds exactly where
/// `request_decoding` has a result for API key 3, and then hands back that
/// message and the number of bytes after it; on failure, the text of the
/// decoder's error.
#[verifier::external_body]
fn decode_metadata_request(bytes: &[u8], version: i16) -> (r: Result<(MetadataRequest, usize), String>)
    ensures
        r is Ok <==> request_decoding(3, version, bytes@) is Some,
        r matches Ok((m, rest)) ==> rest <= bytes@.len() && request_decoding(3, version, bytes@) == Some(
            (KafkaRequest::MetadataRequest(m), (bytes@.len() - rest) as nat),
        ),
{
    let mut rest = bytes;
    match MetadataRequest::decode(&mut rest, version) {
        Ok(m) => Ok((m, rest.len())),
        Err(e) => Err(e.to_string()),
    }
}

/// `MetadataRequest::encode` of `kafka-protocol` (`Encodable`), under the given
/// API version into a fresh buffer: it succeeds exactly where
/// `request_encoding` has bytes for the message, and gives those bytes.
#[verifier::external_body]
fn encode_metadata_request(message: &MetadataRequest, version: i16) -> (r: Result<Vec<u8>, ()>)
    ensures
        r is Ok <==> request_encoding(KafkaRequest::MetadataRequest(*message), version) is Some,
        r matches Ok(b) ==> request_encoding(KafkaRequest::MetadataRequest(*message), version) == Some(b@),
{
    let mut out: Vec<u8> = Vec::new();
    match message.encode(&mut out, version) {
        Ok(()) => Ok(out),
        Err(_) => Err(()),
    }
}

/// `LeaderAndIsrRequest::decode` of `kafka-protocol` (`Decodable`), from the front of
/// `bytes` under the given API version: it succeeds exactly where
/// `request_decoding` has a result for API key 4, and then hands back that
/// message and the number of bytes after it; on failure, the text of the
/// decoder's error.
#[verifier::external_body]
fn decode_leader_and_isr_request(bytes: &[u8], version: i16) -> (r: Result<(LeaderAndIsrRequest, usize), String>)
    ensures
        r is Ok <==> request_decoding(4, version, bytes@) is Some,
        r matches Ok((m, rest)) ==> rest <= bytes@.len() && request_decoding(4, version, bytes@) == Some(
            (KafkaRequest::LeaderAndIsrRequest(m), (bytes@.len() - rest) as nat),
        ),
{
    let mut rest = bytes;
    match LeaderAndIsrRequest::decode(&mut rest, version) {
        Ok(m) => Ok((m, rest.len())),
        Err(e) => Err(e.to_string()),
    }
}

/// `LeaderAndIsrRequest::encode` of `kafka-protocol` (`Encodable`), under the given
/// API version into a fresh buffer: it succeeds exactly where
/// `request_encoding` has bytes for the message, and gives those bytes.
#[verifier::external_body]
fn encode_leader_and_isr_request(message: &LeaderAndIsrRequest, version: i16) -> (r: Result<Vec<u8>, ()>)
    ensures
        r is Ok <==> request_encoding(KafkaRequest::LeaderAndIsrRequest(*message), version) is Some,
        r matches Ok(b) ==> request_encoding(KafkaRequest::LeaderAndIsrRequest(*message), version) == Some(b@),
{
    let mut out: Vec<u8> = Vec::new();
    match message.encode(&mut out, version) {
        Ok(()) => Ok(out),
        Err(_) => Err(()),
    }
}

/// `StopReplicaRequest::decode` of `kafka-protocol` (`Decodable`), from the front of
/// `bytes` under the given API version: it succeeds exactly where
/// `request_decoding` has a result for API key 5, and then hands back that
/// message and the number of bytes after it; on failure, the text of the
/// decoder's error.
#[verifier::external_body]
fn decode_stop_replica_request(bytes: &[u8], version: i16) -> (r: Result<(StopReplicaRequest, usize), String>)
    ensures
        r is Ok <==> request_decoding(5, version, bytes@) is Some,
        r matches Ok((m, rest)) ==> rest <= bytes@.len() && request_decoding(5, version, bytes@) == Some(
            (KafkaRequest::StopReplicaRequest(m), (bytes@.len() - rest) as nat),
        ),
{
    let mut rest = bytes;
    match StopReplicaRequest::decode(&mut rest, version) {
        Ok(m) => Ok((m, rest.len())),
        Err(e) => Err(e.to_string()),
    }
}

/// `StopReplicaRequest::encode` of `kafka-protocol` (`Encodable`), under the given
/// API version into a fresh buffer: it succeeds exactly where
/// `request_encoding` has bytes for the message, and gives those bytes.
#[verifier::external_body]
fn encode_stop_replica_request(message: &StopReplicaRequest, version: i16) -> (r: Result<Vec<u8>, ()>)
    ensures
        r is Ok <==> request_encoding(KafkaRequest::StopReplicaRequest(*message), version) is Some,
        r matches Ok(b) ==> request_encoding(KafkaRequest::StopReplicaRequest(*message), version) == Some(b@),
{
    let mut out: Vec<u8> = Vec::new();
    match message.encode(&mut out, version) {
        Ok(()) => Ok(out),
        Err(_) => Err(()),
    }
}

/// `UpdateMetadataRequest::decode` of `kafka-protocol` (`Decodable`), from the front of
/// `bytes` under the given API version: it succeeds exactly where
/// `request_decoding` has a result for API key 6, and then hands back that
/// message and the number of bytes after it; on failure, the text of the
/// decoder's error.
#[verifier::external_body]
fn decode_update_metadata_request(bytes: &[u8], version: i16) -> (r: Result<(UpdateMetadataRequest, usize), String>)
    ensures
        r is Ok <==> request_decoding(6, version, bytes@) is Some,
        r matches Ok((m, rest)) ==> rest <= bytes@.len() && request_decoding(6, version, bytes@) == Some(
            (KafkaRequest::UpdateMetadataRequest(m), (bytes@.len() - rest) as nat),
        ),
{
    let mut rest = bytes;
    match UpdateMetadataRequest::decode(&mut rest, version) {
        Ok(m) => Ok((m, rest.len())),
        Err(e) => Err(e.to_string()),
    }
}

/// `UpdateMetadataRequest::encode` of `kafka-protocol` (`Encodable`), under the given
/// API version into a fresh buffer: it succeeds exactly where
/// `request_encoding` has bytes for the message, and gives those bytes.
#[verifier::external_body]
fn encode_update_metadata_request(message: &UpdateMetadataRequest, version: i16) -> (r: Result<Vec<u8>, ()>)
    ensures
        r is Ok <==> request_encoding(KafkaRequest::UpdateMetadataRequest(*message), version) is Some,
        r matches Ok(b) ==> request_encoding(KafkaRequest::UpdateMetadataRequest(*message), version) == Some(b@),
{
    let mut out: Vec<u8> = Vec::new();
    match message.encode(&mut out, version) {
        Ok(()) => Ok(out),
        Err(_) => Err(()),
    }
}

/// `ControlledShutdownRequest::decode` of `kafka-protocol` (`Decodable`), from the front of
/// `bytes` under the given API version: it succeeds exactly where
/// `request_decoding` has a result for API key 7, and then hands back that
/// message and the number of bytes after it; on failure, the text of the
/// decoder's error.
#[verifier::external_body]
fn decode_controlled_shutdown_request(bytes: &[u8], version: i16) -> (r: Result<(ControlledShutdownRequest, usize), String>)
    ensures
        r is Ok <==> request_decoding(7, version, bytes@) is Some,
        r matches Ok((m, rest)) ==> rest <= bytes@.len() && request_decoding(7, version, bytes@) == Some(
            (KafkaRequest::ControlledShutdownRequest(m), (bytes@.len() - rest) as nat),
        ),
{
    let mut rest = bytes;
    match ControlledShutdownRequest::decode(&mut rest, version) {
        Ok(m) => Ok((m, rest.len())),
        Err(e) => Err(e.to_string()),
    }
}

/// `ControlledShutdownRequest::encode` of `kafka-protocol` (`Encodable`), under the given
/// API version into a fresh buffer: it succeeds exactly where
/// `request_encoding` has bytes for the message, and gives those bytes.
#[verifier::external_body]
fn encode_controlled_shutdown_request(message: &ControlledShutdownRequest, version: i16) -> (r: Result<Vec<u8>, ()>)
    ensures
        r is Ok <==> request_encoding(KafkaRequest::ControlledShutdownRequest(*message), version) is Some,
        r matches Ok(b) ==> request_encoding(KafkaRequest::ControlledShutdownRequest(*message), version) == Some(b@),
{
    let mut out: Vec<u8> = Vec::new();
    match message.encode(&mut out, version) {
        Ok(()) => Ok(out),
        Err(_) => Err(()),
    }
}

/// `OffsetCommitRequest::decode` of `kafka-protocol` (`Decodable`), from the front of
/// `bytes` under the given API version: it succeeds exactly where
/// `request_decoding` has a result for API key 8, and then hands back that
/// message and the number of bytes after it; on failure, the text of the
/// decoder's error.
#[verifier::external_body]
fn decode_offset_commit_request(bytes: &[u8], version: i16) -> (r: Result<(OffsetCommitRequest, usize), String>)
    ensures
        r is Ok <==> request_decoding(8, version, bytes@) is Some,
        r matches Ok((m, rest)) ==> rest <= bytes@.len() && request_decoding(8, version, bytes@) == Some(
            (KafkaRequest::OffsetCommitRequest(m), (bytes@.len() - rest) as nat),
        ),
{
    let mut rest = bytes;
    match OffsetCommitRequest::decode(&mut rest, version) {
        Ok(m) => Ok((m, rest.len())),
        Err(e) => Err(e.to_string()),
    }
}

/// `OffsetCommitRequest::encode` of `kafka-protocol` (`Encodable`), under the given
/// API version into a fresh buffer: it succeeds exactly where
/// `request_encoding` has bytes for the message, and gives those bytes.
#[verifier::external_body]
fn encode_offset_commit_request(message: &OffsetCommitRequest, version: i16) -> (r: Result<Vec<u8>, ()>)
    ensures
        r is Ok <==> request_encoding(KafkaRequest::OffsetCommitRequest(*message), version) is Some,
        r matches Ok(b) ==> request_encoding(KafkaRequest::OffsetCommitRequest(*message), version) == Some(b@),
{
    let mut out: Vec<u8> = Vec::new();
    match message.encode(&mut out, version) {
        Ok(()) => Ok(out),
        Err(_) => Err(()),
    }
}

/// `OffsetFetchRequest::decode` of `kafka-protocol` (`Decodable`), from the front of
/// `bytes` under the given API version: it succeeds exactly where
/// `request_decoding` has a result for API key 9, and then hands back that
/// message and the number of bytes after it; on failure, the text of the
/// decoder's error.
#[verifier::external_body]
fn decode_offset_fetch_request(bytes: &[u8], version: i16) -> (r: Result<(OffsetFetchRequest, usize), String>)
    ensures
        r is Ok <==> request_decoding(9, version, bytes@) is Some,
        r matches Ok((m, rest)) ==> rest <= bytes@.len() && request_decoding(9, version, bytes@) == Some(
            (KafkaRequest::OffsetFetchRequest(m), (bytes@.len() - rest) as nat),
        ),
{
    let mut rest = bytes;
    match OffsetFetchRequest::decode(&mut rest, version) {
        Ok(m) => Ok((m, rest.len())),
        Err(e) => Err(e.to_string()),
    }
}

/// `OffsetFetchRequest::encode` of `kafka-protocol` (`Encodable`), under the given
/// API version into a fresh buffer: it succeeds exactly where
/// `request_encoding` has bytes for the message, and gives those bytes.
#[verifier::external_body]
fn encode_offset_fetch_request(message: &OffsetFetchRequest, version: i16) -> (r: Result<Vec<u8>, ()>)
    ensures
        r is Ok <==> request_encoding(KafkaRequest::OffsetFetchRequest(*message), version) is Some,
        r matches Ok(b) ==> request_encoding(KafkaRequest::OffsetFetchRequest(*message), version) == Some(b@),
{
    let mut out: Vec<u8> = Vec::new();
    match message.encode(&mut out, version) {
        Ok(()) => Ok(out),
        Err(_) => Err(()),
    }
}

/// `FindCoordinatorRequest::decode` of `kafka-protocol` (`Decodable`), from the front of
/// `bytes` under the given API version: it succeeds exactly where
/// `request_decoding` has a result for API key 10, and then hands back that
/// message and the number of bytes after it; on failure, the text of the
/// decoder's error.
#[verifier::external_body]
fn decode_find_coordinator_request(bytes: &[u8], version: i16) -> (r: Result<(FindCoordinatorRequest, usize), String>)
    ensures
        r is Ok <==> request_decoding(10, version, bytes@) is Some,
        r matches Ok((m, rest)) ==> rest <= bytes@.len() && request_decoding(10, version, bytes@) == Some(
            (KafkaRequest::FindCoordinatorRequest(m), (bytes@.len() - rest) as nat),
        ),
{
    let mut rest = bytes;
    match FindCoordinatorRequest::decode(&mut rest, version) {
        Ok(m) => Ok((m, rest.len())),
        Err(e) => Err(e.to_string()),
    }
}

/// `FindCoordinatorRequest::encode` of `kafka-protocol` (`Encodable`), under the given
/// API version into a fresh buffer: it succeeds exactly where
/// `request_encoding` has bytes for the message, and gives those bytes.
#[verifier::external_body]
fn encode_find_coordinator_request(message: &FindCoordinatorRequest, version: i16) -> (r: Result<Vec<u8>, ()>)
    ensures
        r is Ok <==> request_encoding(KafkaRequest::FindCoordinatorRequest(*message), version) is Some,
        r matches Ok(b) ==> request_encoding(KafkaRequest::FindCoordinatorRequest(*message), version) == Some(b@),
{
    let mut out: Vec<u8> = Vec::new();
    match message.encode(&mut out, version) {
        Ok(()) => Ok(out),
        Err(_) => Err(()),
    }
}

/// `JoinGroupRequest::decode` of `kafka-protocol` (`Decodable`), from the front of
/// `bytes` under the given API version: it succeeds exactly where
/// `request_decoding` has a result for API key 11, and then hands back that
/// message and the number of bytes after it; on failure, the text of the
/// decoder's error.
#[verifier::external_body]
fn decode_join_group_request(bytes: &[u8], version: i16) -> (r: Result<(JoinGroupRequest, usize), String>)
    ensures
        r is Ok <==> request_decoding(11, version, bytes@) is Some,
        r matches Ok((m, rest)) ==> rest <= bytes@.len() && request_decoding(11, version, bytes@) == Some(
            (KafkaRequest::JoinGroupRequest(m), (bytes@.len() - rest) as nat),
        ),
{
    let mut rest = bytes;
    match JoinGroupRequest::decode(&mut rest, version) {
        Ok(m) => Ok((m, rest.len())),
        Err(e) => Err(e.to_string()),
    }
}

/// `JoinGroupRequest::encode` of `kafka-protocol` (`Encodable`), under the given
/// API version into a fresh buffer: it succeeds exactly where
/// `request_encoding` has bytes for the message, and gives those bytes.
#[verifier::external_body]
fn encode_join_group_request(message: &JoinGroupRequest, version: i16) -> (r: Result<Vec<u8>, ()>)
    ensures
        r is Ok <==> request_encoding(KafkaRequest::JoinGroupRequest(*message), version) is Some,
        r matches Ok(b) ==> request_encoding(KafkaRequest::JoinGroupRequest(*message), version) == Some(b@),
{
    let mut out: Vec<u8> = Vec::new();
    match message.encode(&mut out, version) {
        Ok(()) => Ok(out),
        Err(_) => Err(()),
    }
}

/// `HeartbeatRequest::decode` of `kafka-protocol` (`Decodable`), from the front of
/// `bytes` under the given API version: it succeeds exactly where
/// `request_decoding` has a result for API key 12, and then hands back that
/// message and the number of bytes after it; on failure, the text of the
/// decoder's error.
#[verifier::external_body]
fn decode_heartbeat_request(bytes: &[u8], version: i16) -> (r: Result<(HeartbeatRequest, usize), String>)
    ensures
        r is Ok <==> request_decoding(12, version, bytes@) is Some,
        r matches Ok((m, rest)) ==> rest <= bytes@.len() && request_decoding(12, version, bytes@) == Some(
            (KafkaRequest::HeartbeatRequest(m), (bytes@.len() - rest) as nat),
        ),
{
    let mut rest = bytes;
    match HeartbeatRequest::decode(&mut rest, version) {
        Ok(m) => Ok((m, rest.len())),
        Err(e) => Err(e.to_string()),
    }
}

/// `HeartbeatRequest::encode` of `kafka-protocol` (`Encodable`), under the given
/// API version into a fresh buffer: it succeeds exactly where
/// `request_encoding` has bytes for the message, and gives those bytes.
#[verifier::external_body]
fn encode_heartbeat_request(message: &HeartbeatRequest, version: i16) -> (r: Result<Vec<u8>, ()>)
    ensures
        r is Ok <==> request_encoding(KafkaRequest::HeartbeatRequest(*message), version) is Some,
        r matches Ok(b) ==> request_encoding(KafkaRequest::HeartbeatRequest(*message), version) == Some(b@),
{
    let mut out: Vec<u8> = Vec::new();
    match message.encode(&mut out, version) {
        Ok(()) => Ok(out),
        Err(_) => Err(()),
    }
}

/// `LeaveGroupRequest::decode` of `kafka-protocol` (`Decodable`), from the front of
/// `bytes` under the given API version: it succeeds exactly where
/// `request_decoding` has a result for API key 13, and then hands back that
/// message and the number of bytes after it; on failure, the text of the
/// decoder's error.
#[verifier::external_body]
fn decode_leave_group_request(bytes: &[u8], version: i16) -> (r: Result<(LeaveGroupRequest, usize), String>)
    ensures
        r is Ok <==> request_decoding(13, version, bytes@) is Some,
        r matches Ok((m, rest)) ==> rest <= bytes@.len() && request_decoding(13, version, bytes@) == Some(
            (KafkaRequest::LeaveGroupRequest(m), (bytes@.len() - rest) as nat),
        ),
{
    let mut rest = bytes;
    match LeaveGroupRequest::decode(&mut rest, version) {
        Ok(m) => Ok((m, rest.len())),
        Err(e) => Err(e.to_string()),
    }
}

/// `LeaveGroupRequest::encode` of `kafka-protocol` (`Encodable`), under the given
/// API version into a fresh buffer: it succeeds exactly where
/// `request_encoding` has bytes for the message, and gives those bytes.
#[verifier::external_body]
fn encode_leave_group_request(message: &LeaveGroupRequest, version: i16) -> (r: Result<Vec<u8>, ()>)
    ensures
        r is Ok <==> request_encoding(KafkaRequest::LeaveGroupRequest(*message), version) is Some,
        r matches Ok(b) ==> request_encoding(KafkaRequest::LeaveGroupRequest(*message), version) == Some(b@),
{
    let mut out: Vec<u8> = Vec::new();
    match message.encode(&mut out, version) {
        Ok(()) => Ok(out),
        Err(_) => Err(()),
    }
}

/// `SyncGroupRequest::decode` of `kafka-protocol` (`Decodable`), from the front of
/// `bytes` under the given API version: it succeeds exactly where
/// `request_decoding` has a result for API key 14, and then hands back that
/// message and the number of bytes after it; on failure, the text of the
/// decoder's error.
#[verifier::external_body]
fn decode_sync_group_request(bytes: &[u8], version: i16) -> (r: Result<(SyncGroupRequest, usize), String>)
    ensures
        r is Ok <==> request_decoding(14, version, bytes@) is Some,
        r matches Ok((m, rest)) ==> rest <= bytes@.len() && request_decoding(14, version, bytes@) == Some(
            (KafkaRequest::SyncGroupRequest(m), (bytes@.len() - rest) as nat),
        ),
{
    let mut rest = bytes;
    match SyncGroupRequest::decode(&mut rest, version) {
        Ok(m) => Ok((m, rest.len())),
        Err(e) => Err(e.to_string()),
    }
}

/// `SyncGroupRequest::encode` of `kafka-protocol` (`Encodable`), under the given
/// API version into a fresh buffer: it succeeds exactly where
/// `request_encoding` has bytes for the message, and gives those bytes.
#[verifier::external_body]
fn encode_sync_group_request(message: &SyncGroupRequest, version: i16) -> (r: Result<Vec<u8>, ()>)
    ensures
        r is Ok <==> request_encoding(KafkaRequest::SyncGroupRequest(*message), version) is Some,
        r matches Ok(b) ==> request_encoding(KafkaRequest::SyncGroupRequest(*message), version) == Some(b@),
{
    let mut out: Vec<u8> = Vec::new();
    match message.encode(&mut out, version) {
        Ok(()) => Ok(out),
        Err(_) => Err(()),
    }
}

/// `DescribeGroupsRequest::decode` of `kafka-protocol` (`Decodable`), from the front of
/// `bytes` under the given API version: it succeeds exactly where
/// `request_decoding` has a result for API key 15, and then hands back that
/// message and the number of bytes after it; on failure, the text of the
/// decoder's error.
#[verifier::external_body]
fn decode_describe_groups_request(bytes: &[u8], version: i16) -> (r: Result<(DescribeGroupsRequest, usize), String>)
    ensures
        r is Ok <==> request_decoding(15, version, bytes@) is Some,
        r matches Ok((m, rest)) ==> rest <= bytes@.len() && request_decoding(15, version, bytes@) == Some(
            (KafkaRequest::DescribeGroupsRequest(m), (bytes@.len() - rest) as nat),
        ),
{
    let mut rest = bytes;
    match DescribeGroupsRequest::decode(&mut rest, version) {
        Ok(m) => Ok((m, rest.len())),
        Err(e) => Err(e.to_string()),
    }
}

/// `DescribeGroupsRequest::encode` of `kafka-protocol` (`Encodable`), under the given
/// API version into a fresh buffer: it succeeds exactly where
/// `request_encoding` has bytes for the message, and gives those bytes.
#[verifier::external_body]
fn encode_describe_groups_request(message: &DescribeGroupsRequest, version: i16) -> (r: Result<Vec<u8>, ()>)
    ensures
        r is Ok <==> request_encoding(KafkaRequest::DescribeGroupsRequest(*message), version) is Some,
        r matches Ok(b) ==> request_encoding(KafkaRequest::DescribeGroupsRequest(*message), version) == Some(b@),
{
    let mut out: Vec<u8> = Vec::new();
    match message.encode(&mut out, version) {
        Ok(()) => Ok(out),
        Err(_) => Err(()),
    }
}

/// `ListGroupsRequest::decode` of `kafka-protocol` (`Decodable`), from the front of
/// `bytes` under the given API version: it succeeds exactly where
/// `request_decoding` has a result for API key 16, and then hands back that
/// message and the number of bytes after it; on failure, the text of the
/// decoder's error.
#[verifier::external_body]
fn decode_list_groups_request(bytes: &[u8], version: i16) -> (r: Result<(ListGroupsRequest, usize), String>)
    ensures
        r is Ok <==> request_decoding(16, version, bytes@) is Some,
        r matches Ok((m, rest)) ==> rest <= bytes@.len() && request_decoding(16, version, bytes@) == Some(
            (KafkaRequest::ListGroupsRequest(m), (bytes@.len() - rest) as nat),
        ),
{
    let mut rest = bytes;
    match ListGroupsRequest::decode(&mut rest, version) {
        Ok(m) => Ok((m, rest.len())),
        Err(e) => Err(e.to_string()),
    }
}

/// `ListGroupsRequest::encode` of `kafka-protocol` (`Encodable`), under the given
/// API version into a fresh buffer: it succeeds exactly where
/// `request_encoding` has bytes for the message, and gives those bytes.
#[verifier::external_body]
fn encode_list_groups_request(message: &ListGroupsRequest, version: i16) -> (r: Result<Vec<u8>, ()>)
    ensures
        r is Ok <==> request_encoding(KafkaRequest::ListGroupsRequest(*message), version) is Some,
        r matches Ok(b) ==> request_encoding(KafkaRequest::ListGroupsRequest(*message), version) == Some(b@),
{
    let mut out: Vec<u8> = Vec::new();
    match message.encode(&mut out, version) {
        Ok(()) => Ok(out),
        Err(_) => Err(()),
    }
}

/// `SaslHandshakeRequest::decode` of `kafka-protocol` (`Decodable`), from the front of
/// `bytes` under the given API version: it succeeds exactly where
/// `request_decoding` has a result for API key 17, and then hands back that
/// message and the number of bytes after it; on failure, the text of the
/// decoder's error.
#[verifier::external_body]
fn decode_sasl_handshake_request(bytes: &[u8], version: i16) -> (r: Result<(SaslHandshakeRequest, usize), String>)
    ensures
        r is Ok <==> request_decoding(17, version, bytes@) is Some,
        r matches Ok((m, rest)) ==> rest <= bytes@.len() && request_decoding(17, version, bytes@) == Some(
            (KafkaRequest::SaslHandshakeRequest(m), (bytes@.len() - rest) as nat),
        ),
{
    let mut rest = bytes;
    match SaslHandshakeRequest::decode(&mut rest, version) {
        Ok(m) => Ok((m, rest.len())),
        Err(e) => Err(e.to_string()),
    }
}

/// `SaslHandshakeRequest::encode` of `kafka-protocol` (`Encodable`), under the given
/// API version into a fresh buffer: it succeeds exactly where
/// `request_encoding` has bytes for the message, and gives those bytes.
#[verifier::external_body]
fn encode_sasl_handshake_request(message: &SaslHandshakeRequest, version: i16) -> (r: Result<Vec<u8>, ()>)
    ensures
        r is Ok <==> request_encoding(KafkaRequest::SaslHandshakeRequest(*message), version) is Some,
        r matches Ok(b) ==> request_encoding(KafkaRequest::SaslHandshakeRequest(*message), version) == Some(b@),
{
    let mut out: Vec<u8> = Vec::new();
    match message.encode(&mut out, version) {
        Ok(()) => Ok(out),
        Err(_) => Err(()),
    }
}

/// `ApiVersionsRequest::decode` of `kafka-protocol` (`Decodable`), from the front of
/// `bytes` under the given API version: it succeeds exactly where
/// `request_decoding` has a result for API key 18, and then hands back that
/// message and the number of bytes after it; on failure, the text of the
/// decoder's error.
#[verifier::external_body]
fn decode_api_versions_request(bytes: &[u8], version: i16) -> (r: Result<(ApiVersionsRequest, usize), String>)
    ensures
        r is Ok <==> request_decoding(18, version, bytes@) is Some,
        r matches Ok((m, rest)) ==> rest <= bytes@.len() && request_decoding(18, version, bytes@) == Some(
            (KafkaRequest::ApiVersionsRequest(m), (bytes@.len() - rest) as nat),
        ),
{
    let mut rest = bytes;
    match ApiVersionsRequest::decode(&mut rest, version) {
        Ok(m) => Ok((m, rest.len())),
        Err(e) => Err(e.to_string()),
    }
}

/// `ApiVersionsRequest::encode` of `kafka-protocol` (`Encodable`), under the given
/// API version into a fresh buffer: it succeeds exactly where
/// `request_encoding` has bytes for the message, and gives those bytes.
#[verifier::external_body]
fn encode_api_versions_request(message: &ApiVersionsRequest, version: i16) -> (r: Result<Vec<u8>, ()>)
    ensures
        r is Ok <==> request_encoding(KafkaRequest::ApiVersionsRequest(*message), version) is Some,
        r matches Ok(b) ==> request_encoding(KafkaRequest::ApiVersionsRequest(*message), version) == Some(b@),
{
    let mut out: Vec<u8> = Vec::new();
    match message.encode(&mut out, version) {
        Ok(()) => Ok(out),
        Err(_) => Err(()),
    }
}

/// `CreateTopicsRequest::decode` of `kafka-protocol` (`Decodable`), from the front of
/// `bytes` under the given API version: it succeeds exactly where
/// `request_decoding` has a result for API key 19, and then hands back that
/// message and the number of bytes after it; on failure, the text of the
/// decoder's error.
#[verifier::external_body]
fn decode_create_topics_request(bytes: &[u8], version: i16) -> (r: Result<(CreateTopicsRequest, usize), String>)
    ensures
        r is Ok <==> request_decoding(19, version, bytes@) is Some,
        r matches Ok((m, rest)) ==> rest <= bytes@.len() && request_decoding(19, version, bytes@) == Some(
            (KafkaRequest::CreateTopicsRequest(m), (bytes@.len() - rest) as nat),
        ),
{
    let mut rest = bytes;
    match CreateTopicsRequest::decode(&mut rest, version) {
        Ok(m) => Ok((m, rest.len())),
        Err(e) => Err(e.to_string()),
    }
}

/// `CreateTopicsRequest::encode` of `kafka-protocol` (`Encodable`), under the given
/// API version into a fresh buffer: it succeeds exactly where
/// `request_encoding` has bytes for the message, and gives those bytes.
#[verifier::external_body]
fn encode_create_topics_request(message: &CreateTopicsRequest, version: i16) -> (r: Result<Vec<u8>, ()>)
    ensures
        r is Ok <==> request_encoding(KafkaRequest::CreateTopicsRequest(*message), version) is Some,
        r matches Ok(b) ==> request_encoding(KafkaRequest::CreateTopicsRequest(*message), version) == Some(b@),
{
    let mut out: Vec<u8> = Vec::new();
    match message.encode(&mut out, version) {
        Ok(()) => Ok(out),
        Err(_) => Err(()),
    }
}

/// `DeleteTopicsRequest::decode` of `kafka-protocol` (`Decodable`), from the front of
/// `bytes` under the given API version: it succeeds exactly where
/// `request_decoding` has a result for API key 20, and then hands back that
/// message and the number of bytes after it; on failure, the text of the
/// decoder's error.
#[verifier::external_body]
fn decode_delete_topics_request(bytes: &[u8], version: i16) -> (r: Result<(DeleteTopicsRequest, usize), String>)
    ensures
        r is Ok <==> request_decoding(20, version, bytes@) is Some,
        r matches Ok((m, rest)) ==> rest <= bytes@.len() && request_decoding(20, version, bytes@) == Some(
            (KafkaRequest::DeleteTopicsRequest(m), (bytes@.len() - rest) as nat),
        ),
{
    let mut rest = bytes;
    match DeleteTopicsRequest::decode(&mut rest, version) {
        Ok(m) => Ok((m, rest.len())),
        Err(e) => Err(e.to_string()),
    }
}

/// `DeleteTopicsRequest::encode` of `kafka-protocol` (`Encodable`), under the given
/// API version into a fresh buffer: it succeeds exactly where
/// `request_encoding` has bytes for the message, and gives those bytes.
#[verifier::external_body]
fn encode_delete_topics_request(message: &DeleteTopicsRequest, version: i16) -> (r: Result<Vec<u8>, ()>)
    ensures
        r is Ok <==> request_encoding(KafkaRequest::DeleteTopicsRequest(*message), version) is Some,
        r matches Ok(b) ==> request_encoding(KafkaRequest::DeleteTopicsRequest(*message), version) == Some(b@),
{
    let mut out: Vec<u8> = Vec::new();
    match message.encode(&mut out, version) {
        Ok(()) => Ok(out),
        Err(_) => Err(()),
    }
}

/// `DeleteRecordsRequest::decode` of `kafka-protocol` (`Decodable`), from the front of
/// `bytes` under the given API version: it succeeds exactly where
/// `request_decoding` has a result for API key 21, and then hands back that
/// message and the number of bytes after it; on failure, the text of the
/// decoder's error.
#[verifier::external_body]
fn decode_delete_records_request(bytes: &[u8], version: i16) -> (r: Result<(DeleteRecordsRequest, usize), String>)
    ensures
        r is Ok <==> request_decoding(21, version, bytes@) is Some,
        r matches Ok((m, rest)) ==> rest <= bytes@.len() && request_decoding(21, version, bytes@) == Some(
            (KafkaRequest::DeleteRecordsRequest(m), (bytes@.len() - rest) as nat),
        ),
{
    let mut rest = bytes;
    match DeleteRecordsRequest::decode(&mut rest, version) {
        Ok(m) => Ok((m, rest.len())),
        Err(e) => Err(e.to_string()),
    }
}

/// `DeleteRecordsRequest::encode` of `kafka-protocol` (`Encodable`), under the given
/// API version into a fresh buffer: it succeeds exactly where
/// `request_encoding` has bytes for the message, and gives those bytes.
#[verifier::external_body]
fn encode_delete_records_request(message: &DeleteRecordsRequest, version: i16) -> (r: Result<Vec<u8>, ()>)
    ensures
        r is Ok <==> request_encoding(KafkaRequest::DeleteRecordsRequest(*message), version) is Some,
        r matches Ok(b) ==> request_encoding(KafkaRequest::DeleteRecordsRequest(*message), version) == Some(b@),
{
    let mut out: Vec<u8> = Vec::new();
    match message.encode(&mut out, version) {
        Ok(()) => Ok(out),
        Err(_) => Err(()),
    }
}

/// `InitProducerIdRequest::decode` of `kafka-protocol` (`Decodable`), from the front of
/// `bytes` under the given API version: it succeeds exactly where
/// `request_decoding` has a result for API key 22, and then hands back that
/// message and the number of bytes after it; on failure, the text of the
/// decoder's error.
#[verifier::external_body]
fn decode_init_producer_id_request(bytes: &[u8], version: i16) -> (r: Result<(InitProducerIdRequest, usize), String>)
    ensures
        r is Ok <==> request_decoding(22, version, bytes@) is Some,
        r matches Ok((m, rest)) ==> rest <= bytes@.len() && request_decoding(22, version, bytes@) == Some(
            (KafkaRequest::InitProducerIdRequest(m), (bytes@.len() - rest) as nat),
        ),
{
    let mut rest = bytes;
    match InitProducerIdRequest::decode(&mut rest, version) {
        Ok(m) => Ok((m, rest.len())),
        Err(e) => Err(e.to_string()),
    }
}

/// `InitProducerIdRequest::encode` of `kafka-protocol` (`Encodable`), under the given
/// API version into a fresh buffer: it succeeds exactly where
/// `request_encoding` has bytes for the message, and gives those bytes.
#[verifier::external_body]
fn encode_init_producer_id_request(message: &InitProducerIdRequest, version: i16) -> (r: Result<Vec<u8>, ()>)
    ensures
        r is Ok <==> request_encoding(KafkaRequest::InitProducerIdRequest(*message), version) is Some,
        r matches Ok(b) ==> request_encoding(KafkaRequest::InitProducerIdRequest(*message), version) == Some(b@),
{
    let mut out: Vec<u8> = Vec::new();
    match message.encode(&mut out, version) {
        Ok(()) => Ok(out),
        Err(_) => Err(()),
    }
}

/// `OffsetForLeaderEpochRequest::decode` of `kafka-protocol` (`Decodable`), from the front of
/// `bytes` under the given API version: it succeeds exactly where
/// `request_decoding` has a result for API key 23, and then hands back that
/// message and the number of bytes after it; on failure, the text of the
/// decoder's error.
#[verifier::external_body]
fn decode_offset_for_leader_epoch_request(bytes: &[u8], version: i16) -> (r: Result<(OffsetForLeaderEpochRequest, usize), String>)
    ensures
        r is Ok <==> request_decoding(23, version, bytes@) is Some,
        r matches Ok((m, rest)) ==> rest <= bytes@.len() && request_decoding(23, version, bytes@) == Some(
            (KafkaRequest::OffsetForLeaderEpochRequest(m), (bytes@.len() - rest) as nat),
        ),
{
    let mut rest = bytes;
    match OffsetForLeaderEpochRequest::decode(&mut rest, version) {
        Ok(m) => Ok((m, rest.len())),
        Err(e) => Err(e.to_string()),
    }
}

/// `OffsetForLeaderEpochRequest::encode` of `kafka-protocol` (`Encodable`), under the given
/// API version into a fresh buffer: it succeeds exactly where
/// `request_encoding` has bytes for the message, and gives those bytes.
#[verifier::external_body]
fn encode_offset_for_leader_epoch_request(message: &OffsetForLeaderEpochRequest, version: i16) -> (r: Result<Vec<u8>, ()>)
    ensures
        r is Ok <==> request_encoding(KafkaRequest::OffsetForLeaderEpochRequest(*message), version) is Some,
        r matches Ok(b) ==> request_encoding(KafkaRequest::OffsetForLeaderEpochRequest(*message), version) == Some(b@),
{
    let mut out: Vec<u8> = Vec::new();
    match message.encode(&mut out, version) {
        Ok(()) => Ok(out),
        Err(_) => Err(()),
    }
}

/// `AddPartitionsToTxnRequest::decode` of `kafka-protocol` (`Decodable`), from the front of
/// `bytes` under the given API version: it succeeds exactly where
/// `request_decoding` has a result for API key 24, and then hands back that
/// message and the number of bytes after it; on failure, the text of the
/// decoder's error.
#[verifier::external_body]
fn decode_add_partitions_to_txn_request(bytes: &[u8], version: i16) -> (r: Result<(AddPartitionsToTxnRequest, usize), String>)
    ensures
        r is Ok <==> request_decoding(24, version, bytes@) is Some,
        r matches Ok((m, rest)) ==> rest <= bytes@.len() && request_decoding(24, version, bytes@) == Some(
            (KafkaRequest::AddPartitionsToTxnRequest(m), (bytes@.len() - rest) as nat),
        ),
{
    let mut rest = bytes;
    match AddPartitionsToTxnRequest::decode(&mut rest, version) {
        Ok(m) => Ok((m, rest.len())),
        Err(e) => Err(e.to_string()),
    }
}

/// `AddPartitionsToTxnRequest::encode` of `kafka-protocol` (`Encodable`), under the given
/// API version into a fresh buffer: it succeeds exactly where
/// `request_encoding` has bytes for the message, and gives those bytes.
#[verifier::external_body]
fn encode_add_partitions_to_txn_request(message: &AddPartitionsToTxnRequest, version: i16) -> (r: Result<Vec<u8>, ()>)
    ensures
        r is Ok <==> request_encoding(KafkaRequest::AddPartitionsToTxnRequest(*message), version) is Some,
        r matches Ok(b) ==> request_encoding(KafkaRequest::AddPartitionsToTxnRequest(*message), version) == Some(b@),
{
    let mut out: Vec<u8> = Vec::new();
    match message.encode(&mut out, version) {
        Ok(()) => Ok(out),
        Err(_) => Err(()),
    }
}

/// `AddOffsetsToTxnRequest::decode` of `kafka-protocol` (`Decodable`), from the front of
/// `bytes` under the given API version: it succeeds exactly where
/// `request_decoding` has a result for API key 25, and then hands back that
/// message and the number of bytes after it; on failure, the text of the
/// decoder's error.
#[verifier::external_body]
fn decode_add_offsets_to_txn_request(bytes: &[u8], version: i16) -> (r: Result<(AddOffsetsToTxnRequest, usize), String>)
    ensures
        r is Ok <==> request_decoding(25, version, bytes@) is Some,
        r matches Ok((m, rest)) ==> rest <= bytes@.len() && request_decoding(25, version, bytes@) == Some(
            (KafkaRequest::AddOffsetsToTxnRequest(m), (bytes@.len() - rest) as nat),
        ),
{
    let mut rest = bytes;
    match AddOffsetsToTxnRequest::decode(&mut rest, version) {
        Ok(m) => Ok((m, rest.len())),
        Err(e) => Err(e.to_string()),
    }
}

/// `AddOffsetsToTxnRequest::encode` of `kafka-protocol` (`Encodable`), under the given
/// API version into a fresh buffer: it succeeds exactly where
/// `request_encoding` has bytes for the message, and gives those bytes.
#[verifier::external_body]
fn encode_add_offsets_to_txn_request(message: &AddOffsetsToTxnRequest, version: i16) -> (r: Result<Vec<u8>, ()>)
    ensures
        r is Ok <==> request_encoding(KafkaRequest::AddOffsetsToTxnRequest(*message), version) is Some,
        r matches Ok(b) ==> request_encoding(KafkaRequest::AddOffsetsToTxnRequest(*message), version) == Some(b@),
{
    let mut out: Vec<u8> = Vec::new();
    match message.encode(&mut out, version) {
        Ok(()) => Ok(out),
        Err(_) => Err(()),
    }
}

/// `EndTxnRequest::decode` of `kafka-protocol` (`Decodable`), from the front of
/// `bytes` under the given API version: it succeeds exactly where
/// `request_decoding` has a result for API key 26, and then hands back that
/// message and the number of bytes after it; on failure, the text of the
/// decoder's error.
#[verifier::external_body]
fn decode_end_txn_request(bytes: &[u8], version: i16) -> (r: Result<(EndTxnRequest, usize), String>)
    ensures
        r is Ok <==> request_decoding(26, version, bytes@) is Some,
        r matches Ok((m, rest)) ==> rest <= bytes@.len() && request_decoding(26, version, bytes@) == Some(
            (KafkaRequest::EndTxnRequest(m), (bytes@.len() - rest) as nat),
        ),
{
    let mut rest = bytes;
    match EndTxnRequest::decode(&mut rest, version) {
        Ok(m) => Ok((m, rest.len())),
        Err(e) => Err(e.to_string()),
    }
}

/// `EndTxnRequest::encode` of `kafka-protocol` (`Encodable`), under the given
/// API version into a fresh buffer: it succeeds exactly where
/// `request_encoding` has bytes for the message, and gives those bytes.
#[verifier::external_body]
fn encode_end_txn_request(message: &EndTxnRequest, version: i16) -> (r: Result<Vec<u8>, ()>)
    ensures
        r is Ok <==> request_encoding(KafkaRequest::EndTxnRequest(*message), version) is Some,
        r matches Ok(b) ==> request_encoding(KafkaRequest::EndTxnRequest(*message), version) == Some(b@),
{
    let mut out: Vec<u8> = Vec::new();
    match message.encode(&mut out, version) {
        Ok(()) => Ok(out),
        Err(_) => Err(()),
    }
}

/// `WriteTxnMarkersRequest::decode` of `kafka-protocol` (`Decodable`), from the front of
/// `bytes` under the given API version: it succeeds exactly where
/// `request_decoding` has a result for API key 27, and then hands back that
/// message and the number of bytes after it; on failure, the text of the
/// decoder's error.
#[verifier::external_body]
fn decode_write_txn_markers_request(bytes: &[u8], version: i16) -> (r: Result<(WriteTxnMarkersRequest, usize), String>)
    ensures
        r is Ok <==> request_decoding(27, version, bytes@) is Some,
        r matches Ok((m, rest)) ==> rest <= bytes@.len() && request_decoding(27, version, bytes@) == Some(
            (KafkaRequest::WriteTxnMarkersRequest(m), (bytes@.len() - rest) as nat),
        ),
{
    let mut rest = bytes;
    match WriteTxnMarkersRequest::decode(&mut rest, version) {
        Ok(m) => Ok((m, rest.len())),
        Err(e) => Err(e.to_string()),
    }
}

/// `WriteTxnMarkersRequest::encode` of `kafka-protocol` (`Encodable`), under the given
/// API version into a fresh buffer: it succeeds exactly where
/// `request_encoding` has bytes for the message, and gives those bytes.
#[verifier::external_body]
fn encode_write_txn_markers_request(message: &WriteTxnMarkersRequest, version: i16) -> (r: Result<Vec<u8>, ()>)
    ensures
        r is Ok <==> request_encoding(KafkaRequest::WriteTxnMarkersRequest(*message), version) is Some,
        r matches Ok(b) ==> request_encoding(KafkaRequest::WriteTxnMarkersRequest(*message), version) == Some(b@),
{
    let mut out: Vec<u8> = Vec::new();
    match message.encode(&mut out, version) {
        Ok(()) => Ok(out),
        Err(_) => Err(()),
    }
}

/// `TxnOffsetCommitRequest::decode` of `kafka-protocol` (`Decodable`), from the front of
/// `bytes` under the given API version: it succeeds exactly where
/// `request_decoding` has a result for API key 28, and then hands back that
/// message and the number of bytes after it; on failure, the text of the
/// decoder's error.
#[verifier::external_body]
fn decode_txn_offset_commit_request(bytes: &[u8], version: i16) -> (r: Result<(TxnOffsetCommitRequest, usize), String>)
    ensures
        r is Ok <==> request_decoding(28, version, bytes@) is Some,
        r matches Ok((m, rest)) ==> rest <= bytes@.len() && request_decoding(28, version, bytes@) == Some(
            (KafkaRequest::TxnOffsetCommitRequest(m), (bytes@.len() - rest) as nat),
        ),
{
    let mut rest = bytes;
    match TxnOffsetCommitRequest::decode(&mut rest, version) {
        Ok(m) => Ok((m, rest.len())),
        Err(e) => Err(e.to_string()),
    }
}

/// `TxnOffsetCommitRequest::encode` of `kafka-protocol` (`Encodable`), under the given
/// API version into a fresh buffer: it succeeds exactly where
/// `request_encoding` has bytes for the message, and gives those bytes.
#[verifier::external_body]
fn encode_txn_offset_commit_request(message: &TxnOffsetCommitRequest, version: i16) -> (r: Result<Vec<u8>, ()>)
    ensures
        r is Ok <==> request_encoding(KafkaRequest::TxnOffsetCommitRequest(*message), version) is Some,
        r matches Ok(b) ==> request_encoding(KafkaRequest::TxnOffsetCommitRequest(*message), version) == Some(b@),
{
    let mut out: Vec<u8> = Vec::new();
    match message.encode(&mut out, version) {
        Ok(()) => Ok(out),
        Err(_) => Err(()),
    }
}

/// `DescribeAclsRequest::decode` of `kafka-protocol` (`Decodable`), from the front of
/// `bytes` under the given API version: it succeeds exactly where
/// `request_decoding` has a result for API key 29, and then hands back that
/// message and the number of bytes after it; on failure, the text of the
/// decoder's error.
#[verifier::external_body]
fn decode_describe_acls_request(bytes: &[u8], version: i16) -> (r: Result<(DescribeAclsRequest, usize), String>)
    ensures
        r is Ok <==> request_decoding(29, version, bytes@) is Some,
        r matches Ok((m, rest)) ==> rest <= bytes@.len() && request_decoding(29, version, bytes@) == Some(
            (KafkaRequest::DescribeAclsRequest(m), (bytes@.len() - rest) as nat),
        ),
{
    let mut rest = bytes;
    match DescribeAclsRequest::decode(&mut rest, version) {
        Ok(m) => Ok((m, rest.len())),
        Err(e) => Err(e.to_string()),
    }
}

/// `DescribeAclsRequest::encode` of `kafka-protocol` (`Encodable`), under the given
/// API version into a fresh buffer: it succeeds exactly where
/// `request_encoding` has bytes for the message, and gives those bytes.
#[verifier::external_body]
fn encode_describe_acls_request(message: &DescribeAclsRequest, version: i16) -> (r: Result<Vec<u8>, ()>)
    ensures
        r is Ok <==> request_encoding(KafkaRequest::DescribeAclsRequest(*message), version) is Some,
        r matches Ok(b) ==> request_encoding(KafkaRequest::DescribeAclsRequest(*message), version) == Some(b@),
{
    let mut out: Vec<u8> = Vec::new();
    match message.encode(&mut out, version) {
        Ok(()) => Ok(out),
        Err(_) => Err(()),
    }
}

/// `CreateAclsRequest::decode` of `kafka-protocol` (`Decodable`), from the front of
/// `bytes` under the given API version: it succeeds exactly where
/// `request_decoding` has a result for API key 30, and then hands back that
/// message and the number of bytes after it; on failure, the text of the
/// decoder's error.
#[verifier::external_body]
fn decode_create_acls_request(bytes: &[u8], version: i16) -> (r: Result<(CreateAclsRequest, usize), String>)
    ensures
        r is Ok <==> request_decoding(30, version, bytes@) is Some,
        r matches Ok((m, rest)) ==> rest <= bytes@.len() && request_decoding(30, version, bytes@) == Some(
            (KafkaRequest::CreateAclsRequest(m), (bytes@.len() - rest) as nat),
        ),
{
    let mut rest = bytes;
    match CreateAclsRequest::decode(&mut rest, version) {
        Ok(m) => Ok((m, rest.len())),
        Err(e) => Err(e.to_string()),
    }
}

/// `CreateAclsRequest::encode` of `kafka-protocol` (`Encodable`), under the given
/// API version into a fresh buffer: it succeeds exactly where
/// `request_encoding` has bytes for the message, and gives those bytes.
#[verifier::external_body]
fn encode_create_acls_request(message: &CreateAclsRequest, version: i16) -> (r: Result<Vec<u8>, ()>)
    ensures
        r is Ok <==> request_encoding(KafkaRequest::CreateAclsRequest(*message), version) is Some,
        r matches Ok(b) ==> request_encoding(KafkaRequest::CreateAclsRequest(*message), version) == Some(b@),
{
    let mut out: Vec<u8> = Vec::new();
    match message.encode(&mut out, version) {
        Ok(()) => Ok(out),
        Err(_) => Err(()),
    }
}

/// `DeleteAclsRequest::decode` of `kafka-protocol` (`Decodable`), from the front of
/// `bytes` under the given API version: it succeeds exactly where
/// `request_decoding` has a result for API key 31, and then hands back that
/// message and the number of bytes after it; on failure, the text of the
/// decoder's error.
#[verifier::external_body]
fn decode_delete_acls_request(bytes: &[u8], version: i16) -> (r: Result<(DeleteAclsRequest, usize), String>)
    ensures
        r is Ok <==> request_decoding(31, version, bytes@) is Some,
        r matches Ok((m, rest)) ==> rest <= bytes@.len() && request_decoding(31, version, bytes@) == Some(
            (KafkaRequest::DeleteAclsRequest(m), (bytes@.len() - rest) as nat),
        ),
{
    let mut rest = bytes;
    match DeleteAclsRequest::decode(&mut rest, version) {
        Ok(m) => Ok((m, rest.len())),
        Err(e) => Err(e.to_string()),
    }
}

/// `DeleteAclsRequest::encode` of `kafka-protocol` (`Encodable`), under the given
/// API version into a fresh buffer: it succeeds exactly where
/// `request_encoding` has bytes for the message, and gives those bytes.
#[verifier::external_body]
fn encode_delete_acls_request(message: &DeleteAclsRequest, version: i16) -> (r: Result<Vec<u8>, ()>)
    ensures
        r is Ok <==> request_encoding(KafkaRequest::DeleteAclsRequest(*message), version) is Some,
        r matches Ok(b) ==> request_encoding(KafkaRequest::DeleteAclsRequest(*message), version) == Some(b@),
{
    let mut out: Vec<u8> = Vec::new();
    match message.encode(&mut out, version) {
        Ok(()) => Ok(out),
        Err(_) => Err(()),
    }
}

/// `DescribeConfigsRequest::decode` of `kafka-protocol` (`Decodable`), from the front of
/// `bytes` under the given API version: it succeeds exactly where
/// `request_decoding` has a result for API key 32, and then hands back that
/// message and the number of bytes after it; on failure, the text of the
/// decoder's error.
#[verifier::external_body]
fn decode_describe_configs_request(bytes: &[u8], version: i16) -> (r: Result<(DescribeConfigsRequest, usize), String>)
    ensures
        r is Ok <==> request_decoding(32, version, bytes@) is Some,
        r matches Ok((m, rest)) ==> rest <= bytes@.len() && request_decoding(32, version, bytes@) == Some(
            (KafkaRequest::DescribeConfigsRequest(m), (bytes@.len() - rest) as nat),
        ),
{
    let mut rest = bytes;
    match DescribeConfigsRequest::decode(&mut rest, version) {
        Ok(m) => Ok((m, rest.len())),
        Err(e) => Err(e.to_string()),
    }
}

/// `DescribeConfigsRequest::encode` of `kafka-protocol` (`Encodable`), under the given
/// API version into a fresh buffer: it succeeds exactly where
/// `request_encoding` has bytes for the message, and gives those bytes.
#[verifier::external_body]
fn encode_describe_configs_request(message: &DescribeConfigsRequest, version: i16) -> (r: Result<Vec<u8>, ()>)
    ensures
        r is Ok <==> request_encoding(KafkaRequest::DescribeConfigsRequest(*message), version) is Some,
        r matches Ok(b) ==> request_encoding(KafkaRequest::DescribeConfigsRequest(*message), version) == Some(b@),
{
    let mut out: Vec<u8> = Vec::new();
    match message.encode(&mut out, version) {
        Ok(()) => Ok(out),
        Err(_) => Err(()),
    }
}

/// `AlterConfigsRequest::decode` of `kafka-protocol` (`Decodable`), from the front of
/// `bytes` under the given API version: it succeeds exactly where
/// `request_decoding` has a result for API key 33, and then hands back that
/// message and the number of bytes after it; on failure, the text of the
/// decoder's error.
#[verifier::external_body]
fn decode_alter_configs_request(bytes: &[u8], version: i16) -> (r: Result<(AlterConfigsRequest, usize), String>)
    ensures
        r is Ok <==> request_decoding(33, version, bytes@) is Some,
        r matches Ok((m, rest)) ==> rest <= bytes@.len() && request_decoding(33, version, bytes@) == Some(
            (KafkaRequest::AlterConfigsRequest(m), (bytes@.len() - rest) as nat),
        ),
{
    let mut rest = bytes;
    match AlterConfigsRequest::decode(&mut rest, version) {
        Ok(m) => Ok((m, rest.len())),
        Err(e) => Err(e.to_string()),
    }
}

/// `AlterConfigsRequest::encode` of `kafka-protocol` (`Encodable`), under the given
/// API version into a fresh buffer: it succeeds exactly where
/// `request_encoding` has bytes for the message, and gives those bytes.
#[verifier::external_body]
fn encode_alter_configs_request(message: &AlterConfigsRequest, version: i16) -> (r: Result<Vec<u8>, ()>)
    ensures
        r is Ok <==> request_encoding(KafkaRequest::AlterConfigsRequest(*message), version) is Some,
        r matches Ok(b) ==> request_encoding(KafkaRequest::AlterConfigsRequest(*message), version) == Some(b@),
{
    let mut out: Vec<u8> = Vec::new();
    match message.encode(&mut out, version) {
        Ok(()) => Ok(out),
        Err(_) => Err(()),
    }
}

/// `AlterReplicaLogDirsRequest::decode` of `kafka-protocol` (`Decodable`), from the front of
/// `bytes` under the given API version: it succeeds exactly where
/// `request_decoding` has a result for API key 34, and then hands back that
/// message and the number of bytes after it; on failure, the text of the
/// decoder's error.
#[verifier::external_body]
fn decode_alter_replica_log_dirs_request(bytes: &[u8], version: i16) -> (r: Result<(AlterReplicaLogDirsRequest, usize), String>)
    ensures
        r is Ok <==> request_decoding(34, version, bytes@) is Some,
        r matches Ok((m, rest)) ==> rest <= bytes@.len() && request_decoding(34, version, bytes@) == Some(
            (KafkaRequest::AlterReplicaLogDirsRequest(m), (bytes@.len() - rest) as nat),
        ),
{
    let mut rest = bytes;
    match AlterReplicaLogDirsRequest::decode(&mut rest, version) {
        Ok(m) => Ok((m, rest.len())),
        Err(e) => Err(e.to_string()),
    }
}

/// `AlterReplicaLogDirsRequest::encode` of `kafka-protocol` (`Encodable`), under the given
/// API version into a fresh buffer: it succeeds exactly where
/// `request_encoding` has bytes for the message, and gives those bytes.
#[verifier::external_body]
fn encode_alter_replica_log_dirs_request(message: &AlterReplicaLogDirsRequest, version: i16) -> (r: Result<Vec<u8>, ()>)
    ensures
        r is Ok <==> request_encoding(KafkaRequest::AlterReplicaLogDirsRequest(*message), version) is Some,
        r matches Ok(b) ==> request_encoding(KafkaRequest::AlterReplicaLogDirsRequest(*message), version) == Some(b@),
{
    let mut out: Vec<u8> = Vec::new();
    match message.encode(&mut out, version) {
        Ok(()) => Ok(out),
        Err(_) => Err(()),
    }
}

/// `DescribeLogDirsRequest::decode` of `kafka-protocol` (`Decodable`), from the front of
/// `bytes` under the given API version: it succeeds exactly where
/// `request_decoding` has a result for API key 35, and then hands back that
/// message and the number of bytes after it; on failure, the text of the
/// decoder's error.
#[verifier::external_body]
fn decode_describe_log_dirs_request(bytes: &[u8], version: i16) -> (r: Result<(DescribeLogDirsRequest, usize), String>)
    ensures
        r is Ok <==> request_decoding(35, version, bytes@) is Some,
        r matches Ok((m, rest)) ==> rest <= bytes@.len() && request_decoding(35, version, bytes@) == Some(
            (KafkaRequest::DescribeLogDirsRequest(m), (bytes@.len() - rest) as nat),
        ),
{
    let mut rest = bytes;
    match DescribeLogDirsRequest::decode(&mut rest, version) {
        Ok(m) => Ok((m, rest.len())),
        Err(e) => Err(e.to_string()),
    }
}

/// `DescribeLogDirsRequest::encode` of `kafka-protocol` (`Encodable`), under the given
/// API version into a fresh buffer: it succeeds exactly where
/// `request_encoding` has bytes for the message, and gives those bytes.
#[verifier::external_body]
fn encode_describe_log_dirs_request(message: &DescribeLogDirsRequest, version: i16) -> (r: Result<Vec<u8>, ()>)
    ensures
        r is Ok <==> request_encoding(KafkaRequest::DescribeLogDirsRequest(*message), version) is Some,
        r matches Ok(b) ==> request_encoding(KafkaRequest::DescribeLogDirsRequest(*message), version) == Some(b@),
{
    let mut out: Vec<u8> = Vec::new();
    match message.encode(&mut out, version) {
        Ok(()) => Ok(out),
        Err(_) => Err(()),
    }
}

/// `SaslAuthenticateRequest::decode` of `kafka-protocol` (`Decodable`), from the front of
/// `bytes` under the given API version: it succeeds exactly where
/// `request_decoding` has a result for API key 36, and then hands back that
/// message and the number of bytes after it; on failure, the text of the
/// decoder's error.
#[verifier::external_body]
fn decode_sasl_authenticate_request(bytes: &[u8], version: i16) -> (r: Result<(SaslAuthenticateRequest, usize), String>)
    ensures
        r is Ok <==> request_decoding(36, version, bytes@) is Some,
        r matches Ok((m, rest)) ==> rest <= bytes@.len() && request_decoding(36, version, bytes@) == Some(
            (KafkaRequest::SaslAuthenticateRequest(m), (bytes@.len() - rest) as nat),
        ),
{
    let mut rest = bytes;
    match SaslAuthenticateRequest::decode(&mut rest, version) {
        Ok(m) => Ok((m, rest.len())),
        Err(e) => Err(e.to_string()),
    }
}

/// `SaslAuthenticateRequest::encode` of `kafka-protocol` (`Encodable`), under the given
/// API version into a fresh buffer: it succeeds exactly where
/// `request_encoding` has bytes for the message, and gives those bytes.
#[verifier::external_body]
fn encode_sasl_authenticate_request(message: &SaslAuthenticateRequest, version: i16) -> (r: Result<Vec<u8>, ()>)
    ensures
        r is Ok <==> request_encoding(KafkaRequest::SaslAuthenticateRequest(*message), version) is Some,
        r matches Ok(b) ==> request_encoding(KafkaRequest::SaslAuthenticateRequest(*message), version) == Some(b@),
{
    let mut out: Vec<u8> = Vec::new();
    match message.encode(&mut out, version) {
        Ok(()) => Ok(out),
        Err(_) => Err(()),
    }
}

/// `CreatePartitionsRequest::decode` of `kafka-protocol` (`Decodable`), from the front of
/// `bytes` under the given API version: it succeeds exactly where
/// `request_decoding` has a result for API key 37, and then hands back that
/// message and the number of bytes after it; on failure, the text of the
/// decoder's error.
#[verifier::external_body]
fn decode_create_partitions_request(bytes: &[u8], version: i16) -> (r: Result<(CreatePartitionsRequest, usize), String>)
    ensures
        r is Ok <==> request_decoding(37, version, bytes@) is Some,
        r matches Ok((m, rest)) ==> rest <= bytes@.len() && request_decoding(37, version, bytes@) == Some(
            (KafkaRequest::CreatePartitionsRequest(m), (bytes@.len() - rest) as nat),
        ),
{
    let mut rest = bytes;
    match CreatePartitionsRequest::decode(&mut rest, version) {
        Ok(m) => Ok((m, rest.len())),
        Err(e) => Err(e.to_string()),
    }
}

/// `CreatePartitionsRequest::encode` of `kafka-protocol` (`Encodable`), under the given
/// API version into a fresh buffer: it succeeds exactly where
/// `request_encoding` has bytes for the message, and gives those bytes.
#[verifier::external_body]
fn encode_create_partitions_request(message: &CreatePartitionsRequest, version: i16) -> (r: Result<Vec<u8>, ()>)
    ensures
        r is Ok <==> request_encoding(KafkaRequest::CreatePartitionsRequest(*message), version) is Some,
        r matches Ok(b) ==> request_encoding(KafkaRequest::CreatePartitionsRequest(*message), version) == Some(b@),
{
    let mut out: Vec<u8> = Vec::new();
    match message.encode(&mut out, version) {
        Ok(()) => Ok(out),
        Err(_) => Err(()),
    }
}

/// `CreateDelegationTokenRequest::decode` of `kafka-protocol` (`Decodable`), from the front of
/// `bytes` under the given API version: it succeeds exactly where
/// `request_decoding` has a result for API key 38, and then hands back that
/// message and the number of bytes after it; on failure, the text of the
/// decoder's error.
#[verifier::external_body]
fn decode_create_delegation_token_request(bytes: &[u8], version: i16) -> (r: Result<(CreateDelegationTokenRequest, usize), String>)
    ensures
        r is Ok <==> request_decoding(38, version, bytes@) is Some,
        r matches Ok((m, rest)) ==> rest <= bytes@.len() && request_decoding(38, version, bytes@) == Some(
            (KafkaRequest::CreateDelegationTokenRequest(m), (bytes@.len() - rest) as nat),
        ),
{
    let mut rest = bytes;
    match CreateDelegationTokenRequest::decode(&mut rest, version) {
        Ok(m) => Ok((m, rest.len())),
        Err(e) => Err(e.to_string()),
    }
}

/// `CreateDelegationTokenRequest::encode` of `kafka-protocol` (`Encodable`), under the given
/// API version into a fresh buffer: it succeeds exactly where
/// `request_encoding` has bytes for the message, and gives those bytes.
#[verifier::external_body]
fn encode_create_delegation_token_request(message: &CreateDelegationTokenRequest, version: i16) -> (r: Result<Vec<u8>, ()>)
    ensures
        r is Ok <==> request_encoding(KafkaRequest::CreateDelegationTokenRequest(*message), version) is Some,
        r matches Ok(b) ==> request_encoding(KafkaRequest::CreateDelegationTokenRequest(*message), version) == Some(b@),
{
    let mut out: Vec<u8> = Vec::new();
    match message.encode(&mut out, version) {
        Ok(()) => Ok(out),
        Err(_) => Err(()),
    }
}

/// `RenewDelegationTokenRequest::decode` of `kafka-protocol` (`Decodable`), from the front of
/// `bytes` under the given API version: it succeeds exactly where
/// `request_decoding` has a result for API key 39, and then hands back that
/// message and the number of bytes after it; on failure, the text of the
/// decoder's error.
#[verifier::external_body]
fn decode_renew_delegation_token_request(bytes: &[u8], version: i16) -> (r: Result<(RenewDelegationTokenRequest, usize), String>)
    ensures
        r is Ok <==> request_decoding(39, version, bytes@) is Some,
        r matches Ok((m, rest)) ==> rest <= bytes@.len() && request_decoding(39, version, bytes@) == Some(
            (KafkaRequest::RenewDelegationTokenRequest(m), (bytes@.len() - rest) as nat),
        ),
{
    let mut rest = bytes;
    match RenewDelegationTokenRequest::decode(&mut rest, version) {
        Ok(m) => Ok((m, rest.len())),
        Err(e) => Err(e.to_string()),
    }
}

/// `RenewDelegationTokenRequest::encode` of `kafka-protocol` (`Encodable`), under the given
/// API version into a fresh buffer: it succeeds exactly where
/// `request_encoding` has bytes for the message, and gives those bytes.
#[verifier::external_body]
fn encode_renew_delegation_token_request(message: &RenewDelegationTokenRequest, version: i16) -> (r: Result<Vec<u8>, ()>)
    ensures
        r is Ok <==> request_encoding(KafkaRequest::RenewDelegationTokenRequest(*message), version) is Some,
        r matches Ok(b) ==> request_encoding(KafkaRequest::RenewDelegationTokenRequest(*message), version) == Some(b@),
{
    let mut out: Vec<u8> = Vec::new();
    match message.encode(&mut out, version) {
        Ok(()) => Ok(out),
        Err(_) => Err(()),
    }
}

/// `ExpireDelegationTokenRequest::decode` of `kafka-protocol` (`Decodable`), from the front of
/// `bytes` under the given API version: it succeeds exactly where
/// `request_decoding` has a result for API key 40, and then hands back that
/// message and the number of bytes after it; on failure, the text of the
/// decoder's error.
#[verifier::external_body]
fn decode_expire_delegation_token_request(bytes: &[u8], version: i16) -> (r: Result<(ExpireDelegationTokenRequest, usize), String>)
    ensures
        r is Ok <==> request_decoding(40, version, bytes@) is Some,
        r matches Ok((m, rest)) ==> rest <= bytes@.len() && request_decoding(40, version, bytes@) == Some(
            (KafkaRequest::ExpireDelegationTokenRequest(m), (bytes@.len() - rest) as nat),
        ),
{
    let mut rest = bytes;
    match ExpireDelegationTokenRequest::decode(&mut rest, version) {
        Ok(m) => Ok((m, rest.len())),
        Err(e) => Err(e.to_string()),
    }
}

/// `ExpireDelegationTokenRequest::encode` of `kafka-protocol` (`Encodable`), under the given
/// API version into a fresh buffer: it succeeds exactly where
/// `request_encoding` has bytes for the message, and gives those bytes.
#[verifier::external_body]
fn encode_expire_delegation_token_request(message: &ExpireDelegationTokenRequest, version: i16) -> (r: Result<Vec<u8>, ()>)
    ensures
        r is Ok <==> request_encoding(KafkaRequest::ExpireDelegationTokenRequest(*message), version) is Some,
        r matches Ok(b) ==> request_encoding(KafkaRequest::ExpireDelegationTokenRequest(*message), version) == Some(b@),
{
    let mut out: Vec<u8> = Vec::new();
    match message.encode(&mut out, version) {
        Ok(()) => Ok(out),
        Err(_) => Err(()),
    }
}

/// `DescribeDelegationTokenRequest::decode` of `kafka-protocol` (`Decodable`), from the front of
/// `bytes` under the given API version: it succeeds exactly where
/// `request_decoding` has a result for API key 41, and then hands back that
/// message and the number of bytes after it; on failure, the text of the
/// decoder's error.
#[verifier::external_body]
fn decode_describe_delegation_token_request(bytes: &[u8], version: i16) -> (r: Result<(DescribeDelegationTokenRequest, usize), String>)
    ensures
        r is Ok <==> request_decoding(41, version, bytes@) is Some,
        r matches Ok((m, rest)) ==> rest <= bytes@.len() && request_decoding(41, version, bytes@) == Some(
            (KafkaRequest::DescribeDelegationTokenRequest(m), (bytes@.len() - rest) as nat),
        ),
{
    let mut rest = bytes;
    match DescribeDelegationTokenRequest::decode(&mut rest, version) {
        Ok(m) => Ok((m, rest.len())),
        Err(e) => Err(e.to_string()),
    }
}

/// `DescribeDelegationTokenRequest::encode` of `kafka-protocol` (`Encodable`), under the given
/// API version into a fresh buffer: it succeeds exactly where
/// `request_encoding` has bytes for the message, and gives those bytes.
#[verifier::external_body]
fn encode_describe_delegation_token_request(message: &DescribeDelegationTokenRequest, version: i16) -> (r: Result<Vec<u8>, ()>)
    ensures
        r is Ok <==> request_encoding(KafkaRequest::DescribeDelegationTokenRequest(*message), version) is Some,
        r matches Ok(b) ==> request_encoding(KafkaRequest::DescribeDelegationTokenRequest(*message), version) == Some(b@),
{
    let mut out: Vec<u8> = Vec::new();
    match message.encode(&mut out, version) {
        Ok(()) => Ok(out),
        Err(_) => Err(()),
    }
}

/// `DeleteGroupsRequest::decode` of `kafka-protocol` (`Decodable`), from the front of
/// `bytes` under the given API version: it succeeds exactly where
/// `request_decoding` has a result for API key 42, and then hands back that
/// message and the number of bytes after it; on failure, the text of the
/// decoder's error.
#[verifier::external_body]
fn decode_delete_groups_request(bytes: &[u8], version: i16) -> (r: Result<(DeleteGroupsRequest, usize), String>)
    ensures
        r is Ok <==> request_decoding(42, version, bytes@) is Some,
        r matches Ok((m, rest)) ==> rest <= bytes@.len() && request_decoding(42, version, bytes@) == Some(
            (KafkaRequest::DeleteGroupsRequest(m), (bytes@.len() - rest) as nat),
        ),
{
    let mut rest = bytes;
    match DeleteGroupsRequest::decode(&mut rest, version) {
        Ok(m) => Ok((m, rest.len())),
        Err(e) => Err(e.to_string()),
    }
}

/// `DeleteGroupsRequest::encode` of `kafka-protocol` (`Encodable`), under the given
/// API version into a fresh buffer: it succeeds exactly where
/// `request_encoding` has bytes for the message, and gives those bytes.
#[verifier::external_body]
fn encode_delete_groups_request(message: &DeleteGroupsRequest, version: i16) -> (r: Result<Vec<u8>, ()>)
    ensures
        r is Ok <==> request_encoding(KafkaRequest::DeleteGroupsRequest(*message), version) is Some,
        r matches Ok(b) ==> request_encoding(KafkaRequest::DeleteGroupsRequest(*message), version) == Some(b@),
{
    let mut out: Vec<u8> = Vec::new();
    match message.encode(&mut out, version) {
        Ok(()) => Ok(out),
        Err(_) => Err(()),
    }
}

/// `ElectLeadersRequest::decode` of `kafka-protocol` (`Decodable`), from the front of
/// `bytes` under the given API version: it succeeds exactly where
/// `request_decoding` has a result for API key 43, and then hands back that
/// message and the number of bytes after it; on failure, the text of the
/// decoder's error.
#[verifier::external_body]
fn decode_elect_leaders_request(bytes: &[u8], version: i16) -> (r: Result<(ElectLeadersRequest, usize), String>)
    ensures
        r is Ok <==> request_decoding(43, version, bytes@) is Some,
        r matches Ok((m, rest)) ==> rest <= bytes@.len() && request_decoding(43, version, bytes@) == Some(
            (KafkaRequest::ElectLeadersRequest(m), (bytes@.len() - rest) as nat),
        ),
{
    let mut rest = bytes;
    match ElectLeadersRequest::decode(&mut rest, version) {
        Ok(m) => Ok((m, rest.len())),
        Err(e) => Err(e.to_string()),
    }
}

/// `ElectLeadersRequest::encode` of `kafka-protocol` (`Encodable`), under the given
/// API version into a fresh buffer: it succeeds exactly where
/// `request_encoding` has bytes for the message, and gives those bytes.
#[verifier::external_body]
fn encode_elect_leaders_request(message: &ElectLeadersRequest, version: i16) -> (r: Result<Vec<u8>, ()>)
    ensures
        r is Ok <==> request_encoding(KafkaRequest::ElectLeadersRequest(*message), version) is Some,
        r matches Ok(b) ==> request_encoding(KafkaRequest::ElectLeadersRequest(*message), version) == Some(b@),
{
    let mut out: Vec<u8> = Vec::new();
    match message.encode(&mut out, version) {
        Ok(()) => Ok(out),
        Err(_) => Err(()),
    }
}

/// `IncrementalAlterConfigsRequest::decode` of `kafka-protocol` (`Decodable`), from the front of
/// `bytes` under the given API version: it succeeds exactly where
/// `request_decoding` has a result for API key 44, and then hands back that
/// message and the number of bytes after it; on failure, the text of the
/// decoder's error.
#[verifier::external_body]
fn decode_incremental_alter_configs_request(bytes: &[u8], version: i16) -> (r: Result<(IncrementalAlterConfigsRequest, usize), String>)
    ensures
        r is Ok <==> request_decoding(44, version, bytes@) is Some,
        r matches Ok((m, rest)) ==> rest <= bytes@.len() && request_decoding(44, version, bytes@) == Some(
            (KafkaRequest::IncrementalAlterConfigsRequest(m), (bytes@.len() - rest) as nat),
        ),
{
    let mut rest = bytes;
    match IncrementalAlterConfigsRequest::decode(&mut rest, version) {
        Ok(m) => Ok((m, rest.len())),
        Err(e) => Err(e.to_string()),
    }
}

/// `IncrementalAlterConfigsRequest::encode` of `kafka-protocol` (`Encodable`), under the given
/// API version into a fresh buffer: it succeeds exactly where
/// `request_encoding` has bytes for the message, and gives those bytes.
#[verifier::external_body]
fn encode_incremental_alter_configs_request(message: &IncrementalAlterConfigsRequest, version: i16) -> (r: Result<Vec<u8>, ()>)
    ensures
        r is Ok <==> request_encoding(KafkaRequest::IncrementalAlterConfigsRequest(*message), version) is Some,
        r matches Ok(b) ==> request_encoding(KafkaRequest::IncrementalAlterConfigsRequest(*message), version) == Some(b@),
{
    let mut out: Vec<u8> = Vec::new();
    match message.encode(&mut out, version) {
        Ok(()) => Ok(out),
        Err(_) => Err(()),
    }
}

/// `AlterPartitionReassignmentsRequest::decode` of `kafka-protocol` (`Decodable`), from the front of
/// `bytes` under the given API version: it succeeds exactly where
/// `request_decoding` has a result for API key 45, and then hands back that
/// message and the number of bytes after it; on failure, the text of the
/// decoder's error.
#[verifier::external_body]
fn decode_alter_partition_reassignments_request(bytes: &[u8], version: i16) -> (r: Result<(AlterPartitionReassignmentsRequest, usize), String>)
    ensures
        r is Ok <==> request_decoding(45, version, bytes@) is Some,
        r matches Ok((m, rest)) ==> rest <= bytes@.len() && request_decoding(45, version, bytes@) == Some(
            (KafkaRequest::AlterPartitionReassignmentsRequest(m), (bytes@.len() - rest) as nat),
        ),
{
    let mut rest = bytes;
    match AlterPartitionReassignmentsRequest::decode(&mut rest, version) {
        Ok(m) => Ok((m, rest.len())),
        Err(e) => Err(e.to_string()),
    }
}

/// `AlterPartitionReassignmentsRequest::encode` of `kafka-protocol` (`Encodable`), under the given
/// API version into a fresh buffer: it succeeds exactly where
/// `request_encoding` has bytes for the message, and gives those bytes.
#[verifier::external_body]
fn encode_alter_partition_reassignments_request(message: &AlterPartitionReassignmentsRequest, version: i16) -> (r: Result<Vec<u8>, ()>)
    ensures
        r is Ok <==> request_encoding(KafkaRequest::AlterPartitionReassignmentsRequest(*message), version) is Some,
        r matches Ok(b) ==> request_encoding(KafkaRequest::AlterPartitionReassignmentsRequest(*message), version) == Some(b@),
{
    let mut out: Vec<u8> = Vec::new();
    match message.encode(&mut out, version) {
        Ok(()) => Ok(out),
        Err(_) => Err(()),
    }
}

/// `ListPartitionReassignmentsRequest::decode` of `kafka-protocol` (`Decodable`), from the front of
/// `bytes` under the given API version: it succeeds exactly where
/// `request_decoding` has a result for API key 46, and then hands back that
/// message and the number of bytes after it; on failure, the text of the
/// decoder's error.
#[verifier::external_body]
fn decode_list_partition_reassignments_request(bytes: &[u8], version: i16) -> (r: Result<(ListPartitionReassignmentsRequest, usize), String>)
    ensures
        r is Ok <==> request_decoding(46, version, bytes@) is Some,
        r matches Ok((m, rest)) ==> rest <= bytes@.len() && request_decoding(46, version, bytes@) == Some(
            (KafkaRequest::ListPartitionReassignmentsRequest(m), (bytes@.len() - rest) as nat),
        ),
{
    let mut rest = bytes;
    match ListPartitionReassignmentsRequest::decode(&mut rest, version) {
        Ok(m) => Ok((m, rest.len())),
        Err(e) => Err(e.to_string()),
    }
}

/// `ListPartitionReassignmentsRequest::encode` of `kafka-protocol` (`Encodable`), under the given
/// API version into a fresh buffer: it succeeds exactly where
/// `request_encoding` has bytes for the message, and gives those bytes.
#[verifier::external_body]
fn encode_list_partition_reassignments_request(message: &ListPartitionReassignmentsRequest, version: i16) -> (r: Result<Vec<u8>, ()>)
    ensures
        r is Ok <==> request_encoding(KafkaRequest::ListPartitionReassignmentsRequest(*message), version) is Some,
        r matches Ok(b) ==> request_encoding(KafkaRequest::ListPartitionReassignmentsRequest(*message), version) == Some(b@),
{
    let mut out: Vec<u8> = Vec::new();
    match message.encode(&mut out, version) {
        Ok(()) => Ok(out),
        Err(_) => Err(()),
    }
}

/// `OffsetDeleteRequest::decode` of `kafka-protocol` (`Decodable`), from the front of
/// `bytes` under the given API version: it succeeds exactly where
/// `request_decoding` has a result for API key 47, and then hands back that
/// message and the number of bytes after it; on failure, the text of the
/// decoder's error.
#[verifier::external_body]
fn decode_offset_delete_request(bytes: &[u8], version: i16) -> (r: Result<(OffsetDeleteRequest, usize), String>)
    ensures
        r is Ok <==> request_decoding(47, version, bytes@) is Some,
        r matches Ok((m, rest)) ==> rest <= bytes@.len() && request_decoding(47, version, bytes@) == Some(
            (KafkaRequest::OffsetDeleteRequest(m), (bytes@.len() - rest) as nat),
        ),
{
    let mut rest = bytes;
    match OffsetDeleteRequest::decode(&mut rest, version) {
        Ok(m) => Ok((m, rest.len())),
        Err(e) => Err(e.to_string()),
    }
}

/// `OffsetDeleteRequest::encode` of `kafka-protocol` (`Encodable`), under the given
/// API version into a fresh buffer: it succeeds exactly where
/// `request_encoding` has bytes for the message, and gives those bytes.
#[verifier::external_body]
fn encode_offset_delete_request(message: &OffsetDeleteRequest, version: i16) -> (r: Result<Vec<u8>, ()>)
    ensures
        r is Ok <==> request_encoding(KafkaRequest::OffsetDeleteRequest(*message), version) is Some,
        r matches Ok(b) ==> request_encoding(KafkaRequest::OffsetDeleteRequest(*message), version) == Some(b@),
{
    let mut out: Vec<u8> = Vec::new();
    match message.encode(&mut out, version) {
        Ok(()) => Ok(out),
        Err(_) => Err(()),
    }
}

/// `DescribeClientQuotasRequest::decode` of `kafka-protocol` (`Decodable`), from the front of
/// `bytes` under the given API version: it succeeds exactly where
/// `request_decoding` has a result for API key 48, and then hands back that
/// message and the number of bytes after it; on failure, the text of the
/// decoder's error.
#[verifier::external_body]
fn decode_describe_client_quotas_request(bytes: &[u8], version: i16) -> (r: Result<(DescribeClientQuotasRequest, usize), String>)
    ensures
        r is Ok <==> request_decoding(48, version, bytes@) is Some,
        r matches Ok((m, rest)) ==> rest <= bytes@.len() && request_decoding(48, version, bytes@) == Some(
            (KafkaRequest::DescribeClientQuotasRequest(m), (bytes@.len() - rest) as nat),
        ),
{
    let mut rest = bytes;
    match DescribeClientQuotasRequest::decode(&mut rest, version) {
        Ok(m) => Ok((m, rest.len())),
        Err(e) => Err(e.to_string()),
    }
}

/// `DescribeClientQuotasRequest::encode` of `kafka-protocol` (`Encodable`), under the given
/// API version into a fresh buffer: it succeeds exactly where
/// `request_encoding` has bytes for the message, and gives those bytes.
#[verifier::external_body]
fn encode_describe_client_quotas_request(message: &DescribeClientQuotasRequest, version: i16) -> (r: Result<Vec<u8>, ()>)
    ensures
        r is Ok <==> request_encoding(KafkaRequest::DescribeClientQuotasRequest(*message), version) is Some,
        r matches Ok(b) ==> request_encoding(KafkaRequest::DescribeClientQuotasRequest(*message), version) == Some(b@),
{
    let mut out: Vec<u8> = Vec::new();
    match message.encode(&mut out, version) {
        Ok(()) => Ok(out),
        Err(_) => Err(()),
    }
}

/// `AlterClientQuotasRequest::decode` of `kafka-protocol` (`Decodable`), from the front of
/// `bytes` under the given API version: it succeeds exactly where
/// `request_decoding` has a result for API key 49, and then hands back that
/// message and the number of bytes after it; on failure, the text of the
/// decoder's error.
#[verifier::external_body]
fn decode_alter_client_quotas_request(bytes: &[u8], version: i16) -> (r: Result<(AlterClientQuotasRequest, usize), String>)
    ensures
        r is Ok <==> request_decoding(49, version, bytes@) is Some,
        r matches Ok((m, rest)) ==> rest <= bytes@.len() && request_decoding(49, version, bytes@) == Some(
            (KafkaRequest::AlterClientQuotasRequest(m), (bytes@.len() - rest) as nat),
        ),
{
    let mut rest = bytes;
    match AlterClientQuotasRequest::decode(&mut rest, version) {
        Ok(m) => Ok((m, rest.len())),
        Err(e) => Err(e.to_string()),
    }
}

/// `AlterClientQuotasRequest::encode` of `kafka-protocol` (`Encodable`), under the given
/// API version into a fresh buffer: it succeeds exactly where
/// `request_encoding` has bytes for the message, and gives those bytes.
#[verifier::external_body]
fn encode_alter_client_quotas_request(message: &AlterClientQuotasRequest, version: i16) -> (r: Result<Vec<u8>, ()>)
    ensures
        r is Ok <==> request_encoding(KafkaRequest::AlterClientQuotasRequest(*message), version) is Some,
        r matches Ok(b) ==> request_encoding(KafkaRequest::AlterClientQuotasRequest(*message), version) == Some(b@),
{
    let mut out: Vec<u8> = Vec::new();
    match message.encode(&mut out, version) {
        Ok(()) => Ok(out),
        Err(_) => Err(()),
    }
}

/// `DescribeUserScramCredentialsRequest::decode` of `kafka-protocol` (`Decodable`), from the front of
/// `bytes` under the given API version: it succeeds exactly where
/// `request_decoding` has a result for API key 50, and then hands back that
/// message and the number of bytes after it; on failure, the text of the
/// decoder's error.
#[verifier::external_body]
fn decode_describe_user_scram_credentials_request(bytes: &[u8], version: i16) -> (r: Result<(DescribeUserScramCredentialsRequest, usize), String>)
    ensures
        r is Ok <==> request_decoding(50, version, bytes@) is Some,
        r matches Ok((m, rest)) ==> rest <= bytes@.len() && request_decoding(50, version, bytes@) == Some(
            (KafkaRequest::DescribeUserScramCredentialsRequest(m), (bytes@.len() - rest) as nat),
        ),
{
    let mut rest = bytes;
    match DescribeUserScramCredentialsRequest::decode(&mut rest, version) {
        Ok(m) => Ok((m, rest.len())),
        Err(e) => Err(e.to_string()),
    }
}

/// `DescribeUserScramCredentialsRequest::encode` of `kafka-protocol` (`Encodable`), under the given
/// API version into a fresh buffer: it succeeds exactly where
/// `request_encoding` has bytes for the message, and gives those bytes.
#[verifier::external_body]
fn encode_describe_user_scram_credentials_request(message: &DescribeUserScramCredentialsRequest, version: i16) -> (r: Result<Vec<u8>, ()>)
    ensures
        r is Ok <==> request_encoding(KafkaRequest::DescribeUserScramCredentialsRequest(*message), version) is Some,
        r matches Ok(b) ==> request_encoding(KafkaRequest::DescribeUserScramCredentialsRequest(*message), version) == Some(b@),
{
    let mut out: Vec<u8> = Vec::new();
    match message.encode(&mut out, version) {
        Ok(()) => Ok(out),
        Err(_) => Err(()),
    }
}

/// `AlterUserScramCredentialsRequest::decode` of `kafka-protocol` (`Decodable`), from the front of
/// `bytes` under the given API version: it succeeds exactly where
/// `request_decoding` has a result for API key 51, and then hands back that
/// message and the number of bytes after it; on failure, the text of the
/// decoder's error.
#[verifier::external_body]
fn decode_alter_user_scram_credentials_request(bytes: &[u8], version: i16) -> (r: Result<(AlterUserScramCredentialsRequest, usize), String>)
    ensures
        r is Ok <==> request_decoding(51, version, bytes@) is Some,
        r matches Ok((m, rest)) ==> rest <= bytes@.len() && request_decoding(51, version, bytes@) == Some(
            (KafkaRequest::AlterUserScramCredentialsRequest(m), (bytes@.len() - rest) as nat),
        ),
{
    let mut rest = bytes;
    match AlterUserScramCredentialsRequest::decode(&mut rest, version) {
        Ok(m) => Ok((m, rest.len())),
        Err(e) => Err(e.to_string()),
    }
}

/// `AlterUserScramCredentialsRequest::encode` of `kafka-protocol` (`Encodable`), under the given
/// API version into a fresh buffer: it succeeds exactly where
/// `request_encoding` has bytes for the message, and gives those bytes.
#[verifier::external_body]
fn encode_alter_user_scram_credentials_request(message: &AlterUserScramCredentialsRequest, version: i16) -> (r: Result<Vec<u8>, ()>)
    ensures
        r is Ok <==> request_encoding(KafkaRequest::AlterUserScramCredentialsRequest(*message), version) is Some,
        r matches Ok(b) ==> request_encoding(KafkaRequest::AlterUserScramCredentialsRequest(*message), version) == Some(b@),
{
    let mut out: Vec<u8> = Vec::new();
    match message.encode(&mut out, version) {
        Ok(()) => Ok(out),
        Err(_) => Err(()),
    }
}

/// `VoteRequest::decode` of `kafka-protocol` (`Decodable`), from the front of
/// `bytes` under the given API version: it succeeds exactly where
/// `request_decoding` has a result for API key 52, and then hands back that
/// message and the number of bytes after it; on failure, the text of the
/// decoder's error.
#[verifier::external_body]
fn decode_vote_request(bytes: &[u8], version: i16) -> (r: Result<(VoteRequest, usize), String>)
    ensures
        r is Ok <==> request_decoding(52, version, bytes@) is Some,
        r matches Ok((m, rest)) ==> rest <= bytes@.len() && request_decoding(52, version, bytes@) == Some(
            (KafkaRequest::VoteRequest(m), (bytes@.len() - rest) as nat),
        ),
{
    let mut rest = bytes;
    match VoteRequest::decode(&mut rest, version) {
        Ok(m) => Ok((m, rest.len())),
        Err(e) => Err(e.to_string()),
    }
}

/// `VoteRequest::encode` of `kafka-protocol` (`Encodable`), under the given
/// API version into a fresh buffer: it succeeds exactly where
/// `request_encoding` has bytes for the message, and gives those bytes.
#[verifier::external_body]
fn encode_vote_request(message: &VoteRequest, version: i16) -> (r: Result<Vec<u8>, ()>)
    ensures
        r is Ok <==> request_encoding(KafkaRequest::VoteRequest(*message), version) is Some,
        r matches Ok(b) ==> request_encoding(KafkaRequest::VoteRequest(*message), version) == Some(b@),
{
    let mut out: Vec<u8> = Vec::new();
    match message.encode(&mut out, version) {
        Ok(()) => Ok(out),
        Err(_) => Err(()),
    }
}

/// `BeginQuorumEpochRequest::decode` of `kafka-protocol` (`Decodable`), from the front of
/// `bytes` under the given API version: it succeeds exactly where
/// `request_decoding` has a result for API key 53, and then hands back that
/// message and the number of bytes after it; on failure, the text of the
/// decoder's error.
#[verifier::external_body]
fn decode_begin_quorum_epoch_request(bytes: &[u8], version: i16) -> (r: Result<(BeginQuorumEpochRequest, usize), String>)
    ensures
        r is Ok <==> request_decoding(53, version, bytes@) is Some,
        r matches Ok((m, rest)) ==> rest <= bytes@.len() && request_decoding(53, version, bytes@) == Some(
            (KafkaRequest::BeginQuorumEpochRequest(m), (bytes@.len() - rest) as nat),
        ),
{
    let mut rest = bytes;
    match BeginQuorumEpochRequest::decode(&mut rest, version) {
        Ok(m) => Ok((m, rest.len())),
        Err(e) => Err(e.to_string()),
    }
}

/// `BeginQuorumEpochRequest::encode` of `kafka-protocol` (`Encodable`), under the given
/// API version into a fresh buffer: it succeeds exactly where
/// `request_encoding` has bytes for the message, and gives those bytes.
#[verifier::external_body]
fn encode_begin_quorum_epoch_request(message: &BeginQuorumEpochRequest, version: i16) -> (r: Result<Vec<u8>, ()>)
    ensures
        r is Ok <==> request_encoding(KafkaRequest::BeginQuorumEpochRequest(*message), version) is Some,
        r matches Ok(b) ==> request_encoding(KafkaRequest::BeginQuorumEpochRequest(*message), version) == Some(b@),
{
    let mut out: Vec<u8> = Vec::new();
    match message.encode(&mut out, version) {
        Ok(()) => Ok(out),
        Err(_) => Err(()),
    }
}

/// `EndQuorumEpochRequest::decode` of `kafka-protocol` (`Decodable`), from the front of
/// `bytes` under the given API version: it succeeds exactly where
/// `request_decoding` has a result for API key 54, and then hands back that
/// message and the number of bytes after it; on failure, the text of the
/// decoder's error.
#[verifier::external_body]
fn decode_end_quorum_epoch_request(bytes: &[u8], version: i16) -> (r: Result<(EndQuorumEpochRequest, usize), String>)
    ensures
        r is Ok <==> request_decoding(54, version, bytes@) is Some,
        r matches Ok((m, rest)) ==> rest <= bytes@.len() && request_decoding(54, version, bytes@) == Some(
            (KafkaRequest::EndQuorumEpochRequest(m), (bytes@.len() - rest) as nat),
        ),
{
    let mut rest = bytes;
    match EndQuorumEpochRequest::decode(&mut rest, version) {
        Ok(m) => Ok((m, rest.len())),
        Err(e) => Err(e.to_string()),
    }
}

/// `EndQuorumEpochRequest::encode` of `kafka-protocol` (`Encodable`), under the given
/// API version into a fresh buffer: it succeeds exactly where
/// `request_encoding` has bytes for the message, and gives those bytes.
#[verifier::external_body]
fn encode_end_quorum_epoch_request(message: &EndQuorumEpochRequest, version: i16) -> (r: Result<Vec<u8>, ()>)
    ensures
        r is Ok <==> request_encoding(KafkaRequest::EndQuorumEpochRequest(*message), version) is Some,
        r matches Ok(b) ==> request_encoding(KafkaRequest::EndQuorumEpochRequest(*message), version) == Some(b@),
{
    let mut out: Vec<u8> = Vec::new();
    match message.encode(&mut out, version) {
        Ok(()) => Ok(out),
        Err(_) => Err(()),
    }
}

/// `DescribeQuorumRequest::decode` of `kafka-protocol` (`Decodable`), from the front of
/// `bytes` under the given API version: it succeeds exactly where
/// `request_decoding` has a result for API key 55, and then hands back that
/// message and the number of bytes after it; on failure, the text of the
/// decoder's error.
#[verifier::external_body]
fn decode_describe_quorum_request(bytes: &[u8], version: i16) -> (r: Result<(DescribeQuorumRequest, usize), String>)
    ensures
        r is Ok <==> request_decoding(55, version, bytes@) is Some,
        r matches Ok((m, rest)) ==> rest <= bytes@.len() && request_decoding(55, version, bytes@) == Some(
            (KafkaRequest::DescribeQuorumRequest(m), (bytes@.len() - rest) as nat),
        ),
{
    let mut rest = bytes;
    match DescribeQuorumRequest::decode(&mut rest, version) {
        Ok(m) => Ok((m, rest.len())),
        Err(e) => Err(e.to_string()),
    }
}

/// `DescribeQuorumRequest::encode` of `kafka-protocol` (`Encodable`), under the given
/// API version into a fresh buffer: it succeeds exactly where
/// `request_encoding` has bytes for the message, and gives those bytes.
#[verifier::external_body]
fn encode_describe_quorum_request(message: &DescribeQuorumRequest, version: i16) -> (r: Result<Vec<u8>, ()>)
    ensures
        r is Ok <==> request_encoding(KafkaRequest::DescribeQuorumRequest(*message), version) is Some,
        r matches Ok(b) ==> request_encoding(KafkaRequest::DescribeQuorumRequest(*message), version) == Some(b@),
{
    let mut out: Vec<u8> = Vec::new();
    match message.encode(&mut out, version) {
        Ok(()) => Ok(out),
        Err(_) => Err(()),
    }
}

/// `AlterPartitionRequest::decode` of `kafka-protocol` (`Decodable`), from the front of
/// `bytes` under the given API version: it succeeds exactly where
/// `request_decoding` has a result for API key 56, and then hands back that
/// message and the number of bytes after it; on failure, the text of the
/// decoder's error.
#[verifier::external_body]
fn decode_alter_partition_request(bytes: &[u8], version: i16) -> (r: Result<(AlterPartitionRequest, usize), String>)
    ensures
        r is Ok <==> request_decoding(56, version, bytes@) is Some,
        r matches Ok((m, rest)) ==> rest <= bytes@.len() && request_decoding(56, version, bytes@) == Some(
            (KafkaRequest::AlterPartitionRequest(m), (bytes@.len() - rest) as nat),
        ),
{
    let mut rest = bytes;
    match AlterPartitionRequest::decode(&mut rest, version) {
        Ok(m) => Ok((m, rest.len())),
        Err(e) => Err(e.to_string()),
    }
}

/// `AlterPartitionRequest::encode` of `kafka-protocol` (`Encodable`), under the given
/// API version into a fresh buffer: it succeeds exactly where
/// `request_encoding` has bytes for the message, and gives those bytes.
#[verifier::external_body]
fn encode_alter_partition_request(message: &AlterPartitionRequest, version: i16) -> (r: Result<Vec<u8>, ()>)
    ensures
        r is Ok <==> request_encoding(KafkaRequest::AlterPartitionRequest(*message), version) is Some,
        r matches Ok(b) ==> request_encoding(KafkaRequest::AlterPartitionRequest(*message), version) == Some(b@),
{
    let mut out: Vec<u8> = Vec::new();
    match message.encode(&mut out, version) {
        Ok(()) => Ok(out),
        Err(_) => Err(()),
    }
}

/// `UpdateFeaturesRequest::decode` of `kafka-protocol` (`Decodable`), from the front of
/// `bytes` under the given API version: it succeeds exactly where
/// `request_decoding` has a result for API key 57, and then hands back that
/// message and the number of bytes after it; on failure, the text of the
/// decoder's error.
#[verifier::external_body]
fn decode_update_features_request(bytes: &[u8], version: i16) -> (r: Result<(UpdateFeaturesRequest, usize), String>)
    ensures
        r is Ok <==> request_decoding(57, version, bytes@) is Some,
        r matches Ok((m, rest)) ==> rest <= bytes@.len() && request_decoding(57, version, bytes@) == Some(
            (KafkaRequest::UpdateFeaturesRequest(m), (bytes@.len() - rest) as nat),
        ),
{
    let mut rest = bytes;
    match UpdateFeaturesRequest::decode(&mut rest, version) {
        Ok(m) => Ok((m, rest.len())),
        Err(e) => Err(e.to_string()),
    }
}

/// `UpdateFeaturesRequest::encode` of `kafka-protocol` (`Encodable`), under the given
/// API version into a fresh buffer: it succeeds exactly where
/// `request_encoding` has bytes for the message, and gives those bytes.
#[verifier::external_body]
fn encode_update_features_request(message: &UpdateFeaturesRequest, version: i16) -> (r: Result<Vec<u8>, ()>)
    ensures
        r is Ok <==> request_encoding(KafkaRequest::UpdateFeaturesRequest(*message), version) is Some,
        r matches Ok(b) ==> request_encoding(KafkaRequest::UpdateFeaturesRequest(*message), version) == Some(b@),
{
    let mut out: Vec<u8> = Vec::new();
    match message.encode(&mut out, version) {
        Ok(()) => Ok(out),
        Err(_) => Err(()),
    }
}

/// `EnvelopeRequest::decode` of `kafka-protocol` (`Decodable`), from the front of
/// `bytes` under the given API version: it succeeds exactly where
/// `request_decoding` has a result for API key 58, and then hands back that
/// message and the number of bytes after it; on failure, the text of the
/// decoder's error.
#[verifier::external_body]
fn decode_envelope_request(bytes: &[u8], version: i16) -> (r: Result<(EnvelopeRequest, usize), String>)
    ensures
        r is Ok <==> request_decoding(58, version, bytes@) is Some,
        r matches Ok((m, rest)) ==> rest <= bytes@.len() && request_decoding(58, version, bytes@) == Some(
            (KafkaRequest::EnvelopeRequest(m), (bytes@.len() - rest) as nat),
        ),
{
    let mut rest = bytes;
    match EnvelopeRequest::decode(&mut rest, version) {
        Ok(m) => Ok((m, rest.len())),
        Err(e) => Err(e.to_string()),
    }
}

/// `EnvelopeRequest::encode` of `kafka-protocol` (`Encodable`), under the given
/// API version into a fresh buffer: it succeeds exactly where
/// `request_encoding` has bytes for the message, and gives those bytes.
#[verifier::external_body]
fn encode_envelope_request(message: &EnvelopeRequest, version: i16) -> (r: Result<Vec<u8>, ()>)
    ensures
        r is Ok <==> request_encoding(KafkaRequest::EnvelopeRequest(*message), version) is Some,
        r matches Ok(b) ==> request_encoding(KafkaRequest::EnvelopeRequest(*message), version) == Some(b@),
{
    let mut out: Vec<u8> = Vec::new();
    match message.encode(&mut out, version) {
        Ok(()) => Ok(out),
        Err(_) => Err(()),
    }
}

/// `FetchSnapshotRequest::decode` of `kafka-protocol` (`Decodable`), from the front of
/// `bytes` under the given API version: it succeeds exactly where
/// `request_decoding` has a result for API key 59, and then hands back that
/// message and the number of bytes after it; on failure, the text of the
/// decoder's error.
#[verifier::external_body]
fn decode_fetch_snapshot_request(bytes: &[u8], version: i16) -> (r: Result<(FetchSnapshotRequest, usize), String>)
    ensures
        r is Ok <==> request_decoding(59, version, bytes@) is Some,
        r matches Ok((m, rest)) ==> rest <= bytes@.len() && request_decoding(59, version, bytes@) == Some(
            (KafkaRequest::FetchSnapshotRequest(m), (bytes@.len() - rest) as nat),
        ),
{
    let mut rest = bytes;
    match FetchSnapshotRequest::decode(&mut rest, version) {
        Ok(m) => Ok((m, rest.len())),
        Err(e) => Err(e.to_string()),
    }
}

/// `FetchSnapshotRequest::encode` of `kafka-protocol` (`Encodable`), under the given
/// API version into a fresh buffer: it succeeds exactly where
/// `request_encoding` has bytes for the message, and gives those bytes.
#[verifier::external_body]
fn encode_fetch_snapshot_request(message: &FetchSnapshotRequest, version: i16) -> (r: Result<Vec<u8>, ()>)
    ensures
        r is Ok <==> request_encoding(KafkaRequest::FetchSnapshotRequest(*message), version) is Some,
        r matches Ok(b) ==> request_encoding(KafkaRequest::FetchSnapshotRequest(*message), version) == Some(b@),
{
    let mut out: Vec<u8> = Vec::new();
    match message.encode(&mut out, version) {
        Ok(()) => Ok(out),
        Err(_) => Err(()),
    }
}

/// `DescribeClusterRequest::decode` of `kafka-protocol` (`Decodable`), from the front of
/// `bytes` under the given API version: it succeeds exactly where
/// `request_decoding` has a result for API key 60, and then hands back that
/// message and the number of bytes after it; on failure, the text of the
/// decoder's error.
#[verifier::external_body]
fn decode_describe_cluster_request(bytes: &[u8], version: i16) -> (r: Result<(DescribeClusterRequest, usize), String>)
    ensures
        r is Ok <==> request_decoding(60, version, bytes@) is Some,
        r matches Ok((m, rest)) ==> rest <= bytes@.len() && request_decoding(60, version, bytes@) == Some(
            (KafkaRequest::DescribeClusterRequest(m), (bytes@.len() - rest) as nat),
        ),
{
    let mut rest = bytes;
    match DescribeClusterRequest::decode(&mut rest, version) {
        Ok(m) => Ok((m, rest.len())),
        Err(e) => Err(e.to_string()),
    }
}

/// `DescribeClusterRequest::encode` of `kafka-protocol` (`Encodable`), under the given
/// API version into a fresh buffer: it succeeds exactly where
/// `request_encoding` has bytes for the message, and gives those bytes.
#[verifier::external_body]
fn encode_describe_cluster_request(message: &DescribeClusterRequest, version: i16) -> (r: Result<Vec<u8>, ()>)
    ensures
        r is Ok <==> request_encoding(KafkaRequest::DescribeClusterRequest(*message), version) is Some,
        r matches Ok(b) ==> request_encoding(KafkaRequest::DescribeClusterRequest(*message), version) == Some(b@),
{
    let mut out: Vec<u8> = Vec::new();
    match message.encode(&mut out, version) {
        Ok(()) => Ok(out),
        Err(_) => Err(()),
    }
}

/// `DescribeProducersRequest::decode` of `kafka-protocol` (`Decodable`), from the front of
/// `bytes` under the given API version: it succeeds exactly where
/// `request_decoding` has a result for API key 61, and then hands back that
/// message and the number of bytes after it; on failure, the text of the
/// decoder's error.
#[verifier::external_body]
fn decode_describe_producers_request(bytes: &[u8], version: i16) -> (r: Result<(DescribeProducersRequest, usize), String>)
    ensures
        r is Ok <==> request_decoding(61, version, bytes@) is Some,
        r matches Ok((m, rest)) ==> rest <= bytes@.len() && request_decoding(61, version, bytes@) == Some(
            (KafkaRequest::DescribeProducersRequest(m), (bytes@.len() - rest) as nat),
        ),
{
    let mut rest = bytes;
    match DescribeProducersRequest::decode(&mut rest, version) {
        Ok(m) => Ok((m, rest.len())),
        Err(e) => Err(e.to_string()),
    }
}

/// `DescribeProducersRequest::encode` of `kafka-protocol` (`Encodable`), under the given
/// API version into a fresh buffer: it succeeds exactly where
/// `request_encoding` has bytes for the message, and gives those bytes.
#[verifier::external_body]
fn encode_describe_producers_request(message: &DescribeProducersRequest, version: i16) -> (r: Result<Vec<u8>, ()>)
    ensures
        r is Ok <==> request_encoding(KafkaRequest::DescribeProducersRequest(*message), version) is Some,
        r matches Ok(b) ==> request_encoding(KafkaRequest::DescribeProducersRequest(*message), version) == Some(b@),
{
    let mut out: Vec<u8> = Vec::new();
    match message.encode(&mut out, version) {
        Ok(()) => Ok(out),
        Err(_) => Err(()),
    }
}

/// `BrokerRegistrationRequest::decode` of `kafka-protocol` (`Decodable`), from the front of
/// `bytes` under the given API version: it succeeds exactly where
/// `request_decoding` has a result for API key 62, and then hands back that
/// message and the number of bytes after it; on failure, the text of the
/// decoder's error.
#[verifier::external_body]
fn decode_broker_registration_request(bytes: &[u8], version: i16) -> (r: Result<(BrokerRegistrationRequest, usize), String>)
    ensures
        r is Ok <==> request_decoding(62, version, bytes@) is Some,
        r matches Ok((m, rest)) ==> rest <= bytes@.len() && request_decoding(62, version, bytes@) == Some(
            (KafkaRequest::BrokerRegistrationRequest(m), (bytes@.len() - rest) as nat),
        ),
{
    let mut rest = bytes;
    match BrokerRegistrationRequest::decode(&mut rest, version) {
        Ok(m) => Ok((m, rest.len())),
        Err(e) => Err(e.to_string()),
    }
}

/// `BrokerRegistrationRequest::encode` of `kafka-protocol` (`Encodable`), under the given
/// API version into a fresh buffer: it succeeds exactly where
/// `request_encoding` has bytes for the message, and gives those bytes.
#[verifier::external_body]
fn encode_broker_registration_request(message: &BrokerRegistrationRequest, version: i16) -> (r: Result<Vec<u8>, ()>)
    ensures
        r is Ok <==> request_encoding(KafkaRequest::BrokerRegistrationRequest(*message), version) is Some,
        r matches Ok(b) ==> request_encoding(KafkaRequest::BrokerRegistrationRequest(*message), version) == Some(b@),
{
    let mut out: Vec<u8> = Vec::new();
    match message.encode(&mut out, version) {
        Ok(()) => Ok(out),
        Err(_) => Err(()),
    }
}

/// `BrokerHeartbeatRequest::decode` of `kafka-protocol` (`Decodable`), from the front of
/// `bytes` under the given API version: it succeeds exactly where
/// `request_decoding` has a result for API key 63, and then hands back that
/// message and the number of bytes after it; on failure, the text of the
/// decoder's error.
#[verifier::external_body]
fn decode_broker_heartbeat_request(bytes: &[u8], version: i16) -> (r: Result<(BrokerHeartbeatRequest, usize), String>)
    ensures
        r is Ok <==> request_decoding(63, version, bytes@) is Some,
        r matches Ok((m, rest)) ==> rest <= bytes@.len() && request_decoding(63, version, bytes@) == Some(
            (KafkaRequest::BrokerHeartbeatRequest(m), (bytes@.len() - rest) as nat),
        ),
{
    let mut rest = bytes;
    match BrokerHeartbeatRequest::decode(&mut rest, version) {
        Ok(m) => Ok((m, rest.len())),
        Err(e) => Err(e.to_string()),
    }
}

/// `BrokerHeartbeatRequest::encode` of `kafka-protocol` (`Encodable`), under the given
/// API version into a fresh buffer: it succeeds exactly where
/// `request_encoding` has bytes for the message, and gives those bytes.
#[verifier::external_body]
fn encode_broker_heartbeat_request(message: &BrokerHeartbeatRequest, version: i16) -> (r: Result<Vec<u8>, ()>)
    ensures
        r is Ok <==> request_encoding(KafkaRequest::BrokerHeartbeatRequest(*message), version) is Some,
        r matches Ok(b) ==> request_encoding(KafkaRequest::BrokerHeartbeatRequest(*message), version) == Some(b@),
{
    let mut out: Vec<u8> = Vec::new();
    match message.encode(&mut out, version) {
        Ok(()) => Ok(out),
        Err(_) => Err(()),
    }
}

/// `UnregisterBrokerRequest::decode` of `kafka-protocol` (`Decodable`), from the front of
/// `bytes` under the given API version: it succeeds exactly where
/// `request_decoding` has a result for API key 64, and then hands back that
/// message and the number of bytes after it; on failure, the text of the
/// decoder's error.
#[verifier::external_body]
fn decode_unregister_broker_request(bytes: &[u8], version: i16) -> (r: Result<(UnregisterBrokerRequest, usize), String>)
    ensures
        r is Ok <==> request_decoding(64, version, bytes@) is Some,
        r matches Ok((m, rest)) ==> rest <= bytes@.len() && request_decoding(64, version, bytes@) == Some(
            (KafkaRequest::UnregisterBrokerRequest(m), (bytes@.len() - rest) as nat),
        ),
{
    let mut rest = bytes;
    match UnregisterBrokerRequest::decode(&mut rest, version) {
        Ok(m) => Ok((m, rest.len())),
        Err(e) => Err(e.to_string()),
    }
}

/// `UnregisterBrokerRequest::encode` of `kafka-protocol` (`Encodable`), under the given
/// API version into a fresh buffer: it succeeds exactly where
/// `request_encoding` has bytes for the message, and gives those bytes.
#[verifier::external_body]
fn encode_unregister_broker_request(message: &UnregisterBrokerRequest, version: i16) -> (r: Result<Vec<u8>, ()>)
    ensures
        r is Ok <==> request_encoding(KafkaRequest::UnregisterBrokerRequest(*message), version) is Some,
        r matches Ok(b) ==> request_encoding(KafkaRequest::UnregisterBrokerRequest(*message), version) == Some(b@),
{
    let mut out: Vec<u8> = Vec::new();
    match message.encode(&mut out, version) {
        Ok(()) => Ok(out),
        Err(_) => Err(()),
    }
}

/// `DescribeTransactionsRequest::decode` of `kafka-protocol` (`Decodable`), from the front of
/// `bytes` under the given API version: it succeeds exactly where
/// `request_decoding` has a result for API key 65, and then hands back that
/// message and the number of bytes after it; on failure, the text of the
/// decoder's error.
#[verifier::external_body]
fn decode_describe_transactions_request(bytes: &[u8], version: i16) -> (r: Result<(DescribeTransactionsRequest, usize), String>)
    ensures
        r is Ok <==> request_decoding(65, version, bytes@) is Some,
        r matches Ok((m, rest)) ==> rest <= bytes@.len() && request_decoding(65, version, bytes@) == Some(
            (KafkaRequest::DescribeTransactionsRequest(m), (bytes@.len() - rest) as nat),
        ),
{
    let mut rest = bytes;
    match DescribeTransactionsRequest::decode(&mut rest, version) {
        Ok(m) => Ok((m, rest.len())),
        Err(e) => Err(e.to_string()),
    }
}

/// `DescribeTransactionsRequest::encode` of `kafka-protocol` (`Encodable`), under the given
/// API version into a fresh buffer: it succeeds exactly where
/// `request_encoding` has bytes for the message, and gives those bytes.
#[verifier::external_body]
fn encode_describe_transactions_request(message: &DescribeTransactionsRequest, version: i16) -> (r: Result<Vec<u8>, ()>)
    ensures
        r is Ok <==> request_encoding(KafkaRequest::DescribeTransactionsRequest(*message), version) is Some,
        r matches Ok(b) ==> request_encoding(KafkaRequest::DescribeTransactionsRequest(*message), version) == Some(b@),
{
    let mut out: Vec<u8> = Vec::new();
    match message.encode(&mut out, version) {
        Ok(()) => Ok(out),
        Err(_) => Err(()),
    }
}

/// `ListTransactionsRequest::decode` of `kafka-protocol` (`Decodable`), from the front of
/// `bytes` under the given API version: it succeeds exactly where
/// `request_decoding` has a result for API key 66, and then hands back that
/// message and the number of bytes after it; on failure, the text of the
/// decoder's error.
#[verifier::external_body]
fn decode_list_transactions_request(bytes: &[u8], version: i16) -> (r: Result<(ListTransactionsRequest, usize), String>)
    ensures
        r is Ok <==> request_decoding(66, version, bytes@) is Some,
        r matches Ok((m, rest)) ==> rest <= bytes@.len() && request_decoding(66, version, bytes@) == Some(
            (KafkaRequest::ListTransactionsRequest(m), (bytes@.len() - rest) as nat),
        ),
{
    let mut rest = bytes;
    match ListTransactionsRequest::decode(&mut rest, version) {
        Ok(m) => Ok((m, rest.len())),
        Err(e) => Err(e.to_string()),
    }
}

/// `ListTransactionsRequest::encode` of `kafka-protocol` (`Encodable`), under the given
/// API version into a fresh buffer: it succeeds exactly where
/// `request_encoding` has bytes for the message, and gives those bytes.
#[verifier::external_body]
fn encode_list_transactions_request(message: &ListTransactionsRequest, version: i16) -> (r: Result<Vec<u8>, ()>)
    ensures
        r is Ok <==> request_encoding(KafkaRequest::ListTransactionsRequest(*message), version) is Some,
        r matches Ok(b) ==> request_encoding(KafkaRequest::ListTransactionsRequest(*message), version) == Some(b@),
{
    let mut out: Vec<u8> = Vec::new();
    match message.encode(&mut out, version) {
        Ok(()) => Ok(out),
        Err(_) => Err(()),
    }
}

/// `AllocateProducerIdsRequest::decode` of `kafka-protocol` (`Decodable`), from the front of
/// `bytes` under the given API version: it succeeds exactly where
/// `request_decoding` has a result for API key 67, and then hands back that
/// message and the number of bytes after it; on failure, the text of the
/// decoder's error.
#[verifier::external_body]
fn decode_allocate_producer_ids_request(bytes: &[u8], version: i16) -> (r: Result<(AllocateProducerIdsRequest, usize), String>)
    ensures
        r is Ok <==> request_decoding(67, version, bytes@) is Some,
        r matches Ok((m, rest)) ==> rest <= bytes@.len() && request_decoding(67, version, bytes@) == Some(
            (KafkaRequest::AllocateProducerIdsRequest(m), (bytes@.len() - rest) as nat),
        ),
{
    let mut rest = bytes;
    match AllocateProducerIdsRequest::decode(&mut rest, version) {
        Ok(m) => Ok((m, rest.len())),
        Err(e) => Err(e.to_string()),
    }
}

/// `AllocateProducerIdsRequest::encode` of `kafka-protocol` (`Encodable`), under the given
/// API version into a fresh buffer: it succeeds exactly where
/// `request_encoding` has bytes for the message, and gives those bytes.
#[verifier::external_body]
fn encode_allocate_producer_ids_request(message: &AllocateProducerIdsRequest, version: i16) -> (r: Result<Vec<u8>, ()>)
    ensures
        r is Ok <==> request_encoding(KafkaRequest::AllocateProducerIdsRequest(*message), version) is Some,
        r matches Ok(b) ==> request_encoding(KafkaRequest::AllocateProducerIdsRequest(*message), version) == Some(b@),
{
    let mut out: Vec<u8> = Vec::new();
    match message.encode(&mut out, version) {
        Ok(()) => Ok(out),
        Err(_) => Err(()),
    }
}

/// `ConsumerGroupHeartbeatRequest::decode` of `kafka-protocol` (`Decodable`), from the front of
/// `bytes` under the given API version: it succeeds exactly where
/// `request_decoding` has a result for API key 68, and then hands back that
/// message and the number of bytes after it; on failure, the text of the
/// decoder's error.
#[verifier::external_body]
fn decode_consumer_group_heartbeat_request(bytes: &[u8], version: i16) -> (r: Result<(ConsumerGroupHeartbeatRequest, usize), String>)
    ensures
        r is Ok <==> request_decoding(68, version, bytes@) is Some,
        r matches Ok((m, rest)) ==> rest <= bytes@.len() && request_decoding(68, version, bytes@) == Some(
            (KafkaRequest::ConsumerGroupHeartbeatRequest(m), (bytes@.len() - rest) as nat),
        ),
{
    let mut rest = bytes;
    match ConsumerGroupHeartbeatRequest::decode(&mut rest, version) {
        Ok(m) => Ok((m, rest.len())),
        Err(e) => Err(e.to_string()),
    }
}

/// `ConsumerGroupHeartbeatRequest::encode` of `kafka-protocol` (`Encodable`), under the given
/// API version into a fresh buffer: it succeeds exactly where
/// `request_encoding` has bytes for the message, and gives those bytes.
#[verifier::external_body]
fn encode_consumer_group_heartbeat_request(message: &ConsumerGroupHeartbeatRequest, version: i16) -> (r: Result<Vec<u8>, ()>)
    ensures
        r is Ok <==> request_encoding(KafkaRequest::ConsumerGroupHeartbeatRequest(*message), version) is Some,
        r matches Ok(b) ==> request_encoding(KafkaRequest::ConsumerGroupHeartbeatRequest(*message), version) == Some(b@),
{
    let mut out: Vec<u8> = Vec::new();
    match message.encode(&mut out, version) {
        Ok(()) => Ok(out),
        Err(_) => Err(()),
    }
}

/// `ConsumerGroupDescribeRequest::decode` of `kafka-protocol` (`Decodable`), from the front of
/// `bytes` under the given API version: it succeeds exactly where
/// `request_decoding` has a result for API key 69, and then hands back that
/// message and the number of bytes after it; on failure, the text of the
/// decoder's error.
#[verifier::external_body]
fn decode_consumer_group_describe_request(bytes: &[u8], version: i16) -> (r: Result<(ConsumerGroupDescribeRequest, usize), String>)
    ensures
        r is Ok <==> request_decoding(69, version, bytes@) is Some,
        r matches Ok((m, rest)) ==> rest <= bytes@.len() && request_decoding(69, version, bytes@) == Some(
            (KafkaRequest::ConsumerGroupDescribeRequest(m), (bytes@.len() - rest) as nat),
        ),
{
    let mut rest = bytes;
    match ConsumerGroupDescribeRequest::decode(&mut rest, version) {
        Ok(m) => Ok((m, rest.len())),
        Err(e) => Err(e.to_string()),
    }
}

/// `ConsumerGroupDescribeRequest::encode` of `kafka-protocol` (`Encodable`), under the given
/// API version into a fresh buffer: it succeeds exactly where
/// `request_encoding` has bytes for the message, and gives those bytes.
#[verifier::external_body]
fn encode_consumer_group_describe_request(message: &ConsumerGroupDescribeRequest, version: i16) -> (r: Result<Vec<u8>, ()>)
    ensures
        r is Ok <==> request_encoding(KafkaRequest::ConsumerGroupDescribeRequest(*message), version) is Some,
        r matches Ok(b) ==> request_encoding(KafkaRequest::ConsumerGroupDescribeRequest(*message), version) == Some(b@),
{
    let mut out: Vec<u8> = Vec::new();
    match message.encode(&mut out, version) {
        Ok(()) => Ok(out),
        Err(_) => Err(()),
    }
}

/// `ControllerRegistrationRequest::decode` of `kafka-protocol` (`Decodable`), from the front of
/// `bytes` under the given API version: it succeeds exactly where
/// `request_decoding` has a result for API key 70, and then hands back that
/// message and the number of bytes after it; on failure, the text of the
/// decoder's error.
#[verifier::external_body]
fn decode_controller_registration_request(bytes: &[u8], version: i16) -> (r: Result<(ControllerRegistrationRequest, usize), String>)
    ensures
        r is Ok <==> request_decoding(70, version, bytes@) is Some,
        r matches Ok((m, rest)) ==> rest <= bytes@.len() && request_decoding(70, version, bytes@) == Some(
            (KafkaRequest::ControllerRegistrationRequest(m), (bytes@.len() - rest) as nat),
        ),
{
    let mut rest = bytes;
    match ControllerRegistrationRequest::decode(&mut rest, version) {
        Ok(m) => Ok((m, rest.len())),
        Err(e) => Err(e.to_string()),
    }
}

/// `ControllerRegistrationRequest::encode` of `kafka-protocol` (`Encodable`), under the given
/// API version into a fresh buffer: it succeeds exactly where
/// `request_encoding` has bytes for the message, and gives those bytes.
#[verifier::external_body]
fn encode_controller_registration_request(message: &ControllerRegistrationRequest, version: i16) -> (r: Result<Vec<u8>, ()>)
    ensures
        r is Ok <==> request_encoding(KafkaRequest::ControllerRegistrationRequest(*message), version) is Some,
        r matches Ok(b) ==> request_encoding(KafkaRequest::ControllerRegistrationRequest(*message), version) == Some(b@),
{
    let mut out: Vec<u8> = Vec::new();
    match message.encode(&mut out, version) {
        Ok(()) => Ok(out),
        Err(_) => Err(()),
    }
}

/// `GetTelemetrySubscriptionsRequest::decode` of `kafka-protocol` (`Decodable`), from the front of
/// `bytes` under the given API version: it succeeds exactly where
/// `request_decoding` has a result for API key 71, and then hands back that
/// message and the number of bytes after it; on failure, the text of the
/// decoder's error.
#[verifier::external_body]
fn decode_get_telemetry_subscriptions_request(bytes: &[u8], version: i16) -> (r: Result<(GetTelemetrySubscriptionsRequest, usize), String>)
    ensures
        r is Ok <==> request_decoding(71, version, bytes@) is Some,
        r matches Ok((m, rest)) ==> rest <= bytes@.len() && request_decoding(71, version, bytes@) == Some(
            (KafkaRequest::GetTelemetrySubscriptionsRequest(m), (bytes@.len() - rest) as nat),
        ),
{
    let mut rest = bytes;
    match GetTelemetrySubscriptionsRequest::decode(&mut rest, version) {
        Ok(m) => Ok((m, rest.len())),
        Err(e) => Err(e.to_string()),
    }
}

/// `GetTelemetrySubscriptionsRequest::encode` of `kafka-protocol` (`Encodable`), under the given
/// API version into a fresh buffer: it succeeds exactly where
/// `request_encoding` has bytes for the message, and gives those bytes.
#[verifier::external_body]
fn encode_get_telemetry_subscriptions_request(message: &GetTelemetrySubscriptionsRequest, version: i16) -> (r: Result<Vec<u8>, ()>)
    ensures
        r is Ok <==> request_encoding(KafkaRequest::GetTelemetrySubscriptionsRequest(*message), version) is Some,
        r matches Ok(b) ==> request_encoding(KafkaRequest::GetTelemetrySubscriptionsRequest(*message), version) == Some(b@),
{
    let mut out: Vec<u8> = Vec::new();
    match message.encode(&mut out, version) {
        Ok(()) => Ok(out),
        Err(_) => Err(()),
    }
}

/// `PushTelemetryRequest::decode` of `kafka-protocol` (`Decodable`), from the front of
/// `bytes` under the given API version: it succeeds exactly where
/// `request_decoding` has a result for API key 72, and then hands back that
/// message and the number of bytes after it; on failure, the text of the
/// decoder's error.
#[verifier::external_body]
fn decode_push_telemetry_request(bytes: &[u8], version: i16) -> (r: Result<(PushTelemetryRequest, usize), String>)
    ensures
        r is Ok <==> request_decoding(72, version, bytes@) is Some,
        r matches Ok((m, rest)) ==> rest <= bytes@.len() && request_decoding(72, version, bytes@) == Some(
            (KafkaRequest::PushTelemetryRequest(m), (bytes@.len() - rest) as nat),
        ),
{
    let mut rest = bytes;
    match PushTelemetryRequest::decode(&mut rest, version) {
        Ok(m) => Ok((m, rest.len())),
        Err(e) => Err(e.to_string()),
    }
}

/// `PushTelemetryRequest::encode` of `kafka-protocol` (`Encodable`), under the given
/// API version into a fresh buffer: it succeeds exactly where
/// `request_encoding` has bytes for the message, and gives those bytes.
#[verifier::external_body]
fn encode_push_telemetry_request(message: &PushTelemetryRequest, version: i16) -> (r: Result<Vec<u8>, ()>)
    ensures
        r is Ok <==> request_encoding(KafkaRequest::PushTelemetryRequest(*message), version) is Some,
        r matches Ok(b) ==> request_encoding(KafkaRequest::PushTelemetryRequest(*message), version) == Some(b@),
{
    let mut out: Vec<u8> = Vec::new();
    match message.encode(&mut out, version) {
        Ok(()) => Ok(out),
        Err(_) => Err(()),
    }
}

/// `AssignReplicasToDirsRequest::decode` of `kafka-protocol` (`Decodable`), from the front of
/// `bytes` under the given API version: it succeeds exactly where
/// `request_decoding` has a result for API key 73, and then hands back that
/// message and the number of bytes after it; on failure, the text of the
/// decoder's error.
#[verifier::external_body]
fn decode_assign_replicas_to_dirs_request(bytes: &[u8], version: i16) -> (r: Result<(AssignReplicasToDirsRequest, usize), String>)
    ensures
        r is Ok <==> request_decoding(73, version, bytes@) is Some,
        r matches Ok((m, rest)) ==> rest <= bytes@.len() && request_decoding(73, version, bytes@) == Some(
            (KafkaRequest::AssignReplicasToDirsRequest(m), (bytes@.len() - rest) as nat),
        ),
{
    let mut rest = bytes;
    match AssignReplicasToDirsRequest::decode(&mut rest, version) {
        Ok(m) => Ok((m, rest.len())),
        Err(e) => Err(e.to_string()),
    }
}

/// `AssignReplicasToDirsRequest::encode` of `kafka-protocol` (`Encodable`), under the given
/// API version into a fresh buffer: it succeeds exactly where
/// `request_encoding` has bytes for the message, and gives those bytes.
#[verifier::external_body]
fn encode_assign_replicas_to_dirs_request(message: &AssignReplicasToDirsRequest, version: i16) -> (r: Result<Vec<u8>, ()>)
    ensures
        r is Ok <==> request_encoding(KafkaRequest::AssignReplicasToDirsRequest(*message), version) is Some,
        r matches Ok(b) ==> request_encoding(KafkaRequest::AssignReplicasToDirsRequest(*message), version) == Some(b@),
{
    let mut out: Vec<u8> = Vec::new();
    match message.encode(&mut out, version) {
        Ok(()) => Ok(out),
        Err(_) => Err(()),
    }
}

/// `ListClientMetricsResourcesRequest::decode` of `kafka-protocol` (`Decodable`), from the front of
/// `bytes` under the given API version: it succeeds exactly where
/// `request_decoding` has a result for API key 74, and then hands back that
/// message and the number of bytes after it; on failure, the text of the
/// decoder's error.
#[verifier::external_body]
fn decode_list_client_metrics_resources_request(bytes: &[u8], version: i16) -> (r: Result<(ListClientMetricsResourcesRequest, usize), String>)
    ensures
        r is Ok <==> request_decoding(74, version, bytes@) is Some,
        r matches Ok((m, rest)) ==> rest <= bytes@.len() && request_decoding(74, version, bytes@) == Some(
            (KafkaRequest::ListClientMetricsResourcesRequest(m), (bytes@.len() - rest) as nat),
        ),
{
    let mut rest = bytes;
    match ListClientMetricsResourcesRequest::decode(&mut rest, version) {
        Ok(m) => Ok((m, rest.len())),
        Err(e) => Err(e.to_string()),
    }
}

/// `ListClientMetricsResourcesRequest::encode` of `kafka-protocol` (`Encodable`), under the given
/// API version into a fresh buffer: it succeeds exactly where
/// `request_encoding` has bytes for the message, and gives those bytes.
#[verifier::external_body]
fn encode_list_client_metrics_resources_request(message: &ListClientMetricsResourcesRequest, version: i16) -> (r: Result<Vec<u8>, ()>)
    ensures
        r is Ok <==> request_encoding(KafkaRequest::ListClientMetricsResourcesRequest(*message), version) is Some,
        r matches Ok(b) ==> request_encoding(KafkaRequest::ListClientMetricsResourcesRequest(*message), version) == Some(b@),
{
    let mut out: Vec<u8> = Vec::new();
    match message.encode(&mut out, version) {
        Ok(()) => Ok(out),
        Err(_) => Err(()),
    }
}

/// `DescribeTopicPartitionsRequest::decode` of `kafka-protocol` (`Decodable`), from the front of
/// `bytes` under the given API version: it succeeds exactly where
/// `request_decoding` has a result for API key 75, and then hands back that
/// message and the number of bytes after it; on failure, the text of the
/// decoder's error.
#[verifier::external_body]
fn decode_describe_topic_partitions_request(bytes: &[u8], version: i16) -> (r: Result<(DescribeTopicPartitionsRequest, usize), String>)
    ensures
        r is Ok <==> request_decoding(75, version, bytes@) is Some,
        r matches Ok((m, rest)) ==> rest <= bytes@.len() && request_decoding(75, version, bytes@) == Some(
            (KafkaRequest::DescribeTopicPartitionsRequest(m), (bytes@.len() - rest) as nat),
        ),
{
    let mut rest = bytes;
    match DescribeTopicPartitionsRequest::decode(&mut rest, version) {
        Ok(m) => Ok((m, rest.len())),
        Err(e) => Err(e.to_string()),
    }
}

/// `DescribeTopicPartitionsRequest::encode` of `kafka-protocol` (`Encodable`), under the given
/// API version into a fresh buffer: it succeeds exactly where
/// `request_encoding` has bytes for the message, and gives those bytes.
#[verifier::external_body]
fn encode_describe_topic_partitions_request(message: &DescribeTopicPartitionsRequest, version: i16) -> (r: Result<Vec<u8>, ()>)
    ensures
        r is Ok <==> request_encoding(KafkaRequest::DescribeTopicPartitionsRequest(*message), version) is Some,
        r matches Ok(b) ==> request_encoding(KafkaRequest::DescribeTopicPartitionsRequest(*message), version) == Some(b@),
{
    let mut out: Vec<u8> = Vec::new();
    match message.encode(&mut out, version) {
        Ok(()) => Ok(out),
        Err(_) => Err(()),
    }
}

/// `ProduceResponse::decode` of `kafka-protocol` (`Decodable`), from the front of
/// `bytes` under the given API version: it succeeds exactly where
/// `response_decoding` has a result for API key 0, and then hands back that
/// message and the number of bytes after it; on failure, the text of the
/// decoder's error.
#[verifier::external_body]
fn decode_produce_response(bytes: &[u8], version: i16) -> (r: Result<(ProduceResponse, usize), String>)
    ensures
        r is Ok <==> response_decoding(0, version, bytes@) is Some,
        r matches Ok((m, rest)) ==> rest <= bytes@.len() && response_decoding(0, version, bytes@) == Some(
            (KafkaResponse::ProduceResponse(m), (bytes@.len() - rest) as nat),
        ),
{
    let mut rest = bytes;
    match ProduceResponse::decode(&mut rest, version) {
        Ok(m) => Ok((m, rest.len())),
        Err(e) => Err(e.to_string()),
    }
}

/// `ProduceResponse::encode` of `kafka-protocol` (`Encodable`), under the given
/// API version into a fresh buffer: it succeeds exactly where
/// `response_encoding` has bytes for the message, and gives those bytes.
#[verifier::external_body]
fn encode_produce_response(message: &ProduceResponse, version: i16) -> (r: Result<Vec<u8>, ()>)
    ensures
        r is Ok <==> response_encoding(KafkaResponse::ProduceResponse(*message), version) is Some,
        r matches Ok(b) ==> response_encoding(KafkaResponse::ProduceResponse(*message), version) == Some(b@),
{
    let mut out: Vec<u8> = Vec::new();
    match message.encode(&mut out, version) {
        Ok(()) => Ok(out),
        Err(_) => Err(()),
    }
}

/// `FetchResponse::decode` of `kafka-protocol` (`Decodable`), from the front of
/// `bytes` under the given API version: it succeeds exactly where
/// `response_decoding` has a result for API key 1, and then hands back that
/// message and the number of bytes after it; on failure, the text of the
/// decoder's error.
#[verifier::external_body]
fn decode_fetch_response(bytes: &[u8], version: i16) -> (r: Result<(FetchResponse, usize), String>)
    ensures
        r is Ok <==> response_decoding(1, version, bytes@) is Some,
        r matches Ok((m, rest)) ==> rest <= bytes@.len() && response_decoding(1, version, bytes@) == Some(
            (KafkaResponse::FetchResponse(m), (bytes@.len() - rest) as nat),
        ),
{
    let mut rest = bytes;
    match FetchResponse::decode(&mut rest, version) {
        Ok(m) => Ok((m, rest.len())),
        Err(e) => Err(e.to_string()),
    }
}

/// `FetchResponse::encode` of `kafka-protocol` (`Encodable`), under the given
/// API version into a fresh buffer: it succeeds exactly where
/// `response_encoding` has bytes for the message, and gives those bytes.
#[verifier::external_body]
fn encode_fetch_response(message: &FetchResponse, version: i16) -> (r: Result<Vec<u8>, ()>)
    ensures
        r is Ok <==> response_encoding(KafkaResponse::FetchResponse(*message), version) is Some,
        r matches Ok(b) ==> response_encoding(KafkaResponse::FetchResponse(*message), version) == Some(b@),
{
    let mut out: Vec<u8> = Vec::new();
    match message.encode(&mut out, version) {
        Ok(()) => Ok(out),
        Err(_) => Err(()),
    }
}

/// `ListOffsetsResponse::decode` of `kafka-protocol` (`Decodable`), from the front of
/// `bytes` under the given API version: it succeeds exactly where
/// `response_decoding` has a result for API key 2, and then hands back that
/// message and the number of bytes after it; on failure, the text of the
/// decoder's error.
#[verifier::external_body]
fn decode_list_offsets_response(bytes: &[u8], version: i16) -> (r: Result<(ListOffsetsResponse, usize), String>)
    ensures
        r is Ok <==> response_decoding(2, version, bytes@) is Some,
        r matches Ok((m, rest)) ==> rest <= bytes@.len() && response_decoding(2, version, bytes@) == Some(
            (KafkaResponse::ListOffsetsResponse(m), (bytes@.len() - rest) as nat),
        ),
{
    let mut rest = bytes;
    match ListOffsetsResponse::decode(&mut rest, version) {
        Ok(m) => Ok((m, rest.len())),
        Err(e) => Err(e.to_string()),
    }
}

/// `ListOffsetsResponse::encode` of `kafka-protocol` (`Encodable`), under the given
/// API version into a fresh buffer: it succeeds exactly where
/// `response_encoding` has bytes for the message, and gives those bytes.
#[verifier::external_body]
fn encode_list_offsets_response(message: &ListOffsetsResponse, version: i16) -> (r: Result<Vec<u8>, ()>)
    ensures
        r is Ok <==> response_encoding(KafkaResponse::ListOffsetsResponse(*message), version) is Some,
        r matches Ok(b) ==> response_encoding(KafkaResponse::ListOffsetsResponse(*message), version) == Some(b@),
{
    let mut out: Vec<u8> = Vec::new();
    match message.encode(&mut out, version) {
        Ok(()) => Ok(out),
        Err(_) => Err(()),
    }
}

/// `MetadataResponse::decode` of `kafka-protocol` (`Decodable`), from the front of
/// `bytes` under the given API version: it succeeds exactly where
/// `response_decoding` has a result for API key 3, and then hands back that
/// message and the number of bytes after it; on failure, the text of the
/// decoder's error.
#[verifier::external_body]
fn decode_metadata_response(bytes: &[u8], version: i16) -> (r: Result<(MetadataResponse, usize), String>)
    ensures
        r is Ok <==> response_decoding(3, version, bytes@) is Some,
        r matches Ok((m, rest)) ==> rest <= bytes@.len() && response_decoding(3, version, bytes@) == Some(
            (KafkaResponse::MetadataResponse(m), (bytes@.len() - rest) as nat),
        ),
{
    let mut rest = bytes;
    match MetadataResponse::decode(&mut rest, version) {
        Ok(m) => Ok((m, rest.len())),
        Err(e) => Err(e.to_string()),
    }
}

/// `MetadataResponse::encode` of `kafka-protocol` (`Encodable`), under the given
/// API version into a fresh buffer: it succeeds exactly where
/// `response_encoding` has bytes for the message, and gives those bytes.
#[verifier::external_body]
fn encode_metadata_response(message: &MetadataResponse, version: i16) -> (r: Result<Vec<u8>, ()>)
    ensures
        r is Ok <==> response_encoding(KafkaResponse::MetadataResponse(*message), version) is Some,
        r matches Ok(b) ==> response_encoding(KafkaResponse::MetadataResponse(*message), version) == Some(b@),
{
    let mut out: Vec<u8> = Vec::new();
    match message.encode(&mut out, version) {
        Ok(()) => Ok(out),
        Err(_) => Err(()),
    }
}

/// `LeaderAndIsrResponse::decode` of `kafka-protocol` (`Decodable`), from the front of
/// `bytes` under the given API version: it succeeds exactly where
/// `response_decoding` has a result for API key 4, and then hands back that
/// message and the number of bytes after it; on failure, the text of the
/// decoder's error.
#[verifier::external_body]
fn decode_leader_and_isr_response(bytes: &[u8], version: i16) -> (r: Result<(LeaderAndIsrResponse, usize), String>)
    ensures
        r is Ok <==> response_decoding(4, version, bytes@) is Some,
        r matches Ok((m, rest)) ==> rest <= bytes@.len() && response_decoding(4, version, bytes@) == Some(
            (KafkaResponse::LeaderAndIsrResponse(m), (bytes@.len() - rest) as nat),
        ),
{
    let mut rest = bytes;
    match LeaderAndIsrResponse::decode(&mut rest, version) {
        Ok(m) => Ok((m, rest.len())),
        Err(e) => Err(e.to_string()),
    }
}

/// `LeaderAndIsrResponse::encode` of `kafka-protocol` (`Encodable`), under the given
/// API version into a fresh buffer: it succeeds exactly where
/// `response_encoding` has bytes for the message, and gives those bytes.
#[verifier::external_body]
fn encode_leader_and_isr_response(message: &LeaderAndIsrResponse, version: i16) -> (r: Result<Vec<u8>, ()>)
    ensures
        r is Ok <==> response_encoding(KafkaResponse::LeaderAndIsrResponse(*message), version) is Some,
        r matches Ok(b) ==> response_encoding(KafkaResponse::LeaderAndIsrResponse(*message), version) == Some(b@),
{
    let mut out: Vec<u8> = Vec::new();
    match message.encode(&mut out, version) {
        Ok(()) => Ok(out),
        Err(_) => Err(()),
    }
}

/// `StopReplicaResponse::decode` of `kafka-protocol` (`Decodable`), from the front of
/// `bytes` under the given API version: it succeeds exactly where
/// `response_decoding` has a result for API key 5, and then hands back that
/// message and the number of bytes after it; on failure, the text of the
/// decoder's error.
#[verifier::external_body]
fn decode_stop_replica_response(bytes: &[u8], version: i16) -> (r: Result<(StopReplicaResponse, usize), String>)
    ensures
        r is Ok <==> response_decoding(5, version, bytes@) is Some,
        r matches Ok((m, rest)) ==> rest <= bytes@.len() && response_decoding(5, version, bytes@) == Some(
            (KafkaResponse::StopReplicaResponse(m), (bytes@.len() - rest) as nat),
        ),
{
    let mut rest = bytes;
    match StopReplicaResponse::decode(&mut rest, version) {
        Ok(m) => Ok((m, rest.len())),
        Err(e) => Err(e.to_string()),
    }
}

/// `StopReplicaResponse::encode` of `kafka-protocol` (`Encodable`), under the given
/// API version into a fresh buffer: it succeeds exactly where
/// `response_encoding` has bytes for the message, and gives those bytes.
#[verifier::external_body]
fn encode_stop_replica_response(message: &StopReplicaResponse, version: i16) -> (r: Result<Vec<u8>, ()>)
    ensures
        r is Ok <==> response_encoding(KafkaResponse::StopReplicaResponse(*message), version) is Some,
        r matches Ok(b) ==> response_encoding(KafkaResponse::StopReplicaResponse(*message), version) == Some(b@),
{
    let mut out: Vec<u8> = Vec::new();
    match message.encode(&mut out, version) {
        Ok(()) => Ok(out),
        Err(_) => Err(()),
    }
}

/// `UpdateMetadataResponse::decode` of `kafka-protocol` (`Decodable`), from the front of
/// `bytes` under the given API version: it succeeds exactly where
/// `response_decoding` has a result for API key 6, and then hands back that
/// message and the number of bytes after it; on failure, the text of the
/// decoder's error.
#[verifier::external_body]
fn decode_update_metadata_response(bytes: &[u8], version: i16) -> (r: Result<(UpdateMetadataResponse, usize), String>)
    ensures
        r is Ok <==> response_decoding(6, version, bytes@) is Some,
        r matches Ok((m, rest)) ==> rest <= bytes@.len() && response_decoding(6, version, bytes@) == Some(
            (KafkaResponse::UpdateMetadataResponse(m), (bytes@.len() - rest) as nat),
        ),
{
    let mut rest = bytes;
    match UpdateMetadataResponse::decode(&mut rest, version) {
        Ok(m) => Ok((m, rest.len())),
        Err(e) => Err(e.to_string()),
    }
}

/// `UpdateMetadataResponse::encode` of `kafka-protocol` (`Encodable`), under the given
/// API version into a fresh buffer: it succeeds exactly where
/// `response_encoding` has bytes for the message, and gives those bytes.
#[verifier::external_body]
fn encode_update_metadata_response(message: &UpdateMetadataResponse, version: i16) -> (r: Result<Vec<u8>, ()>)
    ensures
        r is Ok <==> response_encoding(KafkaResponse::UpdateMetadataResponse(*message), version) is Some,
        r matches Ok(b) ==> response_encoding(KafkaResponse::UpdateMetadataResponse(*message), version) == Some(b@),
{
    let mut out: Vec<u8> = Vec::new();
    match message.encode(&mut out, version) {
        Ok(()) => Ok(out),
        Err(_) => Err(()),
    }
}

/// `ControlledShutdownResponse::decode` of `kafka-protocol` (`Decodable`), from the front of
/// `bytes` under the given API version: it succeeds exactly where
/// `response_decoding` has a result for API key 7, and then hands back that
/// message and the number of bytes after it; on failure, the text of the
/// decoder's error.
#[verifier::external_body]
fn decode_controlled_shutdown_response(bytes: &[u8], version: i16) -> (r: Result<(ControlledShutdownResponse, usize), String>)
    ensures
        r is Ok <==> response_decoding(7, version, bytes@) is Some,
        r matches Ok((m, rest)) ==> rest <= bytes@.len() && response_decoding(7, version, bytes@) == Some(
            (KafkaResponse::ControlledShutdownResponse(m), (bytes@.len() - rest) as nat),
        ),
{
    let mut rest = bytes;
    match ControlledShutdownResponse::decode(&mut rest, version) {
        Ok(m) => Ok((m, rest.len())),
        Err(e) => Err(e.to_string()),
    }
}

/// `ControlledShutdownResponse::encode` of `kafka-protocol` (`Encodable`), under the given
/// API version into a fresh buffer: it succeeds exactly where
/// `response_encoding` has bytes for the message, and gives those bytes.
#[verifier::external_body]
fn encode_controlled_shutdown_response(message: &ControlledShutdownResponse, version: i16) -> (r: Result<Vec<u8>, ()>)
    ensures
        r is Ok <==> response_encoding(KafkaResponse::ControlledShutdownResponse(*message), version) is Some,
        r matches Ok(b) ==> response_encoding(KafkaResponse::ControlledShutdownResponse(*message), version) == Some(b@),
{
    let mut out: Vec<u8> = Vec::new();
    match message.encode(&mut out, version) {
        Ok(()) => Ok(out),
        Err(_) => Err(()),
    }
}

/// `OffsetCommitResponse::decode` of `kafka-protocol` (`Decodable`), from the front of
/// `bytes` under the given API version: it succeeds exactly where
/// `response_decoding` has a result for API key 8, and then hands back that
/// message and the number of bytes after it; on failure, the text of the
/// decoder's error.
#[verifier::external_body]
fn decode_offset_commit_response(bytes: &[u8], version: i16) -> (r: Result<(OffsetCommitResponse, usize), String>)
    ensures
        r is Ok <==> response_decoding(8, version, bytes@) is Some,
        r matches Ok((m, rest)) ==> rest <= bytes@.len() && response_decoding(8, version, bytes@) == Some(
            (KafkaResponse::OffsetCommitResponse(m), (bytes@.len() - rest) as nat),
        ),
{
    let mut rest = bytes;
    match OffsetCommitResponse::decode(&mut rest, version) {
        Ok(m) => Ok((m, rest.len())),
        Err(e) => Err(e.to_string()),
    }
}

/// `OffsetCommitResponse::encode` of `kafka-protocol` (`Encodable`), under the given
/// API version into a fresh buffer: it succeeds exactly where
/// `response_encoding` has bytes for the message, and gives those bytes.
#[verifier::external_body]
fn encode_offset_commit_response(message: &OffsetCommitResponse, version: i16) -> (r: Result<Vec<u8>, ()>)
    ensures
        r is Ok <==> response_encoding(KafkaResponse::OffsetCommitResponse(*message), version) is Some,
        r matches Ok(b) ==> response_encoding(KafkaResponse::OffsetCommitResponse(*message), version) == Some(b@),
{
    let mut out: Vec<u8> = Vec::new();
    match message.encode(&mut out, version) {
        Ok(()) => Ok(out),
        Err(_) => Err(()),
    }
}

/// `OffsetFetchResponse::decode` of `kafka-protocol` (`Decodable`), from the front of
/// `bytes` under the given API version: it succeeds exactly where
/// `response_decoding` has a result for API key 9, and then hands back that
/// message and the number of bytes after it; on failure, the text of the
/// decoder's error.
#[verifier::external_body]
fn decode_offset_fetch_response(bytes: &[u8], version: i16) -> (r: Result<(OffsetFetchResponse, usize), String>)
    ensures
        r is Ok <==> response_decoding(9, version, bytes@) is Some,
        r matches Ok((m, rest)) ==> rest <= bytes@.len() && response_decoding(9, version, bytes@) == Some(
            (KafkaResponse::OffsetFetchResponse(m), (bytes@.len() - rest) as nat),
        ),
{
    let mut rest = bytes;
    match OffsetFetchResponse::decode(&mut rest, version) {
        Ok(m) => Ok((m, rest.len())),
        Err(e) => Err(e.to_string()),
    }
}

/// `OffsetFetchResponse::encode` of `kafka-protocol` (`Encodable`), under the given
/// API version into a fresh buffer: it succeeds exactly where
/// `response_encoding` has bytes for the message, and gives those bytes.
#[verifier::external_body]
fn encode_offset_fetch_response(message: &OffsetFetchResponse, version: i16) -> (r: Result<Vec<u8>, ()>)
    ensures
        r is Ok <==> response_encoding(KafkaResponse::OffsetFetchResponse(*message), version) is Some,
        r matches Ok(b) ==> response_encoding(KafkaResponse::OffsetFetchResponse(*message), version) == Some(b@),
{
    let mut out: Vec<u8> = Vec::new();
    match message.encode(&mut out, version) {
        Ok(()) => Ok(out),
        Err(_) => Err(()),
    }
}

/// `FindCoordinatorResponse::decode` of `kafka-protocol` (`Decodable`), from the front of
/// `bytes` under the given API version: it succeeds exactly where
/// `response_decoding` has a result for API key 10, and then hands back that
/// message and the number of bytes after it; on failure, the text of the
/// decoder's error.
#[verifier::external_body]
fn decode_find_coordinator_response(bytes: &[u8], version: i16) -> (r: Result<(FindCoordinatorResponse, usize), String>)
    ensures
        r is Ok <==> response_decoding(10, version, bytes@) is Some,
        r matches Ok((m, rest)) ==> rest <= bytes@.len() && response_decoding(10, version, bytes@) == Some(
            (KafkaResponse::FindCoordinatorResponse(m), (bytes@.len() - rest) as nat),
        ),
{
    let mut rest = bytes;
    match FindCoordinatorResponse::decode(&mut rest, version) {
        Ok(m) => Ok((m, rest.len())),
        Err(e) => Err(e.to_string()),
    }
}

/// `FindCoordinatorResponse::encode` of `kafka-protocol` (`Encodable`), under the given
/// API version into a fresh buffer: it succeeds exactly where
/// `response_encoding` has bytes for the message, and gives those bytes.
#[verifier::external_body]
fn encode_find_coordinator_response(message: &FindCoordinatorResponse, version: i16) -> (r: Result<Vec<u8>, ()>)
    ensures
        r is Ok <==> response_encoding(KafkaResponse::FindCoordinatorResponse(*message), version) is Some,
        r matches Ok(b) ==> response_encoding(KafkaResponse::FindCoordinatorResponse(*message), version) == Some(b@),
{
    let mut out: Vec<u8> = Vec::new();
    match message.encode(&mut out, version) {
        Ok(()) => Ok(out),
        Err(_) => Err(()),
    }
}

/// `JoinGroupResponse::decode` of `kafka-protocol` (`Decodable`), from the front of
/// `bytes` under the given API version: it succeeds exactly where
/// `response_decoding` has a result for API key 11, and then hands back that
/// message and the number of bytes after it; on failure, the text of the
/// decoder's error.
#[verifier::external_body]
fn decode_join_group_response(bytes: &[u8], version: i16) -> (r: Result<(JoinGroupResponse, usize), String>)
    ensures
        r is Ok <==> response_decoding(11, version, bytes@) is Some,
        r matches Ok((m, rest)) ==> rest <= bytes@.len() && response_decoding(11, version, bytes@) == Some(
            (KafkaResponse::JoinGroupResponse(m), (bytes@.len() - rest) as nat),
        ),
{
    let mut rest = bytes;
    match JoinGroupResponse::decode(&mut rest, version) {
        Ok(m) => Ok((m, rest.len())),
        Err(e) => Err(e.to_string()),
    }
}

/// `JoinGroupResponse::encode` of `kafka-protocol` (`Encodable`), under the given
/// API version into a fresh buffer: it succeeds exactly where
/// `response_encoding` has bytes for the message, and gives those bytes.
#[verifier::external_body]
fn encode_join_group_response(message: &JoinGroupResponse, version: i16) -> (r: Result<Vec<u8>, ()>)
    ensures
        r is Ok <==> response_encoding(KafkaResponse::JoinGroupResponse(*message), version) is Some,
        r matches Ok(b) ==> response_encoding(KafkaResponse::JoinGroupResponse(*message), version) == Some(b@),
{
    let mut out: Vec<u8> = Vec::new();
    match message.encode(&mut out, version) {
        Ok(()) => Ok(out),
        Err(_) => Err(()),
    }
}

/// `HeartbeatResponse::decode` of `kafka-protocol` (`Decodable`), from the front of
/// `bytes` under the given API version: it succeeds exactly where
/// `response_decoding` has a result for API key 12, and then hands back that
/// message and the number of bytes after it; on failure, the text of the
/// decoder's error.
#[verifier::external_body]
fn decode_heartbeat_response(bytes: &[u8], version: i16) -> (r: Result<(HeartbeatResponse, usize), String>)
    ensures
        r is Ok <==> response_decoding(12, version, bytes@) is Some,
        r matches Ok((m, rest)) ==> rest <= bytes@.len() && response_decoding(12, version, bytes@) == Some(
            (KafkaResponse::HeartbeatResponse(m), (bytes@.len() - rest) as nat),
        ),
{
    let mut rest = bytes;
    match HeartbeatResponse::decode(&mut rest, version) {
        Ok(m) => Ok((m, rest.len())),
        Err(e) => Err(e.to_string()),
    }
}

/// `HeartbeatResponse::encode` of `kafka-protocol` (`Encodable`), under the given
/// API version into a fresh buffer: it succeeds exactly where
/// `response_encoding` has bytes for the message, and gives those bytes.
#[verifier::external_body]
fn encode_heartbeat_response(message: &HeartbeatResponse, version: i16) -> (r: Result<Vec<u8>, ()>)
    ensures
        r is Ok <==> response_encoding(KafkaResponse::HeartbeatResponse(*message), version) is Some,
        r matches Ok(b) ==> response_encoding(KafkaResponse::HeartbeatResponse(*message), version) == Some(b@),
{
    let mut out: Vec<u8> = Vec::new();
    match message.encode(&mut out, version) {
        Ok(()) => Ok(out),
        Err(_) => Err(()),
    }
}

/// `LeaveGroupResponse::decode` of `kafka-protocol` (`Decodable`), from the front of
/// `bytes` under the given API version: it succeeds exactly where
/// `response_decoding` has a result for API key 13, and then hands back that
/// message and the number of bytes after it; on failure, the text of the
/// decoder's error.
#[verifier::external_body]
fn decode_leave_group_response(bytes: &[u8], version: i16) -> (r: Result<(LeaveGroupResponse, usize), String>)
    ensures
        r is Ok <==> response_decoding(13, version, bytes@) is Some,
        r matches Ok((m, rest)) ==> rest <= bytes@.len() && response_decoding(13, version, bytes@) == Some(
            (KafkaResponse::LeaveGroupResponse(m), (bytes@.len() - rest) as nat),
        ),
{
    let mut rest = bytes;
    match LeaveGroupResponse::decode(&mut rest, version) {
        Ok(m) => Ok((m, rest.len())),
        Err(e) => Err(e.to_string()),
    }
}

/// `LeaveGroupResponse::encode` of `kafka-protocol` (`Encodable`), under the given
/// API version into a fresh buffer: it succeeds exactly where
/// `response_encoding` has bytes for the message, and gives those bytes.
#[verifier::external_body]
fn encode_leave_group_response(message: &LeaveGroupResponse, version: i16) -> (r: Result<Vec<u8>, ()>)
    ensures
        r is Ok <==> response_encoding(KafkaResponse::LeaveGroupResponse(*message), version) is Some,
        r matches Ok(b) ==> response_encoding(KafkaResponse::LeaveGroupResponse(*message), version) == Some(b@),
{
    let mut out: Vec<u8> = Vec::new();
    match message.encode(&mut out, version) {
        Ok(()) => Ok(out),
        Err(_) => Err(()),
    }
}

/// `SyncGroupResponse::decode` of `kafka-protocol` (`Decodable`), from the front of
/// `bytes` under the given API version: it succeeds exactly where
/// `response_decoding` has a result for API key 14, and then hands back that
/// message and the number of bytes after it; on failure, the text of the
/// decoder's error.
#[verifier::external_body]
fn decode_sync_group_response(bytes: &[u8], version: i16) -> (r: Result<(SyncGroupResponse, usize), String>)
    ensures
        r is Ok <==> response_decoding(14, version, bytes@) is Some,
        r matches Ok((m, rest)) ==> rest <= bytes@.len() && response_decoding(14, version, bytes@) == Some(
            (KafkaResponse::SyncGroupResponse(m), (bytes@.len() - rest) as nat),
        ),
{
    let mut rest = bytes;
    match SyncGroupResponse::decode(&mut rest, version) {
        Ok(m) => Ok((m, rest.len())),
        Err(e) => Err(e.to_string()),
    }
}

/// `SyncGroupResponse::encode` of `kafka-protocol` (`Encodable`), under the given
/// API version into a fresh buffer: it succeeds exactly where
/// `response_encoding` has bytes for the message, and gives those bytes.
#[verifier::external_body]
fn encode_sync_group_response(message: &SyncGroupResponse, version: i16) -> (r: Result<Vec<u8>, ()>)
    ensures
        r is Ok <==> response_encoding(KafkaResponse::SyncGroupResponse(*message), version) is Some,
        r matches Ok(b) ==> response_encoding(KafkaResponse::SyncGroupResponse(*message), version) == Some(b@),
{
    let mut out: Vec<u8> = Vec::new();
    match message.encode(&mut out, version) {
        Ok(()) => Ok(out),
        Err(_) => Err(()),
    }
}

/// `DescribeGroupsResponse::decode` of `kafka-protocol` (`Decodable`), from the front of
/// `bytes` under the given API version: it succeeds exactly where
/// `response_decoding` has a result for API key 15, and then hands back that
/// message and the number of bytes after it; on failure, the text of the
/// decoder's error.
#[verifier::external_body]
fn decode_describe_groups_response(bytes: &[u8], version: i16) -> (r: Result<(DescribeGroupsResponse, usize), String>)
    ensures
        r is Ok <==> response_decoding(15, version, bytes@) is Some,
        r matches Ok((m, rest)) ==> rest <= bytes@.len() && response_decoding(15, version, bytes@) == Some(
            (KafkaResponse::DescribeGroupsResponse(m), (bytes@.len() - rest) as nat),
        ),
{
    let mut rest = bytes;
    match DescribeGroupsResponse::decode(&mut rest, version) {
        Ok(m) => Ok((m, rest.len())),
        Err(e) => Err(e.to_string()),
    }
}

/// `DescribeGroupsResponse::encode` of `kafka-protocol` (`Encodable`), under the given
/// API version into a fresh buffer: it succeeds exactly where
/// `response_encoding` has bytes for the message, and gives those bytes.
#[verifier::external_body]
fn encode_describe_groups_response(message: &DescribeGroupsResponse, version: i16) -> (r: Result<Vec<u8>, ()>)
    ensures
        r is Ok <==> response_encoding(KafkaResponse::DescribeGroupsResponse(*message), version) is Some,
        r matches Ok(b) ==> response_encoding(KafkaResponse::DescribeGroupsResponse(*message), version) == Some(b@),
{
    let mut out: Vec<u8> = Vec::new();
    match message.encode(&mut out, version) {
        Ok(()) => Ok(out),
        Err(_) => Err(()),
    }
}

/// `ListGroupsResponse::decode` of `kafka-protocol` (`Decodable`), from the front of
/// `bytes` under the given API version: it succeeds exactly where
/// `response_decoding` has a result for API key 16, and then hands back that
/// message and the number of bytes after it; on failure, the text of the
/// decoder's error.
#[verifier::external_body]
fn decode_list_groups_response(bytes: &[u8], version: i16) -> (r: Result<(ListGroupsResponse, usize), String>)
    ensures
        r is Ok <==> response_decoding(16, version, bytes@) is Some,
        r matches Ok((m, rest)) ==> rest <= bytes@.len() && response_decoding(16, version, bytes@) == Some(
            (KafkaResponse::ListGroupsResponse(m), (bytes@.len() - rest) as nat),
        ),
{
    let mut rest = bytes;
    match ListGroupsResponse::decode(&mut rest, version) {
        Ok(m) => Ok((m, rest.len())),
        Err(e) => Err(e.to_string()),
    }
}

/// `ListGroupsResponse::encode` of `kafka-protocol` (`Encodable`), under the given
/// API version into a fresh buffer: it succeeds exactly where
/// `response_encoding` has bytes for the message, and gives those bytes.
#[verifier::external_body]
fn encode_list_groups_response(message: &ListGroupsResponse, version: i16) -> (r: Result<Vec<u8>, ()>)
    ensures
        r is Ok <==> response_encoding(KafkaResponse::ListGroupsResponse(*message), version) is Some,
        r matches Ok(b) ==> response_encoding(KafkaResponse::ListGroupsResponse(*message), version) == Some(b@),
{
    let mut out: Vec<u8> = Vec::new();
    match message.encode(&mut out, version) {
        Ok(()) => Ok(out),
        Err(_) => Err(()),
    }
}

/// `SaslHandshakeResponse::decode` of `kafka-protocol` (`Decodable`), from the front of
/// `bytes` under the given API version: it succeeds exactly where
/// `response_decoding` has a result for API key 17, and then hands back that
/// message and the number of bytes after it; on failure, the text of the
/// decoder's error.
#[verifier::external_body]
fn decode_sasl_handshake_response(bytes: &[u8], version: i16) -> (r: Result<(SaslHandshakeResponse, usize), String>)
    ensures
        r is Ok <==> response_decoding(17, version, bytes@) is Some,
        r matches Ok((m, rest)) ==> rest <= bytes@.len() && response_decoding(17, version, bytes@) == Some(
            (KafkaResponse::SaslHandshakeResponse(m), (bytes@.len() - rest) as nat),
        ),
{
    let mut rest = bytes;
    match SaslHandshakeResponse::decode(&mut rest, version) {
        Ok(m) => Ok((m, rest.len())),
        Err(e) => Err(e.to_string()),
    }
}

/// `SaslHandshakeResponse::encode` of `kafka-protocol` (`Encodable`), under the given
/// API version into a fresh buffer: it succeeds exactly where
/// `response_encoding` has bytes for the message, and gives those bytes.
#[verifier::external_body]
fn encode_sasl_handshake_response(message: &SaslHandshakeResponse, version: i16) -> (r: Result<Vec<u8>, ()>)
    ensures
        r is Ok <==> response_encoding(KafkaResponse::SaslHandshakeResponse(*message), version) is Some,
        r matches Ok(b) ==> response_encoding(KafkaResponse::SaslHandshakeResponse(*message), version) == Some(b@),
{
    let mut out: Vec<u8> = Vec::new();
    match message.encode(&mut out, version) {
        Ok(()) => Ok(out),
        Err(_) => Err(()),
    }
}

/// `ApiVersionsResponse::decode` of `kafka-protocol` (`Decodable`), from the front of
/// `bytes` under the given API version: it succeeds exactly where
/// `response_decoding` has a result for API key 18, and then hands back that
/// message and the number of bytes after it; on failure, the text of the
/// decoder's error.
#[verifier::external_body]
fn decode_api_versions_response(bytes: &[u8], version: i16) -> (r: Result<(ApiVersionsResponse, usize), String>)
    ensures
        r is Ok <==> response_decoding(18, version, bytes@) is Some,
        r matches Ok((m, rest)) ==> rest <= bytes@.len() && response_decoding(18, version, bytes@) == Some(
            (KafkaResponse::ApiVersionsResponse(m), (bytes@.len() - rest) as nat),
        ),
{
    let mut rest = bytes;
    match ApiVersionsResponse::decode(&mut rest, version) {
        Ok(m) => Ok((m, rest.len())),
        Err(e) => Err(e.to_string()),
    }
}

/// `ApiVersionsResponse::encode` of `kafka-protocol` (`Encodable`), under the given
/// API version into a fresh buffer: it succeeds exactly where
/// `response_encoding` has bytes for the message, and gives those bytes.
#[verifier::external_body]
fn encode_api_versions_response(message: &ApiVersionsResponse, version: i16) -> (r: Result<Vec<u8>, ()>)
    ensures
        r is Ok <==> response_encoding(KafkaResponse::ApiVersionsResponse(*message), version) is Some,
        r matches Ok(b) ==> response_encoding(KafkaResponse::ApiVersionsResponse(*message), version) == Some(b@),
{
    let mut out: Vec<u8> = Vec::new();
    match message.encode(&mut out, version) {
        Ok(()) => Ok(out),
        Err(_) => Err(()),
    }
}

/// `CreateTopicsResponse::decode` of `kafka-protocol` (`Decodable`), from the front of
/// `bytes` under the given API version: it succeeds exactly where
/// `response_decoding` has a result for API key 19, and then hands back that
/// message and the number of bytes after it; on failure, the text of the
/// decoder's error.
#[verifier::external_body]
fn decode_create_topics_response(bytes: &[u8], version: i16) -> (r: Result<(CreateTopicsResponse, usize), String>)
    ensures
        r is Ok <==> response_decoding(19, version, bytes@) is Some,
        r matches Ok((m, rest)) ==> rest <= bytes@.len() && response_decoding(19, version, bytes@) == Some(
            (KafkaResponse::CreateTopicsResponse(m), (bytes@.len() - rest) as nat),
        ),
{
    let mut rest = bytes;
    match CreateTopicsResponse::decode(&mut rest, version) {
        Ok(m) => Ok((m, rest.len())),
        Err(e) => Err(e.to_string()),
    }
}

/// `CreateTopicsResponse::encode` of `kafka-protocol` (`Encodable`), under the given
/// API version into a fresh buffer: it succeeds exactly where
/// `response_encoding` has bytes for the message, and gives those bytes.
#[verifier::external_body]
fn encode_create_topics_response(message: &CreateTopicsResponse, version: i16) -> (r: Result<Vec<u8>, ()>)
    ensures
        r is Ok <==> response_encoding(KafkaResponse::CreateTopicsResponse(*message), version) is Some,
        r matches Ok(b) ==> response_encoding(KafkaResponse::CreateTopicsResponse(*message), version) == Some(b@),
{
    let mut out: Vec<u8> = Vec::new();
    match message.encode(&mut out, version) {
        Ok(()) => Ok(out),
        Err(_) => Err(()),
    }
}

/// `DeleteTopicsResponse::decode` of `kafka-protocol` (`Decodable`), from the front of
/// `bytes` under the given API version: it succeeds exactly where
/// `response_decoding` has a result for API key 20, and then hands back that
/// message and the number of bytes after it; on failure, the text of the
/// decoder's error.
#[verifier::external_body]
fn decode_delete_topics_response(bytes: &[u8], version: i16) -> (r: Result<(DeleteTopicsResponse, usize), String>)
    ensures
        r is Ok <==> response_decoding(20, version, bytes@) is Some,
        r matches Ok((m, rest)) ==> rest <= bytes@.len() && response_decoding(20, version, bytes@) == Some(
            (KafkaResponse::DeleteTopicsResponse(m), (bytes@.len() - rest) as nat),
        ),
{
    let mut rest = bytes;
    match DeleteTopicsResponse::decode(&mut rest, version) {
        Ok(m) => Ok((m, rest.len())),
        Err(e) => Err(e.to_string()),
    }
}

/// `DeleteTopicsResponse::encode` of `kafka-protocol` (`Encodable`), under the given
/// API version into a fresh buffer: it succeeds exactly where
/// `response_encoding` has bytes for the message, and gives those bytes.
#[verifier::external_body]
fn encode_delete_topics_response(message: &DeleteTopicsResponse, version: i16) -> (r: Result<Vec<u8>, ()>)
    ensures
        r is Ok <==> response_encoding(KafkaResponse::DeleteTopicsResponse(*message), version) is Some,
        r matches Ok(b) ==> response_encoding(KafkaResponse::DeleteTopicsResponse(*message), version) == Some(b@),
{
    let mut out: Vec<u8> = Vec::new();
    match message.encode(&mut out, version) {
        Ok(()) => Ok(out),
        Err(_) => Err(()),
    }
}

/// `DeleteRecordsResponse::decode` of `kafka-protocol` (`Decodable`), from the front of
/// `bytes` under the given API version: it succeeds exactly where
/// `response_decoding` has a result for API key 21, and then hands back that
/// message and the number of bytes after it; on failure, the text of the
/// decoder's error.
#[verifier::external_body]
fn decode_delete_records_response(bytes: &[u8], version: i16) -> (r: Result<(DeleteRecordsResponse, usize), String>)
    ensures
        r is Ok <==> response_decoding(21, version, bytes@) is Some,
        r matches Ok((m, rest)) ==> rest <= bytes@.len() && response_decoding(21, version, bytes@) == Some(
            (KafkaResponse::DeleteRecordsResponse(m), (bytes@.len() - rest) as nat),
        ),
{
    let mut rest = bytes;
    match DeleteRecordsResponse::decode(&mut rest, version) {
        Ok(m) => Ok((m, rest.len())),
        Err(e) => Err(e.to_string()),
    }
}

/// `DeleteRecordsResponse::encode` of `kafka-protocol` (`Encodable`), under the given
/// API version into a fresh buffer: it succeeds exactly where
/// `response_encoding` has bytes for the message, and gives those bytes.
#[verifier::external_body]
fn encode_delete_records_response(message: &DeleteRecordsResponse, version: i16) -> (r: Result<Vec<u8>, ()>)
    ensures
        r is Ok <==> response_encoding(KafkaResponse::DeleteRecordsResponse(*message), version) is Some,
        r matches Ok(b) ==> response_encoding(KafkaResponse::DeleteRecordsResponse(*message), version) == Some(b@),
{
    let mut out: Vec<u8> = Vec::new();
    match message.encode(&mut out, version) {
        Ok(()) => Ok(out),
        Err(_) => Err(()),
    }
}

/// `InitProducerIdResponse::decode` of `kafka-protocol` (`Decodable`), from the front of
/// `bytes` under the given API version: it succeeds exactly where
/// `response_decoding` has a result for API key 22, and then hands back that
/// message and the number of bytes after it; on failure, the text of the
/// decoder's error.
#[verifier::external_body]
fn decode_init_producer_id_response(bytes: &[u8], version: i16) -> (r: Result<(InitProducerIdResponse, usize), String>)
    ensures
        r is Ok <==> response_decoding(22, version, bytes@) is Some,
        r matches Ok((m, rest)) ==> rest <= bytes@.len() && response_decoding(22, version, bytes@) == Some(
            (KafkaResponse::InitProducerIdResponse(m), (bytes@.len() - rest) as nat),
        ),
{
    let mut rest = bytes;
    match InitProducerIdResponse::decode(&mut rest, version) {
        Ok(m) => Ok((m, rest.len())),
        Err(e) => Err(e.to_string()),
    }
}

/// `InitProducerIdResponse::encode` of `kafka-protocol` (`Encodable`), under the given
/// API version into a fresh buffer: it succeeds exactly where
/// `response_encoding` has bytes for the message, and gives those bytes.
#[verifier::external_body]
fn encode_init_producer_id_response(message: &InitProducerIdResponse, version: i16) -> (r: Result<Vec<u8>, ()>)
    ensures
        r is Ok <==> response_encoding(KafkaResponse::InitProducerIdResponse(*message), version) is Some,
        r matches Ok(b) ==> response_encoding(KafkaResponse::InitProducerIdResponse(*message), version) == Some(b@),
{
    let mut out: Vec<u8> = Vec::new();
    match message.encode(&mut out, version) {
        Ok(()) => Ok(out),
        Err(_) => Err(()),
    }
}

/// `OffsetForLeaderEpochResponse::decode` of `kafka-protocol` (`Decodable`), from the front of
/// `bytes` under the given API version: it succeeds exactly where
/// `response_decoding` has a result for API key 23, and then hands back that
/// message and the number of bytes after it; on failure, the text of the
/// decoder's error.
#[verifier::external_body]
fn decode_offset_for_leader_epoch_response(bytes: &[u8], version: i16) -> (r: Result<(OffsetForLeaderEpochResponse, usize), String>)
    ensures
        r is Ok <==> response_decoding(23, version, bytes@) is Some,
        r matches Ok((m, rest)) ==> rest <= bytes@.len() && response_decoding(23, version, bytes@) == Some(
            (KafkaResponse::OffsetForLeaderEpochResponse(m), (bytes@.len() - rest) as nat),
        ),
{
    let mut rest = bytes;
    match OffsetForLeaderEpochResponse::decode(&mut rest, version) {
        Ok(m) => Ok((m, rest.len())),
        Err(e) => Err(e.to_string()),
    }
}

/// `OffsetForLeaderEpochResponse::encode` of `kafka-protocol` (`Encodable`), under the given
/// API version into a fresh buffer: it succeeds exactly where
/// `response_encoding` has bytes for the message, and gives those bytes.
#[verifier::external_body]
fn encode_offset_for_leader_epoch_response(message: &OffsetForLeaderEpochResponse, version: i16) -> (r: Result<Vec<u8>, ()>)
    ensures
        r is Ok <==> response_encoding(KafkaResponse::OffsetForLeaderEpochResponse(*message), version) is Some,
        r matches Ok(b) ==> response_encoding(KafkaResponse::OffsetForLeaderEpochResponse(*message), version) == Some(b@),
{
    let mut out: Vec<u8> = Vec::new();
    match message.encode(&mut out, version) {
        Ok(()) => Ok(out),
        Err(_) => Err(()),
    }
}

/// `AddPartitionsToTxnResponse::decode` of `kafka-protocol` (`Decodable`), from the front of
/// `bytes` under the given API version: it succeeds exactly where
/// `response_decoding` has a result for API key 24, and then hands back that
/// message and the number of bytes after it; on failure, the text of the
/// decoder's error.
#[verifier::external_body]
fn decode_add_partitions_to_txn_response(bytes: &[u8], version: i16) -> (r: Result<(AddPartitionsToTxnResponse, usize), String>)
    ensures
        r is Ok <==> response_decoding(24, version, bytes@) is Some,
        r matches Ok((m, rest)) ==> rest <= bytes@.len() && response_decoding(24, version, bytes@) == Some(
            (KafkaResponse::AddPartitionsToTxnResponse(m), (bytes@.len() - rest) as nat),
        ),
{
    let mut rest = bytes;
    match AddPartitionsToTxnResponse::decode(&mut rest, version) {
        Ok(m) => Ok((m, rest.len())),
        Err(e) => Err(e.to_string()),
    }
}

/// `AddPartitionsToTxnResponse::encode` of `kafka-protocol` (`Encodable`), under the given
/// API version into a fresh buffer: it succeeds exactly where
/// `response_encoding` has bytes for the message, and gives those bytes.
#[verifier::external_body]
fn encode_add_partitions_to_txn_response(message: &AddPartitionsToTxnResponse, version: i16) -> (r: Result<Vec<u8>, ()>)
    ensures
        r is Ok <==> response_encoding(KafkaResponse::AddPartitionsToTxnResponse(*message), version) is Some,
        r matches Ok(b) ==> response_encoding(KafkaResponse::AddPartitionsToTxnResponse(*message), version) == Some(b@),
{
    let mut out: Vec<u8> = Vec::new();
    match message.encode(&mut out, version) {
        Ok(()) => Ok(out),
        Err(_) => Err(()),
    }
}

/// `AddOffsetsToTxnResponse::decode` of `kafka-protocol` (`Decodable`), from the front of
/// `bytes` under the given API version: it succeeds exactly where
/// `response_decoding` has a result for API key 25, and then hands back that
/// message and the number of bytes after it; on failure, the text of the
/// decoder's error.
#[verifier::external_body]
fn decode_add_offsets_to_txn_response(bytes: &[u8], version: i16) -> (r: Result<(AddOffsetsToTxnResponse, usize), String>)
    ensures
        r is Ok <==> response_decoding(25, version, bytes@) is Some,
        r matches Ok((m, rest)) ==> rest <= bytes@.len() && response_decoding(25, version, bytes@) == Some(
            (KafkaResponse::AddOffsetsToTxnResponse(m), (bytes@.len() - rest) as nat),
        ),
{
    let mut rest = bytes;
    match AddOffsetsToTxnResponse::decode(&mut rest, version) {
        Ok(m) => Ok((m, rest.len())),
        Err(e) => Err(e.to_string()),
    }
}

/// `AddOffsetsToTxnResponse::encode` of `kafka-protocol` (`Encodable`), under the given
/// API version into a fresh buffer: it succeeds exactly where
/// `response_encoding` has bytes for the message, and gives those bytes.
#[verifier::external_body]
fn encode_add_offsets_to_txn_response(message: &AddOffsetsToTxnResponse, version: i16) -> (r: Result<Vec<u8>, ()>)
    ensures
        r is Ok <==> response_encoding(KafkaResponse::AddOffsetsToTxnResponse(*message), version) is Some,
        r matches Ok(b) ==> response_encoding(KafkaResponse::AddOffsetsToTxnResponse(*message), version) == Some(b@),
{
    let mut out: Vec<u8> = Vec::new();
    match message.encode(&mut out, version) {
        Ok(()) => Ok(out),
        Err(_) => Err(()),
    }
}

/// `EndTxnResponse::decode` of `kafka-protocol` (`Decodable`), from the front of
/// `bytes` under the given API version: it succeeds exactly where
/// `response_decoding` has a result for API key 26, and then hands back that
/// message and the number of bytes after it; on failure, the text of the
/// decoder's error.
#[verifier::external_body]
fn decode_end_txn_response(bytes: &[u8], version: i16) -> (r: Result<(EndTxnResponse, usize), String>)
    ensures
        r is Ok <==> response_decoding(26, version, bytes@) is Some,
        r matches Ok((m, rest)) ==> rest <= bytes@.len() && response_decoding(26, version, bytes@) == Some(
            (KafkaResponse::EndTxnResponse(m), (bytes@.len() - rest) as nat),
        ),
{
    let mut rest = bytes;
    match EndTxnResponse::decode(&mut rest, version) {
        Ok(m) => Ok((m, rest.len())),
        Err(e) => Err(e.to_string()),
    }
}

/// `EndTxnResponse::encode` of `kafka-protocol` (`Encodable`), under the given
/// API version into a fresh buffer: it succeeds exactly where
/// `response_encoding` has bytes for the message, and gives those bytes.
#[verifier::external_body]
fn encode_end_txn_response(message: &EndTxnResponse, version: i16) -> (r: Result<Vec<u8>, ()>)
    ensures
        r is Ok <==> response_encoding(KafkaResponse::EndTxnResponse(*message), version) is Some,
        r matches Ok(b) ==> response_encoding(KafkaResponse::EndTxnResponse(*message), version) == Some(b@),
{
    let mut out: Vec<u8> = Vec::new();
    match message.encode(&mut out, version) {
        Ok(()) => Ok(out),
        Err(_) => Err(()),
    }
}

/// `WriteTxnMarkersResponse::decode` of `kafka-protocol` (`Decodable`), from the front of
/// `bytes` under the given API version: it succeeds exactly where
/// `response_decoding` has a result for API key 27, and then hands back that
/// message and the number of bytes after it; on failure, the text of the
/// decoder's error.
#[verifier::external_body]
fn decode_write_txn_markers_response(bytes: &[u8], version: i16) -> (r: Result<(WriteTxnMarkersResponse, usize), String>)
    ensures
        r is Ok <==> response_decoding(27, version, bytes@) is Some,
        r matches Ok((m, rest)) ==> rest <= bytes@.len() && response_decoding(27, version, bytes@) == Some(
            (KafkaResponse::WriteTxnMarkersResponse(m), (bytes@.len() - rest) as nat),
        ),
{
    let mut rest = bytes;
    match WriteTxnMarkersResponse::decode(&mut rest, version) {
        Ok(m) => Ok((m, rest.len())),
        Err(e) => Err(e.to_string()),
    }
}

/// `WriteTxnMarkersResponse::encode` of `kafka-protocol` (`Encodable`), under the given
/// API version into a fresh buffer: it succeeds exactly where
/// `response_encoding` has bytes for the message, and gives those bytes.
#[verifier::external_body]
fn encode_write_txn_markers_response(message: &WriteTxnMarkersResponse, version: i16) -> (r: Result<Vec<u8>, ()>)
    ensures
        r is Ok <==> response_encoding(KafkaResponse::WriteTxnMarkersResponse(*message), version) is Some,
        r matches Ok(b) ==> response_encoding(KafkaResponse::WriteTxnMarkersResponse(*message), version) == Some(b@),
{
    let mut out: Vec<u8> = Vec::new();
    match message.encode(&mut out, version) {
        Ok(()) => Ok(out),
        Err(_) => Err(()),
    }
}

/// `TxnOffsetCommitResponse::decode` of `kafka-protocol` (`Decodable`), from the front of
/// `bytes` under the given API version: it succeeds exactly where
/// `response_decoding` has a result for API key 28, and then hands back that
/// message and the number of bytes after it; on failure, the text of the
/// decoder's error.
#[verifier::external_body]
fn decode_txn_offset_commit_response(bytes: &[u8], version: i16) -> (r: Result<(TxnOffsetCommitResponse, usize), String>)
    ensures
        r is Ok <==> response_decoding(28, version, bytes@) is Some,
        r matches Ok((m, rest)) ==> rest <= bytes@.len() && response_decoding(28, version, bytes@) == Some(
            (KafkaResponse::TxnOffsetCommitResponse(m), (bytes@.len() - rest) as nat),
        ),
{
    let mut rest = bytes;
    match TxnOffsetCommitResponse::decode(&mut rest, version) {
        Ok(m) => Ok((m, rest.len())),
        Err(e) => Err(e.to_string()),
    }
}

/// `TxnOffsetCommitResponse::encode` of `kafka-protocol` (`Encodable`), under the given
/// API version into a fresh buffer: it succeeds exactly where
/// `response_encoding` has bytes for the message, and gives those bytes.
#[verifier::external_body]
fn encode_txn_offset_commit_response(message: &TxnOffsetCommitResponse, version: i16) -> (r: Result<Vec<u8>, ()>)
    ensures
        r is Ok <==> response_encoding(KafkaResponse::TxnOffsetCommitResponse(*message), version) is Some,
        r matches Ok(b) ==> response_encoding(KafkaResponse::TxnOffsetCommitResponse(*message), version) == Some(b@),
{
    let mut out: Vec<u8> = Vec::new();
    match message.encode(&mut out, version) {
        Ok(()) => Ok(out),
        Err(_) => Err(()),
    }
}

/// `DescribeAclsResponse::decode` of `kafka-protocol` (`Decodable`), from the front of
/// `bytes` under the given API version: it succeeds exactly where
/// `response_decoding` has a result for API key 29, and then hands back that
/// message and the number of bytes after it; on failure, the text of the
/// decoder's error.
#[verifier::external_body]
fn decode_describe_acls_response(bytes: &[u8], version: i16) -> (r: Result<(DescribeAclsResponse, usize), String>)
    ensures
        r is Ok <==> response_decoding(29, version, bytes@) is Some,
        r matches Ok((m, rest)) ==> rest <= bytes@.len() && response_decoding(29, version, bytes@) == Some(
            (KafkaResponse::DescribeAclsResponse(m), (bytes@.len() - rest) as nat),
        ),
{
    let mut rest = bytes;
    match DescribeAclsResponse::decode(&mut rest, version) {
        Ok(m) => Ok((m, rest.len())),
        Err(e) => Err(e.to_string()),
    }
}

/// `DescribeAclsResponse::encode` of `kafka-protocol` (`Encodable`), under the given
/// API version into a fresh buffer: it succeeds exactly where
/// `response_encoding` has bytes for the message, and gives those bytes.
#[verifier::external_body]
fn encode_describe_acls_response(message: &DescribeAclsResponse, version: i16) -> (r: Result<Vec<u8>, ()>)
    ensures
        r is Ok <==> response_encoding(KafkaResponse::DescribeAclsResponse(*message), version) is Some,
        r matches Ok(b) ==> response_encoding(KafkaResponse::DescribeAclsResponse(*message), version) == Some(b@),
{
    let mut out: Vec<u8> = Vec::new();
    match message.encode(&mut out, version) {
        Ok(()) => Ok(out),
        Err(_) => Err(()),
    }
}

/// `CreateAclsResponse::decode` of `kafka-protocol` (`Decodable`), from the front of
/// `bytes` under the given API version: it succeeds exactly where
/// `response_decoding` has a result for API key 30, and then hands back that
/// message and the number of bytes after it; on failure, the text of the
/// decoder's error.
#[verifier::external_body]
fn decode_create_acls_response(bytes: &[u8], version: i16) -> (r: Result<(CreateAclsResponse, usize), String>)
    ensures
        r is Ok <==> response_decoding(30, version, bytes@) is Some,
        r matches Ok((m, rest)) ==> rest <= bytes@.len() && response_decoding(30, version, bytes@) == Some(
            (KafkaResponse::CreateAclsResponse(m), (bytes@.len() - rest) as nat),
        ),
{
    let mut rest = bytes;
    match CreateAclsResponse::decode(&mut rest, version) {
        Ok(m) => Ok((m, rest.len())),
        Err(e) => Err(e.to_string()),
    }
}

/// `CreateAclsResponse::encode` of `kafka-protocol` (`Encodable`), under the given
/// API version into a fresh buffer: it succeeds exactly where
/// `response_encoding` has bytes for the message, and gives those bytes.
#[verifier::external_body]
fn encode_create_acls_response(message: &CreateAclsResponse, version: i16) -> (r: Result<Vec<u8>, ()>)
    ensures
        r is Ok <==> response_encoding(KafkaResponse::CreateAclsResponse(*message), version) is Some,
        r matches Ok(b) ==> response_encoding(KafkaResponse::CreateAclsResponse(*message), version) == Some(b@),
{
    let mut out: Vec<u8> = Vec::new();
    match message.encode(&mut out, version) {
        Ok(()) => Ok(out),
        Err(_) => Err(()),
    }
}

/// `DeleteAclsResponse::decode` of `kafka-protocol` (`Decodable`), from the front of
/// `bytes` under the given API version: it succeeds exactly where
/// `response_decoding` has a result for API key 31, and then hands back that
/// message and the number of bytes after it; on failure, the text of the
/// decoder's error.
#[verifier::external_body]
fn decode_delete_acls_response(bytes: &[u8], version: i16) -> (r: Result<(DeleteAclsResponse, usize), String>)
    ensures
        r is Ok <==> response_decoding(31, version, bytes@) is Some,
        r matches Ok((m, rest)) ==> rest <= bytes@.len() && response_decoding(31, version, bytes@) == Some(
            (KafkaResponse::DeleteAclsResponse(m), (bytes@.len() - rest) as nat),
        ),
{
    let mut rest = bytes;
    match DeleteAclsResponse::decode(&mut rest, version) {
        Ok(m) => Ok((m, rest.len())),
        Err(e) => Err(e.to_string()),
    }
}

/// `DeleteAclsResponse::encode` of `kafka-protocol` (`Encodable`), under the given
/// API version into a fresh buffer: it succeeds exactly where
/// `response_encoding` has bytes for the message, and gives those bytes.
#[verifier::external_body]
fn encode_delete_acls_response(message: &DeleteAclsResponse, version: i16) -> (r: Result<Vec<u8>, ()>)
    ensures
        r is Ok <==> response_encoding(KafkaResponse::DeleteAclsResponse(*message), version) is Some,
        r matches Ok(b) ==> response_encoding(KafkaResponse::DeleteAclsResponse(*message), version) == Some(b@),
{
    let mut out: Vec<u8> = Vec::new();
    match message.encode(&mut out, version) {
        Ok(()) => Ok(out),
        Err(_) => Err(()),
    }
}

/// `DescribeConfigsResponse::decode` of `kafka-protocol` (`Decodable`), from the front of
/// `bytes` under the given API version: it succeeds exactly where
/// `response_decoding` has a result for API key 32, and then hands back that
/// message and the number of bytes after it; on failure, the text of the
/// decoder's error.
#[verifier::external_body]
fn decode_describe_configs_response(bytes: &[u8], version: i16) -> (r: Result<(DescribeConfigsResponse, usize), String>)
    ensures
        r is Ok <==> response_decoding(32, version, bytes@) is Some,
        r matches Ok((m, rest)) ==> rest <= bytes@.len() && response_decoding(32, version, bytes@) == Some(
            (KafkaResponse::DescribeConfigsResponse(m), (bytes@.len() - rest) as nat),
        ),
{
    let mut rest = bytes;
    match DescribeConfigsResponse::decode(&mut rest, version) {
        Ok(m) => Ok((m, rest.len())),
        Err(e) => Err(e.to_string()),
    }
}

/// `DescribeConfigsResponse::encode` of `kafka-protocol` (`Encodable`), under the given
/// API version into a fresh buffer: it succeeds exactly where
/// `response_encoding` has bytes for the message, and gives those bytes.
#[verifier::external_body]
fn encode_describe_configs_response(message: &DescribeConfigsResponse, version: i16) -> (r: Result<Vec<u8>, ()>)
    ensures
        r is Ok <==> response_encoding(KafkaResponse::DescribeConfigsResponse(*message), version) is Some,
        r matches Ok(b) ==> response_encoding(KafkaResponse::DescribeConfigsResponse(*message), version) == Some(b@),
{
    let mut out: Vec<u8> = Vec::new();
    match message.encode(&mut out, version) {
        Ok(()) => Ok(out),
        Err(_) => Err(()),
    }
}

/// `AlterConfigsResponse::decode` of `kafka-protocol` (`Decodable`), from the front of
/// `bytes` under the given API version: it succeeds exactly where
/// `response_decoding` has a result for API key 33, and then hands back that
/// message and the number of bytes after it; on failure, the text of the
/// decoder's error.
#[verifier::external_body]
fn decode_alter_configs_response(bytes: &[u8], version: i16) -> (r: Result<(AlterConfigsResponse, usize), String>)
    ensures
        r is Ok <==> response_decoding(33, version, bytes@) is Some,
        r matches Ok((m, rest)) ==> rest <= bytes@.len() && response_decoding(33, version, bytes@) == Some(
            (KafkaResponse::AlterConfigsResponse(m), (bytes@.len() - rest) as nat),
        ),
{
    let mut rest = bytes;
    match AlterConfigsResponse::decode(&mut rest, version) {
        Ok(m) => Ok((m, rest.len())),
        Err(e) => Err(e.to_string()),
    }
}

/// `AlterConfigsResponse::encode` of `kafka-protocol` (`Encodable`), under the given
/// API version into a fresh buffer: it succeeds exactly where
/// `response_encoding` has bytes for the message, and gives those bytes.
#[verifier::external_body]
fn encode_alter_configs_response(message: &AlterConfigsResponse, version: i16) -> (r: Result<Vec<u8>, ()>)
    ensures
        r is Ok <==> response_encoding(KafkaResponse::AlterConfigsResponse(*message), version) is Some,
        r matches Ok(b) ==> response_encoding(KafkaResponse::AlterConfigsResponse(*message), version) == Some(b@),
{
    let mut out: Vec<u8> = Vec::new();
    match message.encode(&mut out, version) {
        Ok(()) => Ok(out),
        Err(_) => Err(()),
    }
}

/// `AlterReplicaLogDirsResponse::decode` of `kafka-protocol` (`Decodable`), from the front of
/// `bytes` under the given API version: it succeeds exactly where
/// `response_decoding` has a result for API key 34, and then hands back that
/// message and the number of bytes after it; on failure, the text of the
/// decoder's error.
#[verifier::external_body]
fn decode_alter_replica_log_dirs_response(bytes: &[u8], version: i16) -> (r: Result<(AlterReplicaLogDirsResponse, usize), String>)
    ensures
        r is Ok <==> response_decoding(34, version, bytes@) is Some,
        r matches Ok((m, rest)) ==> rest <= bytes@.len() && response_decoding(34, version, bytes@) == Some(
            (KafkaResponse::AlterReplicaLogDirsResponse(m), (bytes@.len() - rest) as nat),
        ),
{
    let mut rest = bytes;
    match AlterReplicaLogDirsResponse::decode(&mut rest, version) {
        Ok(m) => Ok((m, rest.len())),
        Err(e) => Err(e.to_string()),
    }
}

/// `AlterReplicaLogDirsResponse::encode` of `kafka-protocol` (`Encodable`), under the given
/// API version into a fresh buffer: it succeeds exactly where
/// `response_encoding` has bytes for the message, and gives those bytes.
#[verifier::external_body]
fn encode_alter_replica_log_dirs_response(message: &AlterReplicaLogDirsResponse, version: i16) -> (r: Result<Vec<u8>, ()>)
    ensures
        r is Ok <==> response_encoding(KafkaResponse::AlterReplicaLogDirsResponse(*message), version) is Some,
        r matches Ok(b) ==> response_encoding(KafkaResponse::AlterReplicaLogDirsResponse(*message), version) == Some(b@),
{
    let mut out: Vec<u8> = Vec::new();
    match message.encode(&mut out, version) {
        Ok(()) => Ok(out),
        Err(_) => Err(()),
    }
}

/// `DescribeLogDirsResponse::decode` of `kafka-protocol` (`Decodable`), from the front of
/// `bytes` under the given API version: it succeeds exactly where
/// `response_decoding` has a result for API key 35, and then hands back that
/// message and the number of bytes after it; on failure, the text of the
/// decoder's error.
#[verifier::external_body]
fn decode_describe_log_dirs_response(bytes: &[u8], version: i16) -> (r: Result<(DescribeLogDirsResponse, usize), String>)
    ensures
        r is Ok <==> response_decoding(35, version, bytes@) is Some,
        r matches Ok((m, rest)) ==> rest <= bytes@.len() && response_decoding(35, version, bytes@) == Some(
            (KafkaResponse::DescribeLogDirsResponse(m), (bytes@.len() - rest) as nat),
        ),
{
    let mut rest = bytes;
    match DescribeLogDirsResponse::decode(&mut rest, version) {
        Ok(m) => Ok((m, rest.len())),
        Err(e) => Err(e.to_string()),
    }
}

/// `DescribeLogDirsResponse::encode` of `kafka-protocol` (`Encodable`), under the given
/// API version into a fresh buffer: it succeeds exactly where
/// `response_encoding` has bytes for the message, and gives those bytes.
#[verifier::external_body]
fn encode_describe_log_dirs_response(message: &DescribeLogDirsResponse, version: i16) -> (r: Result<Vec<u8>, ()>)
    ensures
        r is Ok <==> response_encoding(KafkaResponse::DescribeLogDirsResponse(*message), version) is Some,
        r matches Ok(b) ==> response_encoding(KafkaResponse::DescribeLogDirsResponse(*message), version) == Some(b@),
{
    let mut out: Vec<u8> = Vec::new();
    match message.encode(&mut out, version) {
        Ok(()) => Ok(out),
        Err(_) => Err(()),
    }
}

/// `SaslAuthenticateResponse::decode` of `kafka-protocol` (`Decodable`), from the front of
/// `bytes` under the given API version: it succeeds exactly where
/// `response_decoding` has a result for API key 36, and then hands back that
/// message and the number of bytes after it; on failure, the text of the
/// decoder's error.
#[verifier::external_body]
fn decode_sasl_authenticate_response(bytes: &[u8], version: i16) -> (r: Result<(SaslAuthenticateResponse, usize), String>)
    ensures
        r is Ok <==> response_decoding(36, version, bytes@) is Some,
        r matches Ok((m, rest)) ==> rest <= bytes@.len() && response_decoding(36, version, bytes@) == Some(
            (KafkaResponse::SaslAuthenticateResponse(m), (bytes@.len() - rest) as nat),
        ),
{
    let mut rest = bytes;
    match SaslAuthenticateResponse::decode(&mut rest, version) {
        Ok(m) => Ok((m, rest.len())),
        Err(e) => Err(e.to_string()),
    }
}

/// `SaslAuthenticateResponse::encode` of `kafka-protocol` (`Encodable`), under the given
/// API version into a fresh buffer: it succeeds exactly where
/// `response_encoding` has bytes for the message, and gives those bytes.
#[verifier::external_body]
fn encode_sasl_authenticate_response(message: &SaslAuthenticateResponse, version: i16) -> (r: Result<Vec<u8>, ()>)
    ensures
        r is Ok <==> response_encoding(KafkaResponse::SaslAuthenticateResponse(*message), version) is Some,
        r matches Ok(b) ==> response_encoding(KafkaResponse::SaslAuthenticateResponse(*message), version) == Some(b@),
{
    let mut out: Vec<u8> = Vec::new();
    match message.encode(&mut out, version) {
        Ok(()) => Ok(out),
        Err(_) => Err(()),
    }
}

/// `CreatePartitionsResponse::decode` of `kafka-protocol` (`Decodable`), from the front of
/// `bytes` under the given API version: it succeeds exactly where
/// `response_decoding` has a result for API key 37, and then hands back that
/// message and the number of bytes after it; on failure, the text of the
/// decoder's error.
#[verifier::external_body]
fn decode_create_partitions_response(bytes: &[u8], version: i16) -> (r: Result<(CreatePartitionsResponse, usize), String>)
    ensures
        r is Ok <==> response_decoding(37, version, bytes@) is Some,
        r matches Ok((m, rest)) ==> rest <= bytes@.len() && response_decoding(37, version, bytes@) == Some(
            (KafkaResponse::CreatePartitionsResponse(m), (bytes@.len() - rest) as nat),
        ),
{
    let mut rest = bytes;
    match CreatePartitionsResponse::decode(&mut rest, version) {
        Ok(m) => Ok((m, rest.len())),
        Err(e) => Err(e.to_string()),
    }
}

/// `CreatePartitionsResponse::encode` of `kafka-protocol` (`Encodable`), under the given
/// API version into a fresh buffer: it succeeds exactly where
/// `response_encoding` has bytes for the message, and gives those bytes.
#[verifier::external_body]
fn encode_create_partitions_response(message: &CreatePartitionsResponse, version: i16) -> (r: Result<Vec<u8>, ()>)
    ensures
        r is Ok <==> response_encoding(KafkaResponse::CreatePartitionsResponse(*message), version) is Some,
        r matches Ok(b) ==> response_encoding(KafkaResponse::CreatePartitionsResponse(*message), version) == Some(b@),
{
    let mut out: Vec<u8> = Vec::new();
    match message.encode(&mut out, version) {
        Ok(()) => Ok(out),
        Err(_) => Err(()),
    }
}

/// `CreateDelegationTokenResponse::decode` of `kafka-protocol` (`Decodable`), from the front of
/// `bytes` under the given API version: it succeeds exactly where
/// `response_decoding` has a result for API key 38, and then hands back that
/// message and the number of bytes after it; on failure, the text of the
/// decoder's error.
#[verifier::external_body]
fn decode_create_delegation_token_response(bytes: &[u8], version: i16) -> (r: Result<(CreateDelegationTokenResponse, usize), String>)
    ensures
        r is Ok <==> response_decoding(38, version, bytes@) is Some,
        r matches Ok((m, rest)) ==> rest <= bytes@.len() && response_decoding(38, version, bytes@) == Some(
            (KafkaResponse::CreateDelegationTokenResponse(m), (bytes@.len() - rest) as nat),
        ),
{
    let mut rest = bytes;
    match CreateDelegationTokenResponse::decode(&mut rest, version) {
        Ok(m) => Ok((m, rest.len())),
        Err(e) => Err(e.to_string()),
    }
}

/// `CreateDelegationTokenResponse::encode` of `kafka-protocol` (`Encodable`), under the given
/// API version into a fresh buffer: it succeeds exactly where
/// `response_encoding` has bytes for the message, and gives those bytes.
#[verifier::external_body]
fn encode_create_delegation_token_response(message: &CreateDelegationTokenResponse, version: i16) -> (r: Result<Vec<u8>, ()>)
    ensures
        r is Ok <==> response_encoding(KafkaResponse::CreateDelegationTokenResponse(*message), version) is Some,
        r matches Ok(b) ==> response_encoding(KafkaResponse::CreateDelegationTokenResponse(*message), version) == Some(b@),
{
    let mut out: Vec<u8> = Vec::new();
    match message.encode(&mut out, version) {
        Ok(()) => Ok(out),
        Err(_) => Err(()),
    }
}

/// `RenewDelegationTokenResponse::decode` of `kafka-protocol` (`Decodable`), from the front of
/// `bytes` under the given API version: it succeeds exactly where
/// `response_decoding` has a result for API key 39, and then hands back that
/// message and the number of bytes after it; on failure, the text of the
/// decoder's error.
#[verifier::external_body]
fn decode_renew_delegation_token_response(bytes: &[u8], version: i16) -> (r: Result<(RenewDelegationTokenResponse, usize), String>)
    ensures
        r is Ok <==> response_decoding(39, version, bytes@) is Some,
        r matches Ok((m, rest)) ==> rest <= bytes@.len() && response_decoding(39, version, bytes@) == Some(
            (KafkaResponse::RenewDelegationTokenResponse(m), (bytes@.len() - rest) as nat),
        ),
{
    let mut rest = bytes;
    match RenewDelegationTokenResponse::decode(&mut rest, version) {
        Ok(m) => Ok((m, rest.len())),
        Err(e) => Err(e.to_string()),
    }
}

/// `RenewDelegationTokenResponse::encode` of `kafka-protocol` (`Encodable`), under the given
/// API version into a fresh buffer: it succeeds exactly where
/// `response_encoding` has bytes for the message, and gives those bytes.
#[verifier::external_body]
fn encode_renew_delegation_token_response(message: &RenewDelegationTokenResponse, version: i16) -> (r: Result<Vec<u8>, ()>)
    ensures
        r is Ok <==> response_encoding(KafkaResponse::RenewDelegationTokenResponse(*message), version) is Some,
        r matches Ok(b) ==> response_encoding(KafkaResponse::RenewDelegationTokenResponse(*message), version) == Some(b@),
{
    let mut out: Vec<u8> = Vec::new();
    match message.encode(&mut out, version) {
        Ok(()) => Ok(out),
        Err(_) => Err(()),
    }
}

/// `ExpireDelegationTokenResponse::decode` of `kafka-protocol` (`Decodable`), from the front of
/// `bytes` under the given API version: it succeeds exactly where
/// `response_decoding` has a result for API key 40, and then hands back that
/// message and the number of bytes after it; on failure, the text of the
/// decoder's error.
#[verifier::external_body]
fn decode_expire_delegation_token_response(bytes: &[u8], version: i16) -> (r: Result<(ExpireDelegationTokenResponse, usize), String>)
    ensures
        r is Ok <==> response_decoding(40, version, bytes@) is Some,
        r matches Ok((m, rest)) ==> rest <= bytes@.len() && response_decoding(40, version, bytes@) == Some(
            (KafkaResponse::ExpireDelegationTokenResponse(m), (bytes@.len() - rest) as nat),
        ),
{
    let mut rest = bytes;
    match ExpireDelegationTokenResponse::decode(&mut rest, version) {
        Ok(m) => Ok((m, rest.len())),
        Err(e) => Err(e.to_string()),
    }
}

/// `ExpireDelegationTokenResponse::encode` of `kafka-protocol` (`Encodable`), under the given
/// API version into a fresh buffer: it succeeds exactly where
/// `response_encoding` has bytes for the message, and gives those bytes.
#[verifier::external_body]
fn encode_expire_delegation_token_response(message: &ExpireDelegationTokenResponse, version: i16) -> (r: Result<Vec<u8>, ()>)
    ensures
        r is Ok <==> response_encoding(KafkaResponse::ExpireDelegationTokenResponse(*message), version) is Some,
        r matches Ok(b) ==> response_encoding(KafkaResponse::ExpireDelegationTokenResponse(*message), version) == Some(b@),
{
    let mut out: Vec<u8> = Vec::new();
    match message.encode(&mut out, version) {
        Ok(()) => Ok(out),
        Err(_) => Err(()),
    }
}

/// `DescribeDelegationTokenResponse::decode` of `kafka-protocol` (`Decodable`), from the front of
/// `bytes` under the given API version: it succeeds exactly where
/// `response_decoding` has a result for API key 41, and then hands back that
/// message and the number of bytes after it; on failure, the text of the
/// decoder's error.
#[verifier::external_body]
fn decode_describe_delegation_token_response(bytes: &[u8], version: i16) -> (r: Result<(DescribeDelegationTokenResponse, usize), String>)
    ensures
        r is Ok <==> response_decoding(41, version, bytes@) is Some,
        r matches Ok((m, rest)) ==> rest <= bytes@.len() && response_decoding(41, version, bytes@) == Some(
            (KafkaResponse::DescribeDelegationTokenResponse(m), (bytes@.len() - rest) as nat),
        ),
{
    let mut rest = bytes;
    match DescribeDelegationTokenResponse::decode(&mut rest, version) {
        Ok(m) => Ok((m, rest.len())),
        Err(e) => Err(e.to_string()),
    }
}

/// `DescribeDelegationTokenResponse::encode` of `kafka-protocol` (`Encodable`), under the given
/// API version into a fresh buffer: it succeeds exactly where
/// `response_encoding` has bytes for the message, and gives those bytes.
#[verifier::external_body]
fn encode_describe_delegation_token_response(message: &DescribeDelegationTokenResponse, version: i16) -> (r: Result<Vec<u8>, ()>)
    ensures
        r is Ok <==> response_encoding(KafkaResponse::DescribeDelegationTokenResponse(*message), version) is Some,
        r matches Ok(b) ==> response_encoding(KafkaResponse::DescribeDelegationTokenResponse(*message), version) == Some(b@),
{
    let mut out: Vec<u8> = Vec::new();
    match message.encode(&mut out, version) {
        Ok(()) => Ok(out),
        Err(_) => Err(()),
    }
}

/// `DeleteGroupsResponse::decode` of `kafka-protocol` (`Decodable`), from the front of
/// `bytes` under the given API version: it succeeds exactly where
/// `response_decoding` has a result for API key 42, and then hands back that
/// message and the number of bytes after it; on failure, the text of the
/// decoder's error.
#[verifier::external_body]
fn decode_delete_groups_response(bytes: &[u8], version: i16) -> (r: Result<(DeleteGroupsResponse, usize), String>)
    ensures
        r is Ok <==> response_decoding(42, version, bytes@) is Some,
        r matches Ok((m, rest)) ==> rest <= bytes@.len() && response_decoding(42, version, bytes@) == Some(
            (KafkaResponse::DeleteGroupsResponse(m), (bytes@.len() - rest) as nat),
        ),
{
    let mut rest = bytes;
    match DeleteGroupsResponse::decode(&mut rest, version) {
        Ok(m) => Ok((m, rest.len())),
        Err(e) => Err(e.to_string()),
    }
}

/// `DeleteGroupsResponse::encode` of `kafka-protocol` (`Encodable`), under the given
/// API version into a fresh buffer: it succeeds exactly where
/// `response_encoding` has bytes for the message, and gives those bytes.
#[verifier::external_body]
fn encode_delete_groups_response(message: &DeleteGroupsResponse, version: i16) -> (r: Result<Vec<u8>, ()>)
    ensures
        r is Ok <==> response_encoding(KafkaResponse::DeleteGroupsResponse(*message), version) is Some,
        r matches Ok(b) ==> response_encoding(KafkaResponse::DeleteGroupsResponse(*message), version) == Some(b@),
{
    let mut out: Vec<u8> = Vec::new();
    match message.encode(&mut out, version) {
        Ok(()) => Ok(out),
        Err(_) => Err(()),
    }
}

/// `ElectLeadersResponse::decode` of `kafka-protocol` (`Decodable`), from the front of
/// `bytes` under the given API version: it succeeds exactly where
/// `response_decoding` has a result for API key 43, and then hands back that
/// message and the number of bytes after it; on failure, the text of the
/// decoder's error.
#[verifier::external_body]
fn decode_elect_leaders_response(bytes: &[u8], version: i16) -> (r: Result<(ElectLeadersResponse, usize), String>)
    ensures
        r is Ok <==> response_decoding(43, version, bytes@) is Some,
        r matches Ok((m, rest)) ==> rest <= bytes@.len() && response_decoding(43, version, bytes@) == Some(
            (KafkaResponse::ElectLeadersResponse(m), (bytes@.len() - rest) as nat),
        ),
{
    let mut rest = bytes;
    match ElectLeadersResponse::decode(&mut rest, version) {
        Ok(m) => Ok((m, rest.len())),
        Err(e) => Err(e.to_string()),
    }
}

/// `ElectLeadersResponse::encode` of `kafka-protocol` (`Encodable`), under the given
/// API version into a fresh buffer: it succeeds exactly where
/// `response_encoding` has bytes for the message, and gives those bytes.
#[verifier::external_body]
fn encode_elect_leaders_response(message: &ElectLeadersResponse, version: i16) -> (r: Result<Vec<u8>, ()>)
    ensures
        r is Ok <==> response_encoding(KafkaResponse::ElectLeadersResponse(*message), version) is Some,
        r matches Ok(b) ==> response_encoding(KafkaResponse::ElectLeadersResponse(*message), version) == Some(b@),
{
    let mut out: Vec<u8> = Vec::new();
    match message.encode(&mut out, version) {
        Ok(()) => Ok(out),
        Err(_) => Err(()),
    }
}

/// `IncrementalAlterConfigsResponse::decode` of `kafka-protocol` (`Decodable`), from the front of
/// `bytes` under the given API version: it succeeds exactly where
/// `response_decoding` has a result for API key 44, and then hands back that
/// message and the number of bytes after it; on failure, the text of the
/// decoder's error.
#[verifier::external_body]
fn decode_incremental_alter_configs_response(bytes: &[u8], version: i16) -> (r: Result<(IncrementalAlterConfigsResponse, usize), String>)
    ensures
        r is Ok <==> response_decoding(44, version, bytes@) is Some,
        r matches Ok((m, rest)) ==> rest <= bytes@.len() && response_decoding(44, version, bytes@) == Some(
            (KafkaResponse::IncrementalAlterConfigsResponse(m), (bytes@.len() - rest) as nat),
        ),
{
    let mut rest = bytes;
    match IncrementalAlterConfigsResponse::decode(&mut rest, version) {
        Ok(m) => Ok((m, rest.len())),
        Err(e) => Err(e.to_string()),
    }
}

/// `IncrementalAlterConfigsResponse::encode` of `kafka-protocol` (`Encodable`), under the given
/// API version into a fresh buffer: it succeeds exactly where
/// `response_encoding` has bytes for the message, and gives those bytes.
#[verifier::external_body]
fn encode_incremental_alter_configs_response(message: &IncrementalAlterConfigsResponse, version: i16) -> (r: Result<Vec<u8>, ()>)
    ensures
        r is Ok <==> response_encoding(KafkaResponse::IncrementalAlterConfigsResponse(*message), version) is Some,
        r matches Ok(b) ==> response_encoding(KafkaResponse::IncrementalAlterConfigsResponse(*message), version) == Some(b@),
{
    let mut out: Vec<u8> = Vec::new();
    match message.encode(&mut out, version) {
        Ok(()) => Ok(out),
        Err(_) => Err(()),
    }
}

/// `AlterPartitionReassignmentsResponse::decode` of `kafka-protocol` (`Decodable`), from the front of
/// `bytes` under the given API version: it succeeds exactly where
/// `response_decoding` has a result for API key 45, and then hands back that
/// message and the number of bytes after it; on failure, the text of the
/// decoder's error.
#[verifier::external_body]
fn decode_alter_partition_reassignments_response(bytes: &[u8], version: i16) -> (r: Result<(AlterPartitionReassignmentsResponse, usize), String>)
    ensures
        r is Ok <==> response_decoding(45, version, bytes@) is Some,
        r matches Ok((m, rest)) ==> rest <= bytes@.len() && response_decoding(45, version, bytes@) == Some(
            (KafkaResponse::AlterPartitionReassignmentsResponse(m), (bytes@.len() - rest) as nat),
        ),
{
    let mut rest = bytes;
    match AlterPartitionReassignmentsResponse::decode(&mut rest, version) {
        Ok(m) => Ok((m, rest.len())),
        Err(e) => Err(e.to_string()),
    }
}

/// `AlterPartitionReassignmentsResponse::encode` of `kafka-protocol` (`Encodable`), under the given
/// API version into a fresh buffer: it succeeds exactly where
/// `response_encoding` has bytes for the message, and gives those bytes.
#[verifier::external_body]
fn encode_alter_partition_reassignments_response(message: &AlterPartitionReassignmentsResponse, version: i16) -> (r: Result<Vec<u8>, ()>)
    ensures
        r is Ok <==> response_encoding(KafkaResponse::AlterPartitionReassignmentsResponse(*message), version) is Some,
        r matches Ok(b) ==> response_encoding(KafkaResponse::AlterPartitionReassignmentsResponse(*message), version) == Some(b@),
{
    let mut out: Vec<u8> = Vec::new();
    match message.encode(&mut out, version) {
        Ok(()) => Ok(out),
        Err(_) => Err(()),
    }
}

/// `ListPartitionReassignmentsResponse::decode` of `kafka-protocol` (`Decodable`), from the front of
/// `bytes` under the given API version: it succeeds exactly where
/// `response_decoding` has a result for API key 46, and then hands back that
/// message and the number of bytes after it; on failure, the text of the
/// decoder's error.
#[verifier::external_body]
fn decode_list_partition_reassignments_response(bytes: &[u8], version: i16) -> (r: Result<(ListPartitionReassignmentsResponse, usize), String>)
    ensures
        r is Ok <==> response_decoding(46, version, bytes@) is Some,
        r matches Ok((m, rest)) ==> rest <= bytes@.len() && response_decoding(46, version, bytes@) == Some(
            (KafkaResponse::ListPartitionReassignmentsResponse(m), (bytes@.len() - rest) as nat),
        ),
{
    let mut rest = bytes;
    match ListPartitionReassignmentsResponse::decode(&mut rest, version) {
        Ok(m) => Ok((m, rest.len())),
        Err(e) => Err(e.to_string()),
    }
}

/// `ListPartitionReassignmentsResponse::encode` of `kafka-protocol` (`Encodable`), under the given
/// API version into a fresh buffer: it succeeds exactly where
/// `response_encoding` has bytes for the message, and gives those bytes.
#[verifier::external_body]
fn encode_list_partition_reassignments_response(message: &ListPartitionReassignmentsResponse, version: i16) -> (r: Result<Vec<u8>, ()>)
    ensures
        r is Ok <==> response_encoding(KafkaResponse::ListPartitionReassignmentsResponse(*message), version) is Some,
        r matches Ok(b) ==> response_encoding(KafkaResponse::ListPartitionReassignmentsResponse(*message), version) == Some(b@),
{
    let mut out: Vec<u8> = Vec::new();
    match message.encode(&mut out, version) {
        Ok(()) => Ok(out),
        Err(_) => Err(()),
    }
}

/// `OffsetDeleteResponse::decode` of `kafka-protocol` (`Decodable`), from the front of
/// `bytes` under the given API version: it succeeds exactly where
/// `response_decoding` has a result for API key 47, and then hands back that
/// message and the number of bytes after it; on failure, the text of the
/// decoder's error.
#[verifier::external_body]
fn decode_offset_delete_response(bytes: &[u8], version: i16) -> (r: Result<(OffsetDeleteResponse, usize), String>)
    ensures
        r is Ok <==> response_decoding(47, version, bytes@) is Some,
        r matches Ok((m, rest)) ==> rest <= bytes@.len() && response_decoding(47, version, bytes@) == Some(
            (KafkaResponse::OffsetDeleteResponse(m), (bytes@.len() - rest) as nat),
        ),
{
    let mut rest = bytes;
    match OffsetDeleteResponse::decode(&mut rest, version) {
        Ok(m) => Ok((m, rest.len())),
        Err(e) => Err(e.to_string()),
    }
}

/// `OffsetDeleteResponse::encode` of `kafka-protocol` (`Encodable`), under the given
/// API version into a fresh buffer: it succeeds exactly where
/// `response_encoding` has bytes for the message, and gives those bytes.
#[verifier::external_body]
fn encode_offset_delete_response(message: &OffsetDeleteResponse, version: i16) -> (r: Result<Vec<u8>, ()>)
    ensures
        r is Ok <==> response_encoding(KafkaResponse::OffsetDeleteResponse(*message), version) is Some,
        r matches Ok(b) ==> response_encoding(KafkaResponse::OffsetDeleteResponse(*message), version) == Some(b@),
{
    let mut out: Vec<u8> = Vec::new();
    match message.encode(&mut out, version) {
        Ok(()) => Ok(out),
        Err(_) => Err(()),
    }
}

/// `DescribeClientQuotasResponse::decode` of `kafka-protocol` (`Decodable`), from the front of
/// `bytes` under the given API version: it succeeds exactly where
/// `response_decoding` has a result for API key 48, and then hands back that
/// message and the number of bytes after it; on failure, the text of the
/// decoder's error.
#[verifier::external_body]
fn decode_describe_client_quotas_response(bytes: &[u8], version: i16) -> (r: Result<(DescribeClientQuotasResponse, usize), String>)
    ensures
        r is Ok <==> response_decoding(48, version, bytes@) is Some,
        r matches Ok((m, rest)) ==> rest <= bytes@.len() && response_decoding(48, version, bytes@) == Some(
            (KafkaResponse::DescribeClientQuotasResponse(m), (bytes@.len() - rest) as nat),
        ),
{
    let mut rest = bytes;
    match DescribeClientQuotasResponse::decode(&mut rest, version) {
        Ok(m) => Ok((m, rest.len())),
        Err(e) => Err(e.to_string()),
    }
}

/// `DescribeClientQuotasResponse::encode` of `kafka-protocol` (`Encodable`), under the given
/// API version into a fresh buffer: it succeeds exactly where
/// `response_encoding` has bytes for the message, and gives those bytes.
#[verifier::external_body]
fn encode_describe_client_quotas_response(message: &DescribeClientQuotasResponse, version: i16) -> (r: Result<Vec<u8>, ()>)
    ensures
        r is Ok <==> response_encoding(KafkaResponse::DescribeClientQuotasResponse(*message), version) is Some,
        r matches Ok(b) ==> response_encoding(KafkaResponse::DescribeClientQuotasResponse(*message), version) == Some(b@),
{
    let mut out: Vec<u8> = Vec::new();
    match message.encode(&mut out, version) {
        Ok(()) => Ok(out),
        Err(_) => Err(()),
    }
}

/// `AlterClientQuotasResponse::decode` of `kafka-protocol` (`Decodable`), from the front of
/// `bytes` under the given API version: it succeeds exactly where
/// `response_decoding` has a result for API key 49, and then hands back that
/// message and the number of bytes after it; on failure, the text of the
/// decoder's error.
#[verifier::external_body]
fn decode_alter_client_quotas_response(bytes: &[u8], version: i16) -> (r: Result<(AlterClientQuotasResponse, usize), String>)
    ensures
        r is Ok <==> response_decoding(49, version, bytes@) is Some,
        r matches Ok((m, rest)) ==> rest <= bytes@.len() && response_decoding(49, version, bytes@) == Some(
            (KafkaResponse::AlterClientQuotasResponse(m), (bytes@.len() - rest) as nat),
        ),
{
    let mut rest = bytes;
    match AlterClientQuotasResponse::decode(&mut rest, version) {
        Ok(m) => Ok((m, rest.len())),
        Err(e) => Err(e.to_string()),
    }
}

/// `AlterClientQuotasResponse::encode` of `kafka-protocol` (`Encodable`), under the given
/// API version into a fresh buffer: it succeeds exactly where
/// `response_encoding` has bytes for the message, and gives those bytes.
#[verifier::external_body]
fn encode_alter_client_quotas_response(message: &AlterClientQuotasResponse, version: i16) -> (r: Result<Vec<u8>, ()>)
    ensures
        r is Ok <==> response_encoding(KafkaResponse::AlterClientQuotasResponse(*message), version) is Some,
        r matches Ok(b) ==> response_encoding(KafkaResponse::AlterClientQuotasResponse(*message), version) == Some(b@),
{
    let mut out: Vec<u8> = Vec::new();
    match message.encode(&mut out, version) {
        Ok(()) => Ok(out),
        Err(_) => Err(()),
    }
}

/// `DescribeUserScramCredentialsResponse::decode` of `kafka-protocol` (`Decodable`), from the front of
/// `bytes` under the given API version: it succeeds exactly where
/// `response_decoding` has a result for API key 50, and then hands back that
/// message and the number of bytes after it; on failure, the text of the
/// decoder's error.
#[verifier::external_body]
fn decode_describe_user_scram_credentials_response(bytes: &[u8], version: i16) -> (r: Result<(DescribeUserScramCredentialsResponse, usize), String>)
    ensures
        r is Ok <==> response_decoding(50, version, bytes@) is Some,
        r matches Ok((m, rest)) ==> rest <= bytes@.len() && response_decoding(50, version, bytes@) == Some(
            (KafkaResponse::DescribeUserScramCredentialsResponse(m), (bytes@.len() - rest) as nat),
        ),
{
    let mut rest = bytes;
    match DescribeUserScramCredentialsResponse::decode(&mut rest, version) {
        Ok(m) => Ok((m, rest.len())),
        Err(e) => Err(e.to_string()),
    }
}

/// `DescribeUserScramCredentialsResponse::encode` of `kafka-protocol` (`Encodable`), under the given
/// API version into a fresh buffer: it succeeds exactly where
/// `response_encoding` has bytes for the message, and gives those bytes.
#[verifier::external_body]
fn encode_describe_user_scram_credentials_response(message: &DescribeUserScramCredentialsResponse, version: i16) -> (r: Result<Vec<u8>, ()>)
    ensures
        r is Ok <==> response_encoding(KafkaResponse::DescribeUserScramCredentialsResponse(*message), version) is Some,
        r matches Ok(b) ==> response_encoding(KafkaResponse::DescribeUserScramCredentialsResponse(*message), version) == Some(b@),
{
    let mut out: Vec<u8> = Vec::new();
    match message.encode(&mut out, version) {
        Ok(()) => Ok(out),
        Err(_) => Err(()),
    }
}

/// `AlterUserScramCredentialsResponse::decode` of `kafka-protocol` (`Decodable`), from the front of
/// `bytes` under the given API version: it succeeds exactly where
/// `response_decoding` has a result for API key 51, and then hands back that
/// message and the number of bytes after it; on failure, the text of the
/// decoder's error.
#[verifier::external_body]
fn decode_alter_user_scram_credentials_response(bytes: &[u8], version: i16) -> (r: Result<(AlterUserScramCredentialsResponse, usize), String>)
    ensures
        r is Ok <==> response_decoding(51, version, bytes@) is Some,
        r matches Ok((m, rest)) ==> rest <= bytes@.len() && response_decoding(51, version, bytes@) == Some(
            (KafkaResponse::AlterUserScramCredentialsResponse(m), (bytes@.len() - rest) as nat),
        ),
{
    let mut rest = bytes;
    match AlterUserScramCredentialsResponse::decode(&mut rest, version) {
        Ok(m) => Ok((m, rest.len())),
        Err(e) => Err(e.to_string()),
    }
}

/// `AlterUserScramCredentialsResponse::encode` of `kafka-protocol` (`Encodable`), under the given
/// API version into a fresh buffer: it succeeds exactly where
/// `response_encoding` has bytes for the message, and gives those bytes.
#[verifier::external_body]
fn encode_alter_user_scram_credentials_response(message: &AlterUserScramCredentialsResponse, version: i16) -> (r: Result<Vec<u8>, ()>)
    ensures
        r is Ok <==> response_encoding(KafkaResponse::AlterUserScramCredentialsResponse(*message), version) is Some,
        r matches Ok(b) ==> response_encoding(KafkaResponse::AlterUserScramCredentialsResponse(*message), version) == Some(b@),
{
    let mut out: Vec<u8> = Vec::new();
    match message.encode(&mut out, version) {
        Ok(()) => Ok(out),
        Err(_) => Err(()),
    }
}

/// `VoteResponse::decode` of `kafka-protocol` (`Decodable`), from the front of
/// `bytes` under the given API version: it succeeds exactly where
/// `response_decoding` has a result for API key 52, and then hands back that
/// message and the number of bytes after it; on failure, the text of the
/// decoder's error.
#[verifier::external_body]
fn decode_vote_response(bytes: &[u8], version: i16) -> (r: Result<(VoteResponse, usize), String>)
    ensures
        r is Ok <==> response_decoding(52, version, bytes@) is Some,
        r matches Ok((m, rest)) ==> rest <= bytes@.len() && response_decoding(52, version, bytes@) == Some(
            (KafkaResponse::VoteResponse(m), (bytes@.len() - rest) as nat),
        ),
{
    let mut rest = bytes;
    match VoteResponse::decode(&mut rest, version) {
        Ok(m) => Ok((m, rest.len())),
        Err(e) => Err(e.to_string()),
    }
}

/// `VoteResponse::encode` of `kafka-protocol` (`Encodable`), under the given
/// API version into a fresh buffer: it succeeds exactly where
/// `response_encoding` has bytes for the message, and gives those bytes.
#[verifier::external_body]
fn encode_vote_response(message: &VoteResponse, version: i16) -> (r: Result<Vec<u8>, ()>)
    ensures
        r is Ok <==> response_encoding(KafkaResponse::VoteResponse(*message), version) is Some,
        r matches Ok(b) ==> response_encoding(KafkaResponse::VoteResponse(*message), version) == Some(b@),
{
    let mut out: Vec<u8> = Vec::new();
    match message.encode(&mut out, version) {
        Ok(()) => Ok(out),
        Err(_) => Err(()),
    }
}

/// `BeginQuorumEpochResponse::decode` of `kafka-protocol` (`Decodable`), from the front of
/// `bytes` under the given API version: it succeeds exactly where
/// `response_decoding` has a result for API key 53, and then hands back that
/// message and the number of bytes after it; on failure, the text of the
/// decoder's error.
#[verifier::external_body]
fn decode_begin_quorum_epoch_response(bytes: &[u8], version: i16) -> (r: Result<(BeginQuorumEpochResponse, usize), String>)
    ensures
        r is Ok <==> response_decoding(53, version, bytes@) is Some,
        r matches Ok((m, rest)) ==> rest <= bytes@.len() && response_decoding(53, version, bytes@) == Some(
            (KafkaResponse::BeginQuorumEpochResponse(m), (bytes@.len() - rest) as nat),
        ),
{
    let mut rest = bytes;
    match BeginQuorumEpochResponse::decode(&mut rest, version) {
        Ok(m) => Ok((m, rest.len())),
        Err(e) => Err(e.to_string()),
    }
}

/// `BeginQuorumEpochResponse::encode` of `kafka-protocol` (`Encodable`), under the given
/// API version into a fresh buffer: it succeeds exactly where
/// `response_encoding` has bytes for the message, and gives those bytes.
#[verifier::external_body]
fn encode_begin_quorum_epoch_response(message: &BeginQuorumEpochResponse, version: i16) -> (r: Result<Vec<u8>, ()>)
    ensures
        r is Ok <==> response_encoding(KafkaResponse::BeginQuorumEpochResponse(*message), version) is Some,
        r matches Ok(b) ==> response_encoding(KafkaResponse::BeginQuorumEpochResponse(*message), version) == Some(b@),
{
    let mut out: Vec<u8> = Vec::new();
    match message.encode(&mut out, version) {
        Ok(()) => Ok(out),
        Err(_) => Err(()),
    }
}

/// `EndQuorumEpochResponse::decode` of `kafka-protocol` (`Decodable`), from the front of
/// `bytes` under the given API version: it succeeds exactly where
/// `response_decoding` has a result for API key 54, and then hands back that
/// message and the number of bytes after it; on failure, the text of the
/// decoder's error.
#[verifier::external_body]
fn decode_end_quorum_epoch_response(bytes: &[u8], version: i16) -> (r: Result<(EndQuorumEpochResponse, usize), String>)
    ensures
        r is Ok <==> response_decoding(54, version, bytes@) is Some,
        r matches Ok((m, rest)) ==> rest <= bytes@.len() && response_decoding(54, version, bytes@) == Some(
            (KafkaResponse::EndQuorumEpochResponse(m), (bytes@.len() - rest) as nat),
        ),
{
    let mut rest = bytes;
    match EndQuorumEpochResponse::decode(&mut rest, version) {
        Ok(m) => Ok((m, rest.len())),
        Err(e) => Err(e.to_string()),
    }
}

/// `EndQuorumEpochResponse::encode` of `kafka-protocol` (`Encodable`), under the given
/// API version into a fresh buffer: it succeeds exactly where
/// `response_encoding` has bytes for the message, and gives those bytes.
#[verifier::external_body]
fn encode_end_quorum_epoch_response(message: &EndQuorumEpochResponse, version: i16) -> (r: Result<Vec<u8>, ()>)
    ensures
        r is Ok <==> response_encoding(KafkaResponse::EndQuorumEpochResponse(*message), version) is Some,
        r matches Ok(b) ==> response_encoding(KafkaResponse::EndQuorumEpochResponse(*message), version) == Some(b@),
{
    let mut out: Vec<u8> = Vec::new();
    match message.encode(&mut out, version) {
        Ok(()) => Ok(out),
        Err(_) => Err(()),
    }
}

/// `DescribeQuorumResponse::decode` of `kafka-protocol` (`Decodable`), from the front of
/// `bytes` under the given API version: it succeeds exactly where
/// `response_decoding` has a result for API key 55, and then hands back that
/// message and the number of bytes after it; on failure, the text of the
/// decoder's error.
#[verifier::external_body]
fn decode_describe_quorum_response(bytes: &[u8], version: i16) -> (r: Result<(DescribeQuorumResponse, usize), String>)
    ensures
        r is Ok <==> response_decoding(55, version, bytes@) is Some,
        r matches Ok((m, rest)) ==> rest <= bytes@.len() && response_decoding(55, version, bytes@) == Some(
            (KafkaResponse::DescribeQuorumResponse(m), (bytes@.len() - rest) as nat),
        ),
{
    let mut rest = bytes;
    match DescribeQuorumResponse::decode(&mut rest, version) {
        Ok(m) => Ok((m, rest.len())),
        Err(e) => Err(e.to_string()),
    }
}

/// `DescribeQuorumResponse::encode` of `kafka-protocol` (`Encodable`), under the given
/// API version into a fresh buffer: it succeeds exactly where
/// `response_encoding` has bytes for the message, and gives those bytes.
#[verifier::external_body]
fn encode_describe_quorum_response(message: &DescribeQuorumResponse, version: i16) -> (r: Result<Vec<u8>, ()>)
    ensures
        r is Ok <==> response_encoding(KafkaResponse::DescribeQuorumResponse(*message), version) is Some,
        r matches Ok(b) ==> response_encoding(KafkaResponse::DescribeQuorumResponse(*message), version) == Some(b@),
{
    let mut out: Vec<u8> = Vec::new();
    match message.encode(&mut out, version) {
        Ok(()) => Ok(out),
        Err(_) => Err(()),
    }
}

/// `AlterPartitionResponse::decode` of `kafka-protocol` (`Decodable`), from the front of
/// `bytes` under the given API version: it succeeds exactly where
/// `response_decoding` has a result for API key 56, and then hands back that
/// message and the number of bytes after it; on failure, the text of the
/// decoder's error.
#[verifier::external_body]
fn decode_alter_partition_response(bytes: &[u8], version: i16) -> (r: Result<(AlterPartitionResponse, usize), String>)
    ensures
        r is Ok <==> response_decoding(56, version, bytes@) is Some,
        r matches Ok((m, rest)) ==> rest <= bytes@.len() && response_decoding(56, version, bytes@) == Some(
            (KafkaResponse::AlterPartitionResponse(m), (bytes@.len() - rest) as nat),
        ),
{
    let mut rest = bytes;
    match AlterPartitionResponse::decode(&mut rest, version) {
        Ok(m) => Ok((m, rest.len())),
        Err(e) => Err(e.to_string()),
    }
}

/// `AlterPartitionResponse::encode` of `kafka-protocol` (`Encodable`), under the given
/// API version into a fresh buffer: it succeeds exactly where
/// `response_encoding` has bytes for the message, and gives those bytes.
#[verifier::external_body]
fn encode_alter_partition_response(message: &AlterPartitionResponse, version: i16) -> (r: Result<Vec<u8>, ()>)
    ensures
        r is Ok <==> response_encoding(KafkaResponse::AlterPartitionResponse(*message), version) is Some,
        r matches Ok(b) ==> response_encoding(KafkaResponse::AlterPartitionResponse(*message), version) == Some(b@),
{
    let mut out: Vec<u8> = Vec::new();
    match message.encode(&mut out, version) {
        Ok(()) => Ok(out),
        Err(_) => Err(()),
    }
}

/// `UpdateFeaturesResponse::decode` of `kafka-protocol` (`Decodable`), from the front of
/// `bytes` under the given API version: it succeeds exactly where
/// `response_decoding` has a result for API key 57, and then hands back that
/// message and the number of bytes after it; on failure, the text of the
/// decoder's error.
#[verifier::external_body]
fn decode_update_features_response(bytes: &[u8], version: i16) -> (r: Result<(UpdateFeaturesResponse, usize), String>)
    ensures
        r is Ok <==> response_decoding(57, version, bytes@) is Some,
        r matches Ok((m, rest)) ==> rest <= bytes@.len() && response_decoding(57, version, bytes@) == Some(
            (KafkaResponse::UpdateFeaturesResponse(m), (bytes@.len() - rest) as nat),
        ),
{
    let mut rest = bytes;
    match UpdateFeaturesResponse::decode(&mut rest, version) {
        Ok(m) => Ok((m, rest.len())),
        Err(e) => Err(e.to_string()),
    }
}

/// `UpdateFeaturesResponse::encode` of `kafka-protocol` (`Encodable`), under the given
/// API version into a fresh buffer: it succeeds exactly where
/// `response_encoding` has bytes for the message, and gives those bytes.
#[verifier::external_body]
fn encode_update_features_response(message: &UpdateFeaturesResponse, version: i16) -> (r: Result<Vec<u8>, ()>)
    ensures
        r is Ok <==> response_encoding(KafkaResponse::UpdateFeaturesResponse(*message), version) is Some,
        r matches Ok(b) ==> response_encoding(KafkaResponse::UpdateFeaturesResponse(*message), version) == Some(b@),
{
    let mut out: Vec<u8> = Vec::new();
    match message.encode(&mut out, version) {
        Ok(()) => Ok(out),
        Err(_) => Err(()),
    }
}

/// `EnvelopeResponse::decode` of `kafka-protocol` (`Decodable`), from the front of
/// `bytes` under the given API version: it succeeds exactly where
/// `response_decoding` has a result for API key 58, and then hands back that
/// message and the number of bytes after it; on failure, the text of the
/// decoder's error.
#[verifier::external_body]
fn decode_envelope_response(bytes: &[u8], version: i16) -> (r: Result<(EnvelopeResponse, usize), String>)
    ensures
        r is Ok <==> response_decoding(58, version, bytes@) is Some,
        r matches Ok((m, rest)) ==> rest <= bytes@.len() && response_decoding(58, version, bytes@) == Some(
            (KafkaResponse::EnvelopeResponse(m), (bytes@.len() - rest) as nat),
        ),
{
    let mut rest = bytes;
    match EnvelopeResponse::decode(&mut rest, version) {
        Ok(m) => Ok((m, rest.len())),
        Err(e) => Err(e.to_string()),
    }
}

/// `EnvelopeResponse::encode` of `kafka-protocol` (`Encodable`), under the given
/// API version into a fresh buffer: it succeeds exactly where
/// `response_encoding` has bytes for the message, and gives those bytes.
#[verifier::external_body]
fn encode_envelope_response(message: &EnvelopeResponse, version: i16) -> (r: Result<Vec<u8>, ()>)
    ensures
        r is Ok <==> response_encoding(KafkaResponse::EnvelopeResponse(*message), version) is Some,
        r matches Ok(b) ==> response_encoding(KafkaResponse::EnvelopeResponse(*message), version) == Some(b@),
{
    let mut out: Vec<u8> = Vec::new();
    match message.encode(&mut out, version) {
        Ok(()) => Ok(out),
        Err(_) => Err(()),
    }
}

/// `FetchSnapshotResponse::decode` of `kafka-protocol` (`Decodable`), from the front of
/// `bytes` under the given API version: it succeeds exactly where
/// `response_decoding` has a result for API key 59, and then hands back that
/// message and the number of bytes after it; on failure, the text of the
/// decoder's error.
#[verifier::external_body]
fn decode_fetch_snapshot_response(bytes: &[u8], version: i16) -> (r: Result<(FetchSnapshotResponse, usize), String>)
    ensures
        r is Ok <==> response_decoding(59, version, bytes@) is Some,
        r matches Ok((m, rest)) ==> rest <= bytes@.len() && response_decoding(59, version, bytes@) == Some(
            (KafkaResponse::FetchSnapshotResponse(m), (bytes@.len() - rest) as nat),
        ),
{
    let mut rest = bytes;
    match FetchSnapshotResponse::decode(&mut rest, version) {
        Ok(m) => Ok((m, rest.len())),
        Err(e) => Err(e.to_string()),
    }
}

/// `FetchSnapshotResponse::encode` of `kafka-protocol` (`Encodable`), under the given
/// API version into a fresh buffer: it succeeds exactly where
/// `response_encoding` has bytes for the message, and gives those bytes.
#[verifier::external_body]
fn encode_fetch_snapshot_response(message: &FetchSnapshotResponse, version: i16) -> (r: Result<Vec<u8>, ()>)
    ensures
        r is Ok <==> response_encoding(KafkaResponse::FetchSnapshotResponse(*message), version) is Some,
        r matches Ok(b) ==> response_encoding(KafkaResponse::FetchSnapshotResponse(*message), version) == Some(b@),
{
    let mut out: Vec<u8> = Vec::new();
    match message.encode(&mut out, version) {
        Ok(()) => Ok(out),
        Err(_) => Err(()),
    }
}

/// `DescribeClusterResponse::decode` of `kafka-protocol` (`Decodable`), from the front of
/// `bytes` under the given API version: it succeeds exactly where
/// `response_decoding` has a result for API key 60, and then hands back that
/// message and the number of bytes after it; on failure, the text of the
/// decoder's error.
#[verifier::external_body]
fn decode_describe_cluster_response(bytes: &[u8], version: i16) -> (r: Result<(DescribeClusterResponse, usize), String>)
    ensures
        r is Ok <==> response_decoding(60, version, bytes@) is Some,
        r matches Ok((m, rest)) ==> rest <= bytes@.len() && response_decoding(60, version, bytes@) == Some(
            (KafkaResponse::DescribeClusterResponse(m), (bytes@.len() - rest) as nat),
        ),
{
    let mut rest = bytes;
    match DescribeClusterResponse::decode(&mut rest, version) {
        Ok(m) => Ok((m, rest.len())),
        Err(e) => Err(e.to_string()),
    }
}

/// `DescribeClusterResponse::encode` of `kafka-protocol` (`Encodable`), under the given
/// API version into a fresh buffer: it succeeds exactly where
/// `response_encoding` has bytes for the message, and gives those bytes.
#[verifier::external_body]
fn encode_describe_cluster_response(message: &DescribeClusterResponse, version: i16) -> (r: Result<Vec<u8>, ()>)
    ensures
        r is Ok <==> response_encoding(KafkaResponse::DescribeClusterResponse(*message), version) is Some,
        r matches Ok(b) ==> response_encoding(KafkaResponse::DescribeClusterResponse(*message), version) == Some(b@),
{
    let mut out: Vec<u8> = Vec::new();
    match message.encode(&mut out, version) {
        Ok(()) => Ok(out),
        Err(_) => Err(()),
    }
}

/// `DescribeProducersResponse::decode` of `kafka-protocol` (`Decodable`), from the front of
/// `bytes` under the given API version: it succeeds exactly where
/// `response_decoding` has a result for API key 61, and then hands back that
/// message and the number of bytes after it; on failure, the text of the
/// decoder's error.
#[verifier::external_body]
fn decode_describe_producers_response(bytes: &[u8], version: i16) -> (r: Result<(DescribeProducersResponse, usize), String>)
    ensures
        r is Ok <==> response_decoding(61, version, bytes@) is Some,
        r matches Ok((m, rest)) ==> rest <= bytes@.len() && response_decoding(61, version, bytes@) == Some(
            (KafkaResponse::DescribeProducersResponse(m), (bytes@.len() - rest) as nat),
        ),
{
    let mut rest = bytes;
    match DescribeProducersResponse::decode(&mut rest, version) {
        Ok(m) => Ok((m, rest.len())),
        Err(e) => Err(e.to_string()),
    }
}

/// `DescribeProducersResponse::encode` of `kafka-protocol` (`Encodable`), under the given
/// API version into a fresh buffer: it succeeds exactly where
/// `response_encoding` has bytes for the message, and gives those bytes.
#[verifier::external_body]
fn encode_describe_producers_response(message: &DescribeProducersResponse, version: i16) -> (r: Result<Vec<u8>, ()>)
    ensures
        r is Ok <==> response_encoding(KafkaResponse::DescribeProducersResponse(*message), version) is Some,
        r matches Ok(b) ==> response_encoding(KafkaResponse::DescribeProducersResponse(*message), version) == Some(b@),
{
    let mut out: Vec<u8> = Vec::new();
    match message.encode(&mut out, version) {
        Ok(()) => Ok(out),
        Err(_) => Err(()),
    }
}

/// `BrokerRegistrationResponse::decode` of `kafka-protocol` (`Decodable`), from the front of
/// `bytes` under the given API version: it succeeds exactly where
/// `response_decoding` has a result for API key 62, and then hands back that
/// message and the number of bytes after it; on failure, the text of the
/// decoder's error.
#[verifier::external_body]
fn decode_broker_registration_response(bytes: &[u8], version: i16) -> (r: Result<(BrokerRegistrationResponse, usize), String>)
    ensures
        r is Ok <==> response_decoding(62, version, bytes@) is Some,
        r matches Ok((m, rest)) ==> rest <= bytes@.len() && response_decoding(62, version, bytes@) == Some(
            (KafkaResponse::BrokerRegistrationResponse(m), (bytes@.len() - rest) as nat),
        ),
{
    let mut rest = bytes;
    match BrokerRegistrationResponse::decode(&mut rest, version) {
        Ok(m) => Ok((m, rest.len())),
        Err(e) => Err(e.to_string()),
    }
}

/// `BrokerRegistrationResponse::encode` of `kafka-protocol` (`Encodable`), under the given
/// API version into a fresh buffer: it succeeds exactly where
/// `response_encoding` has bytes for the message, and gives those bytes.
#[verifier::external_body]
fn encode_broker_registration_response(message: &BrokerRegistrationResponse, version: i16) -> (r: Result<Vec<u8>, ()>)
    ensures
        r is Ok <==> response_encoding(KafkaResponse::BrokerRegistrationResponse(*message), version) is Some,
        r matches Ok(b) ==> response_encoding(KafkaResponse::BrokerRegistrationResponse(*message), version) == Some(b@),
{
    let mut out: Vec<u8> = Vec::new();
    match message.encode(&mut out, version) {
        Ok(()) => Ok(out),
        Err(_) => Err(()),
    }
}

/// `BrokerHeartbeatResponse::decode` of `kafka-protocol` (`Decodable`), from the front of
/// `bytes` under the given API version: it succeeds exactly where
/// `response_decoding` has a result for API key 63, and then hands back that
/// message and the number of bytes after it; on failure, the text of the
/// decoder's error.
#[verifier::external_body]
fn decode_broker_heartbeat_response(bytes: &[u8], version: i16) -> (r: Result<(BrokerHeartbeatResponse, usize), String>)
    ensures
        r is Ok <==> response_decoding(63, version, bytes@) is Some,
        r matches Ok((m, rest)) ==> rest <= bytes@.len() && response_decoding(63, version, bytes@) == Some(
            (KafkaResponse::BrokerHeartbeatResponse(m), (bytes@.len() - rest) as nat),
        ),
{
    let mut rest = bytes;
    match BrokerHeartbeatResponse::decode(&mut rest, version) {
        Ok(m) => Ok((m, rest.len())),
        Err(e) => Err(e.to_string()),
    }
}

/// `BrokerHeartbeatResponse::encode` of `kafka-protocol` (`Encodable`), under the given
/// API version into a fresh buffer: it succeeds exactly where
/// `response_encoding` has bytes for the message, and gives those bytes.
#[verifier::external_body]
fn encode_broker_heartbeat_response(message: &BrokerHeartbeatResponse, version: i16) -> (r: Result<Vec<u8>, ()>)
    ensures
        r is Ok <==> response_encoding(KafkaResponse::BrokerHeartbeatResponse(*message), version) is Some,
        r matches Ok(b) ==> response_encoding(KafkaResponse::BrokerHeartbeatResponse(*message), version) == Some(b@),
{
    let mut out: Vec<u8> = Vec::new();
    match message.encode(&mut out, version) {
        Ok(()) => Ok(out),
        Err(_) => Err(()),
    }
}

/// `UnregisterBrokerResponse::decode` of `kafka-protocol` (`Decodable`), from the front of
/// `bytes` under the given API version: it succeeds exactly where
/// `response_decoding` has a result for API key 64, and then hands back that
/// message and the number of bytes after it; on failure, the text of the
/// decoder's error.
#[verifier::external_body]
fn decode_unregister_broker_response(bytes: &[u8], version: i16) -> (r: Result<(UnregisterBrokerResponse, usize), String>)
    ensures
        r is Ok <==> response_decoding(64, version, bytes@) is Some,
        r matches Ok((m, rest)) ==> rest <= bytes@.len() && response_decoding(64, version, bytes@) == Some(
            (KafkaResponse::UnregisterBrokerResponse(m), (bytes@.len() - rest) as nat),
        ),
{
    let mut rest = bytes;
    match UnregisterBrokerResponse::decode(&mut rest, version) {
        Ok(m) => Ok((m, rest.len())),
        Err(e) => Err(e.to_string()),
    }
}

/// `UnregisterBrokerResponse::encode` of `kafka-protocol` (`Encodable`), under the given
/// API version into a fresh buffer: it succeeds exactly where
/// `response_encoding` has bytes for the message, and gives those bytes.
#[verifier::external_body]
fn encode_unregister_broker_response(message: &UnregisterBrokerResponse, version: i16) -> (r: Result<Vec<u8>, ()>)
    ensures
        r is Ok <==> response_encoding(KafkaResponse::UnregisterBrokerResponse(*message), version) is Some,
        r matches Ok(b) ==> response_encoding(KafkaResponse::UnregisterBrokerResponse(*message), version) == Some(b@),
{
    let mut out: Vec<u8> = Vec::new();
    match message.encode(&mut out, version) {
        Ok(()) => Ok(out),
        Err(_) => Err(()),
    }
}

/// `DescribeTransactionsResponse::decode` of `kafka-protocol` (`Decodable`), from the front of
/// `bytes` under the given API version: it succeeds exactly where
/// `response_decoding` has a result for API key 65, and then hands back that
/// message and the number of bytes after it; on failure, the text of the
/// decoder's error.
#[verifier::external_body]
fn decode_describe_transactions_response(bytes: &[u8], version: i16) -> (r: Result<(DescribeTransactionsResponse, usize), String>)
    ensures
        r is Ok <==> response_decoding(65, version, bytes@) is Some,
        r matches Ok((m, rest)) ==> rest <= bytes@.len() && response_decoding(65, version, bytes@) == Some(
            (KafkaResponse::DescribeTransactionsResponse(m), (bytes@.len() - rest) as nat),
        ),
{
    let mut rest = bytes;
    match DescribeTransactionsResponse::decode(&mut rest, version) {
        Ok(m) => Ok((m, rest.len())),
        Err(e) => Err(e.to_string()),
    }
}

/// `DescribeTransactionsResponse::encode` of `kafka-protocol` (`Encodable`), under the given
/// API version into a fresh buffer: it succeeds exactly where
/// `response_encoding` has bytes for the message, and gives those bytes.
#[verifier::external_body]
fn encode_describe_transactions_response(message: &DescribeTransactionsResponse, version: i16) -> (r: Result<Vec<u8>, ()>)
    ensures
        r is Ok <==> response_encoding(KafkaResponse::DescribeTransactionsResponse(*message), version) is Some,
        r matches Ok(b) ==> response_encoding(KafkaResponse::DescribeTransactionsResponse(*message), version) == Some(b@),
{
    let mut out: Vec<u8> = Vec::new();
    match message.encode(&mut out, version) {
        Ok(()) => Ok(out),
        Err(_) => Err(()),
    }
}

/// `ListTransactionsResponse::decode` of `kafka-protocol` (`Decodable`), from the front of
/// `bytes` under the given API version: it succeeds exactly where
/// `response_decoding` has a result for API key 66, and then hands back that
/// message and the number of bytes after it; on failure, the text of the
/// decoder's error.
#[verifier::external_body]
fn decode_list_transactions_response(bytes: &[u8], version: i16) -> (r: Result<(ListTransactionsResponse, usize), String>)
    ensures
        r is Ok <==> response_decoding(66, version, bytes@) is Some,
        r matches Ok((m, rest)) ==> rest <= bytes@.len() && response_decoding(66, version, bytes@) == Some(
            (KafkaResponse::ListTransactionsResponse(m), (bytes@.len() - rest) as nat),
        ),
{
    let mut rest = bytes;
    match ListTransactionsResponse::decode(&mut rest, version) {
        Ok(m) => Ok((m, rest.len())),
        Err(e) => Err(e.to_string()),
    }
}

/// `ListTransactionsResponse::encode` of `kafka-protocol` (`Encodable`), under the given
/// API version into a fresh buffer: it succeeds exactly where
/// `response_encoding` has bytes for the message, and gives those bytes.
#[verifier::external_body]
fn encode_list_transactions_response(message: &ListTransactionsResponse, version: i16) -> (r: Result<Vec<u8>, ()>)
    ensures
        r is Ok <==> response_encoding(KafkaResponse::ListTransactionsResponse(*message), version) is Some,
        r matches Ok(b) ==> response_encoding(KafkaResponse::ListTransactionsResponse(*message), version) == Some(b@),
{
    let mut out: Vec<u8> = Vec::new();
    match message.encode(&mut out, version) {
        Ok(()) => Ok(out),
        Err(_) => Err(()),
    }
}

/// `AllocateProducerIdsResponse::decode` of `kafka-protocol` (`Decodable`), from the front of
/// `bytes` under the given API version: it succeeds exactly where
/// `response_decoding` has a result for API key 67, and then hands back that
/// message and the number of bytes after it; on failure, the text of the
/// decoder's error.
#[verifier::external_body]
fn decode_allocate_producer_ids_response(bytes: &[u8], version: i16) -> (r: Result<(AllocateProducerIdsResponse, usize), String>)
    ensures
        r is Ok <==> response_decoding(67, version, bytes@) is Some,
        r matches Ok((m, rest)) ==> rest <= bytes@.len() && response_decoding(67, version, bytes@) == Some(
            (KafkaResponse::AllocateProducerIdsResponse(m), (bytes@.len() - rest) as nat),
        ),
{
    let mut rest = bytes;
    match AllocateProducerIdsResponse::decode(&mut rest, version) {
        Ok(m) => Ok((m, rest.len())),
        Err(e) => Err(e.to_string()),
    }
}

/// `AllocateProducerIdsResponse::encode` of `kafka-protocol` (`Encodable`), under the given
/// API version into a fresh buffer: it succeeds exactly where
/// `response_encoding` has bytes for the message, and gives those bytes.
#[verifier::external_body]
fn encode_allocate_producer_ids_response(message: &AllocateProducerIdsResponse, version: i16) -> (r: Result<Vec<u8>, ()>)
    ensures
        r is Ok <==> response_encoding(KafkaResponse::AllocateProducerIdsResponse(*message), version) is Some,
        r matches Ok(b) ==> response_encoding(KafkaResponse::AllocateProducerIdsResponse(*message), version) == Some(b@),
{
    let mut out: Vec<u8> = Vec::new();
    match message.encode(&mut out, version) {
        Ok(()) => Ok(out),
        Err(_) => Err(()),
    }
}

/// `ConsumerGroupHeartbeatResponse::decode` of `kafka-protocol` (`Decodable`), from the front of
/// `bytes` under the given API version: it succeeds exactly where
/// `response_decoding` has a result for API key 68, and then hands back that
/// message and the number of bytes after it; on failure, the text of the
/// decoder's error.
#[verifier::external_body]
fn decode_consumer_group_heartbeat_response(bytes: &[u8], version: i16) -> (r: Result<(ConsumerGroupHeartbeatResponse, usize), String>)
    ensures
        r is Ok <==> response_decoding(68, version, bytes@) is Some,
        r matches Ok((m, rest)) ==> rest <= bytes@.len() && response_decoding(68, version, bytes@) == Some(
            (KafkaResponse::ConsumerGroupHeartbeatResponse(m), (bytes@.len() - rest) as nat),
        ),
{
    let mut rest = bytes;
    match ConsumerGroupHeartbeatResponse::decode(&mut rest, version) {
        Ok(m) => Ok((m, rest.len())),
        Err(e) => Err(e.to_string()),
    }
}

/// `ConsumerGroupHeartbeatResponse::encode` of `kafka-protocol` (`Encodable`), under the given
/// API version into a fresh buffer: it succeeds exactly where
/// `response_encoding` has bytes for the message, and gives those bytes.
#[verifier::external_body]
fn encode_consumer_group_heartbeat_response(message: &ConsumerGroupHeartbeatResponse, version: i16) -> (r: Result<Vec<u8>, ()>)
    ensures
        r is Ok <==> response_encoding(KafkaResponse::ConsumerGroupHeartbeatResponse(*message), version) is Some,
        r matches Ok(b) ==> response_encoding(KafkaResponse::ConsumerGroupHeartbeatResponse(*message), version) == Some(b@),
{
    let mut out: Vec<u8> = Vec::new();
    match message.encode(&mut out, version) {
        Ok(()) => Ok(out),
        Err(_) => Err(()),
    }
}

/// `ConsumerGroupDescribeResponse::decode` of `kafka-protocol` (`Decodable`), from the front of
/// `bytes` under the given API version: it succeeds exactly where
/// `response_decoding` has a result for API key 69, and then hands back that
/// message and the number of bytes after it; on failure, the text of the
/// decoder's error.
#[verifier::external_body]
fn decode_consumer_group_describe_response(bytes: &[u8], version: i16) -> (r: Result<(ConsumerGroupDescribeResponse, usize), String>)
    ensures
        r is Ok <==> response_decoding(69, version, bytes@) is Some,
        r matches Ok((m, rest)) ==> rest <= bytes@.len() && response_decoding(69, version, bytes@) == Some(
            (KafkaResponse::ConsumerGroupDescribeResponse(m), (bytes@.len() - rest) as nat),
        ),
{
    let mut rest = bytes;
    match ConsumerGroupDescribeResponse::decode(&mut rest, version) {
        Ok(m) => Ok((m, rest.len())),
        Err(e) => Err(e.to_string()),
    }
}

/// `ConsumerGroupDescribeResponse::encode` of `kafka-protocol` (`Encodable`), under the given
/// API version into a fresh buffer: it succeeds exactly where
/// `response_encoding` has bytes for the message, and gives those bytes.
#[verifier::external_body]
fn encode_consumer_group_describe_response(message: &ConsumerGroupDescribeResponse, version: i16) -> (r: Result<Vec<u8>, ()>)
    ensures
        r is Ok <==> response_encoding(KafkaResponse::ConsumerGroupDescribeResponse(*message), version) is Some,
        r matches Ok(b) ==> response_encoding(KafkaResponse::ConsumerGroupDescribeResponse(*message), version) == Some(b@),
{
    let mut out: Vec<u8> = Vec::new();
    match message.encode(&mut out, version) {
        Ok(()) => Ok(out),
        Err(_) => Err(()),
    }
}

/// `ControllerRegistrationResponse::decode` of `kafka-protocol` (`Decodable`), from the front of
/// `bytes` under the given API version: it succeeds exactly where
/// `response_decoding` has a result for API key 70, and then hands back that
/// message and the number of bytes after it; on failure, the text of the
/// decoder's error.
#[verifier::external_body]
fn decode_controller_registration_response(bytes: &[u8], version: i16) -> (r: Result<(ControllerRegistrationResponse, usize), String>)
    ensures
        r is Ok <==> response_decoding(70, version, bytes@) is Some,
        r matches Ok((m, rest)) ==> rest <= bytes@.len() && response_decoding(70, version, bytes@) == Some(
            (KafkaResponse::ControllerRegistrationResponse(m), (bytes@.len() - rest) as nat),
        ),
{
    let mut rest = bytes;
    match ControllerRegistrationResponse::decode(&mut rest, version) {
        Ok(m) => Ok((m, rest.len())),
        Err(e) => Err(e.to_string()),
    }
}

/// `ControllerRegistrationResponse::encode` of `kafka-protocol` (`Encodable`), under the given
/// API version into a fresh buffer: it succeeds exactly where
/// `response_encoding` has bytes for the message, and gives those bytes.
#[verifier::external_body]
fn encode_controller_registration_response(message: &ControllerRegistrationResponse, version: i16) -> (r: Result<Vec<u8>, ()>)
    ensures
        r is Ok <==> response_encoding(KafkaResponse::ControllerRegistrationResponse(*message), version) is Some,
        r matches Ok(b) ==> response_encoding(KafkaResponse::ControllerRegistrationResponse(*message), version) == Some(b@),
{
    let mut out: Vec<u8> = Vec::new();
    match message.encode(&mut out, version) {
        Ok(()) => Ok(out),
        Err(_) => Err(()),
    }
}

/// `GetTelemetrySubscriptionsResponse::decode` of `kafka-protocol` (`Decodable`), from the front of
/// `bytes` under the given API version: it succeeds exactly where
/// `response_decoding` has a result for API key 71, and then hands back that
/// message and the number of bytes after it; on failure, the text of the
/// decoder's error.
#[verifier::external_body]
fn decode_get_telemetry_subscriptions_response(bytes: &[u8], version: i16) -> (r: Result<(GetTelemetrySubscriptionsResponse, usize), String>)
    ensures
        r is Ok <==> response_decoding(71, version, bytes@) is Some,
        r matches Ok((m, rest)) ==> rest <= bytes@.len() && response_decoding(71, version, bytes@) == Some(
            (KafkaResponse::GetTelemetrySubscriptionsResponse(m), (bytes@.len() - rest) as nat),
        ),
{
    let mut rest = bytes;
    match GetTelemetrySubscriptionsResponse::decode(&mut rest, version) {
        Ok(m) => Ok((m, rest.len())),
        Err(e) => Err(e.to_string()),
    }
}

/// `GetTelemetrySubscriptionsResponse::encode` of `kafka-protocol` (`Encodable`), under the given
/// API version into a fresh buffer: it succeeds exactly where
/// `response_encoding` has bytes for the message, and gives those bytes.
#[verifier::external_body]
fn encode_get_telemetry_subscriptions_response(message: &GetTelemetrySubscriptionsResponse, version: i16) -> (r: Result<Vec<u8>, ()>)
    ensures
        r is Ok <==> response_encoding(KafkaResponse::GetTelemetrySubscriptionsResponse(*message), version) is Some,
        r matches Ok(b) ==> response_encoding(KafkaResponse::GetTelemetrySubscriptionsResponse(*message), version) == Some(b@),
{
    let mut out: Vec<u8> = Vec::new();
    match message.encode(&mut out, version) {
        Ok(()) => Ok(out),
        Err(_) => Err(()),
    }
}

/// `PushTelemetryResponse::decode` of `kafka-protocol` (`Decodable`), from the front of
/// `bytes` under the given API version: it succeeds exactly where
/// `response_decoding` has a result for API key 72, and then hands back that
/// message and the number of bytes after it; on failure, the text of the
/// decoder's error.
#[verifier::external_body]
fn decode_push_telemetry_response(bytes: &[u8], version: i16) -> (r: Result<(PushTelemetryResponse, usize), String>)
    ensures
        r is Ok <==> response_decoding(72, version, bytes@) is Some,
        r matches Ok((m, rest)) ==> rest <= bytes@.len() && response_decoding(72, version, bytes@) == Some(
            (KafkaResponse::PushTelemetryResponse(m), (bytes@.len() - rest) as nat),
        ),
{
    let mut rest = bytes;
    match PushTelemetryResponse::decode(&mut rest, version) {
        Ok(m) => Ok((m, rest.len())),
        Err(e) => Err(e.to_string()),
    }
}

/// `PushTelemetryResponse::encode` of `kafka-protocol` (`Encodable`), under the given
/// API version into a fresh buffer: it succeeds exactly where
/// `response_encoding` has bytes for the message, and gives those bytes.
#[verifier::external_body]
fn encode_push_telemetry_response(message: &PushTelemetryResponse, version: i16) -> (r: Result<Vec<u8>, ()>)
    ensures
        r is Ok <==> response_encoding(KafkaResponse::PushTelemetryResponse(*message), version) is Some,
        r matches Ok(b) ==> response_encoding(KafkaResponse::PushTelemetryResponse(*message), version) == Some(b@),
{
    let mut out: Vec<u8> = Vec::new();
    match message.encode(&mut out, version) {
        Ok(()) => Ok(out),
        Err(_) => Err(()),
    }
}

/// `AssignReplicasToDirsResponse::decode` of `kafka-protocol` (`Decodable`), from the front of
/// `bytes` under the given API version: it succeeds exactly where
/// `response_decoding` has a result for API key 73, and then hands back that
/// message and the number of bytes after it; on failure, the text of the
/// decoder's error.
#[verifier::external_body]
fn decode_assign_replicas_to_dirs_response(bytes: &[u8], version: i16) -> (r: Result<(AssignReplicasToDirsResponse, usize), String>)
    ensures
        r is Ok <==> response_decoding(73, version, bytes@) is Some,
        r matches Ok((m, rest)) ==> rest <= bytes@.len() && response_decoding(73, version, bytes@) == Some(
            (KafkaResponse::AssignReplicasToDirsResponse(m), (bytes@.len() - rest) as nat),
        ),
{
    let mut rest = bytes;
    match AssignReplicasToDirsResponse::decode(&mut rest, version) {
        Ok(m) => Ok((m, rest.len())),
        Err(e) => Err(e.to_string()),
    }
}

/// `AssignReplicasToDirsResponse::encode` of `kafka-protocol` (`Encodable`), under the given
/// API version into a fresh buffer: it succeeds exactly where
/// `response_encoding` has bytes for the message, and gives those bytes.
#[verifier::external_body]
fn encode_assign_replicas_to_dirs_response(message: &AssignReplicasToDirsResponse, version: i16) -> (r: Result<Vec<u8>, ()>)
    ensures
        r is Ok <==> response_encoding(KafkaResponse::AssignReplicasToDirsResponse(*message), version) is Some,
        r matches Ok(b) ==> response_encoding(KafkaResponse::AssignReplicasToDirsResponse(*message), version) == Some(b@),
{
    let mut out: Vec<u8> = Vec::new();
    match message.encode(&mut out, version) {
        Ok(()) => Ok(out),
        Err(_) => Err(()),
    }
}

/// `ListClientMetricsResourcesResponse::decode` of `kafka-protocol` (`Decodable`), from the front of
/// `bytes` under the given API version: it succeeds exactly where
/// `response_decoding` has a result for API key 74, and then hands back that
/// message and the number of bytes after it; on failure, the text of the
/// decoder's error.
#[verifier::external_body]
fn decode_list_client_metrics_resources_response(bytes: &[u8], version: i16) -> (r: Result<(ListClientMetricsResourcesResponse, usize), String>)
    ensures
        r is Ok <==> response_decoding(74, version, bytes@) is Some,
        r matches Ok((m, rest)) ==> rest <= bytes@.len() && response_decoding(74, version, bytes@) == Some(
            (KafkaResponse::ListClientMetricsResourcesResponse(m), (bytes@.len() - rest) as nat),
        ),
{
    let mut rest = bytes;
    match ListClientMetricsResourcesResponse::decode(&mut rest, version) {
        Ok(m) => Ok((m, rest.len())),
        Err(e) => Err(e.to_string()),
    }
}

/// `ListClientMetricsResourcesResponse::encode` of `kafka-protocol` (`Encodable`), under the given
/// API version into a fresh buffer: it succeeds exactly where
/// `response_encoding` has bytes for the message, and gives those bytes.
#[verifier::external_body]
fn encode_list_client_metrics_resources_response(message: &ListClientMetricsResourcesResponse, version: i16) -> (r: Result<Vec<u8>, ()>)
    ensures
        r is Ok <==> response_encoding(KafkaResponse::ListClientMetricsResourcesResponse(*message), version) is Some,
        r matches Ok(b) ==> response_encoding(KafkaResponse::ListClientMetricsResourcesResponse(*message), version) == Some(b@),
{
    let mut out: Vec<u8> = Vec::new();
    match message.encode(&mut out, version) {
        Ok(()) => Ok(out),
        Err(_) => Err(()),
    }
}

/// `DescribeTopicPartitionsResponse::decode` of `kafka-protocol` (`Decodable`), from the front of
/// `bytes` under the given API version: it succeeds exactly where
/// `response_decoding` has a result for API key 75, and then hands back that
/// message and the number of bytes after it; on failure, the text of the
/// decoder's error.
#[verifier::external_body]
fn decode_describe_topic_partitions_response(bytes: &[u8], version: i16) -> (r: Result<(DescribeTopicPartitionsResponse, usize), String>)
    ensures
        r is Ok <==> response_decoding(75, version, bytes@) is Some,
        r matches Ok((m, rest)) ==> rest <= bytes@.len() && response_decoding(75, version, bytes@) == Some(
            (KafkaResponse::DescribeTopicPartitionsResponse(m), (bytes@.len() - rest) as nat),
        ),
{
    let mut rest = bytes;
    match DescribeTopicPartitionsResponse::decode(&mut rest, version) {
        Ok(m) => Ok((m, rest.len())),
        Err(e) => Err(e.to_string()),
    }
}

/// `DescribeTopicPartitionsResponse::encode` of `kafka-protocol` (`Encodable`), under the given
/// API version into a fresh buffer: it succeeds exactly where
/// `response_encoding` has bytes for the message, and gives those bytes.
#[verifier::external_body]
fn encode_describe_topic_partitions_response(message: &DescribeTopicPartitionsResponse, version: i16) -> (r: Result<Vec<u8>, ()>)
    ensures
        r is Ok <==> response_encoding(KafkaResponse::DescribeTopicPartitionsResponse(*message), version) is Some,
        r matches Ok(b) ==> response_encoding(KafkaResponse::DescribeTopicPartitionsResponse(*message), version) == Some(b@),
{
    let mut out: Vec<u8> = Vec::new();
    match message.encode(&mut out, version) {
        Ok(()) => Ok(out),
        Err(_) => Err(()),
    }
}


/// A Kafka request, of any of the API keys.
#[derive(Debug, PartialEq)]
pub enum KafkaRequest {
    ProduceRequest(ProduceRequest),
    FetchRequest(FetchRequest),
    ListOffsetsRequest(ListOffsetsRequest),
    MetadataRequest(MetadataRequest),
    LeaderAndIsrRequest(LeaderAndIsrRequest),
    StopReplicaRequest(StopReplicaRequest),
    UpdateMetadataRequest(UpdateMetadataRequest),
    ControlledShutdownRequest(ControlledShutdownRequest),
    OffsetCommitRequest(OffsetCommitRequest),
    OffsetFetchRequest(OffsetFetchRequest),
    FindCoordinatorRequest(FindCoordinatorRequest),
    JoinGroupRequest(JoinGroupRequest),
    HeartbeatRequest(HeartbeatRequest),
    LeaveGroupRequest(LeaveGroupRequest),
    SyncGroupRequest(SyncGroupRequest),
    DescribeGroupsRequest(DescribeGroupsRequest),
    ListGroupsRequest(ListGroupsRequest),
    SaslHandshakeRequest(SaslHandshakeRequest),
    ApiVersionsRequest(ApiVersionsRequest),
    CreateTopicsRequest(CreateTopicsRequest),
    DeleteTopicsRequest(DeleteTopicsRequest),
    DeleteRecordsRequest(DeleteRecordsRequest),
    InitProducerIdRequest(InitProducerIdRequest),
    OffsetForLeaderEpochRequest(OffsetForLeaderEpochRequest),
    AddPartitionsToTxnRequest(AddPartitionsToTxnRequest),
    AddOffsetsToTxnRequest(AddOffsetsToTxnRequest),
    EndTxnRequest(EndTxnRequest),
    WriteTxnMarkersRequest(WriteTxnMarkersRequest),
    TxnOffsetCommitRequest(TxnOffsetCommitRequest),
    DescribeAclsRequest(DescribeAclsRequest),
    CreateAclsRequest(CreateAclsRequest),
    DeleteAclsRequest(DeleteAclsRequest),
    DescribeConfigsRequest(DescribeConfigsRequest),
    AlterConfigsRequest(AlterConfigsRequest),
    AlterReplicaLogDirsRequest(AlterReplicaLogDirsRequest),
    DescribeLogDirsRequest(DescribeLogDirsRequest),
    SaslAuthenticateRequest(SaslAuthenticateRequest),
    CreatePartitionsRequest(CreatePartitionsRequest),
    CreateDelegationTokenRequest(CreateDelegationTokenRequest),
    RenewDelegationTokenRequest(RenewDelegationTokenRequest),
    ExpireDelegationTokenRequest(ExpireDelegationTokenRequest),
    DescribeDelegationTokenRequest(DescribeDelegationTokenRequest),
    DeleteGroupsRequest(DeleteGroupsRequest),
    ElectLeadersRequest(ElectLeadersRequest),
    IncrementalAlterConfigsRequest(IncrementalAlterConfigsRequest),
    AlterPartitionReassignmentsRequest(AlterPartitionReassignmentsRequest),
    ListPartitionReassignmentsRequest(ListPartitionReassignmentsRequest),
    OffsetDeleteRequest(OffsetDeleteRequest),
    DescribeClientQuotasRequest(DescribeClientQuotasRequest),
    AlterClientQuotasRequest(AlterClientQuotasRequest),
    DescribeUserScramCredentialsRequest(DescribeUserScramCredentialsRequest),
    AlterUserScramCredentialsRequest(AlterUserScramCredentialsRequest),
    VoteRequest(VoteRequest),
    BeginQuorumEpochRequest(BeginQuorumEpochRequest),
    EndQuorumEpochRequest(EndQuorumEpochRequest),
    DescribeQuorumRequest(DescribeQuorumRequest),
    AlterPartitionRequest(AlterPartitionRequest),
    UpdateFeaturesRequest(UpdateFeaturesRequest),
    EnvelopeRequest(EnvelopeRequest),
    FetchSnapshotRequest(FetchSnapshotRequest),
    DescribeClusterRequest(DescribeClusterRequest),
    DescribeProducersRequest(DescribeProducersRequest),
    BrokerRegistrationRequest(BrokerRegistrationRequest),
    BrokerHeartbeatRequest(BrokerHeartbeatRequest),
    UnregisterBrokerRequest(UnregisterBrokerRequest),
    DescribeTransactionsRequest(DescribeTransactionsRequest),
    ListTransactionsRequest(ListTransactionsRequest),
    AllocateProducerIdsRequest(AllocateProducerIdsRequest),
    ConsumerGroupHeartbeatRequest(ConsumerGroupHeartbeatRequest),
    ConsumerGroupDescribeRequest(ConsumerGroupDescribeRequest),
    ControllerRegistrationRequest(ControllerRegistrationRequest),
    GetTelemetrySubscriptionsRequest(GetTelemetrySubscriptionsRequest),
    PushTelemetryRequest(PushTelemetryRequest),
    AssignReplicasToDirsRequest(AssignReplicasToDirsRequest),
    ListClientMetricsResourcesRequest(ListClientMetricsResourcesRequest),
    DescribeTopicPartitionsRequest(DescribeTopicPartitionsRequest),
}

/// The API key of a request: the variants stand in the order of the keys,
/// from 0 up.
pub open spec fn request_key(m: KafkaRequest) -> i16 {
    match m {
        KafkaRequest::ProduceRequest(_) => 0,
        KafkaRequest::FetchRequest(_) => 1,
        KafkaRequest::ListOffsetsRequest(_) => 2,
        KafkaRequest::MetadataRequest(_) => 3,
        KafkaRequest::LeaderAndIsrRequest(_) => 4,
        KafkaRequest::StopReplicaRequest(_) => 5,
        KafkaRequest::UpdateMetadataRequest(_) => 6,
        KafkaRequest::ControlledShutdownRequest(_) => 7,
        KafkaRequest::OffsetCommitRequest(_) => 8,
        KafkaRequest::OffsetFetchRequest(_) => 9,
        KafkaRequest::FindCoordinatorRequest(_) => 10,
        KafkaRequest::JoinGroupRequest(_) => 11,
        KafkaRequest::HeartbeatRequest(_) => 12,
        KafkaRequest::LeaveGroupRequest(_) => 13,
        KafkaRequest::SyncGroupRequest(_) => 14,
        KafkaRequest::DescribeGroupsRequest(_) => 15,
        KafkaRequest::ListGroupsRequest(_) => 16,
        KafkaRequest::SaslHandshakeRequest(_) => 17,
        KafkaRequest::ApiVersionsRequest(_) => 18,
        KafkaRequest::CreateTopicsRequest(_) => 19,
        KafkaRequest::DeleteTopicsRequest(_) => 20,
        KafkaRequest::DeleteRecordsRequest(_) => 21,
        KafkaRequest::InitProducerIdRequest(_) => 22,
        KafkaRequest::OffsetForLeaderEpochRequest(_) => 23,
        KafkaRequest::AddPartitionsToTxnRequest(_) => 24,
        KafkaRequest::AddOffsetsToTxnRequest(_) => 25,
        KafkaRequest::EndTxnRequest(_) => 26,
        KafkaRequest::WriteTxnMarkersRequest(_) => 27,
        KafkaRequest::TxnOffsetCommitRequest(_) => 28,
        KafkaRequest::DescribeAclsRequest(_) => 29,
        KafkaRequest::CreateAclsRequest(_) => 30,
        KafkaRequest::DeleteAclsRequest(_) => 31,
        KafkaRequest::DescribeConfigsRequest(_) => 32,
        KafkaRequest::AlterConfigsRequest(_) => 33,
        KafkaRequest::AlterReplicaLogDirsRequest(_) => 34,
        KafkaRequest::DescribeLogDirsRequest(_) => 35,
        KafkaRequest::SaslAuthenticateRequest(_) => 36,
        KafkaRequest::CreatePartitionsRequest(_) => 37,
        KafkaRequest::CreateDelegationTokenRequest(_) => 38,
        KafkaRequest::RenewDelegationTokenRequest(_) => 39,
        KafkaRequest::ExpireDelegationTokenRequest(_) => 40,
        KafkaRequest::DescribeDelegationTokenRequest(_) => 41,
        KafkaRequest::DeleteGroupsRequest(_) => 42,
        KafkaRequest::ElectLeadersRequest(_) => 43,
        KafkaRequest::IncrementalAlterConfigsRequest(_) => 44,
        KafkaRequest::AlterPartitionReassignmentsRequest(_) => 45,
        KafkaRequest::ListPartitionReassignmentsRequest(_) => 46,
        KafkaRequest::OffsetDeleteRequest(_) => 47,
        KafkaRequest::DescribeClientQuotasRequest(_) => 48,
        KafkaRequest::AlterClientQuotasRequest(_) => 49,
        KafkaRequest::DescribeUserScramCredentialsRequest(_) => 50,
        KafkaRequest::AlterUserScramCredentialsRequest(_) => 51,
        KafkaRequest::VoteRequest(_) => 52,
        KafkaRequest::BeginQuorumEpochRequest(_) => 53,
        KafkaRequest::EndQuorumEpochRequest(_) => 54,
        KafkaRequest::DescribeQuorumRequest(_) => 55,
        KafkaRequest::AlterPartitionRequest(_) => 56,
        KafkaRequest::UpdateFeaturesRequest(_) => 57,
        KafkaRequest::EnvelopeRequest(_) => 58,
        KafkaRequest::FetchSnapshotRequest(_) => 59,
        KafkaRequest::DescribeClusterRequest(_) => 60,
        KafkaRequest::DescribeProducersRequest(_) => 61,
        KafkaRequest::BrokerRegistrationRequest(_) => 62,
        KafkaRequest::BrokerHeartbeatRequest(_) => 63,
        KafkaRequest::UnregisterBrokerRequest(_) => 64,
        KafkaRequest::DescribeTransactionsRequest(_) => 65,
        KafkaRequest::ListTransactionsRequest(_) => 66,
        KafkaRequest::AllocateProducerIdsRequest(_) => 67,
        KafkaRequest::ConsumerGroupHeartbeatRequest(_) => 68,
        KafkaRequest::ConsumerGroupDescribeRequest(_) => 69,
        KafkaRequest::ControllerRegistrationRequest(_) => 70,
        KafkaRequest::GetTelemetrySubscriptionsRequest(_) => 71,
        KafkaRequest::PushTelemetryRequest(_) => 72,
        KafkaRequest::AssignReplicasToDirsRequest(_) => 73,
        KafkaRequest::ListClientMetricsResourcesRequest(_) => 74,
        KafkaRequest::DescribeTopicPartitionsRequest(_) => 75,
    }
}

/// A Kafka response, of any of the API keys.
#[derive(Debug, PartialEq)]
pub enum KafkaResponse {
    ProduceResponse(ProduceResponse),
    FetchResponse(FetchResponse),
    ListOffsetsResponse(ListOffsetsResponse),
    MetadataResponse(MetadataResponse),
    LeaderAndIsrResponse(LeaderAndIsrResponse),
    StopReplicaResponse(StopReplicaResponse),
    UpdateMetadataResponse(UpdateMetadataResponse),
    ControlledShutdownResponse(ControlledShutdownResponse),
    OffsetCommitResponse(OffsetCommitResponse),
    OffsetFetchResponse(OffsetFetchResponse),
    FindCoordinatorResponse(FindCoordinatorResponse),
    JoinGroupResponse(JoinGroupResponse),
    HeartbeatResponse(HeartbeatResponse),
    LeaveGroupResponse(LeaveGroupResponse),
    SyncGroupResponse(SyncGroupResponse),
    DescribeGroupsResponse(DescribeGroupsResponse),
    ListGroupsResponse(ListGroupsResponse),
    SaslHandshakeResponse(SaslHandshakeResponse),
    ApiVersionsResponse(ApiVersionsResponse),
    CreateTopicsResponse(CreateTopicsResponse),
    DeleteTopicsResponse(DeleteTopicsResponse),
    DeleteRecordsResponse(DeleteRecordsResponse),
    InitProducerIdResponse(InitProducerIdResponse),
    OffsetForLeaderEpochResponse(OffsetForLeaderEpochResponse),
    AddPartitionsToTxnResponse(AddPartitionsToTxnResponse),
    AddOffsetsToTxnResponse(AddOffsetsToTxnResponse),
    EndTxnResponse(EndTxnResponse),
    WriteTxnMarkersResponse(WriteTxnMarkersResponse),
    TxnOffsetCommitResponse(TxnOffsetCommitResponse),
    DescribeAclsResponse(DescribeAclsResponse),
    CreateAclsResponse(CreateAclsResponse),
    DeleteAclsResponse(DeleteAclsResponse),
    DescribeConfigsResponse(DescribeConfigsResponse),
    AlterConfigsResponse(AlterConfigsResponse),
    AlterReplicaLogDirsResponse(AlterReplicaLogDirsResponse),
    DescribeLogDirsResponse(DescribeLogDirsResponse),
    SaslAuthenticateResponse(SaslAuthenticateResponse),
    CreatePartitionsResponse(CreatePartitionsResponse),
    CreateDelegationTokenResponse(CreateDelegationTokenResponse),
    RenewDelegationTokenResponse(RenewDelegationTokenResponse),
    ExpireDelegationTokenResponse(ExpireDelegationTokenResponse),
    DescribeDelegationTokenResponse(DescribeDelegationTokenResponse),
    DeleteGroupsResponse(DeleteGroupsResponse),
    ElectLeadersResponse(ElectLeadersResponse),
    IncrementalAlterConfigsResponse(IncrementalAlterConfigsResponse),
    AlterPartitionReassignmentsResponse(AlterPartitionReassignmentsResponse),
    ListPartitionReassignmentsResponse(ListPartitionReassignmentsResponse),
    OffsetDeleteResponse(OffsetDeleteResponse),
    DescribeClientQuotasResponse(DescribeClientQuotasResponse),
    AlterClientQuotasResponse(AlterClientQuotasResponse),
    DescribeUserScramCredentialsResponse(DescribeUserScramCredentialsResponse),
    AlterUserScramCredentialsResponse(AlterUserScramCredentialsResponse),
    VoteResponse(VoteResponse),
    BeginQuorumEpochResponse(BeginQuorumEpochResponse),
    EndQuorumEpochResponse(EndQuorumEpochResponse),
    DescribeQuorumResponse(DescribeQuorumResponse),
    AlterPartitionResponse(AlterPartitionResponse),
    UpdateFeaturesResponse(UpdateFeaturesResponse),
    EnvelopeResponse(EnvelopeResponse),
    FetchSnapshotResponse(FetchSnapshotResponse),
    DescribeClusterResponse(DescribeClusterResponse),
    DescribeProducersResponse(DescribeProducersResponse),
    BrokerRegistrationResponse(BrokerRegistrationResponse),
    BrokerHeartbeatResponse(BrokerHeartbeatResponse),
    UnregisterBrokerResponse(UnregisterBrokerResponse),
    DescribeTransactionsResponse(DescribeTransactionsResponse),
    ListTransactionsResponse(ListTransactionsResponse),
    AllocateProducerIdsResponse(AllocateProducerIdsResponse),
    ConsumerGroupHeartbeatResponse(ConsumerGroupHeartbeatResponse),
    ConsumerGroupDescribeResponse(ConsumerGroupDescribeResponse),
    ControllerRegistrationResponse(ControllerRegistrationResponse),
    GetTelemetrySubscriptionsResponse(GetTelemetrySubscriptionsResponse),
    PushTelemetryResponse(PushTelemetryResponse),
    AssignReplicasToDirsResponse(AssignReplicasToDirsResponse),
    ListClientMetricsResourcesResponse(ListClientMetricsResourcesResponse),
    DescribeTopicPartitionsResponse(DescribeTopicPartitionsResponse),
}

/// The API key of a response: the variants stand in the order of the keys,
/// from 0 up.
pub open spec fn response_key(m: KafkaResponse) -> i16 {
    match m {
        KafkaResponse::ProduceResponse(_) => 0,
        KafkaResponse::FetchResponse(_) => 1,
        KafkaResponse::ListOffsetsResponse(_) => 2,
        KafkaResponse::MetadataResponse(_) => 3,
        KafkaResponse::LeaderAndIsrResponse(_) => 4,
        KafkaResponse::StopReplicaResponse(_) => 5,
        KafkaResponse::UpdateMetadataResponse(_) => 6,
        KafkaResponse::ControlledShutdownResponse(_) => 7,
        KafkaResponse::OffsetCommitResponse(_) => 8,
        KafkaResponse::OffsetFetchResponse(_) => 9,
        KafkaResponse::FindCoordinatorResponse(_) => 10,
        KafkaResponse::JoinGroupResponse(_) => 11,
        KafkaResponse::HeartbeatResponse(_) => 12,
        KafkaResponse::LeaveGroupResponse(_) => 13,
        KafkaResponse::SyncGroupResponse(_) => 14,
        KafkaResponse::DescribeGroupsResponse(_) => 15,
        KafkaResponse::ListGroupsResponse(_) => 16,
        KafkaResponse::SaslHandshakeResponse(_) => 17,
        KafkaResponse::ApiVersionsResponse(_) => 18,
        KafkaResponse::CreateTopicsResponse(_) => 19,
        KafkaResponse::DeleteTopicsResponse(_) => 20,
        KafkaResponse::DeleteRecordsResponse(_) => 21,
        KafkaResponse::InitProducerIdResponse(_) => 22,
        KafkaResponse::OffsetForLeaderEpochResponse(_) => 23,
        KafkaResponse::AddPartitionsToTxnResponse(_) => 24,
        KafkaResponse::AddOffsetsToTxnResponse(_) => 25,
        KafkaResponse::EndTxnResponse(_) => 26,
        KafkaResponse::WriteTxnMarkersResponse(_) => 27,
        KafkaResponse::TxnOffsetCommitResponse(_) => 28,
        KafkaResponse::DescribeAclsResponse(_) => 29,
        KafkaResponse::CreateAclsResponse(_) => 30,
        KafkaResponse::DeleteAclsResponse(_) => 31,
        KafkaResponse::DescribeConfigsResponse(_) => 32,
        KafkaResponse::AlterConfigsResponse(_) => 33,
        KafkaResponse::AlterReplicaLogDirsResponse(_) => 34,
        KafkaResponse::DescribeLogDirsResponse(_) => 35,
        KafkaResponse::SaslAuthenticateResponse(_) => 36,
        KafkaResponse::CreatePartitionsResponse(_) => 37,
        KafkaResponse::CreateDelegationTokenResponse(_) => 38,
        KafkaResponse::RenewDelegationTokenResponse(_) => 39,
        KafkaResponse::ExpireDelegationTokenResponse(_) => 40,
        KafkaResponse::DescribeDelegationTokenResponse(_) => 41,
        KafkaResponse::DeleteGroupsResponse(_) => 42,
        KafkaResponse::ElectLeadersResponse(_) => 43,
        KafkaResponse::IncrementalAlterConfigsResponse(_) => 44,
        KafkaResponse::AlterPartitionReassignmentsResponse(_) => 45,
        KafkaResponse::ListPartitionReassignmentsResponse(_) => 46,
        KafkaResponse::OffsetDeleteResponse(_) => 47,
        KafkaResponse::DescribeClientQuotasResponse(_) => 48,
        KafkaResponse::AlterClientQuotasResponse(_) => 49,
        KafkaResponse::DescribeUserScramCredentialsResponse(_) => 50,
        KafkaResponse::AlterUserScramCredentialsResponse(_) => 51,
        KafkaResponse::VoteResponse(_) => 52,
        KafkaResponse::BeginQuorumEpochResponse(_) => 53,
        KafkaResponse::EndQuorumEpochResponse(_) => 54,
        KafkaResponse::DescribeQuorumResponse(_) => 55,
        KafkaResponse::AlterPartitionResponse(_) => 56,
        KafkaResponse::UpdateFeaturesResponse(_) => 57,
        KafkaResponse::EnvelopeResponse(_) => 58,
        KafkaResponse::FetchSnapshotResponse(_) => 59,
        KafkaResponse::DescribeClusterResponse(_) => 60,
        KafkaResponse::DescribeProducersResponse(_) => 61,
        KafkaResponse::BrokerRegistrationResponse(_) => 62,
        KafkaResponse::BrokerHeartbeatResponse(_) => 63,
        KafkaResponse::UnregisterBrokerResponse(_) => 64,
        KafkaResponse::DescribeTransactionsResponse(_) => 65,
        KafkaResponse::ListTransactionsResponse(_) => 66,
        KafkaResponse::AllocateProducerIdsResponse(_) => 67,
        KafkaResponse::ConsumerGroupHeartbeatResponse(_) => 68,
        KafkaResponse::ConsumerGroupDescribeResponse(_) => 69,
        KafkaResponse::ControllerRegistrationResponse(_) => 70,
        KafkaResponse::GetTelemetrySubscriptionsResponse(_) => 71,
        KafkaResponse::PushTelemetryResponse(_) => 72,
        KafkaResponse::AssignReplicasToDirsResponse(_) => 73,
        KafkaResponse::ListClientMetricsResourcesResponse(_) => 74,
        KafkaResponse::DescribeTopicPartitionsResponse(_) => 75,
    }
}

/// The name of the API with the given key, as the messages spell it.
pub open spec fn api_name(key: i16) -> Seq<char> {
    match key {
        0 => "Produce"@,
        1 => "Fetch"@,
        2 => "ListOffsets"@,
        3 => "Metadata"@,
        4 => "LeaderAndIsr"@,
        5 => "StopReplica"@,
        6 => "UpdateMetadata"@,
        7 => "ControlledShutdown"@,
        8 => "OffsetCommit"@,
        9 => "OffsetFetch"@,
        10 => "FindCoordinator"@,
        11 => "JoinGroup"@,
        12 => "Heartbeat"@,
        13 => "LeaveGroup"@,
        14 => "SyncGroup"@,
        15 => "DescribeGroups"@,
        16 => "ListGroups"@,
        17 => "SaslHandshake"@,
        18 => "ApiVersions"@,
        19 => "CreateTopics"@,
        20 => "DeleteTopics"@,
        21 => "DeleteRecords"@,
        22 => "InitProducerId"@,
        23 => "OffsetForLeaderEpoch"@,
        24 => "AddPartitionsToTxn"@,
        25 => "AddOffsetsToTxn"@,
        26 => "EndTxn"@,
        27 => "WriteTxnMarkers"@,
        28 => "TxnOffsetCommit"@,
        29 => "DescribeAcls"@,
        30 => "CreateAcls"@,
        31 => "DeleteAcls"@,
        32 => "DescribeConfigs"@,
        33 => "AlterConfigs"@,
        34 => "AlterReplicaLogDirs"@,
        35 => "DescribeLogDirs"@,
        36 => "SaslAuthenticate"@,
        37 => "CreatePartitions"@,
        38 => "CreateDelegationToken"@,
        39 => "RenewDelegationToken"@,
        40 => "ExpireDelegationToken"@,
        41 => "DescribeDelegationToken"@,
        42 => "DeleteGroups"@,
        43 => "ElectLeaders"@,
        44 => "IncrementalAlterConfigs"@,
        45 => "AlterPartitionReassignments"@,
        46 => "ListPartitionReassignments"@,
        47 => "OffsetDelete"@,
        48 => "DescribeClientQuotas"@,
        49 => "AlterClientQuotas"@,
        50 => "DescribeUserScramCredentials"@,
        51 => "AlterUserScramCredentials"@,
        52 => "Vote"@,
        53 => "BeginQuorumEpoch"@,
        54 => "EndQuorumEpoch"@,
        55 => "DescribeQuorum"@,
        56 => "AlterPartition"@,
        57 => "UpdateFeatures"@,
        58 => "Envelope"@,
        59 => "FetchSnapshot"@,
        60 => "DescribeCluster"@,
        61 => "DescribeProducers"@,
        62 => "BrokerRegistration"@,
        63 => "BrokerHeartbeat"@,
        64 => "UnregisterBroker"@,
        65 => "DescribeTransactions"@,
        66 => "ListTransactions"@,
        67 => "AllocateProducerIds"@,
        68 => "ConsumerGroupHeartbeat"@,
        69 => "ConsumerGroupDescribe"@,
        70 => "ControllerRegistration"@,
        71 => "GetTelemetrySubscriptions"@,
        72 => "PushTelemetry"@,
        73 => "AssignReplicasToDirs"@,
        74 => "ListClientMetricsResources"@,
        _ => "DescribeTopicPartitions"@,
    }
}

/// The name of the API with the given key.
pub fn api_name_of(key: i16) -> (r: &'static str)
    requires
        is_api_key(key),
    ensures
        r@ == api_name(key),
{
    match key {
        0 => "Produce",
        1 => "Fetch",
        2 => "ListOffsets",
        3 => "Metadata",
        4 => "LeaderAndIsr",
        5 => "StopReplica",
        6 => "UpdateMetadata",
        7 => "ControlledShutdown",
        8 => "OffsetCommit",
        9 => "OffsetFetch",
        10 => "FindCoordinator",
        11 => "JoinGroup",
        12 => "Heartbeat",
        13 => "LeaveGroup",
        14 => "SyncGroup",
        15 => "DescribeGroups",
        16 => "ListGroups",
        17 => "SaslHandshake",
        18 => "ApiVersions",
        19 => "CreateTopics",
        20 => "DeleteTopics",
        21 => "DeleteRecords",
        22 => "InitProducerId",
        23 => "OffsetForLeaderEpoch",
        24 => "AddPartitionsToTxn",
        25 => "AddOffsetsToTxn",
        26 => "EndTxn",
        27 => "WriteTxnMarkers",
        28 => "TxnOffsetCommit",
        29 => "DescribeAcls",
        30 => "CreateAcls",
        31 => "DeleteAcls",
        32 => "DescribeConfigs",
        33 => "AlterConfigs",
        34 => "AlterReplicaLogDirs",
        35 => "DescribeLogDirs",
        36 => "SaslAuthenticate",
        37 => "CreatePartitions",
        38 => "CreateDelegationToken",
        39 => "RenewDelegationToken",
        40 => "ExpireDelegationToken",
        41 => "DescribeDelegationToken",
        42 => "DeleteGroups",
        43 => "ElectLeaders",
        44 => "IncrementalAlterConfigs",
        45 => "AlterPartitionReassignments",
        46 => "ListPartitionReassignments",
        47 => "OffsetDelete",
        48 => "DescribeClientQuotas",
        49 => "AlterClientQuotas",
        50 => "DescribeUserScramCredentials",
        51 => "AlterUserScramCredentials",
        52 => "Vote",
        53 => "BeginQuorumEpoch",
        54 => "EndQuorumEpoch",
        55 => "DescribeQuorum",
        56 => "AlterPartition",
        57 => "UpdateFeatures",
        58 => "Envelope",
        59 => "FetchSnapshot",
        60 => "DescribeCluster",
        61 => "DescribeProducers",
        62 => "BrokerRegistration",
        63 => "BrokerHeartbeat",
        64 => "UnregisterBroker",
        65 => "DescribeTransactions",
        66 => "ListTransactions",
        67 => "AllocateProducerIds",
        68 => "ConsumerGroupHeartbeat",
        69 => "ConsumerGroupDescribe",
        70 => "ControllerRegistration",
        71 => "GetTelemetrySubscriptions",
        72 => "PushTelemetry",
        73 => "AssignReplicasToDirs",
        74 => "ListClientMetricsResources",
        _ => "DescribeTopicPartitions",
    }
}

/// The error text of a response that does not decode, by API key.
pub open spec fn response_decode_error(key: i16) -> &'static str {
    match key {
        0 => "Error decoding Produce response",
        1 => "Error decoding Fetch response",
        2 => "Error decoding ListOffsets response",
        3 => "Error decoding Metadata response",
        4 => "Error decoding LeaderAndIsr response",
        5 => "Error decoding StopReplica response",
        6 => "Error decoding UpdateMetadata response",
        7 => "Error decoding ControlledShutdown response",
        8 => "Error decoding OffsetCommit response",
        9 => "Error decoding OffsetFetch response",
        10 => "Error decoding FindCoordinator response",
        11 => "Error decoding JoinGroup response",
        12 => "Error decoding Heartbeat response",
        13 => "Error decoding LeaveGroup response",
        14 => "Error decoding SyncGroup response",
        15 => "Error decoding DescribeGroups response",
        16 => "Error decoding ListGroups response",
        17 => "Error decoding SaslHandshake response",
        18 => "Error decoding ApiVersions response",
        19 => "Error decoding CreateTopics response",
        20 => "Error decoding DeleteTopics response",
        21 => "Error decoding DeleteRecords response",
        22 => "Error decoding InitProducerId response",
        23 => "Error decoding OffsetForLeaderEpoch response",
        24 => "Error decoding AddPartitionsToTxn response",
        25 => "Error decoding AddOffsetsToTxn response",
        26 => "Error decoding EndTxn response",
        27 => "Error decoding WriteTxnMarkers response",
        28 => "Error decoding TxnOffsetCommit response",
        29 => "Error decoding DescribeAcls response",
        30 => "Error decoding CreateAcls response",
        31 => "Error decoding DeleteAcls response",
        32 => "Error decoding DescribeConfigs response",
        33 => "Error decoding AlterConfigs response",
        34 => "Error decoding AlterReplicaLogDirs response",
        35 => "Error decoding DescribeLogDirs response",
        36 => "Error decoding SaslAuthenticate response",
        37 => "Error decoding CreatePartitions response",
        38 => "Error decoding CreateDelegationToken response",
        39 => "Error decoding RenewDelegationToken response",
        40 => "Error decoding ExpireDelegationToken response",
        41 => "Error decoding DescribeDelegationToken response",
        42 => "Error decoding DeleteGroups response",
        43 => "Error decoding ElectLeaders response",
        44 => "Error decoding IncrementalAlterConfigs response",
        45 => "Error decoding AlterPartitionReassignments response",
        46 => "Error decoding ListPartitionReassignments response",
        47 => "Error decoding OffsetDelete response",
        48 => "Error decoding DescribeClientQuotas response",
        49 => "Error decoding AlterClientQuotas response",
        50 => "Error decoding DescribeUserScramCredentials response",
        51 => "Error decoding AlterUserScramCredentials response",
        52 => "Error decoding Vote response",
        53 => "Error decoding BeginQuorumEpoch response",
        54 => "Error decoding EndQuorumEpoch response",
        55 => "Error decoding DescribeQuorum response",
        56 => "Error decoding AlterPartition response",
        57 => "Error decoding UpdateFeatures response",
        58 => "Error decoding Envelope response",
        59 => "Error decoding FetchSnapshot response",
        60 => "Error decoding DescribeCluster response",
        61 => "Error decoding DescribeProducers response",
        62 => "Error decoding BrokerRegistration response",
        63 => "Error decoding BrokerHeartbeat response",
        64 => "Error decoding UnregisterBroker response",
        65 => "Error decoding DescribeTransactions response",
        66 => "Error decoding ListTransactions response",
        67 => "Error decoding AllocateProducerIds response",
        68 => "Error decoding ConsumerGroupHeartbeat response",
        69 => "Error decoding ConsumerGroupDescribe response",
        70 => "Error decoding ControllerRegistration response",
        71 => "Error decoding GetTelemetrySubscriptions response",
        72 => "Error decoding PushTelemetry response",
        73 => "Error decoding AssignReplicasToDirs response",
        74 => "Error decoding ListClientMetricsResources response",
        _ => "Error decoding DescribeTopicPartitions response",
    }
}

/// The error text of a response of the given API that does not decode.
pub fn response_decode_error_of(key: i16) -> (r: &'static str)
    requires
        is_api_key(key),
    ensures
        r == response_decode_error(key),
{
    match key {
        0 => "Error decoding Produce response",
        1 => "Error decoding Fetch response",
        2 => "Error decoding ListOffsets response",
        3 => "Error decoding Metadata response",
        4 => "Error decoding LeaderAndIsr response",
        5 => "Error decoding StopReplica response",
        6 => "Error decoding UpdateMetadata response",
        7 => "Error decoding ControlledShutdown response",
        8 => "Error decoding OffsetCommit response",
        9 => "Error decoding OffsetFetch response",
        10 => "Error decoding FindCoordinator response",
        11 => "Error decoding JoinGroup response",
        12 => "Error decoding Heartbeat response",
        13 => "Error decoding LeaveGroup response",
        14 => "Error decoding SyncGroup response",
        15 => "Error decoding DescribeGroups response",
        16 => "Error decoding ListGroups response",
        17 => "Error decoding SaslHandshake response",
        18 => "Error decoding ApiVersions response",
        19 => "Error decoding CreateTopics response",
        20 => "Error decoding DeleteTopics response",
        21 => "Error decoding DeleteRecords response",
        22 => "Error decoding InitProducerId response",
        23 => "Error decoding OffsetForLeaderEpoch response",
        24 => "Error decoding AddPartitionsToTxn response",
        25 => "Error decoding AddOffsetsToTxn response",
        26 => "Error decoding EndTxn response",
        27 => "Error decoding WriteTxnMarkers response",
        28 => "Error decoding TxnOffsetCommit response",
        29 => "Error decoding DescribeAcls response",
        30 => "Error decoding CreateAcls response",
        31 => "Error decoding DeleteAcls response",
        32 => "Error decoding DescribeConfigs response",
        33 => "Error decoding AlterConfigs response",
        34 => "Error decoding AlterReplicaLogDirs response",
        35 => "Error decoding DescribeLogDirs response",
        36 => "Error decoding SaslAuthenticate response",
        37 => "Error decoding CreatePartitions response",
        38 => "Error decoding CreateDelegationToken response",
        39 => "Error decoding RenewDelegationToken response",
        40 => "Error decoding ExpireDelegationToken response",
        41 => "Error decoding DescribeDelegationToken response",
        42 => "Error decoding DeleteGroups response",
        43 => "Error decoding ElectLeaders response",
        44 => "Error decoding IncrementalAlterConfigs response",
        45 => "Error decoding AlterPartitionReassignments response",
        46 => "Error decoding ListPartitionReassignments response",
        47 => "Error decoding OffsetDelete response",
        48 => "Error decoding DescribeClientQuotas response",
        49 => "Error decoding AlterClientQuotas response",
        50 => "Error decoding DescribeUserScramCredentials response",
        51 => "Error decoding AlterUserScramCredentials response",
        52 => "Error decoding Vote response",
        53 => "Error decoding BeginQuorumEpoch response",
        54 => "Error decoding EndQuorumEpoch response",
        55 => "Error decoding DescribeQuorum response",
        56 => "Error decoding AlterPartition response",
        57 => "Error decoding UpdateFeatures response",
        58 => "Error decoding Envelope response",
        59 => "Error decoding FetchSnapshot response",
        60 => "Error decoding DescribeCluster response",
        61 => "Error decoding DescribeProducers response",
        62 => "Error decoding BrokerRegistration response",
        63 => "Error decoding BrokerHeartbeat response",
        64 => "Error decoding UnregisterBroker response",
        65 => "Error decoding DescribeTransactions response",
        66 => "Error decoding ListTransactions response",
        67 => "Error decoding AllocateProducerIds response",
        68 => "Error decoding ConsumerGroupHeartbeat response",
        69 => "Error decoding ConsumerGroupDescribe response",
        70 => "Error decoding ControllerRegistration response",
        71 => "Error decoding GetTelemetrySubscriptions response",
        72 => "Error decoding PushTelemetry response",
        73 => "Error decoding AssignReplicasToDirs response",
        74 => "Error decoding ListClientMetricsResources response",
        _ => "Error decoding DescribeTopicPartitions response",
    }
}

impl KafkaRequest {
    /// The API key of this request.
    pub fn api_key(&self) -> (k: i16)
        ensures
            k == request_key(*self),
    {
        match self {
            KafkaRequest::ProduceRequest(_) => 0,
            KafkaRequest::FetchRequest(_) => 1,
            KafkaRequest::ListOffsetsRequest(_) => 2,
            KafkaRequest::MetadataRequest(_) => 3,
            KafkaRequest::LeaderAndIsrRequest(_) => 4,
            KafkaRequest::StopReplicaRequest(_) => 5,
            KafkaRequest::UpdateMetadataRequest(_) => 6,
            KafkaRequest::ControlledShutdownRequest(_) => 7,
            KafkaRequest::OffsetCommitRequest(_) => 8,
            KafkaRequest::OffsetFetchRequest(_) => 9,
            KafkaRequest::FindCoordinatorRequest(_) => 10,
            KafkaRequest::JoinGroupRequest(_) => 11,
            KafkaRequest::HeartbeatRequest(_) => 12,
            KafkaRequest::LeaveGroupRequest(_) => 13,
            KafkaRequest::SyncGroupRequest(_) => 14,
            KafkaRequest::DescribeGroupsRequest(_) => 15,
            KafkaRequest::ListGroupsRequest(_) => 16,
            KafkaRequest::SaslHandshakeRequest(_) => 17,
            KafkaRequest::ApiVersionsRequest(_) => 18,
            KafkaRequest::CreateTopicsRequest(_) => 19,
            KafkaRequest::DeleteTopicsRequest(_) => 20,
            KafkaRequest::DeleteRecordsRequest(_) => 21,
            KafkaRequest::InitProducerIdRequest(_) => 22,
            KafkaRequest::OffsetForLeaderEpochRequest(_) => 23,
            KafkaRequest::AddPartitionsToTxnRequest(_) => 24,
            KafkaRequest::AddOffsetsToTxnRequest(_) => 25,
            KafkaRequest::EndTxnRequest(_) => 26,
            KafkaRequest::WriteTxnMarkersRequest(_) => 27,
            KafkaRequest::TxnOffsetCommitRequest(_) => 28,
            KafkaRequest::DescribeAclsRequest(_) => 29,
            KafkaRequest::CreateAclsRequest(_) => 30,
            KafkaRequest::DeleteAclsRequest(_) => 31,
            KafkaRequest::DescribeConfigsRequest(_) => 32,
            KafkaRequest::AlterConfigsRequest(_) => 33,
            KafkaRequest::AlterReplicaLogDirsRequest(_) => 34,
            KafkaRequest::DescribeLogDirsRequest(_) => 35,
            KafkaRequest::SaslAuthenticateRequest(_) => 36,
            KafkaRequest::CreatePartitionsRequest(_) => 37,
            KafkaRequest::CreateDelegationTokenRequest(_) => 38,
            KafkaRequest::RenewDelegationTokenRequest(_) => 39,
            KafkaRequest::ExpireDelegationTokenRequest(_) => 40,
            KafkaRequest::DescribeDelegationTokenRequest(_) => 41,
            KafkaRequest::DeleteGroupsRequest(_) => 42,
            KafkaRequest::ElectLeadersRequest(_) => 43,
            KafkaRequest::IncrementalAlterConfigsRequest(_) => 44,
            KafkaRequest::AlterPartitionReassignmentsRequest(_) => 45,
            KafkaRequest::ListPartitionReassignmentsRequest(_) => 46,
            KafkaRequest::OffsetDeleteRequest(_) => 47,
            KafkaRequest::DescribeClientQuotasRequest(_) => 48,
            KafkaRequest::AlterClientQuotasRequest(_) => 49,
            KafkaRequest::DescribeUserScramCredentialsRequest(_) => 50,
            KafkaRequest::AlterUserScramCredentialsRequest(_) => 51,
            KafkaRequest::VoteRequest(_) => 52,
            KafkaRequest::BeginQuorumEpochRequest(_) => 53,
            KafkaRequest::EndQuorumEpochRequest(_) => 54,
            KafkaRequest::DescribeQuorumRequest(_) => 55,
            KafkaRequest::AlterPartitionRequest(_) => 56,
            KafkaRequest::UpdateFeaturesRequest(_) => 57,
            KafkaRequest::EnvelopeRequest(_) => 58,
            KafkaRequest::FetchSnapshotRequest(_) => 59,
            KafkaRequest::DescribeClusterRequest(_) => 60,
            KafkaRequest::DescribeProducersRequest(_) => 61,
            KafkaRequest::BrokerRegistrationRequest(_) => 62,
            KafkaRequest::BrokerHeartbeatRequest(_) => 63,
            KafkaRequest::UnregisterBrokerRequest(_) => 64,
            KafkaRequest::DescribeTransactionsRequest(_) => 65,
            KafkaRequest::ListTransactionsRequest(_) => 66,
            KafkaRequest::AllocateProducerIdsRequest(_) => 67,
            KafkaRequest::ConsumerGroupHeartbeatRequest(_) => 68,
            KafkaRequest::ConsumerGroupDescribeRequest(_) => 69,
            KafkaRequest::ControllerRegistrationRequest(_) => 70,
            KafkaRequest::GetTelemetrySubscriptionsRequest(_) => 71,
            KafkaRequest::PushTelemetryRequest(_) => 72,
            KafkaRequest::AssignReplicasToDirsRequest(_) => 73,
            KafkaRequest::ListClientMetricsResourcesRequest(_) => 74,
            KafkaRequest::DescribeTopicPartitionsRequest(_) => 75,
        }
    }

    /// The message encoded under the given API version, or `Err` where
    /// `kafka-protocol` refuses to encode it.
    pub fn encode_body(&self, version: i16) -> (r: Result<Vec<u8>, ()>)
        ensures
            r is Ok <==> request_encoding(*self, version) is Some,
            r matches Ok(b) ==> request_encoding(*self, version) == Some(b@),
    {
        match self {
            KafkaRequest::ProduceRequest(m) => encode_produce_request(m, version),
            KafkaRequest::FetchRequest(m) => encode_fetch_request(m, version),
            KafkaRequest::ListOffsetsRequest(m) => encode_list_offsets_request(m, version),
            KafkaRequest::MetadataRequest(m) => encode_metadata_request(m, version),
            KafkaRequest::LeaderAndIsrRequest(m) => encode_leader_and_isr_request(m, version),
            KafkaRequest::StopReplicaRequest(m) => encode_stop_replica_request(m, version),
            KafkaRequest::UpdateMetadataRequest(m) => encode_update_metadata_request(m, version),
            KafkaRequest::ControlledShutdownRequest(m) => encode_controlled_shutdown_request(m, version),
            KafkaRequest::OffsetCommitRequest(m) => encode_offset_commit_request(m, version),
            KafkaRequest::OffsetFetchRequest(m) => encode_offset_fetch_request(m, version),
            KafkaRequest::FindCoordinatorRequest(m) => encode_find_coordinator_request(m, version),
            KafkaRequest::JoinGroupRequest(m) => encode_join_group_request(m, version),
            KafkaRequest::HeartbeatRequest(m) => encode_heartbeat_request(m, version),
            KafkaRequest::LeaveGroupRequest(m) => encode_leave_group_request(m, version),
            KafkaRequest::SyncGroupRequest(m) => encode_sync_group_request(m, version),
            KafkaRequest::DescribeGroupsRequest(m) => encode_describe_groups_request(m, version),
            KafkaRequest::ListGroupsRequest(m) => encode_list_groups_request(m, version),
            KafkaRequest::SaslHandshakeRequest(m) => encode_sasl_handshake_request(m, version),
            KafkaRequest::ApiVersionsRequest(m) => encode_api_versions_request(m, version),
            KafkaRequest::CreateTopicsRequest(m) => encode_create_topics_request(m, version),
            KafkaRequest::DeleteTopicsRequest(m) => encode_delete_topics_request(m, version),
            KafkaRequest::DeleteRecordsRequest(m) => encode_delete_records_request(m, version),
            KafkaRequest::InitProducerIdRequest(m) => encode_init_producer_id_request(m, version),
            KafkaRequest::OffsetForLeaderEpochRequest(m) => encode_offset_for_leader_epoch_request(m, version),
            KafkaRequest::AddPartitionsToTxnRequest(m) => encode_add_partitions_to_txn_request(m, version),
            KafkaRequest::AddOffsetsToTxnRequest(m) => encode_add_offsets_to_txn_request(m, version),
            KafkaRequest::EndTxnRequest(m) => encode_end_txn_request(m, version),
            KafkaRequest::WriteTxnMarkersRequest(m) => encode_write_txn_markers_request(m, version),
            KafkaRequest::TxnOffsetCommitRequest(m) => encode_txn_offset_commit_request(m, version),
            KafkaRequest::DescribeAclsRequest(m) => encode_describe_acls_request(m, version),
            KafkaRequest::CreateAclsRequest(m) => encode_create_acls_request(m, version),
            KafkaRequest::DeleteAclsRequest(m) => encode_delete_acls_request(m, version),
            KafkaRequest::DescribeConfigsRequest(m) => encode_describe_configs_request(m, version),
            KafkaRequest::AlterConfigsRequest(m) => encode_alter_configs_request(m, version),
            KafkaRequest::AlterReplicaLogDirsRequest(m) => encode_alter_replica_log_dirs_request(m, version),
            KafkaRequest::DescribeLogDirsRequest(m) => encode_describe_log_dirs_request(m, version),
            KafkaRequest::SaslAuthenticateRequest(m) => encode_sasl_authenticate_request(m, version),
            KafkaRequest::CreatePartitionsRequest(m) => encode_create_partitions_request(m, version),
            KafkaRequest::CreateDelegationTokenRequest(m) => encode_create_delegation_token_request(m, version),
            KafkaRequest::RenewDelegationTokenRequest(m) => encode_renew_delegation_token_request(m, version),
            KafkaRequest::ExpireDelegationTokenRequest(m) => encode_expire_delegation_token_request(m, version),
            KafkaRequest::DescribeDelegationTokenRequest(m) => encode_describe_delegation_token_request(m, version),
            KafkaRequest::DeleteGroupsRequest(m) => encode_delete_groups_request(m, version),
            KafkaRequest::ElectLeadersRequest(m) => encode_elect_leaders_request(m, version),
            KafkaRequest::IncrementalAlterConfigsRequest(m) => encode_incremental_alter_configs_request(m, version),
            KafkaRequest::AlterPartitionReassignmentsRequest(m) => encode_alter_partition_reassignments_request(m, version),
            KafkaRequest::ListPartitionReassignmentsRequest(m) => encode_list_partition_reassignments_request(m, version),
            KafkaRequest::OffsetDeleteRequest(m) => encode_offset_delete_request(m, version),
            KafkaRequest::DescribeClientQuotasRequest(m) => encode_describe_client_quotas_request(m, version),
            KafkaRequest::AlterClientQuotasRequest(m) => encode_alter_client_quotas_request(m, version),
            KafkaRequest::DescribeUserScramCredentialsRequest(m) => encode_describe_user_scram_credentials_request(m, version),
            KafkaRequest::AlterUserScramCredentialsRequest(m) => encode_alter_user_scram_credentials_request(m, version),
            KafkaRequest::VoteRequest(m) => encode_vote_request(m, version),
            KafkaRequest::BeginQuorumEpochRequest(m) => encode_begin_quorum_epoch_request(m, version),
            KafkaRequest::EndQuorumEpochRequest(m) => encode_end_quorum_epoch_request(m, version),
            KafkaRequest::DescribeQuorumRequest(m) => encode_describe_quorum_request(m, version),
            KafkaRequest::AlterPartitionRequest(m) => encode_alter_partition_request(m, version),
            KafkaRequest::UpdateFeaturesRequest(m) => encode_update_features_request(m, version),
            KafkaRequest::EnvelopeRequest(m) => encode_envelope_request(m, version),
            KafkaRequest::FetchSnapshotRequest(m) => encode_fetch_snapshot_request(m, version),
            KafkaRequest::DescribeClusterRequest(m) => encode_describe_cluster_request(m, version),
            KafkaRequest::DescribeProducersRequest(m) => encode_describe_producers_request(m, version),
            KafkaRequest::BrokerRegistrationRequest(m) => encode_broker_registration_request(m, version),
            KafkaRequest::BrokerHeartbeatRequest(m) => encode_broker_heartbeat_request(m, version),
            KafkaRequest::UnregisterBrokerRequest(m) => encode_unregister_broker_request(m, version),
            KafkaRequest::DescribeTransactionsRequest(m) => encode_describe_transactions_request(m, version),
            KafkaRequest::ListTransactionsRequest(m) => encode_list_transactions_request(m, version),
            KafkaRequest::AllocateProducerIdsRequest(m) => encode_allocate_producer_ids_request(m, version),
            KafkaRequest::ConsumerGroupHeartbeatRequest(m) => encode_consumer_group_heartbeat_request(m, version),
            KafkaRequest::ConsumerGroupDescribeRequest(m) => encode_consumer_group_describe_request(m, version),
            KafkaRequest::ControllerRegistrationRequest(m) => encode_controller_registration_request(m, version),
            KafkaRequest::GetTelemetrySubscriptionsRequest(m) => encode_get_telemetry_subscriptions_request(m, version),
            KafkaRequest::PushTelemetryRequest(m) => encode_push_telemetry_request(m, version),
            KafkaRequest::AssignReplicasToDirsRequest(m) => encode_assign_replicas_to_dirs_request(m, version),
            KafkaRequest::ListClientMetricsResourcesRequest(m) => encode_list_client_metrics_resources_request(m, version),
            KafkaRequest::DescribeTopicPartitionsRequest(m) => encode_describe_topic_partitions_request(m, version),
        }
    }
}

/// Decodes the request of the API with the given key from the front of
/// `bytes`, under the given API version. It succeeds exactly where
/// `kafka-protocol` decodes the message, and then gives the message that it
/// decodes, of that API, and the count of the bytes it took; on failure,
/// the text of the decoder's error.
#[verifier::spinoff_prover]
#[verifier::rlimit(100)]
pub fn decode_request_body(key: i16, bytes: &[u8], version: i16) -> (r: Result<(KafkaRequest, usize), String>)
    requires
        is_api_key(key),
    ensures
        r is Ok <==> request_decoding(key, version, bytes@) is Some,
        r matches Ok((m, n)) ==> {
            &&& request_key(m) == key
            &&& request_decoding(key, version, bytes@) == Some((m, n as nat))
            &&& n <= bytes@.len()
        },
{
    match key {
        0 => match decode_produce_request(bytes, version) {
            Ok((m, rest)) => Ok((KafkaRequest::ProduceRequest(m), bytes.len() - rest)),
            Err(e) => Err(e),
        },
        1 => match decode_fetch_request(bytes, version) {
            Ok((m, rest)) => Ok((KafkaRequest::FetchRequest(m), bytes.len() - rest)),
            Err(e) => Err(e),
        },
        2 => match decode_list_offsets_request(bytes, version) {
            Ok((m, rest)) => Ok((KafkaRequest::ListOffsetsRequest(m), bytes.len() - rest)),
            Err(e) => Err(e),
        },
        3 => match decode_metadata_request(bytes, version) {
            Ok((m, rest)) => Ok((KafkaRequest::MetadataRequest(m), bytes.len() - rest)),
            Err(e) => Err(e),
        },
        4 => match decode_leader_and_isr_request(bytes, version) {
            Ok((m, rest)) => Ok((KafkaRequest::LeaderAndIsrRequest(m), bytes.len() - rest)),
            Err(e) => Err(e),
        },
        5 => match decode_stop_replica_request(bytes, version) {
            Ok((m, rest)) => Ok((KafkaRequest::StopReplicaRequest(m), bytes.len() - rest)),
            Err(e) => Err(e),
        },
        6 => match decode_update_metadata_request(bytes, version) {
            Ok((m, rest)) => Ok((KafkaRequest::UpdateMetadataRequest(m), bytes.len() - rest)),
            Err(e) => Err(e),
        },
        7 => match decode_controlled_shutdown_request(bytes, version) {
            Ok((m, rest)) => Ok((KafkaRequest::ControlledShutdownRequest(m), bytes.len() - rest)),
            Err(e) => Err(e),
        },
        8 => match decode_offset_commit_request(bytes, version) {
            Ok((m, rest)) => Ok((KafkaRequest::OffsetCommitRequest(m), bytes.len() - rest)),
            Err(e) => Err(e),
        },
        9 => match decode_offset_fetch_request(bytes, version) {
            Ok((m, rest)) => Ok((KafkaRequest::OffsetFetchRequest(m), bytes.len() - rest)),
            Err(e) => Err(e),
        },
        10 => match decode_find_coordinator_request(bytes, version) {
            Ok((m, rest)) => Ok((KafkaRequest::FindCoordinatorRequest(m), bytes.len() - rest)),
            Err(e) => Err(e),
        },
        11 => match decode_join_group_request(bytes, version) {
            Ok((m, rest)) => Ok((KafkaRequest::JoinGroupRequest(m), bytes.len() - rest)),
            Err(e) => Err(e),
        },
        12 => match decode_heartbeat_request(bytes, version) {
            Ok((m, rest)) => Ok((KafkaRequest::HeartbeatRequest(m), bytes.len() - rest)),
            Err(e) => Err(e),
        },
        13 => match decode_leave_group_request(bytes, version) {
            Ok((m, rest)) => Ok((KafkaRequest::LeaveGroupRequest(m), bytes.len() - rest)),
            Err(e) => Err(e),
        },
        14 => match decode_sync_group_request(bytes, version) {
            Ok((m, rest)) => Ok((KafkaRequest::SyncGroupRequest(m), bytes.len() - rest)),
            Err(e) => Err(e),
        },
        15 => match decode_describe_groups_request(bytes, version) {
            Ok((m, rest)) => Ok((KafkaRequest::DescribeGroupsRequest(m), bytes.len() - rest)),
            Err(e) => Err(e),
        },
        16 => match decode_list_groups_request(bytes, version) {
            Ok((m, rest)) => Ok((KafkaRequest::ListGroupsRequest(m), bytes.len() - rest)),
            Err(e) => Err(e),
        },
        17 => match decode_sasl_handshake_request(bytes, version) {
            Ok((m, rest)) => Ok((KafkaRequest::SaslHandshakeRequest(m), bytes.len() - rest)),
            Err(e) => Err(e),
        },
        18 => match decode_api_versions_request(bytes, version) {
            Ok((m, rest)) => Ok((KafkaRequest::ApiVersionsRequest(m), bytes.len() - rest)),
            Err(e) => Err(e),
        },
        19 => match decode_create_topics_request(bytes, version) {
            Ok((m, rest)) => Ok((KafkaRequest::CreateTopicsRequest(m), bytes.len() - rest)),
            Err(e) => Err(e),
        },
        20 => match decode_delete_topics_request(bytes, version) {
            Ok((m, rest)) => Ok((KafkaRequest::DeleteTopicsRequest(m), bytes.len() - rest)),
            Err(e) => Err(e),
        },
        21 => match decode_delete_records_request(bytes, version) {
            Ok((m, rest)) => Ok((KafkaRequest::DeleteRecordsRequest(m), bytes.len() - rest)),
            Err(e) => Err(e),
        },
        22 => match decode_init_producer_id_request(bytes, version) {
            Ok((m, rest)) => Ok((KafkaRequest::InitProducerIdRequest(m), bytes.len() - rest)),
            Err(e) => Err(e),
        },
        23 => match decode_offset_for_leader_epoch_request(bytes, version) {
            Ok((m, rest)) => Ok((KafkaRequest::OffsetForLeaderEpochRequest(m), bytes.len() - rest)),
            Err(e) => Err(e),
        },
        24 => match decode_add_partitions_to_txn_request(bytes, version) {
            Ok((m, rest)) => Ok((KafkaRequest::AddPartitionsToTxnRequest(m), bytes.len() - rest)),
            Err(e) => Err(e),
        },
        25 => match decode_add_offsets_to_txn_request(bytes, version) {
            Ok((m, rest)) => Ok((KafkaRequest::AddOffsetsToTxnRequest(m), bytes.len() - rest)),
            Err(e) => Err(e),
        },
        26 => match decode_end_txn_request(bytes, version) {
            Ok((m, rest)) => Ok((KafkaRequest::EndTxnRequest(m), bytes.len() - rest)),
            Err(e) => Err(e),
        },
        27 => match decode_write_txn_markers_request(bytes, version) {
            Ok((m, rest)) => Ok((KafkaRequest::WriteTxnMarkersRequest(m), bytes.len() - rest)),
            Err(e) => Err(e),
        },
        28 => match decode_txn_offset_commit_request(bytes, version) {
            Ok((m, rest)) => Ok((KafkaRequest::TxnOffsetCommitRequest(m), bytes.len() - rest)),
            Err(e) => Err(e),
        },
        29 => match decode_describe_acls_request(bytes, version) {
            Ok((m, rest)) => Ok((KafkaRequest::DescribeAclsRequest(m), bytes.len() - rest)),
            Err(e) => Err(e),
        },
        30 => match decode_create_acls_request(bytes, version) {
            Ok((m, rest)) => Ok((KafkaRequest::CreateAclsRequest(m), bytes.len() - rest)),
            Err(e) => Err(e),
        },
        31 => match decode_delete_acls_request(bytes, version) {
            Ok((m, rest)) => Ok((KafkaRequest::DeleteAclsRequest(m), bytes.len() - rest)),
            Err(e) => Err(e),
        },
        32 => match decode_describe_configs_request(bytes, version) {
            Ok((m, rest)) => Ok((KafkaRequest::DescribeConfigsRequest(m), bytes.len() - rest)),
            Err(e) => Err(e),
        },
        33 => match decode_alter_configs_request(bytes, version) {
            Ok((m, rest)) => Ok((KafkaRequest::AlterConfigsRequest(m), bytes.len() - rest)),
            Err(e) => Err(e),
        },
        34 => match decode_alter_replica_log_dirs_request(bytes, version) {
            Ok((m, rest)) => Ok((KafkaRequest::AlterReplicaLogDirsRequest(m), bytes.len() - rest)),
            Err(e) => Err(e),
        },
        35 => match decode_describe_log_dirs_request(bytes, version) {
            Ok((m, rest)) => Ok((KafkaRequest::DescribeLogDirsRequest(m), bytes.len() - rest)),
            Err(e) => Err(e),
        },
        36 => match decode_sasl_authenticate_request(bytes, version) {
            Ok((m, rest)) => Ok((KafkaRequest::SaslAuthenticateRequest(m), bytes.len() - rest)),
            Err(e) => Err(e),
        },
        37 => match decode_create_partitions_request(bytes, version) {
            Ok((m, rest)) => Ok((KafkaRequest::CreatePartitionsRequest(m), bytes.len() - rest)),
            Err(e) => Err(e),
        },
        38 => match decode_create_delegation_token_request(bytes, version) {
            Ok((m, rest)) => Ok((KafkaRequest::CreateDelegationTokenRequest(m), bytes.len() - rest)),
            Err(e) => Err(e),
        },
        39 => match decode_renew_delegation_token_request(bytes, version) {
            Ok((m, rest)) => Ok((KafkaRequest::RenewDelegationTokenRequest(m), bytes.len() - rest)),
            Err(e) => Err(e),
        },
        40 => match decode_expire_delegation_token_request(bytes, version) {
            Ok((m, rest)) => Ok((KafkaRequest::ExpireDelegationTokenRequest(m), bytes.len() - rest)),
            Err(e) => Err(e),
        },
        41 => match decode_describe_delegation_token_request(bytes, version) {
            Ok((m, rest)) => Ok((KafkaRequest::DescribeDelegationTokenRequest(m), bytes.len() - rest)),
            Err(e) => Err(e),
        },
        42 => match decode_delete_groups_request(bytes, version) {
            Ok((m, rest)) => Ok((KafkaRequest::DeleteGroupsRequest(m), bytes.len() - rest)),
            Err(e) => Err(e),
        },
        43 => match decode_elect_leaders_request(bytes, version) {
            Ok((m, rest)) => Ok((KafkaRequest::ElectLeadersRequest(m), bytes.len() - rest)),
            Err(e) => Err(e),
        },
        44 => match decode_incremental_alter_configs_request(bytes, version) {
            Ok((m, rest)) => Ok((KafkaRequest::IncrementalAlterConfigsRequest(m), bytes.len() - rest)),
            Err(e) => Err(e),
        },
        45 => match decode_alter_partition_reassignments_request(bytes, version) {
            Ok((m, rest)) => Ok((KafkaRequest::AlterPartitionReassignmentsRequest(m), bytes.len() - rest)),
            Err(e) => Err(e),
        },
        46 => match decode_list_partition_reassignments_request(bytes, version) {
            Ok((m, rest)) => Ok((KafkaRequest::ListPartitionReassignmentsRequest(m), bytes.len() - rest)),
            Err(e) => Err(e),
        },
        47 => match decode_offset_delete_request(bytes, version) {
            Ok((m, rest)) => Ok((KafkaRequest::OffsetDeleteRequest(m), bytes.len() - rest)),
            Err(e) => Err(e),
        },
        48 => match decode_describe_client_quotas_request(bytes, version) {
            Ok((m, rest)) => Ok((KafkaRequest::DescribeClientQuotasRequest(m), bytes.len() - rest)),
            Err(e) => Err(e),
        },
        49 => match decode_alter_client_quotas_request(bytes, version) {
            Ok((m, rest)) => Ok((KafkaRequest::AlterClientQuotasRequest(m), bytes.len() - rest)),
            Err(e) => Err(e),
        },
        50 => match decode_describe_user_scram_credentials_request(bytes, version) {
            Ok((m, rest)) => Ok((KafkaRequest::DescribeUserScramCredentialsRequest(m), bytes.len() - rest)),
            Err(e) => Err(e),
        },
        51 => match decode_alter_user_scram_credentials_request(bytes, version) {
            Ok((m, rest)) => Ok((KafkaRequest::AlterUserScramCredentialsRequest(m), bytes.len() - rest)),
            Err(e) => Err(e),
        },
        52 => match decode_vote_request(bytes, version) {
            Ok((m, rest)) => Ok((KafkaRequest::VoteRequest(m), bytes.len() - rest)),
            Err(e) => Err(e),
        },
        53 => match decode_begin_quorum_epoch_request(bytes, version) {
            Ok((m, rest)) => Ok((KafkaRequest::BeginQuorumEpochRequest(m), bytes.len() - rest)),
            Err(e) => Err(e),
        },
        54 => match decode_end_quorum_epoch_request(bytes, version) {
            Ok((m, rest)) => Ok((KafkaRequest::EndQuorumEpochRequest(m), bytes.len() - rest)),
            Err(e) => Err(e),
        },
        55 => match decode_describe_quorum_request(bytes, version) {
            Ok((m, rest)) => Ok((KafkaRequest::DescribeQuorumRequest(m), bytes.len() - rest)),
            Err(e) => Err(e),
        },
        56 => match decode_alter_partition_request(bytes, version) {
            Ok((m, rest)) => Ok((KafkaRequest::AlterPartitionRequest(m), bytes.len() - rest)),
            Err(e) => Err(e),
        },
        57 => match decode_update_features_request(bytes, version) {
            Ok((m, rest)) => Ok((KafkaRequest::UpdateFeaturesRequest(m), bytes.len() - rest)),
            Err(e) => Err(e),
        },
        58 => match decode_envelope_request(bytes, version) {
            Ok((m, rest)) => Ok((KafkaRequest::EnvelopeRequest(m), bytes.len() - rest)),
            Err(e) => Err(e),
        },
        59 => match decode_fetch_snapshot_request(bytes, version) {
            Ok((m, rest)) => Ok((KafkaRequest::FetchSnapshotRequest(m), bytes.len() - rest)),
            Err(e) => Err(e),
        },
        60 => match decode_describe_cluster_request(bytes, version) {
            Ok((m, rest)) => Ok((KafkaRequest::DescribeClusterRequest(m), bytes.len() - rest)),
            Err(e) => Err(e),
        },
        61 => match decode_describe_producers_request(bytes, version) {
            Ok((m, rest)) => Ok((KafkaRequest::DescribeProducersRequest(m), bytes.len() - rest)),
            Err(e) => Err(e),
        },
        62 => match decode_broker_registration_request(bytes, version) {
            Ok((m, rest)) => Ok((KafkaRequest::BrokerRegistrationRequest(m), bytes.len() - rest)),
            Err(e) => Err(e),
        },
        63 => match decode_broker_heartbeat_request(bytes, version) {
            Ok((m, rest)) => Ok((KafkaRequest::BrokerHeartbeatRequest(m), bytes.len() - rest)),
            Err(e) => Err(e),
        },
        64 => match decode_unregister_broker_request(bytes, version) {
            Ok((m, rest)) => Ok((KafkaRequest::UnregisterBrokerRequest(m), bytes.len() - rest)),
            Err(e) => Err(e),
        },
        65 => match decode_describe_transactions_request(bytes, version) {
            Ok((m, rest)) => Ok((KafkaRequest::DescribeTransactionsRequest(m), bytes.len() - rest)),
            Err(e) => Err(e),
        },
        66 => match decode_list_transactions_request(bytes, version) {
            Ok((m, rest)) => Ok((KafkaRequest::ListTransactionsRequest(m), bytes.len() - rest)),
            Err(e) => Err(e),
        },
        67 => match decode_allocate_producer_ids_request(bytes, version) {
            Ok((m, rest)) => Ok((KafkaRequest::AllocateProducerIdsRequest(m), bytes.len() - rest)),
            Err(e) => Err(e),
        },
        68 => match decode_consumer_group_heartbeat_request(bytes, version) {
            Ok((m, rest)) => Ok((KafkaRequest::ConsumerGroupHeartbeatRequest(m), bytes.len() - rest)),
            Err(e) => Err(e),
        },
        69 => match decode_consumer_group_describe_request(bytes, version) {
            Ok((m, rest)) => Ok((KafkaRequest::ConsumerGroupDescribeRequest(m), bytes.len() - rest)),
            Err(e) => Err(e),
        },
        70 => match decode_controller_registration_request(bytes, version) {
            Ok((m, rest)) => Ok((KafkaRequest::ControllerRegistrationRequest(m), bytes.len() - rest)),
            Err(e) => Err(e),
        },
        71 => match decode_get_telemetry_subscriptions_request(bytes, version) {
            Ok((m, rest)) => Ok((KafkaRequest::GetTelemetrySubscriptionsRequest(m), bytes.len() - rest)),
            Err(e) => Err(e),
        },
        72 => match decode_push_telemetry_request(bytes, version) {
            Ok((m, rest)) => Ok((KafkaRequest::PushTelemetryRequest(m), bytes.len() - rest)),
            Err(e) => Err(e),
        },
        73 => match decode_assign_replicas_to_dirs_request(bytes, version) {
            Ok((m, rest)) => Ok((KafkaRequest::AssignReplicasToDirsRequest(m), bytes.len() - rest)),
            Err(e) => Err(e),
        },
        74 => match decode_list_client_metrics_resources_request(bytes, version) {
            Ok((m, rest)) => Ok((KafkaRequest::ListClientMetricsResourcesRequest(m), bytes.len() - rest)),
            Err(e) => Err(e),
        },
        _ => match decode_describe_topic_partitions_request(bytes, version) {
            Ok((m, rest)) => Ok((KafkaRequest::DescribeTopicPartitionsRequest(m), bytes.len() - rest)),
            Err(e) => Err(e),
        },
    }
}

impl KafkaResponse {
    /// The API key of this response.
    pub fn api_key(&self) -> (k: i16)
        ensures
            k == response_key(*self),
    {
        match self {
            KafkaResponse::ProduceResponse(_) => 0,
            KafkaResponse::FetchResponse(_) => 1,
            KafkaResponse::ListOffsetsResponse(_) => 2,
            KafkaResponse::MetadataResponse(_) => 3,
            KafkaResponse::LeaderAndIsrResponse(_) => 4,
            KafkaResponse::StopReplicaResponse(_) => 5,
            KafkaResponse::UpdateMetadataResponse(_) => 6,
            KafkaResponse::ControlledShutdownResponse(_) => 7,
            KafkaResponse::OffsetCommitResponse(_) => 8,
            KafkaResponse::OffsetFetchResponse(_) => 9,
            KafkaResponse::FindCoordinatorResponse(_) => 10,
            KafkaResponse::JoinGroupResponse(_) => 11,
            KafkaResponse::HeartbeatResponse(_) => 12,
            KafkaResponse::LeaveGroupResponse(_) => 13,
            KafkaResponse::SyncGroupResponse(_) => 14,
            KafkaResponse::DescribeGroupsResponse(_) => 15,
            KafkaResponse::ListGroupsResponse(_) => 16,
            KafkaResponse::SaslHandshakeResponse(_) => 17,
            KafkaResponse::ApiVersionsResponse(_) => 18,
            KafkaResponse::CreateTopicsResponse(_) => 19,
            KafkaResponse::DeleteTopicsResponse(_) => 20,
            KafkaResponse::DeleteRecordsResponse(_) => 21,
            KafkaResponse::InitProducerIdResponse(_) => 22,
            KafkaResponse::OffsetForLeaderEpochResponse(_) => 23,
            KafkaResponse::AddPartitionsToTxnResponse(_) => 24,
            KafkaResponse::AddOffsetsToTxnResponse(_) => 25,
            KafkaResponse::EndTxnResponse(_) => 26,
            KafkaResponse::WriteTxnMarkersResponse(_) => 27,
            KafkaResponse::TxnOffsetCommitResponse(_) => 28,
            KafkaResponse::DescribeAclsResponse(_) => 29,
            KafkaResponse::CreateAclsResponse(_) => 30,
            KafkaResponse::DeleteAclsResponse(_) => 31,
            KafkaResponse::DescribeConfigsResponse(_) => 32,
            KafkaResponse::AlterConfigsResponse(_) => 33,
            KafkaResponse::AlterReplicaLogDirsResponse(_) => 34,
            KafkaResponse::DescribeLogDirsResponse(_) => 35,
            KafkaResponse::SaslAuthenticateResponse(_) => 36,
            KafkaResponse::CreatePartitionsResponse(_) => 37,
            KafkaResponse::CreateDelegationTokenResponse(_) => 38,
            KafkaResponse::RenewDelegationTokenResponse(_) => 39,
            KafkaResponse::ExpireDelegationTokenResponse(_) => 40,
            KafkaResponse::DescribeDelegationTokenResponse(_) => 41,
            KafkaResponse::DeleteGroupsResponse(_) => 42,
            KafkaResponse::ElectLeadersResponse(_) => 43,
            KafkaResponse::IncrementalAlterConfigsResponse(_) => 44,
            KafkaResponse::AlterPartitionReassignmentsResponse(_) => 45,
            KafkaResponse::ListPartitionReassignmentsResponse(_) => 46,
            KafkaResponse::OffsetDeleteResponse(_) => 47,
            KafkaResponse::DescribeClientQuotasResponse(_) => 48,
            KafkaResponse::AlterClientQuotasResponse(_) => 49,
            KafkaResponse::DescribeUserScramCredentialsResponse(_) => 50,
            KafkaResponse::AlterUserScramCredentialsResponse(_) => 51,
            KafkaResponse::VoteResponse(_) => 52,
            KafkaResponse::BeginQuorumEpochResponse(_) => 53,
            KafkaResponse::EndQuorumEpochResponse(_) => 54,
            KafkaResponse::DescribeQuorumResponse(_) => 55,
            KafkaResponse::AlterPartitionResponse(_) => 56,
            KafkaResponse::UpdateFeaturesResponse(_) => 57,
            KafkaResponse::EnvelopeResponse(_) => 58,
            KafkaResponse::FetchSnapshotResponse(_) => 59,
            KafkaResponse::DescribeClusterResponse(_) => 60,
            KafkaResponse::DescribeProducersResponse(_) => 61,
            KafkaResponse::BrokerRegistrationResponse(_) => 62,
            KafkaResponse::BrokerHeartbeatResponse(_) => 63,
            KafkaResponse::UnregisterBrokerResponse(_) => 64,
            KafkaResponse::DescribeTransactionsResponse(_) => 65,
            KafkaResponse::ListTransactionsResponse(_) => 66,
            KafkaResponse::AllocateProducerIdsResponse(_) => 67,
            KafkaResponse::ConsumerGroupHeartbeatResponse(_) => 68,
            KafkaResponse::ConsumerGroupDescribeResponse(_) => 69,
            KafkaResponse::ControllerRegistrationResponse(_) => 70,
            KafkaResponse::GetTelemetrySubscriptionsResponse(_) => 71,
            KafkaResponse::PushTelemetryResponse(_) => 72,
            KafkaResponse::AssignReplicasToDirsResponse(_) => 73,
            KafkaResponse::ListClientMetricsResourcesResponse(_) => 74,
            KafkaResponse::DescribeTopicPartitionsResponse(_) => 75,
        }
    }

    /// The message encoded under the given API version, or `Err` where
    /// `kafka-protocol` refuses to encode it.
    pub fn encode_body(&self, version: i16) -> (r: Result<Vec<u8>, ()>)
        ensures
            r is Ok <==> response_encoding(*self, version) is Some,
            r matches Ok(b) ==> response_encoding(*self, version) == Some(b@),
    {
        match self {
            KafkaResponse::ProduceResponse(m) => encode_produce_response(m, version),
            KafkaResponse::FetchResponse(m) => encode_fetch_response(m, version),
            KafkaResponse::ListOffsetsResponse(m) => encode_list_offsets_response(m, version),
            KafkaResponse::MetadataResponse(m) => encode_metadata_response(m, version),
            KafkaResponse::LeaderAndIsrResponse(m) => encode_leader_and_isr_response(m, version),
            KafkaResponse::StopReplicaResponse(m) => encode_stop_replica_response(m, version),
            KafkaResponse::UpdateMetadataResponse(m) => encode_update_metadata_response(m, version),
            KafkaResponse::ControlledShutdownResponse(m) => encode_controlled_shutdown_response(m, version),
            KafkaResponse::OffsetCommitResponse(m) => encode_offset_commit_response(m, version),
            KafkaResponse::OffsetFetchResponse(m) => encode_offset_fetch_response(m, version),
            KafkaResponse::FindCoordinatorResponse(m) => encode_find_coordinator_response(m, version),
            KafkaResponse::JoinGroupResponse(m) => encode_join_group_response(m, version),
            KafkaResponse::HeartbeatResponse(m) => encode_heartbeat_response(m, version),
            KafkaResponse::LeaveGroupResponse(m) => encode_leave_group_response(m, version),
            KafkaResponse::SyncGroupResponse(m) => encode_sync_group_response(m, version),
            KafkaResponse::DescribeGroupsResponse(m) => encode_describe_groups_response(m, version),
            KafkaResponse::ListGroupsResponse(m) => encode_list_groups_response(m, version),
            KafkaResponse::SaslHandshakeResponse(m) => encode_sasl_handshake_response(m, version),
            KafkaResponse::ApiVersionsResponse(m) => encode_api_versions_response(m, version),
            KafkaResponse::CreateTopicsResponse(m) => encode_create_topics_response(m, version),
            KafkaResponse::DeleteTopicsResponse(m) => encode_delete_topics_response(m, version),
            KafkaResponse::DeleteRecordsResponse(m) => encode_delete_records_response(m, version),
            KafkaResponse::InitProducerIdResponse(m) => encode_init_producer_id_response(m, version),
            KafkaResponse::OffsetForLeaderEpochResponse(m) => encode_offset_for_leader_epoch_response(m, version),
            KafkaResponse::AddPartitionsToTxnResponse(m) => encode_add_partitions_to_txn_response(m, version),
            KafkaResponse::AddOffsetsToTxnResponse(m) => encode_add_offsets_to_txn_response(m, version),
            KafkaResponse::EndTxnResponse(m) => encode_end_txn_response(m, version),
            KafkaResponse::WriteTxnMarkersResponse(m) => encode_write_txn_markers_response(m, version),
            KafkaResponse::TxnOffsetCommitResponse(m) => encode_txn_offset_commit_response(m, version),
            KafkaResponse::DescribeAclsResponse(m) => encode_describe_acls_response(m, version),
            KafkaResponse::CreateAclsResponse(m) => encode_create_acls_response(m, version),
            KafkaResponse::DeleteAclsResponse(m) => encode_delete_acls_response(m, version),
            KafkaResponse::DescribeConfigsResponse(m) => encode_describe_configs_response(m, version),
            KafkaResponse::AlterConfigsResponse(m) => encode_alter_configs_response(m, version),
            KafkaResponse::AlterReplicaLogDirsResponse(m) => encode_alter_replica_log_dirs_response(m, version),
            KafkaResponse::DescribeLogDirsResponse(m) => encode_describe_log_dirs_response(m, version),
            KafkaResponse::SaslAuthenticateResponse(m) => encode_sasl_authenticate_response(m, version),
            KafkaResponse::CreatePartitionsResponse(m) => encode_create_partitions_response(m, version),
            KafkaResponse::CreateDelegationTokenResponse(m) => encode_create_delegation_token_response(m, version),
            KafkaResponse::RenewDelegationTokenResponse(m) => encode_renew_delegation_token_response(m, version),
            KafkaResponse::ExpireDelegationTokenResponse(m) => encode_expire_delegation_token_response(m, version),
            KafkaResponse::DescribeDelegationTokenResponse(m) => encode_describe_delegation_token_response(m, version),
            KafkaResponse::DeleteGroupsResponse(m) => encode_delete_groups_response(m, version),
            KafkaResponse::ElectLeadersResponse(m) => encode_elect_leaders_response(m, version),
            KafkaResponse::IncrementalAlterConfigsResponse(m) => encode_incremental_alter_configs_response(m, version),
            KafkaResponse::AlterPartitionReassignmentsResponse(m) => encode_alter_partition_reassignments_response(m, version),
            KafkaResponse::ListPartitionReassignmentsResponse(m) => encode_list_partition_reassignments_response(m, version),
            KafkaResponse::OffsetDeleteResponse(m) => encode_offset_delete_response(m, version),
            KafkaResponse::DescribeClientQuotasResponse(m) => encode_describe_client_quotas_response(m, version),
            KafkaResponse::AlterClientQuotasResponse(m) => encode_alter_client_quotas_response(m, version),
            KafkaResponse::DescribeUserScramCredentialsResponse(m) => encode_describe_user_scram_credentials_response(m, version),
            KafkaResponse::AlterUserScramCredentialsResponse(m) => encode_alter_user_scram_credentials_response(m, version),
            KafkaResponse::VoteResponse(m) => encode_vote_response(m, version),
            KafkaResponse::BeginQuorumEpochResponse(m) => encode_begin_quorum_epoch_response(m, version),
            KafkaResponse::EndQuorumEpochResponse(m) => encode_end_quorum_epoch_response(m, version),
            KafkaResponse::DescribeQuorumResponse(m) => encode_describe_quorum_response(m, version),
            KafkaResponse::AlterPartitionResponse(m) => encode_alter_partition_response(m, version),
            KafkaResponse::UpdateFeaturesResponse(m) => encode_update_features_response(m, version),
            KafkaResponse::EnvelopeResponse(m) => encode_envelope_response(m, version),
            KafkaResponse::FetchSnapshotResponse(m) => encode_fetch_snapshot_response(m, version),
            KafkaResponse::DescribeClusterResponse(m) => encode_describe_cluster_response(m, version),
            KafkaResponse::DescribeProducersResponse(m) => encode_describe_producers_response(m, version),
            KafkaResponse::BrokerRegistrationResponse(m) => encode_broker_registration_response(m, version),
            KafkaResponse::BrokerHeartbeatResponse(m) => encode_broker_heartbeat_response(m, version),
            KafkaResponse::UnregisterBrokerResponse(m) => encode_unregister_broker_response(m, version),
            KafkaResponse::DescribeTransactionsResponse(m) => encode_describe_transactions_response(m, version),
            KafkaResponse::ListTransactionsResponse(m) => encode_list_transactions_response(m, version),
            KafkaResponse::AllocateProducerIdsResponse(m) => encode_allocate_producer_ids_response(m, version),
            KafkaResponse::ConsumerGroupHeartbeatResponse(m) => encode_consumer_group_heartbeat_response(m, version),
            KafkaResponse::ConsumerGroupDescribeResponse(m) => encode_consumer_group_describe_response(m, version),
            KafkaResponse::ControllerRegistrationResponse(m) => encode_controller_registration_response(m, version),
            KafkaResponse::GetTelemetrySubscriptionsResponse(m) => encode_get_telemetry_subscriptions_response(m, version),
            KafkaResponse::PushTelemetryResponse(m) => encode_push_telemetry_response(m, version),
            KafkaResponse::AssignReplicasToDirsResponse(m) => encode_assign_replicas_to_dirs_response(m, version),
            KafkaResponse::ListClientMetricsResourcesResponse(m) => encode_list_client_metrics_resources_response(m, version),
            KafkaResponse::DescribeTopicPartitionsResponse(m) => encode_describe_topic_partitions_response(m, version),
        }
    }
}

/// Decodes the response of the API with the given key from the front of
/// `bytes`, under the given API version. It succeeds exactly where
/// `kafka-protocol` decodes the message, and then gives the message that it
/// decodes, of that API, and the count of the bytes it took; on failure,
/// the text of the decoder's error.
#[verifier::spinoff_prover]
#[verifier::rlimit(100)]
pub fn decode_response_body(key: i16, bytes: &[u8], version: i16) -> (r: Result<(KafkaResponse, usize), String>)
    requires
        is_api_key(key),
    ensures
        r is Ok <==> response_decoding(key, version, bytes@) is Some,
        r matches Ok((m, n)) ==> {
            &&& response_key(m) == key
            &&& response_decoding(key, version, bytes@) == Some((m, n as nat))
            &&& n <= bytes@.len()
        },
{
    match key {
        0 => match decode_produce_response(bytes, version) {
            Ok((m, rest)) => Ok((KafkaResponse::ProduceResponse(m), bytes.len() - rest)),
            Err(e) => Err(e),
        },
        1 => match decode_fetch_response(bytes, version) {
            Ok((m, rest)) => Ok((KafkaResponse::FetchResponse(m), bytes.len() - rest)),
            Err(e) => Err(e),
        },
        2 => match decode_list_offsets_response(bytes, version) {
            Ok((m, rest)) => Ok((KafkaResponse::ListOffsetsResponse(m), bytes.len() - rest)),
            Err(e) => Err(e),
        },
        3 => match decode_metadata_response(bytes, version) {
            Ok((m, rest)) => Ok((KafkaResponse::MetadataResponse(m), bytes.len() - rest)),
            Err(e) => Err(e),
        },
        4 => match decode_leader_and_isr_response(bytes, version) {
            Ok((m, rest)) => Ok((KafkaResponse::LeaderAndIsrResponse(m), bytes.len() - rest)),
            Err(e) => Err(e),
        },
        5 => match decode_stop_replica_response(bytes, version) {
            Ok((m, rest)) => Ok((KafkaResponse::StopReplicaResponse(m), bytes.len() - rest)),
            Err(e) => Err(e),
        },
        6 => match decode_update_metadata_response(bytes, version) {
            Ok((m, rest)) => Ok((KafkaResponse::UpdateMetadataResponse(m), bytes.len() - rest)),
            Err(e) => Err(e),
        },
        7 => match decode_controlled_shutdown_response(bytes, version) {
            Ok((m, rest)) => Ok((KafkaResponse::ControlledShutdownResponse(m), bytes.len() - rest)),
            Err(e) => Err(e),
        },
        8 => match decode_offset_commit_response(bytes, version) {
            Ok((m, rest)) => Ok((KafkaResponse::OffsetCommitResponse(m), bytes.len() - rest)),
            Err(e) => Err(e),
        },
        9 => match decode_offset_fetch_response(bytes, version) {
            Ok((m, rest)) => Ok((KafkaResponse::OffsetFetchResponse(m), bytes.len() - rest)),
            Err(e) => Err(e),
        },
        10 => match decode_find_coordinator_response(bytes, version) {
            Ok((m, rest)) => Ok((KafkaResponse::FindCoordinatorResponse(m), bytes.len() - rest)),
            Err(e) => Err(e),
        },
        11 => match decode_join_group_response(bytes, version) {
            Ok((m, rest)) => Ok((KafkaResponse::JoinGroupResponse(m), bytes.len() - rest)),
            Err(e) => Err(e),
        },
        12 => match decode_heartbeat_response(bytes, version) {
            Ok((m, rest)) => Ok((KafkaResponse::HeartbeatResponse(m), bytes.len() - rest)),
            Err(e) => Err(e),
        },
        13 => match decode_leave_group_response(bytes, version) {
            Ok((m, rest)) => Ok((KafkaResponse::LeaveGroupResponse(m), bytes.len() - rest)),
            Err(e) => Err(e),
        },
        14 => match decode_sync_group_response(bytes, version) {
            Ok((m, rest)) => Ok((KafkaResponse::SyncGroupResponse(m), bytes.len() - rest)),
            Err(e) => Err(e),
        },
        15 => match decode_describe_groups_response(bytes, version) {
            Ok((m, rest)) => Ok((KafkaResponse::DescribeGroupsResponse(m), bytes.len() - rest)),
            Err(e) => Err(e),
        },
        16 => match decode_list_groups_response(bytes, version) {
            Ok((m, rest)) => Ok((KafkaResponse::ListGroupsResponse(m), bytes.len() - rest)),
            Err(e) => Err(e),
        },
        17 => match decode_sasl_handshake_response(bytes, version) {
            Ok((m, rest)) => Ok((KafkaResponse::SaslHandshakeResponse(m), bytes.len() - rest)),
            Err(e) => Err(e),
        },
        18 => match decode_api_versions_response(bytes, version) {
            Ok((m, rest)) => Ok((KafkaResponse::ApiVersionsResponse(m), bytes.len() - rest)),
            Err(e) => Err(e),
        },
        19 => match decode_create_topics_response(bytes, version) {
            Ok((m, rest)) => Ok((KafkaResponse::CreateTopicsResponse(m), bytes.len() - rest)),
            Err(e) => Err(e),
        },
        20 => match decode_delete_topics_response(bytes, version) {
            Ok((m, rest)) => Ok((KafkaResponse::DeleteTopicsResponse(m), bytes.len() - rest)),
            Err(e) => Err(e),
        },
        21 => match decode_delete_records_response(bytes, version) {
            Ok((m, rest)) => Ok((KafkaResponse::DeleteRecordsResponse(m), bytes.len() - rest)),
            Err(e) => Err(e),
        },
        22 => match decode_init_producer_id_response(bytes, version) {
            Ok((m, rest)) => Ok((KafkaResponse::InitProducerIdResponse(m), bytes.len() - rest)),
            Err(e) => Err(e),
        },
        23 => match decode_offset_for_leader_epoch_response(bytes, version) {
            Ok((m, rest)) => Ok((KafkaResponse::OffsetForLeaderEpochResponse(m), bytes.len() - rest)),
            Err(e) => Err(e),
        },
        24 => match decode_add_partitions_to_txn_response(bytes, version) {
            Ok((m, rest)) => Ok((KafkaResponse::AddPartitionsToTxnResponse(m), bytes.len() - rest)),
            Err(e) => Err(e),
        },
        25 => match decode_add_offsets_to_txn_response(bytes, version) {
            Ok((m, rest)) => Ok((KafkaResponse::AddOffsetsToTxnResponse(m), bytes.len() - rest)),
            Err(e) => Err(e),
        },
        26 => match decode_end_txn_response(bytes, version) {
            Ok((m, rest)) => Ok((KafkaResponse::EndTxnResponse(m), bytes.len() - rest)),
            Err(e) => Err(e),
        },
        27 => match decode_write_txn_markers_response(bytes, version) {
            Ok((m, rest)) => Ok((KafkaResponse::WriteTxnMarkersResponse(m), bytes.len() - rest)),
            Err(e) => Err(e),
        },
        28 => match decode_txn_offset_commit_response(bytes, version) {
            Ok((m, rest)) => Ok((KafkaResponse::TxnOffsetCommitResponse(m), bytes.len() - rest)),
            Err(e) => Err(e),
        },
        29 => match decode_describe_acls_response(bytes, version) {
            Ok((m, rest)) => Ok((KafkaResponse::DescribeAclsResponse(m), bytes.len() - rest)),
            Err(e) => Err(e),
        },
        30 => match decode_create_acls_response(bytes, version) {
            Ok((m, rest)) => Ok((KafkaResponse::CreateAclsResponse(m), bytes.len() - rest)),
            Err(e) => Err(e),
        },
        31 => match decode_delete_acls_response(bytes, version) {
            Ok((m, rest)) => Ok((KafkaResponse::DeleteAclsResponse(m), bytes.len() - rest)),
            Err(e) => Err(e),
        },
        32 => match decode_describe_configs_response(bytes, version) {
            Ok((m, rest)) => Ok((KafkaResponse::DescribeConfigsResponse(m), bytes.len() - rest)),
            Err(e) => Err(e),
        },
        33 => match decode_alter_configs_response(bytes, version) {
            Ok((m, rest)) => Ok((KafkaResponse::AlterConfigsResponse(m), bytes.len() - rest)),
            Err(e) => Err(e),
        },
        34 => match decode_alter_replica_log_dirs_response(bytes, version) {
            Ok((m, rest)) => Ok((KafkaResponse::AlterReplicaLogDirsResponse(m), bytes.len() - rest)),
            Err(e) => Err(e),
        },
        35 => match decode_describe_log_dirs_response(bytes, version) {
            Ok((m, rest)) => Ok((KafkaResponse::DescribeLogDirsResponse(m), bytes.len() - rest)),
            Err(e) => Err(e),
        },
        36 => match decode_sasl_authenticate_response(bytes, version) {
            Ok((m, rest)) => Ok((KafkaResponse::SaslAuthenticateResponse(m), bytes.len() - rest)),
            Err(e) => Err(e),
        },
        37 => match decode_create_partitions_response(bytes, version) {
            Ok((m, rest)) => Ok((KafkaResponse::CreatePartitionsResponse(m), bytes.len() - rest)),
            Err(e) => Err(e),
        },
        38 => match decode_create_delegation_token_response(bytes, version) {
            Ok((m, rest)) => Ok((KafkaResponse::CreateDelegationTokenResponse(m), bytes.len() - rest)),
            Err(e) => Err(e),
        },
        39 => match decode_renew_delegation_token_response(bytes, version) {
            Ok((m, rest)) => Ok((KafkaResponse::RenewDelegationTokenResponse(m), bytes.len() - rest)),
            Err(e) => Err(e),
        },
        40 => match decode_expire_delegation_token_response(bytes, version) {
            Ok((m, rest)) => Ok((KafkaResponse::ExpireDelegationTokenResponse(m), bytes.len() - rest)),
            Err(e) => Err(e),
        },
        41 => match decode_describe_delegation_token_response(bytes, version) {
            Ok((m, rest)) => Ok((KafkaResponse::DescribeDelegationTokenResponse(m), bytes.len() - rest)),
            Err(e) => Err(e),
        },
        42 => match decode_delete_groups_response(bytes, version) {
            Ok((m, rest)) => Ok((KafkaResponse::DeleteGroupsResponse(m), bytes.len() - rest)),
            Err(e) => Err(e),
        },
        43 => match decode_elect_leaders_response(bytes, version) {
            Ok((m, rest)) => Ok((KafkaResponse::ElectLeadersResponse(m), bytes.len() - rest)),
            Err(e) => Err(e),
        },
        44 => match decode_incremental_alter_configs_response(bytes, version) {
            Ok((m, rest)) => Ok((KafkaResponse::IncrementalAlterConfigsResponse(m), bytes.len() - rest)),
            Err(e) => Err(e),
        },
        45 => match decode_alter_partition_reassignments_response(bytes, version) {
            Ok((m, rest)) => Ok((KafkaResponse::AlterPartitionReassignmentsResponse(m), bytes.len() - rest)),
            Err(e) => Err(e),
        },
        46 => match decode_list_partition_reassignments_response(bytes, version) {
            Ok((m, rest)) => Ok((KafkaResponse::ListPartitionReassignmentsResponse(m), bytes.len() - rest)),
            Err(e) => Err(e),
        },
        47 => match decode_offset_delete_response(bytes, version) {
            Ok((m, rest)) => Ok((KafkaResponse::OffsetDeleteResponse(m), bytes.len() - rest)),
            Err(e) => Err(e),
        },
        48 => match decode_describe_client_quotas_response(bytes, version) {
            Ok((m, rest)) => Ok((KafkaResponse::DescribeClientQuotasResponse(m), bytes.len() - rest)),
            Err(e) => Err(e),
        },
        49 => match decode_alter_client_quotas_response(bytes, version) {
            Ok((m, rest)) => Ok((KafkaResponse::AlterClientQuotasResponse(m), bytes.len() - rest)),
            Err(e) => Err(e),
        },
        50 => match decode_describe_user_scram_credentials_response(bytes, version) {
            Ok((m, rest)) => Ok((KafkaResponse::DescribeUserScramCredentialsResponse(m), bytes.len() - rest)),
            Err(e) => Err(e),
        },
        51 => match decode_alter_user_scram_credentials_response(bytes, version) {
            Ok((m, rest)) => Ok((KafkaResponse::AlterUserScramCredentialsResponse(m), bytes.len() - rest)),
            Err(e) => Err(e),
        },
        52 => match decode_vote_response(bytes, version) {
            Ok((m, rest)) => Ok((KafkaResponse::VoteResponse(m), bytes.len() - rest)),
            Err(e) => Err(e),
        },
        53 => match decode_begin_quorum_epoch_response(bytes, version) {
            Ok((m, rest)) => Ok((KafkaResponse::BeginQuorumEpochResponse(m), bytes.len() - rest)),
            Err(e) => Err(e),
        },
        54 => match decode_end_quorum_epoch_response(bytes, version) {
            Ok((m, rest)) => Ok((KafkaResponse::EndQuorumEpochResponse(m), bytes.len() - rest)),
            Err(e) => Err(e),
        },
        55 => match decode_describe_quorum_response(bytes, version) {
            Ok((m, rest)) => Ok((KafkaResponse::DescribeQuorumResponse(m), bytes.len() - rest)),
            Err(e) => Err(e),
        },
        56 => match decode_alter_partition_response(bytes, version) {
            Ok((m, rest)) => Ok((KafkaResponse::AlterPartitionResponse(m), bytes.len() - rest)),
            Err(e) => Err(e),
        },
        57 => match decode_update_features_response(bytes, version) {
            Ok((m, rest)) => Ok((KafkaResponse::UpdateFeaturesResponse(m), bytes.len() - rest)),
            Err(e) => Err(e),
        },
        58 => match decode_envelope_response(bytes, version) {
            Ok((m, rest)) => Ok((KafkaResponse::EnvelopeResponse(m), bytes.len() - rest)),
            Err(e) => Err(e),
        },
        59 => match decode_fetch_snapshot_response(bytes, version) {
            Ok((m, rest)) => Ok((KafkaResponse::FetchSnapshotResponse(m), bytes.len() - rest)),
            Err(e) => Err(e),
        },
        60 => match decode_describe_cluster_response(bytes, version) {
            Ok((m, rest)) => Ok((KafkaResponse::DescribeClusterResponse(m), bytes.len() - rest)),
            Err(e) => Err(e),
        },
        61 => match decode_describe_producers_response(bytes, version) {
            Ok((m, rest)) => Ok((KafkaResponse::DescribeProducersResponse(m), bytes.len() - rest)),
            Err(e) => Err(e),
        },
        62 => match decode_broker_registration_response(bytes, version) {
            Ok((m, rest)) => Ok((KafkaResponse::BrokerRegistrationResponse(m), bytes.len() - rest)),
            Err(e) => Err(e),
        },
        63 => match decode_broker_heartbeat_response(bytes, version) {
            Ok((m, rest)) => Ok((KafkaResponse::BrokerHeartbeatResponse(m), bytes.len() - rest)),
            Err(e) => Err(e),
        },
        64 => match decode_unregister_broker_response(bytes, version) {
            Ok((m, rest)) => Ok((KafkaResponse::UnregisterBrokerResponse(m), bytes.len() - rest)),
            Err(e) => Err(e),
        },
        65 => match decode_describe_transactions_response(bytes, version) {
            Ok((m, rest)) => Ok((KafkaResponse::DescribeTransactionsResponse(m), bytes.len() - rest)),
            Err(e) => Err(e),
        },
        66 => match decode_list_transactions_response(bytes, version) {
            Ok((m, rest)) => Ok((KafkaResponse::ListTransactionsResponse(m), bytes.len() - rest)),
            Err(e) => Err(e),
        },
        67 => match decode_allocate_producer_ids_response(bytes, version) {
            Ok((m, rest)) => Ok((KafkaResponse::AllocateProducerIdsResponse(m), bytes.len() - rest)),
            Err(e) => Err(e),
        },
        68 => match decode_consumer_group_heartbeat_response(bytes, version) {
            Ok((m, rest)) => Ok((KafkaResponse::ConsumerGroupHeartbeatResponse(m), bytes.len() - rest)),
            Err(e) => Err(e),
        },
        69 => match decode_consumer_group_describe_response(bytes, version) {
            Ok((m, rest)) => Ok((KafkaResponse::ConsumerGroupDescribeResponse(m), bytes.len() - rest)),
            Err(e) => Err(e),
        },
        70 => match decode_controller_registration_response(bytes, version) {
            Ok((m, rest)) => Ok((KafkaResponse::ControllerRegistrationResponse(m), bytes.len() - rest)),
            Err(e) => Err(e),
        },
        71 => match decode_get_telemetry_subscriptions_response(bytes, version) {
            Ok((m, rest)) => Ok((KafkaResponse::GetTelemetrySubscriptionsResponse(m), bytes.len() - rest)),
            Err(e) => Err(e),
        },
        72 => match decode_push_telemetry_response(bytes, version) {
            Ok((m, rest)) => Ok((KafkaResponse::PushTelemetryResponse(m), bytes.len() - rest)),
            Err(e) => Err(e),
        },
        73 => match decode_assign_replicas_to_dirs_response(bytes, version) {
            Ok((m, rest)) => Ok((KafkaResponse::AssignReplicasToDirsResponse(m), bytes.len() - rest)),
            Err(e) => Err(e),
        },
        74 => match decode_list_client_metrics_resources_response(bytes, version) {
            Ok((m, rest)) => Ok((KafkaResponse::ListClientMetricsResourcesResponse(m), bytes.len() - rest)),
            Err(e) => Err(e),
        },
        _ => match decode_describe_topic_partitions_response(bytes, version) {
            Ok((m, rest)) => Ok((KafkaResponse::DescribeTopicPartitionsResponse(m), bytes.len() - rest)),
            Err(e) => Err(e),
        },
    }
}

} // verus!
