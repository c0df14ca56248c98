use control_plane::replica::{
    Replica, ReplicaOperation, ReplicaOperationState, ReplicaSpec, ReplicaSpecKey, ReplicaState,
};
use control_plane::store::{generate_key, ObjectKey, StorableObject, StorableObjectType};
use control_plane::types::{OperationConflict, SpecState, SpecTransaction};
use control_plane::v0;

const UUID: &str = "0b6cbb9e-9a1c-4d3c-8b1a-4a4f6d2c9e77";

fn request(share: v0::Protocol) -> v0::CreateReplica {
    v0::CreateReplica {
        node: "node-1".to_string(),
        uuid: UUID.to_string(),
        pool: "pool-1".to_string(),
        size: 80 * 1024 * 1024,
        thin: true,
        share,
        managed: true,
        owners: v0::ReplicaOwners {
            volume: Some("4e3c1f5a-5f0c-4a37-9d3e-1f2a3b4c5d6e".to_string()),
            nexuses: vec!["a".to_string(), "b".to_string()],
        },
    }
}

fn share_nvmf() -> ReplicaOperation {
    ReplicaOperation::Share(v0::ReplicaShareProtocol::Nvmf)
}

#[test]
fn spec_from_request_takes_every_attribute() {
    let request = request(v0::Protocol::Off);
    let spec = ReplicaSpec::from(&request);
    assert_eq!(spec.uuid, UUID);
    assert_eq!(spec.size, 80 * 1024 * 1024);
    assert_eq!(spec.pool, "pool-1");
    assert_eq!(spec.share, v0::Protocol::Off);
    assert!(spec.thin);
    assert_eq!(spec.state, SpecState::Creating);
    assert!(spec.managed);
    assert_eq!(spec.owners, request.owners);
    assert!(spec.updating);
    assert_eq!(spec.operation, None);
    assert!(!spec.pending_op());
}

#[test]
fn start_op_records_the_operation_without_result() {
    let mut spec = ReplicaSpec::from(&request(v0::Protocol::Off));
    spec.updating = false;
    assert_eq!(spec.start_op(share_nvmf()), Ok(()));
    assert!(spec.pending_op());
    assert!(spec.updating);
    assert_eq!(
        spec.operation,
        Some(ReplicaOperationState { operation: share_nvmf(), result: None })
    );
    assert_eq!(spec.share, v0::Protocol::Off);
}

#[test]
fn start_op_on_pending_spec_fails_and_changes_nothing() {
    let mut spec = ReplicaSpec::from(&request(v0::Protocol::Off));
    assert_eq!(spec.start_op(share_nvmf()), Ok(()));
    spec.set_op_result(true);
    let before = spec.clone();
    assert_eq!(spec.start_op(ReplicaOperation::Unshare), Err(OperationConflict {}));
    assert_eq!(spec, before);
    assert_eq!(
        spec.operation,
        Some(ReplicaOperationState { operation: share_nvmf(), result: Some(true) })
    );
    assert!(!spec.updating);
}

#[test]
fn set_op_result_keeps_the_record() {
    let mut spec = ReplicaSpec::from(&request(v0::Protocol::Off));
    spec.start_op(share_nvmf()).unwrap();
    spec.set_op_result(false);
    assert!(!spec.updating);
    assert!(spec.pending_op());
    assert_eq!(
        spec.operation,
        Some(ReplicaOperationState { operation: share_nvmf(), result: Some(false) })
    );
    spec.set_op_result(true);
    assert_eq!(spec.operation.unwrap().result, Some(true));
}

#[test]
fn set_op_result_without_operation_only_drops_the_flag() {
    let mut spec = ReplicaSpec::from(&request(v0::Protocol::Nbd));
    assert!(spec.updating);
    spec.set_op_result(true);
    assert!(!spec.updating);
    assert_eq!(spec.operation, None);
    assert_eq!(spec.share, v0::Protocol::Nbd);
}

#[test]
fn commit_share_twice_gives_the_same_spec() {
    let mut spec = ReplicaSpec::from(&request(v0::Protocol::Off));
    spec.start_op(share_nvmf()).unwrap();
    spec.set_op_result(true);
    spec.commit_op();
    assert_eq!(spec.share, v0::Protocol::Nvmf);
    assert!(!spec.pending_op());
    assert!(!spec.updating);
    let once = spec.clone();
    spec.commit_op();
    assert_eq!(spec.share, v0::Protocol::Nvmf);
    assert!(!spec.pending_op());
    assert_eq!(spec, once);
}

#[test]
fn commit_unshare_turns_the_protocol_off() {
    let mut spec = ReplicaSpec::from(&request(v0::Protocol::Iscsi));
    spec.start_op(ReplicaOperation::Unshare).unwrap();
    spec.set_op_result(true);
    spec.commit_op();
    assert_eq!(spec.share, v0::Protocol::Off);
    assert_eq!(spec.operation, None);
}

#[test]
fn commit_without_operation_only_clears() {
    let mut spec = ReplicaSpec::from(&request(v0::Protocol::Iscsi));
    spec.commit_op();
    assert_eq!(spec.share, v0::Protocol::Iscsi);
    assert!(!spec.updating);
    assert_eq!(spec.operation, None);
}

#[test]
fn clear_op_drops_the_record_whatever_its_result() {
    for result in [None, Some(true), Some(false)] {
        let mut spec = ReplicaSpec::from(&request(v0::Protocol::Off));
        spec.start_op(share_nvmf()).unwrap();
        if let Some(result) = result {
            spec.set_op_result(result);
        }
        spec.clear_op();
        assert_eq!(spec.operation, None);
        assert!(!spec.updating);
        assert_eq!(spec.share, v0::Protocol::Off);
    }
    let mut spec = ReplicaSpec::from(&request(v0::Protocol::Off));
    spec.clear_op();
    assert_eq!(spec.operation, None);
    assert!(!spec.updating);
}

#[test]
fn cleared_operation_can_be_followed_by_another() {
    let mut spec = ReplicaSpec::from(&request(v0::Protocol::Off));
    spec.start_op(share_nvmf()).unwrap();
    spec.set_op_result(false);
    spec.clear_op();
    assert_eq!(spec.start_op(ReplicaOperation::Unshare), Ok(()));
    assert_eq!(
        spec.operation,
        Some(ReplicaOperationState { operation: ReplicaOperation::Unshare, result: None })
    );
}

#[test]
fn request_equality_ignores_transient_fields() {
    let request = request(v0::Protocol::Off);
    let mut spec = ReplicaSpec::from(&request);
    assert!(spec == request);
    spec.start_op(share_nvmf()).unwrap();
    assert!(spec == request);
    spec.set_op_result(false);
    assert!(spec == request);
    spec.clear_op();
    assert!(spec == request);
    spec.state = SpecState::Created(v0::ReplicaState::Online);
    assert!(spec == request);
    spec.start_op(ReplicaOperation::Unshare).unwrap();
    spec.set_op_result(true);
    spec.commit_op();
    assert_eq!(spec.share, v0::Protocol::Off);
    assert!(spec == request);
    assert!(ReplicaSpec::from(&request) == request);
}

#[test]
fn request_equality_sees_durable_fields() {
    let request = request(v0::Protocol::Off);
    let mut spec = ReplicaSpec::from(&request);
    spec.start_op(share_nvmf()).unwrap();
    spec.set_op_result(true);
    spec.commit_op();
    assert!(spec != request);

    let mut other = ReplicaSpec::from(&request);
    other.size += 1;
    assert!(other != request);
    let mut other = ReplicaSpec::from(&request);
    other.pool = "pool-2".to_string();
    assert!(other != request);
    let mut other = ReplicaSpec::from(&request);
    other.uuid = "0b6cbb9e-9a1c-4d3c-8b1a-4a4f6d2c9e78".to_string();
    assert!(other != request);
    let mut other = ReplicaSpec::from(&request);
    other.thin = false;
    assert!(other != request);
    let mut other = ReplicaSpec::from(&request);
    other.managed = false;
    assert!(other != request);
    let mut other = ReplicaSpec::from(&request);
    other.owners.nexuses.pop();
    assert!(other != request);
    let mut other = ReplicaSpec::from(&request);
    other.owners.nexuses[1] = "c".to_string();
    assert!(other != request);
    let mut other = ReplicaSpec::from(&request);
    other.owners.volume = None;
    assert!(other != request);
}

#[test]
fn spec_equality_sees_every_field() {
    let request = request(v0::Protocol::Off);
    let spec = ReplicaSpec::from(&request);
    assert_eq!(spec, spec.clone());
    let mut other = spec.clone();
    other.updating = false;
    assert_ne!(spec, other);
    let mut other = spec.clone();
    other.state = SpecState::Deleting;
    assert_ne!(spec, other);
    let mut other = spec.clone();
    other.operation = Some(ReplicaOperationState { operation: share_nvmf(), result: None });
    assert_ne!(spec, other);
    let mut third = other.clone();
    third.operation = Some(ReplicaOperationState { operation: share_nvmf(), result: Some(true) });
    assert_ne!(third, other);
    third.operation = Some(ReplicaOperationState {
        operation: ReplicaOperation::Unshare,
        result: None,
    });
    assert_ne!(third, other);
}

#[test]
fn replica_described_by_a_spec() {
    let mut spec = ReplicaSpec::from(&request(v0::Protocol::Nvmf));
    spec.state = SpecState::Created(v0::ReplicaState::Online);
    let replica = v0::Replica::from(&spec);
    assert_eq!(replica.node, "");
    assert_eq!(replica.uuid, UUID);
    assert_eq!(replica.pool, "pool-1");
    assert!(replica.thin);
    assert_eq!(replica.size, 80 * 1024 * 1024);
    assert_eq!(replica.share, v0::Protocol::Nvmf);
    assert_eq!(replica.uri, "");
    assert_eq!(replica.state, v0::ReplicaState::Unknown);
}

#[test]
fn share_protocol_converts_to_protocol() {
    assert_eq!(v0::Protocol::from(v0::ReplicaShareProtocol::Nvmf), v0::Protocol::Nvmf);
}

#[test]
fn spec_key_is_made_of_kind_and_uuid() {
    let spec = ReplicaSpec::from(&request(v0::Protocol::Off));
    let key = spec.key();
    assert_eq!(key.key_type(), StorableObjectType::ReplicaSpec);
    assert_eq!(key.key_uuid(), UUID);
    assert_eq!(generate_key(&key), format!("ReplicaSpec:{}", UUID));
    let direct = ReplicaSpecKey::from(&UUID.to_string());
    assert_eq!(direct.key_type(), StorableObjectType::ReplicaSpec);
    assert_eq!(direct.key_uuid(), UUID);
    assert_eq!(generate_key(&direct), generate_key(&key));
}

#[test]
fn state_key_is_made_of_kind_and_uuid() {
    let spec = ReplicaSpec::from(&request(v0::Protocol::Off));
    let mut replica = v0::Replica::from(&spec);
    replica.node = "node-1".to_string();
    let state = ReplicaState { replica, state: v0::ReplicaState::Online };
    let key = state.key();
    assert_eq!(key.key_type(), StorableObjectType::ReplicaState);
    assert_eq!(key.key_uuid(), UUID);
    assert_eq!(generate_key(&key), format!("ReplicaState:{}", UUID));
    assert_ne!(generate_key(&key), generate_key(&spec.key()));
}

#[test]
fn replica_pairs_state_and_spec() {
    let spec = ReplicaSpec::from(&request(v0::Protocol::Off));
    let state = ReplicaState { replica: v0::Replica::from(&spec), state: v0::ReplicaState::Degraded };
    let replica = Replica { state: Some(state), spec: spec.clone() };
    assert_eq!(replica.spec, spec);
    assert_eq!(replica.state.as_ref().unwrap().state, v0::ReplicaState::Degraded);
    let bare = Replica { state: None, spec };
    assert_ne!(replica, bare);
}

#[test]
fn object_kinds_have_their_tags() {
    assert_eq!(StorableObjectType::ReplicaSpec.as_str(), "ReplicaSpec");
    assert_eq!(StorableObjectType::ReplicaState.as_str(), "ReplicaState");
    assert_eq!(StorableObjectType::PoolSpec.as_str(), "PoolSpec");
    assert_eq!(StorableObjectType::PoolState.as_str(), "PoolState");
    assert_eq!(StorableObjectType::VolumeSpec.as_str(), "VolumeSpec");
    assert_eq!(StorableObjectType::VolumeState.as_str(), "VolumeState");
}
