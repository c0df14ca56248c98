//! Version 0 of the messages that the control plane's services exchange about
//! replicas: identifiers, protocols, the replica as a storage node reports it,
//! and the request to create one.

use vstd::prelude::*;
use vstd::std_specs::convert::FromSpecImpl;
use crate::text::{optional_text, same_optional_text, same_texts, texts};

verus! {

/// Identifier of a storage node.
pub type NodeId = String;

/// Identifier of a pool.
pub type PoolId = String;

/// UUID of a replica, in text.
pub type ReplicaId = String;

/// UUID of a volume, in text.
pub type VolumeId = String;

/// UUID of a nexus, in text.
pub type NexusId = String;

/// Protocol over which a resource is exposed.
#[derive(Debug, Clone, Copy, PartialEq, Eq, Structural)]
pub enum Protocol {
    /// Not exposed.
    Off,
    /// NVMe over fabrics.
    Nvmf,
    /// iSCSI.
    Iscsi,
    /// Network block device.
    Nbd,
}

/// Protocol over which a replica can be shared.
#[derive(Debug, Clone, Copy, PartialEq, Eq, Structural)]
pub enum ReplicaShareProtocol {
    /// NVMe over fabrics.
    Nvmf,
}

/// State of a replica as its storage node reports it.
#[derive(Debug, Clone, Copy, PartialEq, Eq, Structural)]
pub enum ReplicaState {
    /// Not known.
    Unknown,
    /// Healthy.
    Online,
    /// Usable with reduced redundancy or performance.
    Degraded,
    /// Unusable.
    Faulted,
}

impl ReplicaShareProtocol {
    /// The protocol that a replica is exposed over once it is shared this way.
    pub open spec fn protocol(self) -> Protocol {
        match self {
            ReplicaShareProtocol::Nvmf => Protocol::Nvmf,
        }
    }
}

impl From<ReplicaShareProtocol> for Protocol {
    fn from(share: ReplicaShareProtocol) -> (protocol: Self) {
        match share {
            ReplicaShareProtocol::Nvmf => Protocol::Nvmf,
        }
    }
}

impl FromSpecImpl<ReplicaShareProtocol> for Protocol {
    open spec fn obeys_from_spec() -> bool {
        true
    }

    open spec fn from_spec(share: ReplicaShareProtocol) -> Protocol {
        share.protocol()
    }
}

/// The resources on whose behalf a replica exists. A replica with an owner
/// may not be deleted behind the owner's back.
#[derive(Debug)]
pub struct ReplicaOwners {
    /// The volume that the replica belongs to.
    pub volume: Option<VolumeId>,
    /// The nexuses that the replica is a child of.
    pub nexuses: Vec<NexusId>,
}

/// A replica as a storage node reports it.
#[derive(Debug)]
pub struct Replica {
    /// The node that hosts the replica.
    pub node: NodeId,
    /// UUID of the replica.
    pub uuid: ReplicaId,
    /// The pool that the replica lives on.
    pub pool: PoolId,
    /// Whether the replica is thin provisioned.
    pub thin: bool,
    /// Size of the replica in bytes.
    pub size: u64,
    /// Protocol over which the replica is exposed.
    pub share: Protocol,
    /// Where the replica can be reached.
    pub uri: String,
    /// Reported state.
    pub state: ReplicaState,
}

/// The request to create a replica.
#[derive(Debug)]
pub struct CreateReplica {
    /// The node that is to host the replica.
    pub node: NodeId,
    /// UUID of the replica.
    pub uuid: ReplicaId,
    /// The pool that the replica is to live on.
    pub pool: PoolId,
    /// Size of the replica in bytes.
    pub size: u64,
    /// Whether the replica is to be thin provisioned.
    pub thin: bool,
    /// Protocol over which the replica is to be exposed.
    pub share: Protocol,
    /// Whether the control plane manages the replica's lifecycle.
    pub managed: bool,
    /// The resources that ask for the replica.
    pub owners: ReplicaOwners,
}

/// The owners of a replica, as texts.
#[verifier::ext_equal]
pub struct ReplicaOwnersView {
    pub volume: Option<Seq<char>>,
    pub nexuses: Seq<Seq<char>>,
}

/// A reported replica, as texts and plain values.
#[verifier::ext_equal]
pub struct ReplicaView {
    pub node: Seq<char>,
    pub uuid: Seq<char>,
    pub pool: Seq<char>,
    pub thin: bool,
    pub size: u64,
    pub share: Protocol,
    pub uri: Seq<char>,
    pub state: ReplicaState,
}

/// A create request, as texts and plain values.
#[verifier::ext_equal]
pub struct CreateReplicaView {
    pub node: Seq<char>,
    pub uuid: Seq<char>,
    pub pool: Seq<char>,
    pub size: u64,
    pub thin: bool,
    pub share: Protocol,
    pub managed: bool,
    pub owners: ReplicaOwnersView,
}

impl View for ReplicaOwners {
    type V = ReplicaOwnersView;

    open spec fn view(&self) -> ReplicaOwnersView {
        ReplicaOwnersView { volume: optional_text(self.volume), nexuses: texts(self.nexuses@) }
    }
}

impl View for Replica {
    type V = ReplicaView;

    open spec fn view(&self) -> ReplicaView {
        ReplicaView {
            node: self.node@,
            uuid: self.uuid@,
            pool: self.pool@,
            thin: self.thin,
            size: self.size,
            share: self.share,
            uri: self.uri@,
            state: self.state,
        }
    }
}

impl View for CreateReplica {
    type V = CreateReplicaView;

    open spec fn view(&self) -> CreateReplicaView {
        CreateReplicaView {
            node: self.node@,
            uuid: self.uuid@,
            pool: self.pool@,
            size: self.size,
            thin: self.thin,
            share: self.share,
            managed: self.managed,
            owners: self.owners@,
        }
    }
}

impl Clone for ReplicaOwners {
    fn clone(&self) -> (copy: Self)
        ensures
            copy@ == self@,
    {
        let copy = ReplicaOwners { volume: self.volume.clone(), nexuses: self.nexuses.clone() };
        copy
    }
}

impl PartialEq for ReplicaOwners {
    fn eq(&self, other: &Self) -> (same: bool) {
        same_optional_text(&self.volume, &other.volume) && same_texts(&self.nexuses, &other.nexuses)
    }
}

impl vstd::std_specs::cmp::PartialEqSpecImpl for ReplicaOwners {
    open spec fn obeys_eq_spec() -> bool {
        true
    }

    open spec fn eq_spec(&self, other: &Self) -> bool {
        self@ == other@
    }
}

impl Clone for Replica {
    fn clone(&self) -> (copy: Self)
        ensures
            copy@ == self@,
    {
        Replica {
            node: self.node.clone(),
            uuid: self.uuid.clone(),
            pool: self.pool.clone(),
            thin: self.thin,
            size: self.size,
            share: self.share,
            uri: self.uri.clone(),
            state: self.state,
        }
    }
}

impl PartialEq for Replica {
    fn eq(&self, other: &Self) -> (same: bool) {
        self.node == other.node && self.uuid == other.uuid && self.pool == other.pool
            && self.thin == other.thin && self.size == other.size && self.share == other.share
            && self.uri == other.uri && self.state == other.state
    }
}

impl vstd::std_specs::cmp::PartialEqSpecImpl for Replica {
    open spec fn obeys_eq_spec() -> bool {
        true
    }

    open spec fn eq_spec(&self, other: &Self) -> bool {
        self@ == other@
    }
}

impl Clone for CreateReplica {
    fn clone(&self) -> (copy: Self)
        ensures
            copy@ == self@,
    {
        CreateReplica {
            node: self.node.clone(),
            uuid: self.uuid.clone(),
            pool: self.pool.clone(),
            size: self.size,
            thin: self.thin,
            share: self.share,
            managed: self.managed,
            owners: self.owners.clone(),
        }
    }
}

} // verus!
