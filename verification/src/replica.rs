//! The replica as the persistent store holds it: its specification, with the
//! operation in flight, and its runtime state.

use vstd::prelude::*;
use vstd::std_specs::cmp::PartialEqSpecImpl;
use vstd::std_specs::convert::FromSpecImpl;
use crate::store::{ObjectKey, StorableObject, StorableObjectType};
use crate::types::{OperationConflict, SpecState, SpecTransaction};
use crate::v0;
use crate::v0::{CreateReplicaView, Protocol, ReplicaId, ReplicaOwnersView, ReplicaShareProtocol, ReplicaView};

verus! {

/// Lifecycle state of a replica specification.
pub type ReplicaSpecState = SpecState<v0::ReplicaState>;

/// Replica information.
#[derive(Debug, PartialEq)]
pub struct Replica {
    /// Current state of the replica.
    pub state: Option<ReplicaState>,
    /// Desired replica specification.
    pub spec: ReplicaSpec,
}

/// Runtime state of a replica: what its storage node last reported. It is
/// overwritten as a whole and carries no transaction.
#[derive(Debug, PartialEq)]
pub struct ReplicaState {
    /// Replica information.
    pub replica: v0::Replica,
    /// State of the replica.
    pub state: v0::ReplicaState,
}

/// Key used by the store to uniquely identify a ReplicaState structure.
#[derive(Debug)]
pub struct ReplicaStateKey(ReplicaId);

/// Key used by the store to uniquely identify a ReplicaSpec structure.
#[derive(Debug)]
pub struct ReplicaSpecKey(ReplicaId);

/// The operations that can be in flight on a replica.
#[derive(Debug, Clone, Copy, PartialEq, Eq, Structural)]
pub enum ReplicaOperation {
    /// Expose the replica over a protocol.
    Share(ReplicaShareProtocol),
    /// Stop exposing the replica.
    Unshare,
}

/// Record of the operation in flight on a replica.
#[derive(Debug, Clone, Copy, PartialEq, Eq)]
pub struct ReplicaOperationState {
    /// Record of the operation.
    pub operation: ReplicaOperation,
    /// Result of the operation: `None` until the storage node has answered.
    pub result: Option<bool>,
}

/// User specification of a replica.
#[derive(Debug)]
pub struct ReplicaSpec {
    /// uuid of the replica
    pub uuid: v0::ReplicaId,
    /// The size that the replica should be.
    pub size: u64,
    /// The pool that the replica should live on.
    pub pool: v0::PoolId,
    /// Protocol used for exposing the replica.
    pub share: v0::Protocol,
    /// Thin provisioning.
    pub thin: bool,
    /// The state that the replica should eventually achieve.
    pub state: ReplicaSpecState,
    /// Managed by our control plane
    pub managed: bool,
    /// Owner Resource
    pub owners: v0::ReplicaOwners,
    /// Update in progress
    pub updating: bool,
    /// Record of the operation in progress
    pub operation: Option<ReplicaOperationState>,
}

impl ReplicaOperation {
    /// The protocol over which the replica is exposed once the operation has
    /// been applied.
    pub open spec fn share_after(self) -> Protocol {
        match self {
            ReplicaOperation::Share(share) => share.protocol(),
            ReplicaOperation::Unshare => Protocol::Off,
        }
    }
}

/// A replica specification, as texts and plain values: what the transitions
/// and their laws are stated over.
#[verifier::ext_equal]
pub struct ReplicaSpecView {
    pub uuid: Seq<char>,
    pub size: u64,
    pub pool: Seq<char>,
    pub share: Protocol,
    pub thin: bool,
    pub state: ReplicaSpecState,
    pub managed: bool,
    pub owners: ReplicaOwnersView,
    pub updating: bool,
    pub operation: Option<ReplicaOperationState>,
}

impl View for ReplicaSpec {
    type V = ReplicaSpecView;

    open spec fn view(&self) -> ReplicaSpecView {
        ReplicaSpecView {
            uuid: self.uuid@,
            size: self.size,
            pool: self.pool@,
            share: self.share,
            thin: self.thin,
            state: self.state,
            managed: self.managed,
            owners: self.owners@,
            updating: self.updating,
            operation: self.operation,
        }
    }
}

impl ReplicaSpecView {
    /// Whether an operation is attached.
    pub open spec fn pending_op(self) -> bool {
        self.operation is Some
    }

    /// The specification without its operation record.
    pub open spec fn clear_op(self) -> ReplicaSpecView {
        ReplicaSpecView { operation: None, updating: false, ..self }
    }

    /// The specification with the attached operation, if any, applied to the
    /// protocol it is exposed over, and without the record.
    pub open spec fn commit_op(self) -> ReplicaSpecView {
        match self.operation {
            Some(record) => ReplicaSpecView {
                share: record.operation.share_after(),
                operation: None,
                updating: false,
                ..self
            },
            None => self.clear_op(),
        }
    }

    /// The specification with a fresh record of `operation`, or the conflict
    /// where it carries a record already.
    pub open spec fn start_op(self, operation: ReplicaOperation) -> Result<
        ReplicaSpecView,
        OperationConflict,
    > {
        if self.pending_op() {
            Err(OperationConflict {  })
        } else {
            Ok(
                ReplicaSpecView {
                    updating: true,
                    operation: Some(ReplicaOperationState { operation, result: None }),
                    ..self
                },
            )
        }
    }

    /// The specification with `result` written into the record, if there is
    /// one.
    pub open spec fn set_op_result(self, result: bool) -> ReplicaSpecView {
        ReplicaSpecView {
            updating: false,
            operation: match self.operation {
                Some(record) => Some(
                    ReplicaOperationState { operation: record.operation, result: Some(result) },
                ),
                None => None,
            },
            ..self
        }
    }

    /// The specification that a create request gives rise to.
    pub open spec fn of_request(request: CreateReplicaView) -> ReplicaSpecView {
        ReplicaSpecView {
            uuid: request.uuid,
            size: request.size,
            pool: request.pool,
            share: request.share,
            thin: request.thin,
            state: SpecState::Creating,
            managed: request.managed,
            owners: request.owners,
            updating: true,
            operation: None,
        }
    }

    /// Whether the specification holds what a create request asks for. The
    /// lifecycle state, the update flag and the operation record are not
    /// looked at: they change while the request stays the same.
    pub open spec fn matches_request(self, request: CreateReplicaView) -> bool {
        &&& self.uuid == request.uuid
        &&& self.size == request.size
        &&& self.pool == request.pool
        &&& self.share == request.share
        &&& self.thin == request.thin
        &&& self.managed == request.managed
        &&& self.owners == request.owners
    }

    /// The replica that the specification describes, before any storage node
    /// has reported on it.
    pub open spec fn described(self) -> ReplicaView {
        ReplicaView {
            node: Seq::<char>::empty(),
            uuid: self.uuid,
            pool: self.pool,
            thin: self.thin,
            size: self.size,
            share: self.share,
            uri: Seq::<char>::empty(),
            state: v0::ReplicaState::Unknown,
        }
    }
}

impl SpecTransaction<ReplicaOperation> for ReplicaSpec {
    open spec fn op_record(&self) -> Option<(ReplicaOperation, Option<bool>)> {
        match self.operation {
            Some(record) => Some((record.operation, record.result)),
            None => None,
        }
    }

    open spec fn op_updating(&self) -> bool {
        self.updating
    }

    fn pending_op(&self) -> (pending: bool) {
        self.operation.is_some()
    }

    fn commit_op(&mut self)
        ensures
            final(self)@ == old(self)@.commit_op(),
    {
        if let Some(op) = self.operation {
            match op.operation {
                ReplicaOperation::Share(share) => {
                    self.share = Protocol::from(share);
                },
                ReplicaOperation::Unshare => {
                    self.share = Protocol::Off;
                },
            }
        }
        self.clear_op();
    }

    fn clear_op(&mut self)
        ensures
            final(self)@ == old(self)@.clear_op(),
    {
        self.operation = None;
        self.updating = false;
    }

    fn start_op(&mut self, operation: ReplicaOperation) -> (started: Result<(), OperationConflict>)
        ensures
            started is Ok ==> old(self)@.start_op(operation) == Ok::<
                ReplicaSpecView,
                OperationConflict,
            >(final(self)@),
            started is Err ==> old(self)@.start_op(operation) is Err,
    {
        if self.operation.is_some() {
            return Err(OperationConflict {});
        }
        self.updating = true;
        self.operation = Some(ReplicaOperationState { operation, result: None });
        Ok(())
    }

    fn set_op_result(&mut self, result: bool)
        ensures
            final(self)@ == old(self)@.set_op_result(result),
    {
        if let Some(op) = self.operation {
            self.operation = Some(
                ReplicaOperationState { operation: op.operation, result: Some(result) },
            );
        }
        self.updating = false;
    }
}

impl ObjectKey for ReplicaStateKey {
    open spec fn kind(&self) -> StorableObjectType {
        StorableObjectType::ReplicaState
    }

    closed spec fn uuid(&self) -> Seq<char> {
        self.0@
    }

    fn key_type(&self) -> (kind: StorableObjectType) {
        StorableObjectType::ReplicaState
    }

    fn key_uuid(&self) -> (uuid: String) {
        self.0.clone()
    }
}

impl StorableObject for ReplicaState {
    type Key = ReplicaStateKey;

    open spec fn object_kind(&self) -> StorableObjectType {
        StorableObjectType::ReplicaState
    }

    open spec fn object_uuid(&self) -> Seq<char> {
        self.replica.uuid@
    }

    fn key(&self) -> (key: Self::Key) {
        ReplicaStateKey(self.replica.uuid.clone())
    }
}

impl ObjectKey for ReplicaSpecKey {
    open spec fn kind(&self) -> StorableObjectType {
        StorableObjectType::ReplicaSpec
    }

    closed spec fn uuid(&self) -> Seq<char> {
        self.0@
    }

    fn key_type(&self) -> (kind: StorableObjectType) {
        StorableObjectType::ReplicaSpec
    }

    fn key_uuid(&self) -> (uuid: String) {
        self.0.clone()
    }
}

impl From<&ReplicaId> for ReplicaSpecKey {
    fn from(id: &ReplicaId) -> (key: Self)
        ensures
            key.uuid() == id@,
    {
        ReplicaSpecKey(id.clone())
    }
}

impl FromSpecImpl<&ReplicaId> for ReplicaSpecKey {
    open spec fn obeys_from_spec() -> bool {
        true
    }

    closed spec fn from_spec(id: &ReplicaId) -> ReplicaSpecKey {
        ReplicaSpecKey(*id)
    }
}

impl StorableObject for ReplicaSpec {
    type Key = ReplicaSpecKey;

    open spec fn object_kind(&self) -> StorableObjectType {
        StorableObjectType::ReplicaSpec
    }

    open spec fn object_uuid(&self) -> Seq<char> {
        self.uuid@
    }

    fn key(&self) -> (key: Self::Key) {
        ReplicaSpecKey(self.uuid.clone())
    }
}

impl From<&ReplicaSpec> for v0::Replica {
    fn from(replica: &ReplicaSpec) -> (described: Self)
        ensures
            described@ == replica@.described(),
    {
        v0::Replica {
            node: v0::NodeId::default(),
            uuid: replica.uuid.clone(),
            pool: replica.pool.clone(),
            thin: replica.thin,
            size: replica.size,
            share: replica.share,
            uri: String::new(),
            state: v0::ReplicaState::Unknown,
        }
    }
}

impl FromSpecImpl<&ReplicaSpec> for v0::Replica {
    /// `from` is specified over views, in its own contract: it copies texts,
    /// and a copy of a list of texts is known by its view only.
    open spec fn obeys_from_spec() -> bool {
        false
    }

    open spec fn from_spec(replica: &ReplicaSpec) -> v0::Replica {
        choose|described: v0::Replica| described@ == replica@.described()
    }
}

impl From<&v0::CreateReplica> for ReplicaSpec {
    fn from(request: &v0::CreateReplica) -> (spec: Self)
        ensures
            spec@ == ReplicaSpecView::of_request(request@),
    {
        ReplicaSpec {
            uuid: request.uuid.clone(),
            size: request.size,
            pool: request.pool.clone(),
            share: request.share,
            thin: request.thin,
            state: SpecState::Creating,
            managed: request.managed,
            owners: request.owners.clone(),
            updating: true,
            operation: None,
        }
    }
}

impl FromSpecImpl<&v0::CreateReplica> for ReplicaSpec {
    /// `from` is specified over views, in its own contract: it copies texts,
    /// and a copy of a list of texts is known by its view only.
    open spec fn obeys_from_spec() -> bool {
        false
    }

    open spec fn from_spec(request: &v0::CreateReplica) -> ReplicaSpec {
        choose|spec: ReplicaSpec| spec@ == ReplicaSpecView::of_request(request@)
    }
}

impl Clone for ReplicaSpec {
    fn clone(&self) -> (copy: Self)
        ensures
            copy@ == self@,
    {
        ReplicaSpec {
            uuid: self.uuid.clone(),
            size: self.size,
            pool: self.pool.clone(),
            share: self.share,
            thin: self.thin,
            state: self.state,
            managed: self.managed,
            owners: self.owners.clone(),
            updating: self.updating,
            operation: self.operation,
        }
    }
}

/// Whether two operation records, or their absence, are the same.
fn same_operation(left: &Option<ReplicaOperationState>, right: &Option<ReplicaOperationState>) -> (same: bool)
    ensures
        same == (*left == *right),
{
    match (left, right) {
        (Some(a), Some(b)) => {
            let same_result = match (a.result, b.result) {
                (Some(x), Some(y)) => x == y,
                (None, None) => true,
                _ => false,
            };
            a.operation == b.operation && same_result
        },
        (None, None) => true,
        _ => false,
    }
}

impl PartialEq for ReplicaSpec {
    fn eq(&self, other: &Self) -> (same: bool) {
        self.uuid == other.uuid && self.size == other.size && self.pool == other.pool
            && self.share == other.share && self.thin == other.thin && self.state == other.state
            && self.managed == other.managed && self.owners == other.owners
            && self.updating == other.updating && same_operation(&self.operation, &other.operation)
    }
}

impl PartialEqSpecImpl for ReplicaSpec {
    open spec fn obeys_eq_spec() -> bool {
        true
    }

    open spec fn eq_spec(&self, other: &Self) -> bool {
        self@ == other@
    }
}

impl PartialEq<v0::CreateReplica> for ReplicaSpec {
    fn eq(&self, other: &v0::CreateReplica) -> (same: bool) {
        self.uuid == other.uuid && self.size == other.size && self.pool == other.pool
            && self.share == other.share && self.thin == other.thin
            && self.managed == other.managed && self.owners == other.owners
    }
}

impl PartialEqSpecImpl<v0::CreateReplica> for ReplicaSpec {
    open spec fn obeys_eq_spec() -> bool {
        true
    }

    open spec fn eq_spec(&self, other: &v0::CreateReplica) -> bool {
        self@.matches_request(other@)
    }
}

/// An operation that is started on a specification that already carries one
/// is refused; on any other specification it is attached, without a result.
pub proof fn lemma_one_operation_at_a_time(spec: ReplicaSpecView, operation: ReplicaOperation)
    ensures
        spec.pending_op() <==> spec.start_op(operation) is Err,
        spec.start_op(operation) matches Ok(started) ==> {
            &&& started.pending_op()
            &&& started.updating
            &&& started.operation == Some(ReplicaOperationState { operation, result: None })
            &&& started.start_op(operation) is Err
        },
{
}

/// Committing twice is committing once: the second commit finds no operation
/// and changes nothing. After a commit of `Share(p)` the replica is exposed
/// over `p`, after a commit of `Unshare` it is not exposed, and no operation
/// is attached either time.
pub proof fn lemma_commit_idempotent(spec: ReplicaSpecView)
    ensures
        spec.commit_op().commit_op() == spec.commit_op(),
        !spec.commit_op().pending_op(),
        !spec.commit_op().commit_op().pending_op(),
        spec.operation matches Some(record) ==> {
            &&& spec.commit_op().share == record.operation.share_after()
            &&& spec.commit_op().commit_op().share == record.operation.share_after()
        },
        spec.operation is None ==> spec.commit_op().share == spec.share,
{
}

/// Clearing drops the record and the update flag whatever the record's
/// result was, and touches nothing else.
pub proof fn lemma_clear_unconditional(spec: ReplicaSpecView)
    ensures
        spec.clear_op().operation is None,
        !spec.clear_op().updating,
        spec.clear_op() == (ReplicaSpecView { operation: None, updating: false, ..spec }),
        spec.clear_op().clear_op() == spec.clear_op(),
{
}

/// Equality with a create request looks at what the request holds and at
/// nothing else. A specification made from a request answers to it, and one
/// that answers to a request goes on doing so when an operation is started,
/// answered and cleared. Through a commit it does so exactly when the
/// committed operation leaves the replica exposed as the request asks.
pub proof fn lemma_request_equality_ignores_transients(
    request: CreateReplicaView,
    spec: ReplicaSpecView,
    operation: ReplicaOperation,
    result: bool,
)
    requires
        spec.matches_request(request),
    ensures
        ReplicaSpecView::of_request(request).matches_request(request),
        spec.set_op_result(result).matches_request(request),
        spec.clear_op().matches_request(request),
        spec.start_op(operation) matches Ok(started) ==> {
            &&& started.matches_request(request)
            &&& started.set_op_result(result).matches_request(request)
            &&& started.set_op_result(result).clear_op().matches_request(request)
            &&& started.set_op_result(result).commit_op().matches_request(request)
                <==> operation.share_after() == request.share
        },
        spec.commit_op().matches_request(request) <==> (spec.operation matches Some(record)
            ==> record.operation.share_after() == request.share),
{
}

} // verus!
