//! What every resource specification shares: its lifecycle state and the
//! transaction that guards a change of the resource on its storage node.

use vstd::prelude::*;

verus! {

/// Where a resource stands in its lifecycle. `T` is the runtime state that
/// the resource's kind reports once it exists.
#[derive(Debug, Clone, Copy, PartialEq, Eq, Structural)]
pub enum SpecState<T> {
    /// The creation was accepted and has not been confirmed yet.
    Creating,
    /// The resource exists, in the given runtime state.
    Created(T),
    /// The deletion was accepted and has not been confirmed yet.
    Deleting,
    /// The resource is gone.
    Deleted,
}

/// `start_op` was called on a specification that already carries an operation.
#[derive(Debug, Clone, Copy, PartialEq, Eq, Structural)]
pub struct OperationConflict {}

/// The transaction around one change of a resource.
///
/// A change runs in three persisted steps. `start_op` records the intent,
/// before the storage node is asked. `set_op_result` records the node's
/// answer. Then `commit_op` applies a successful operation to the
/// specification, or `clear_op` drops a failed one. A specification carries at
/// most one operation at a time.
pub trait SpecTransaction<Operation>: Sized {
    /// The operation that the specification carries, with its result.
    spec fn op_record(&self) -> Option<(Operation, Option<bool>)>;

    /// Whether the specification is marked as being updated.
    spec fn op_updating(&self) -> bool;

    /// Whether an operation is attached to the specification.
    fn pending_op(&self) -> (pending: bool)
        ensures
            pending == self.op_record() is Some,
    ;

    /// Applies the attached operation, if there is one, to the visible fields
    /// of the specification and drops its record.
    fn commit_op(&mut self)
        ensures
            final(self).op_record() is None,
            !final(self).op_updating(),
    ;

    /// Drops the operation record, whatever its result.
    fn clear_op(&mut self)
        ensures
            final(self).op_record() is None,
            !final(self).op_updating(),
    ;

    /// Attaches an operation with no result yet. Fails, and leaves the
    /// specification as it was, if one is attached already.
    fn start_op(&mut self, operation: Operation) -> (started: Result<(), OperationConflict>)
        ensures
            started is Err <==> old(self).op_record() is Some,
            started is Err ==> *final(self) == *old(self),
            started is Ok ==> final(self).op_updating() && final(self).op_record() == Some(
                (operation, None::<bool>),
            ),
    ;

    /// Records the storage node's answer on the attached operation. Without
    /// an attached operation there is no record to write it to. The update
    /// flag is dropped either way.
    fn set_op_result(&mut self, result: bool)
        ensures
            !final(self).op_updating(),
            final(self).op_record() == match old(self).op_record() {
                Some((operation, _)) => Some((operation, Some(result))),
                None => None,
            },
    ;
}

} // verus!
