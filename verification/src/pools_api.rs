//! The routes under which the REST interface serves pools: for each operation
//! its name, the path pattern and the HTTP method.

use vstd::prelude::*;

verus! {

/// The HTTP methods of the pool routes.
#[derive(Debug, Clone, Copy, PartialEq, Eq, Structural)]
pub enum Method {
    Delete,
    Get,
    Put,
}

/// The operations on pools that the REST interface offers.
#[derive(Debug, Clone, Copy, PartialEq, Eq, Structural)]
pub enum PoolsOperation {
    /// Delete a pool of a node.
    DelNodePool,
    /// Delete a pool.
    DelPool,
    /// Get a pool of a node.
    GetNodePool,
    /// Get the pools of a node.
    GetNodePools,
    /// Get a pool.
    GetPool,
    /// Get all pools.
    GetPools,
    /// Create a pool on a node.
    PutNodePool,
}

impl PoolsOperation {
    /// The name under which the route of the operation is registered.
    pub open spec fn spec_name(self) -> Seq<char> {
        match self {
            PoolsOperation::DelNodePool => "del_node_pool"@,
            PoolsOperation::DelPool => "del_pool"@,
            PoolsOperation::GetNodePool => "get_node_pool"@,
            PoolsOperation::GetNodePools => "get_node_pools"@,
            PoolsOperation::GetPool => "get_pool"@,
            PoolsOperation::GetPools => "get_pools"@,
            PoolsOperation::PutNodePool => "put_node_pool"@,
        }
    }

    /// The path pattern at which the operation is served.
    pub open spec fn spec_path(self) -> Seq<char> {
        match self {
            PoolsOperation::DelNodePool => "/nodes/{node_id}/pools/{pool_id}"@,
            PoolsOperation::DelPool => "/pools/{pool_id}"@,
            PoolsOperation::GetNodePool => "/nodes/{node_id}/pools/{pool_id}"@,
            PoolsOperation::GetNodePools => "/nodes/{id}/pools"@,
            PoolsOperation::GetPool => "/pools/{pool_id}"@,
            PoolsOperation::GetPools => "/pools"@,
            PoolsOperation::PutNodePool => "/nodes/{node_id}/pools/{pool_id}"@,
        }
    }

    /// The HTTP method with which the operation is asked for.
    pub open spec fn spec_method(self) -> Method {
        match self {
            PoolsOperation::DelNodePool => Method::Delete,
            PoolsOperation::DelPool => Method::Delete,
            PoolsOperation::GetNodePool => Method::Get,
            PoolsOperation::GetNodePools => Method::Get,
            PoolsOperation::GetPool => Method::Get,
            PoolsOperation::GetPools => Method::Get,
            PoolsOperation::PutNodePool => Method::Put,
        }
    }

    /// The name under which the route of the operation is registered.
    pub fn name(&self) -> (name: &'static str)
        ensures
            name@ == self.spec_name(),
    {
        match self {
            PoolsOperation::DelNodePool => "del_node_pool",
            PoolsOperation::DelPool => "del_pool",
            PoolsOperation::GetNodePool => "get_node_pool",
            PoolsOperation::GetNodePools => "get_node_pools",
            PoolsOperation::GetPool => "get_pool",
            PoolsOperation::GetPools => "get_pools",
            PoolsOperation::PutNodePool => "put_node_pool",
        }
    }

    /// The path pattern at which the operation is served.
    pub fn path(&self) -> (path: &'static str)
        ensures
            path@ == self.spec_path(),
    {
        match self {
            PoolsOperation::DelNodePool => "/nodes/{node_id}/pools/{pool_id}",
            PoolsOperation::DelPool => "/pools/{pool_id}",
            PoolsOperation::GetNodePool => "/nodes/{node_id}/pools/{pool_id}",
            PoolsOperation::GetNodePools => "/nodes/{id}/pools",
            PoolsOperation::GetPool => "/pools/{pool_id}",
            PoolsOperation::GetPools => "/pools",
            PoolsOperation::PutNodePool => "/nodes/{node_id}/pools/{pool_id}",
        }
    }

    /// The HTTP method with which the operation is asked for.
    pub fn method(&self) -> (method: Method)
        ensures
            method == self.spec_method(),
    {
        match self {
            PoolsOperation::DelNodePool => Method::Delete,
            PoolsOperation::DelPool => Method::Delete,
            PoolsOperation::GetNodePool => Method::Get,
            PoolsOperation::GetNodePools => Method::Get,
            PoolsOperation::GetPool => Method::Get,
            PoolsOperation::GetPools => Method::Get,
            PoolsOperation::PutNodePool => Method::Put,
        }
    }
}

/// The operations in the order in which their routes are registered.
pub open spec fn registered() -> Seq<PoolsOperation> {
    seq![
        PoolsOperation::DelNodePool,
        PoolsOperation::DelPool,
        PoolsOperation::GetNodePool,
        PoolsOperation::GetNodePools,
        PoolsOperation::GetPool,
        PoolsOperation::GetPools,
        PoolsOperation::PutNodePool,
    ]
}

/// The operations whose routes make up the pools resource, in the order in
/// which they are registered.
pub fn routes() -> (operations: Vec<PoolsOperation>)
    ensures
        operations@ == registered(),
{
    let mut operations: Vec<PoolsOperation> = Vec::new();
    operations.push(PoolsOperation::DelNodePool);
    operations.push(PoolsOperation::DelPool);
    operations.push(PoolsOperation::GetNodePool);
    operations.push(PoolsOperation::GetNodePools);
    operations.push(PoolsOperation::GetPool);
    operations.push(PoolsOperation::GetPools);
    operations.push(PoolsOperation::PutNodePool);
    operations
}

/// Every operation is registered, and none twice.
pub proof fn lemma_registered_once(operation: PoolsOperation)
    ensures
        registered().contains(operation),
        forall|i: int, j: int|
            0 <= i < j < registered().len() ==> registered()[i] != registered()[j],
{
    let at: int = match operation {
        PoolsOperation::DelNodePool => 0,
        PoolsOperation::DelPool => 1,
        PoolsOperation::GetNodePool => 2,
        PoolsOperation::GetNodePools => 3,
        PoolsOperation::GetPool => 4,
        PoolsOperation::GetPools => 5,
        PoolsOperation::PutNodePool => 6,
    };
}

/// No two operations are served at the same path with the same method, so a
/// request is routed to at most one of them.
pub proof fn lemma_routes_unambiguous(first: PoolsOperation, second: PoolsOperation)
    requires
        first != second,
    ensures
        first.spec_path() != second.spec_path() || first.spec_method() != second.spec_method(),
{
    reveal_strlit("/nodes/{node_id}/pools/{pool_id}");
    reveal_strlit("/pools/{pool_id}");
    reveal_strlit("/nodes/{id}/pools");
    reveal_strlit("/pools");
    if first.spec_method() == second.spec_method() {
        assert(first.spec_path().len() != second.spec_path().len());
    }
}

/// No two operations are registered under the same name.
pub proof fn lemma_names_distinct(first: PoolsOperation, second: PoolsOperation)
    requires
        first != second,
    ensures
        first.spec_name() != second.spec_name(),
{
    reveal_strlit("del_node_pool");
    reveal_strlit("del_pool");
    reveal_strlit("get_node_pool");
    reveal_strlit("get_node_pools");
    reveal_strlit("get_pool");
    reveal_strlit("get_pools");
    reveal_strlit("put_node_pool");
    if first.spec_name().len() == second.spec_name().len() {
        assert(first.spec_name()[0] != second.spec_name()[0]);
    }
}

} // verus!
