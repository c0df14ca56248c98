//! Control-plane core of a storage orchestrator: the desired-state records of
//! storage resources with their in-flight operation, the keys under which they
//! are persisted, and the decisions of the persistent-volume garbage collector.

pub mod blockdevice;
pub mod models;
pub mod pools_api;
pub mod pvwatcher;
pub mod replica;
pub mod store;
pub mod text;
pub mod types;
pub mod v0;
pub mod uuid_text;
