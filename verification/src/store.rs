//! Keys of the persistent store.
//!
//! Every entity that is persisted derives its own key from its own fields: the
//! kind of entity and its UUID. The store itself lives outside this library.

use vstd::prelude::*;
use vstd::string::StringExecFns;

verus! {

/// What separates the kind from the UUID in a key.
pub const KEY_SEPARATOR: &'static str = ":";

/// The kinds of entity that the store holds.
#[derive(Debug, Clone, Copy, PartialEq, Eq, Structural)]
pub enum StorableObjectType {
    /// Specification of a replica.
    ReplicaSpec,
    /// Runtime state of a replica.
    ReplicaState,
    /// Specification of a pool.
    PoolSpec,
    /// Runtime state of a pool.
    PoolState,
    /// Specification of a volume.
    VolumeSpec,
    /// Runtime state of a volume.
    VolumeState,
}

impl StorableObjectType {
    /// The tag that stands for the kind in a key.
    pub open spec fn tag(self) -> Seq<char> {
        match self {
            StorableObjectType::ReplicaSpec => "ReplicaSpec"@,
            StorableObjectType::ReplicaState => "ReplicaState"@,
            StorableObjectType::PoolSpec => "PoolSpec"@,
            StorableObjectType::PoolState => "PoolState"@,
            StorableObjectType::VolumeSpec => "VolumeSpec"@,
            StorableObjectType::VolumeState => "VolumeState"@,
        }
    }

    /// The tag that stands for the kind in a key.
    pub fn as_str(&self) -> (text: &'static str)
        ensures
            text@ == self.tag(),
    {
        match self {
            StorableObjectType::ReplicaSpec => "ReplicaSpec",
            StorableObjectType::ReplicaState => "ReplicaState",
            StorableObjectType::PoolSpec => "PoolSpec",
            StorableObjectType::PoolState => "PoolState",
            StorableObjectType::VolumeSpec => "VolumeSpec",
            StorableObjectType::VolumeState => "VolumeState",
        }
    }
}

/// The text of the key for an entity of a kind with a UUID.
pub open spec fn key_text(kind: StorableObjectType, uuid: Seq<char>) -> Seq<char> {
    kind.tag() + KEY_SEPARATOR@ + uuid
}

/// A key of the store: the kind of an entity and its UUID.
pub trait ObjectKey {
    /// The kind of entity that the key stands for.
    spec fn kind(&self) -> StorableObjectType;

    /// The UUID of the entity that the key stands for.
    spec fn uuid(&self) -> Seq<char>;

    /// The kind of entity that the key stands for.
    fn key_type(&self) -> (kind: StorableObjectType)
        ensures
            kind == self.kind(),
    ;

    /// The UUID of the entity that the key stands for.
    fn key_uuid(&self) -> (uuid: String)
        ensures
            uuid@ == self.uuid(),
    ;
}

/// An entity that can be persisted, and that knows its own key.
pub trait StorableObject {
    /// The type of the entity's key.
    type Key: ObjectKey;

    /// The kind of the entity.
    spec fn object_kind(&self) -> StorableObjectType;

    /// The UUID that the entity holds of itself.
    spec fn object_uuid(&self) -> Seq<char>;

    /// The key under which the entity is persisted, made of its own kind and
    /// its own UUID.
    fn key(&self) -> (key: Self::Key)
        ensures
            key.kind() == self.object_kind(),
            key.uuid() == self.object_uuid(),
    ;
}

/// The text under which the store holds the entity of a key: the tag of its
/// kind, a colon, and its UUID.
pub fn generate_key<K: ObjectKey>(key: &K) -> (text: String)
    ensures
        text@ == key_text(key.kind(), key.uuid()),
{
    let uuid = key.key_uuid();
    String::from_str(key.key_type().as_str()).concat(KEY_SEPARATOR).concat(uuid.as_str())
}

/// Two keys have the same text only if they stand for the same kind of entity
/// and the same UUID: no two entities share a place in the store.
pub proof fn lemma_key_text_injective(
    kind: StorableObjectType,
    uuid: Seq<char>,
    other_kind: StorableObjectType,
    other_uuid: Seq<char>,
)
    requires
        key_text(kind, uuid) == key_text(other_kind, other_uuid),
    ensures
        kind == other_kind,
        uuid == other_uuid,
{
    reveal_strlit("ReplicaSpec");
    reveal_strlit("ReplicaState");
    reveal_strlit("PoolSpec");
    reveal_strlit("PoolState");
    reveal_strlit("VolumeSpec");
    reveal_strlit("VolumeState");
    reveal_strlit(":");
    let text = key_text(kind, uuid);
    let other_text = key_text(other_kind, other_uuid);
    let tag = kind.tag();
    let other_tag = other_kind.tag();
    // No tag holds a colon, so the first colon of a key text ends its tag.
    assert(text[tag.len() as int] == ':');
    assert(other_text[other_tag.len() as int] == ':');
    assert(forall|i: int| 0 <= i < tag.len() ==> text[i] == tag[i] && tag[i] != ':');
    assert(forall|i: int|
        0 <= i < other_tag.len() ==> other_text[i] == other_tag[i] && other_tag[i] != ':');
    assert(tag.len() == other_tag.len());
    // Tags of the same length differ in their first character.
    assert(tag[0] == other_tag[0]);
    assert(uuid =~= text.subrange(tag.len() as int + 1, text.len() as int));
    assert(other_uuid =~= other_text.subrange(tag.len() as int + 1, text.len() as int));
}

} // verus!
