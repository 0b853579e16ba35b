//! Identifiers and opaque payloads that the fabric messages carry.
//!
//! The payloads belong to other parts of the node: this crate hands them on
//! in their serialized form and never looks inside.

use vstd::prelude::*;

verus! {

/// The id of a virtual node, the unit of replication. On the node that hosts
/// it, a virtual node stores its data in the namespace of the same number.
pub type VNodeId = u16;

/// The id of a node.
pub type NodeId = u64;

/// The token that ties a reply to its request. The protocol never looks at
/// it: every reply and continuation carries the cookie of its request.
pub type Cookie = u64;

/// `bytes::Bytes`: a shared, immutable run of bytes. Opaque here.
#[verifier::external_type_specification]
#[verifier::external_body]
pub struct ExBytes(bytes::Bytes);

/// The container of the concurrent values of one key, serialized.
#[derive(Clone, Debug, PartialEq, Eq)]
pub struct Cube {
    /// The serialized container.
    pub bytes: Vec<u8>,
}

/// A version vector: what a node has seen of every node, serialized.
#[derive(Clone, Debug, PartialEq, Eq)]
pub struct VersionVector {
    /// The serialized vector.
    pub bytes: Vec<u8>,
}

/// A version vector with a bitmap of what was seen out of order, serialized.
#[derive(Clone, Debug, PartialEq, Eq)]
pub struct BitmappedVersionVector {
    /// The serialized vector.
    pub bytes: Vec<u8>,
}

} // verus!
