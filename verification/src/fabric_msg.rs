//! The messages that nodes exchange over the fabric.
//!
//! Three kinds of conversation run over the fabric: reads and writes of a key
//! on a remote virtual node, the synchronization of two replicas of a virtual
//! node, and the gossip that keeps the nodes' view of the cluster up to date.

use bytes::Bytes;
use vstd::prelude::*;
use vstd::std_specs::convert::FromSpecImpl;

use crate::types::{BitmappedVersionVector, Cookie, Cube, NodeId, VNodeId, VersionVector};

verus! {

/// The kind of conversation that a message belongs to.
#[derive(Debug, Copy, Clone, PartialEq, Eq, Structural)]
pub enum FabricMsgType {
    /// A read or a write of a key on a remote virtual node.
    Crud,
    /// The synchronization of two replicas.
    Synch,
    /// Gossip about the cluster.
    DHT,
    /// No kind: never given.
    Unknown,
}

/// Why a request over the fabric failed.
#[derive(Debug, Copy, Clone, PartialEq, Eq, Structural)]
pub enum FabricError {
    /// No node is known for the target.
    NoRoute,
    /// The conversation of the cookie is no longer tracked.
    CookieNotFound,
    /// The virtual node is in a state that forbids the request.
    BadVNodeStatus,
    /// Not now: try again later.
    NotReady,
    /// The peer gave up the synchronization.
    SyncInterrupted,
    /// The storage engine failed.
    StorageError,
}

/// A message of the fabric.
#[derive(Debug)]
pub enum FabricMsg {
    RemoteGet(MsgRemoteGet),
    RemoteGetAck(MsgRemoteGetAck),
    RemoteSet(MsgRemoteSet),
    RemoteSetAck(MsgRemoteSetAck),
    SyncStart(MsgSyncStart),
    SyncSend(MsgSyncSend),
    SyncAck(MsgSyncAck),
    SyncFin(MsgSyncFin),
    /// The sender's view of the cluster, for the receiver to compare with.
    DHTAE(VersionVector),
    /// What the receiver of a `DHTAE` lacked, serialized.
    DHTSync(Bytes),
    /// A message of a kind that this node does not know. Only ever received,
    /// and dropped.
    Unknown,
}

/// Asks for the values of `key` on a virtual node.
#[derive(Debug)]
pub struct MsgRemoteGet {
    pub vnode: VNodeId,
    pub cookie: Cookie,
    pub key: Bytes,
}

/// Answers a `MsgRemoteGet`.
#[derive(Debug)]
pub struct MsgRemoteGetAck {
    pub vnode: VNodeId,
    pub cookie: Cookie,
    pub result: Result<Cube, FabricError>,
}

/// Asks a virtual node to merge `value` into the values of `key`.
#[derive(Debug)]
pub struct MsgRemoteSet {
    pub vnode: VNodeId,
    pub cookie: Cookie,
    pub key: Bytes,
    pub value: Cube,
    /// Whether an answer is wanted at all.
    pub reply: bool,
    /// Whether the answer is to carry the values from before the merge.
    pub reply_result: bool,
}

/// Answers a `MsgRemoteSet`.
#[derive(Debug)]
pub struct MsgRemoteSetAck {
    pub vnode: VNodeId,
    pub cookie: Cookie,
    pub result: Result<Option<Cube>, FabricError>,
}

/// Opens a synchronization: what the sender believes the receiver to have
/// seen, and the one node whose writes are wanted, if only one.
#[derive(Debug)]
pub struct MsgSyncStart {
    pub vnode: VNodeId,
    pub cookie: Cookie,
    pub clocks_in_peer: BitmappedVersionVector,
    pub target: Option<NodeId>,
}

/// Ends a synchronization: what the receiver has now seen, or why it ended
/// early.
#[derive(Debug)]
pub struct MsgSyncFin {
    pub vnode: VNodeId,
    pub cookie: Cookie,
    pub result: Result<BitmappedVersionVector, FabricError>,
}

/// One entry of a synchronization, numbered within its stream.
#[derive(Debug)]
pub struct MsgSyncSend {
    pub vnode: VNodeId,
    pub cookie: Cookie,
    pub seq: u64,
    pub key: Bytes,
    pub value: Cube,
}

/// Acknowledges the entry of a synchronization with the number `seq`.
#[derive(Debug)]
pub struct MsgSyncAck {
    pub vnode: VNodeId,
    pub cookie: Cookie,
    pub seq: u64,
}

impl FabricMsg {
    /// The kind of conversation of each kind of message.
    pub open spec fn kind(&self) -> FabricMsgType {
        match *self {
            FabricMsg::RemoteGet(_) => FabricMsgType::Crud,
            FabricMsg::RemoteGetAck(_) => FabricMsgType::Crud,
            FabricMsg::RemoteSet(_) => FabricMsgType::Crud,
            FabricMsg::RemoteSetAck(_) => FabricMsgType::Crud,
            FabricMsg::SyncStart(_) => FabricMsgType::Synch,
            FabricMsg::SyncSend(_) => FabricMsgType::Synch,
            FabricMsg::SyncAck(_) => FabricMsgType::Synch,
            FabricMsg::SyncFin(_) => FabricMsgType::Synch,
            FabricMsg::DHTAE(_) => FabricMsgType::DHT,
            FabricMsg::DHTSync(_) => FabricMsgType::DHT,
            FabricMsg::Unknown => FabricMsgType::Unknown,
        }
    }

    /// The virtual node and the cookie that the message carries. Every
    /// message but those of the gossip carries them.
    pub open spec fn addressed(&self) -> Option<(VNodeId, Cookie)> {
        match *self {
            FabricMsg::RemoteGet(m) => Some((m.vnode, m.cookie)),
            FabricMsg::RemoteGetAck(m) => Some((m.vnode, m.cookie)),
            FabricMsg::RemoteSet(m) => Some((m.vnode, m.cookie)),
            FabricMsg::RemoteSetAck(m) => Some((m.vnode, m.cookie)),
            FabricMsg::SyncStart(m) => Some((m.vnode, m.cookie)),
            FabricMsg::SyncSend(m) => Some((m.vnode, m.cookie)),
            FabricMsg::SyncAck(m) => Some((m.vnode, m.cookie)),
            FabricMsg::SyncFin(m) => Some((m.vnode, m.cookie)),
            FabricMsg::DHTAE(_) => None,
            FabricMsg::DHTSync(_) => None,
            FabricMsg::Unknown => None,
        }
    }

    /// The kind of conversation that the message belongs to. An unknown
    /// message has none and is not to be asked.
    pub fn get_type(&self) -> (kind: FabricMsgType)
        requires
            !(self is Unknown),
        ensures
            kind == self.kind(),
            kind != FabricMsgType::Unknown,
    {
        match self {
            FabricMsg::RemoteGet(_)
            | FabricMsg::RemoteGetAck(_)
            | FabricMsg::RemoteSet(_)
            | FabricMsg::RemoteSetAck(_) => FabricMsgType::Crud,
            FabricMsg::SyncStart(_)
            | FabricMsg::SyncSend(_)
            | FabricMsg::SyncAck(_)
            | FabricMsg::SyncFin(_) => FabricMsgType::Synch,
            FabricMsg::DHTSync(_) | FabricMsg::DHTAE(_) => FabricMsgType::DHT,
            FabricMsg::Unknown => FabricMsgType::Unknown,
        }
    }

    /// The virtual node and the cookie that the message carries, if it
    /// carries them.
    pub fn address(&self) -> (address: Option<(VNodeId, Cookie)>)
        ensures
            address == self.addressed(),
            address is Some <==> (self.kind() == FabricMsgType::Crud || self.kind()
                == FabricMsgType::Synch),
    {
        match self {
            FabricMsg::RemoteGet(m) => Some((m.vnode, m.cookie)),
            FabricMsg::RemoteGetAck(m) => Some((m.vnode, m.cookie)),
            FabricMsg::RemoteSet(m) => Some((m.vnode, m.cookie)),
            FabricMsg::RemoteSetAck(m) => Some((m.vnode, m.cookie)),
            FabricMsg::SyncStart(m) => Some((m.vnode, m.cookie)),
            FabricMsg::SyncSend(m) => Some((m.vnode, m.cookie)),
            FabricMsg::SyncAck(m) => Some((m.vnode, m.cookie)),
            FabricMsg::SyncFin(m) => Some((m.vnode, m.cookie)),
            FabricMsg::DHTAE(_) => None,
            FabricMsg::DHTSync(_) => None,
            FabricMsg::Unknown => None,
        }
    }
}

impl MsgRemoteGet {
    /// The answer to this request: it carries the request's virtual node and
    /// cookie, and what the read gave.
    pub fn ack(&self, result: Result<Cube, FabricError>) -> (ack: MsgRemoteGetAck)
        ensures
            ack.vnode == self.vnode,
            ack.cookie == self.cookie,
            ack.result == result,
    {
        MsgRemoteGetAck { vnode: self.vnode, cookie: self.cookie, result }
    }
}

impl MsgRemoteSet {
    /// What the answer to this request holds, given what the merge gave: the
    /// values from before the merge, or why it failed. A failure is handed on.
    /// Of a success the values are handed on only if the request asks for the
    /// result.
    pub open spec fn ack_result(&self, outcome: Result<Cube, FabricError>) -> Result<
        Option<Cube>,
        FabricError,
    > {
        match outcome {
            Ok(previous) => Ok(
                if self.reply_result {
                    Some(previous)
                } else {
                    None
                },
            ),
            Err(error) => Err(error),
        }
    }

    /// The answer to this request, if it asks for one: it carries the
    /// request's virtual node and cookie, and the result that
    /// [`MsgRemoteSet::ack_result`] describes. `outcome` is what the merge gave:
    /// the values from before the merge, or why it failed.
    pub fn ack(&self, outcome: Result<Cube, FabricError>) -> (ack: Option<MsgRemoteSetAck>)
        ensures
            ack is Some <==> self.reply,
            ack matches Some(answer) ==> answer.vnode == self.vnode && answer.cookie == self.cookie
                && answer.result == self.ack_result(outcome),
    {
        if !self.reply {
            return None;
        }
        let result = match outcome {
            Ok(previous) => Ok(
                if self.reply_result {
                    Some(previous)
                } else {
                    None
                },
            ),
            Err(error) => Err(error),
        };
        Some(MsgRemoteSetAck { vnode: self.vnode, cookie: self.cookie, result })
    }
}

impl MsgSyncStart {
    /// The message that ends the synchronization that this one opened: it
    /// carries its virtual node and cookie, and how the synchronization went.
    pub fn fin(&self, result: Result<BitmappedVersionVector, FabricError>) -> (fin: MsgSyncFin)
        ensures
            fin.vnode == self.vnode,
            fin.cookie == self.cookie,
            fin.result == result,
    {
        MsgSyncFin { vnode: self.vnode, cookie: self.cookie, result }
    }
}

impl MsgSyncSend {
    /// The acknowledgement of this entry: it carries the entry's virtual
    /// node, cookie and number.
    pub fn ack(&self) -> (ack: MsgSyncAck)
        ensures
            ack.vnode == self.vnode,
            ack.cookie == self.cookie,
            ack.seq == self.seq,
    {
        MsgSyncAck { vnode: self.vnode, cookie: self.cookie, seq: self.seq }
    }
}

impl From<MsgRemoteGet> for FabricMsg {
    fn from(msg: MsgRemoteGet) -> (out: FabricMsg) {
        FabricMsg::RemoteGet(msg)
    }
}

impl FromSpecImpl<MsgRemoteGet> for FabricMsg {
    open spec fn obeys_from_spec() -> bool {
        true
    }

    open spec fn from_spec(msg: MsgRemoteGet) -> FabricMsg {
        FabricMsg::RemoteGet(msg)
    }
}

impl From<MsgRemoteGetAck> for FabricMsg {
    fn from(msg: MsgRemoteGetAck) -> (out: FabricMsg) {
        FabricMsg::RemoteGetAck(msg)
    }
}

impl FromSpecImpl<MsgRemoteGetAck> for FabricMsg {
    open spec fn obeys_from_spec() -> bool {
        true
    }

    open spec fn from_spec(msg: MsgRemoteGetAck) -> FabricMsg {
        FabricMsg::RemoteGetAck(msg)
    }
}

impl From<MsgRemoteSet> for FabricMsg {
    fn from(msg: MsgRemoteSet) -> (out: FabricMsg) {
        FabricMsg::RemoteSet(msg)
    }
}

impl FromSpecImpl<MsgRemoteSet> for FabricMsg {
    open spec fn obeys_from_spec() -> bool {
        true
    }

    open spec fn from_spec(msg: MsgRemoteSet) -> FabricMsg {
        FabricMsg::RemoteSet(msg)
    }
}

impl From<MsgRemoteSetAck> for FabricMsg {
    fn from(msg: MsgRemoteSetAck) -> (out: FabricMsg) {
        FabricMsg::RemoteSetAck(msg)
    }
}

impl FromSpecImpl<MsgRemoteSetAck> for FabricMsg {
    open spec fn obeys_from_spec() -> bool {
        true
    }

    open spec fn from_spec(msg: MsgRemoteSetAck) -> FabricMsg {
        FabricMsg::RemoteSetAck(msg)
    }
}

impl From<MsgSyncAck> for FabricMsg {
    fn from(msg: MsgSyncAck) -> (out: FabricMsg) {
        FabricMsg::SyncAck(msg)
    }
}

impl FromSpecImpl<MsgSyncAck> for FabricMsg {
    open spec fn obeys_from_spec() -> bool {
        true
    }

    open spec fn from_spec(msg: MsgSyncAck) -> FabricMsg {
        FabricMsg::SyncAck(msg)
    }
}

impl From<MsgSyncSend> for FabricMsg {
    fn from(msg: MsgSyncSend) -> (out: FabricMsg) {
        FabricMsg::SyncSend(msg)
    }
}

impl FromSpecImpl<MsgSyncSend> for FabricMsg {
    open spec fn obeys_from_spec() -> bool {
        true
    }

    open spec fn from_spec(msg: MsgSyncSend) -> FabricMsg {
        FabricMsg::SyncSend(msg)
    }
}

impl From<MsgSyncFin> for FabricMsg {
    fn from(msg: MsgSyncFin) -> (out: FabricMsg) {
        FabricMsg::SyncFin(msg)
    }
}

impl FromSpecImpl<MsgSyncFin> for FabricMsg {
    open spec fn obeys_from_spec() -> bool {
        true
    }

    open spec fn from_spec(msg: MsgSyncFin) -> FabricMsg {
        FabricMsg::SyncFin(msg)
    }
}

impl From<MsgSyncStart> for FabricMsg {
    fn from(msg: MsgSyncStart) -> (out: FabricMsg) {
        FabricMsg::SyncStart(msg)
    }
}

impl FromSpecImpl<MsgSyncStart> for FabricMsg {
    open spec fn obeys_from_spec() -> bool {
        true
    }

    open spec fn from_spec(msg: MsgSyncStart) -> FabricMsg {
        FabricMsg::SyncStart(msg)
    }
}

} // verus!
