//! Mapping between packets and WebSocket boundary messages.
//!
//! The WebSocket transport exchanges application-level messages; the bridge
//! maps them one-to-one onto packets: text to text, binary to binary, close
//! to a close with no reason. Every other boundary message kind is dropped
//! by the mapping, not propagated as an error.

use vstd::prelude::*;
use crate::codec::{PacketModel, ProxyPacket};

verus! {

/// One message at the WebSocket boundary, as far as the bridge reads it:
/// the three kinds it relays, and `Other` for every kind it drops.
#[derive(Debug, PartialEq)]
pub enum WsMessage {
    Text(String),
    Binary(Vec<u8>),
    Close,
    Other,
}

/// The mathematical value of a boundary message.
pub enum MessageModel {
    Text(Seq<char>),
    Binary(Seq<u8>),
    Close,
    Other,
}

impl View for WsMessage {
    type V = MessageModel;

    open spec fn view(&self) -> MessageModel {
        match self {
            WsMessage::Text(s) => MessageModel::Text(s@),
            WsMessage::Binary(b) => MessageModel::Binary(b@),
            WsMessage::Close => MessageModel::Close,
            WsMessage::Other => MessageModel::Other,
        }
    }
}

/// The boundary message a packet maps to: the one-to-one image of its
/// variant and payload.
pub open spec fn message_of(m: PacketModel) -> MessageModel {
    match m {
        PacketModel::Text(s) => MessageModel::Text(s),
        PacketModel::Binary(b) => MessageModel::Binary(b),
        PacketModel::Close => MessageModel::Close,
    }
}

/// The packet a boundary message maps to, when it maps to one: the three
/// relayed kinds map one-to-one, every other kind to nothing.
pub open spec fn packet_of(m: MessageModel) -> Option<PacketModel> {
    match m {
        MessageModel::Text(s) => Some(PacketModel::Text(s)),
        MessageModel::Binary(b) => Some(PacketModel::Binary(b)),
        MessageModel::Close => Some(PacketModel::Close),
        MessageModel::Other => None,
    }
}

/// The model of an optional packet: the packet is replaced by its view.
pub open spec fn accepted(r: Option<ProxyPacket>) -> Option<PacketModel> {
    match r {
        Some(p) => Some(p@),
        None => None,
    }
}

/// Anything that converts into a WebSocket boundary message.
pub trait IntoMessage: Sized {
    /// The boundary message this value maps to.
    spec fn as_message(self) -> MessageModel;

    /// Converts this value into the boundary message it maps to.
    fn into_message(self) -> (r: WsMessage)
        ensures
            r@ == self.as_message(),
    ;
}

impl IntoMessage for ProxyPacket {
    open spec fn as_message(self) -> MessageModel {
        message_of(self@)
    }

    fn into_message(self) -> (r: WsMessage) {
        match self {
            ProxyPacket::Text(s) => WsMessage::Text(s),
            ProxyPacket::Binary(b) => WsMessage::Binary(b),
            ProxyPacket::Close => WsMessage::Close,
        }
    }
}

/// Converts a boundary message into the packet it maps to; a message kind
/// the bridge does not relay yields nothing and is thereby dropped.
pub fn message_to_packet(m: WsMessage) -> (r: Option<ProxyPacket>)
    ensures
        accepted(r) == packet_of(m@),
{
    match m {
        WsMessage::Text(s) => Some(ProxyPacket::Text(s)),
        WsMessage::Binary(b) => Some(ProxyPacket::Binary(b)),
        WsMessage::Close => Some(ProxyPacket::Close),
        WsMessage::Other => None,
    }
}

/// The two mappings invert each other: a packet sent to the boundary and
/// read back is the same packet, for every packet value.
pub proof fn lemma_message_round_trip(m: PacketModel)
    ensures
        packet_of(message_of(m)) == Some(m),
{
}

} // verus!
