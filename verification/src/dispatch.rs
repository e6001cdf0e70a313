//! Dispatching: each packet received from the server goes to the actor of
//! its exchange, as a message with no retry yet.

use vstd::prelude::*;

use crate::packet::{IncomingPacket, IncomingPublish, PacketMessage};

verus! {

/// A received packet, addressed to the actor that handles it.
#[derive(Debug, PartialEq)]
pub enum Dispatch {
    Connack(PacketMessage<u8>),
    Pingresp(PacketMessage<u16>),
    Publish(PacketMessage<IncomingPublish>),
    Puback(PacketMessage<u16>),
    Pubrec(PacketMessage<u16>),
    Pubrel(PacketMessage<u16>),
    Pubcomp(PacketMessage<u16>),
    Suback(PacketMessage<u16>),
    Unsuback(PacketMessage<u16>),
    /// A packet a client does not handle.
    Ignore,
}

/// Addresses a received packet: the packet, with retry count 0, to the actor
/// of its kind; a PINGRESP carries identifier 0.
pub fn dispatch(packet: IncomingPacket) -> (d: Dispatch)
    ensures
        match packet {
            IncomingPacket::Connack(code) => d matches Dispatch::Connack(m) && m.packet == code && m.retry_count == 0,
            IncomingPacket::Pingresp => d matches Dispatch::Pingresp(m) && m.packet == 0 && m.retry_count == 0,
            IncomingPacket::Publish(p) => d matches Dispatch::Publish(m) && m.packet == p && m.retry_count == 0,
            IncomingPacket::Puback(id) => d matches Dispatch::Puback(m) && m.packet == id && m.retry_count == 0,
            IncomingPacket::Pubrec(id) => d matches Dispatch::Pubrec(m) && m.packet == id && m.retry_count == 0,
            IncomingPacket::Pubrel(id) => d matches Dispatch::Pubrel(m) && m.packet == id && m.retry_count == 0,
            IncomingPacket::Pubcomp(id) => d matches Dispatch::Pubcomp(m) && m.packet == id && m.retry_count == 0,
            IncomingPacket::Suback(id) => d matches Dispatch::Suback(m) && m.packet == id && m.retry_count == 0,
            IncomingPacket::Unsuback(id) => d matches Dispatch::Unsuback(m) && m.packet == id && m.retry_count == 0,
            IncomingPacket::Other => d is Ignore,
        },
{
    match packet {
        IncomingPacket::Connack(code) => Dispatch::Connack(PacketMessage::new(code, 0)),
        IncomingPacket::Pingresp => Dispatch::Pingresp(PacketMessage::new(0, 0)),
        IncomingPacket::Publish(p) => Dispatch::Publish(PacketMessage::new(p, 0)),
        IncomingPacket::Puback(id) => Dispatch::Puback(PacketMessage::new(id, 0)),
        IncomingPacket::Pubrec(id) => Dispatch::Pubrec(PacketMessage::new(id, 0)),
        IncomingPacket::Pubrel(id) => Dispatch::Pubrel(PacketMessage::new(id, 0)),
        IncomingPacket::Pubcomp(id) => Dispatch::Pubcomp(PacketMessage::new(id, 0)),
        IncomingPacket::Suback(id) => Dispatch::Suback(PacketMessage::new(id, 0)),
        IncomingPacket::Unsuback(id) => Dispatch::Unsuback(PacketMessage::new(id, 0)),
        IncomingPacket::Other => Dispatch::Ignore,
    }
}

} // verus!
