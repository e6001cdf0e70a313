//! The client's model of MQTT packets and of the messages that carry them.

use vstd::prelude::*;

verus! {

/// The quality of service of a publish or a subscription.
#[derive(Clone, Copy, Debug, PartialEq, Eq, Structural)]
pub enum QualityOfService {
    Level0,
    Level1,
    Level2,
}

/// A quality of service together with the packet identifier it needs:
/// level 0 carries none.
#[derive(Clone, Copy, Debug, PartialEq, Eq, Structural)]
pub enum QoSWithPacketIdentifier {
    Level0,
    Level1(u16),
    Level2(u16),
}

/// The identifier of a publish: the one carried by levels 1 and 2, 0 for level 0.
pub open spec fn qos_packet_id(q: QoSWithPacketIdentifier) -> u16 {
    match q {
        QoSWithPacketIdentifier::Level0 => 0,
        QoSWithPacketIdentifier::Level1(id) => id,
        QoSWithPacketIdentifier::Level2(id) => id,
    }
}

/// Pairs a quality of service with a packet identifier (dropped for level 0).
pub fn qos_with_id(qos: QualityOfService, id: u16) -> (r: QoSWithPacketIdentifier)
    ensures
        r == (match qos {
            QualityOfService::Level0 => QoSWithPacketIdentifier::Level0,
            QualityOfService::Level1 => QoSWithPacketIdentifier::Level1(id),
            QualityOfService::Level2 => QoSWithPacketIdentifier::Level2(id),
        }),
{
    match qos {
        QualityOfService::Level0 => QoSWithPacketIdentifier::Level0,
        QualityOfService::Level1 => QoSWithPacketIdentifier::Level1(id),
        QualityOfService::Level2 => QoSWithPacketIdentifier::Level2(id),
    }
}

/// Where a publish of level 1 or 2 stands in its acknowledgement exchange.
#[derive(Clone, Copy, Debug, PartialEq, Eq, Structural)]
pub enum PublishPacketStatus {
    /// A level 1 publish was sent; its PUBACK is awaited.
    PendingAck,
    /// A level 2 publish was sent; its PUBREC is awaited.
    PendingRec,
    /// A level 2 publish was received and acknowledged with PUBREC; its PUBREL is awaited.
    PendingRel,
    /// A PUBREL was sent; its PUBCOMP is awaited.
    PendingComp,
}

/// A packet handed from one actor to another, with the number of times its
/// handling has been retried.
#[derive(Clone, Debug, PartialEq)]
pub struct PacketMessage<T: Clone> {
    pub packet: T,
    pub retry_count: u16,
}

/// A packet message as a value.
pub struct PacketMessageView<V> {
    pub packet: V,
    pub retry_count: u16,
}

impl<T: Clone + View> View for PacketMessage<T> {
    type V = PacketMessageView<T::V>;

    open spec fn view(&self) -> PacketMessageView<T::V> {
        PacketMessageView { packet: self.packet@, retry_count: self.retry_count }
    }
}

impl<T: Clone> PacketMessage<T> {
    pub fn new(packet: T, retry_count: u16) -> (m: Self)
        ensures
            m.packet == packet,
            m.retry_count == retry_count,
    {
        PacketMessage { packet, retry_count }
    }
}

/// The payload of a publish received from the server, as handed to the user.
#[derive(Clone, Debug, PartialEq)]
pub struct PublishMessage {
    /// The packet identifier of the publish packet for QoS Level 1 and Level 2, or 0 for QoS Level 0
    pub id: u16,
    /// The topic name of the message
    pub topic_name: String,
    /// The message payload
    pub payload: Vec<u8>,
}

/// A received publish as a value.
pub struct PublishMessageView {
    pub id: u16,
    pub topic_name: String,
    pub payload: Seq<u8>,
}

impl View for PublishMessage {
    type V = PublishMessageView;

    open spec fn view(&self) -> PublishMessageView {
        PublishMessageView { id: self.id, topic_name: self.topic_name, payload: self.payload@ }
    }
}

/// A PUBLISH packet as received from the server.
#[derive(Clone, Debug, PartialEq)]
pub struct IncomingPublish {
    pub topic_name: String,
    pub qos: QoSWithPacketIdentifier,
    pub payload: Vec<u8>,
}

/// A received PUBLISH packet as a value.
pub struct IncomingPublishView {
    pub topic_name: String,
    pub qos: QoSWithPacketIdentifier,
    pub payload: Seq<u8>,
}

impl View for IncomingPublish {
    type V = IncomingPublishView;

    open spec fn view(&self) -> IncomingPublishView {
        IncomingPublishView { topic_name: self.topic_name, qos: self.qos, payload: self.payload@ }
    }
}

/// The packets the server sends to the client, with what the client reads of them.
#[derive(Clone, Debug, PartialEq)]
pub enum IncomingPacket {
    /// CONNACK, with its return code (0: connection accepted).
    Connack(u8),
    Pingresp,
    Publish(IncomingPublish),
    Puback(u16),
    Pubrec(u16),
    Pubrel(u16),
    Pubcomp(u16),
    Suback(u16),
    Unsuback(u16),
    /// Any packet a server does not send to a client.
    Other,
}

/// The packets the client sends to the server.
#[derive(Clone, Debug, PartialEq)]
pub enum OutgoingPacket {
    Connect {
        client_name: String,
        user_name: Option<String>,
        password: Option<String>,
        keep_alive: Option<u16>,
    },
    Publish { topic_name: String, qos: QoSWithPacketIdentifier, payload: Vec<u8> },
    Puback(u16),
    Pubrec(u16),
    Pubrel(u16),
    Pubcomp(u16),
    Subscribe { id: u16, subscriptions: Vec<(String, QualityOfService)> },
    Unsubscribe { id: u16, topic_filters: Vec<String> },
    Pingreq,
    Disconnect,
}

/// An outgoing packet as a value.
pub enum OutgoingPacketView {
    Connect {
        client_name: String,
        user_name: Option<String>,
        password: Option<String>,
        keep_alive: Option<u16>,
    },
    Publish { topic_name: String, qos: QoSWithPacketIdentifier, payload: Seq<u8> },
    Puback(u16),
    Pubrec(u16),
    Pubrel(u16),
    Pubcomp(u16),
    Subscribe { id: u16, subscriptions: Seq<(String, QualityOfService)> },
    Unsubscribe { id: u16, topic_filters: Seq<String> },
    Pingreq,
    Disconnect,
}

impl View for OutgoingPacket {
    type V = OutgoingPacketView;

    open spec fn view(&self) -> OutgoingPacketView {
        match self {
            OutgoingPacket::Connect { client_name, user_name, password, keep_alive } =>
                OutgoingPacketView::Connect {
                client_name: *client_name,
                user_name: *user_name,
                password: *password,
                keep_alive: *keep_alive,
            },
            OutgoingPacket::Publish { topic_name, qos, payload } => OutgoingPacketView::Publish {
                topic_name: *topic_name,
                qos: *qos,
                payload: payload@,
            },
            OutgoingPacket::Puback(id) => OutgoingPacketView::Puback(*id),
            OutgoingPacket::Pubrec(id) => OutgoingPacketView::Pubrec(*id),
            OutgoingPacket::Pubrel(id) => OutgoingPacketView::Pubrel(*id),
            OutgoingPacket::Pubcomp(id) => OutgoingPacketView::Pubcomp(*id),
            OutgoingPacket::Subscribe { id, subscriptions } => OutgoingPacketView::Subscribe {
                id: *id,
                subscriptions: subscriptions@,
            },
            OutgoingPacket::Unsubscribe { id, topic_filters } => OutgoingPacketView::Unsubscribe {
                id: *id,
                topic_filters: topic_filters@,
            },
            OutgoingPacket::Pingreq => OutgoingPacketView::Pingreq,
            OutgoingPacket::Disconnect => OutgoingPacketView::Disconnect,
        }
    }
}

/// Copies a byte buffer.
pub fn copy_bytes(v: &Vec<u8>) -> (r: Vec<u8>)
    ensures
        r@ == v@,
{
    let r = v.clone();
    assert(r@ =~= v@);
    r
}

} // verus!
