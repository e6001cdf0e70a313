//! Turning the client's packets into bytes, with the `mqtt` crate.
//!
//! The fixed-size packets (acknowledgements, PINGREQ, DISCONNECT) are stated
//! byte for byte; the encodings of CONNECT, PUBLISH, SUBSCRIBE and
//! UNSUBSCRIBE are named. A packet the crate would panic on (a string field
//! over 65535 bytes, an invalid topic or filter, a length whose 32-bit sum in
//! the crate overflows) is refused before the crate is called.

use vstd::prelude::*;

use crate::failure::{ErrorKind, ErrorMessage};
use crate::packet::{OutgoingPacket, OutgoingPacketView, QoSWithPacketIdentifier, QualityOfService};
use crate::topic::{check_topic_name, is_valid_topic_filter, utf8_len, valid_topic_filter, valid_topic_name};

verus! {

/// The largest length the crate's 32-bit length arithmetic can hold.
pub const LENGTH_LIMIT: u64 = 4294967295;

/// The largest string field of an MQTT packet, in bytes.
pub const MAX_STRING_BYTES: usize = 65535;

/// The bytes of a packet made of a first byte and a packet identifier.
pub open spec fn id_packet_bytes(first: u8, id: u16) -> Seq<u8> {
    seq![first, 2u8, (id / 256) as u8, (id % 256) as u8]
}

/// What `mqtt::packet::PublishPacket` encodes to.
pub uninterp spec fn mqtt_publish_bytes(topic: Seq<char>, qos: QoSWithPacketIdentifier, payload: Seq<u8>) -> Seq<u8>;

/// What `mqtt::packet::SubscribePacket` encodes to.
pub uninterp spec fn mqtt_subscribe_bytes(id: u16, subscriptions: Seq<(Seq<char>, QualityOfService)>) -> Seq<u8>;

/// What `mqtt::packet::UnsubscribePacket` encodes to.
pub uninterp spec fn mqtt_unsubscribe_bytes(id: u16, topic_filters: Seq<Seq<char>>) -> Seq<u8>;

/// What `mqtt::packet::ConnectPacket` encodes to.
pub uninterp spec fn mqtt_connect_bytes(
    client_name: Seq<char>,
    user_name: Option<Seq<char>>,
    password: Option<Seq<char>>,
    keep_alive: Option<u16>,
) -> Seq<u8>;

/// The views of (filter, quality of service) pairs.
pub open spec fn subscription_views(s: Seq<(String, QualityOfService)>) -> Seq<(Seq<char>, QualityOfService)> {
    s.map_values(|p: (String, QualityOfService)| (p.0@, p.1))
}

/// The views of a list of strings.
pub open spec fn string_views(s: Seq<String>) -> Seq<Seq<char>> {
    s.map_values(|t: String| t@)
}

/// The view of an optional string.
pub open spec fn optional_view(s: Option<String>) -> Option<Seq<char>> {
    match s {
        Some(v) => Some(v@),
        None => None,
    }
}

/// Encodes a PUBLISH: `mqtt::packet::PublishPacket::new` on the topic (as a
/// `mqtt::TopicName`), the quality of service and the payload, then
/// `mqtt::Encodable::encode` into a byte buffer, which cannot fail.
#[verifier::external_body]
fn encode_publish(topic: &String, qos: QoSWithPacketIdentifier, payload: &Vec<u8>) -> (bytes: Vec<u8>)
    requires
        valid_topic_name(topic@),
        publish_remaining_length(topic@, qos, payload@) <= LENGTH_LIMIT,
    ensures
        bytes@ == mqtt_publish_bytes(topic@, qos, payload@),
{
    let qos = match qos {
        QoSWithPacketIdentifier::Level0 => mqtt::packet::QoSWithPacketIdentifier::Level0,
        QoSWithPacketIdentifier::Level1(id) => mqtt::packet::QoSWithPacketIdentifier::Level1(id),
        QoSWithPacketIdentifier::Level2(id) => mqtt::packet::QoSWithPacketIdentifier::Level2(id),
    };
    let topic = mqtt::TopicName::new(topic.clone()).unwrap();
    let packet = mqtt::packet::PublishPacket::new(topic, qos, payload.clone());
    let mut buf = Vec::new();
    mqtt::Encodable::encode(&packet, &mut buf).unwrap();
    buf
}

/// Encodes a SUBSCRIBE: `mqtt::packet::SubscribePacket::new` on the
/// identifier and the filters (as `mqtt::TopicFilter`s), then
/// `mqtt::Encodable::encode` into a byte buffer.
#[verifier::external_body]
fn encode_subscribe(id: u16, subscriptions: &Vec<(String, QualityOfService)>) -> (bytes: Vec<u8>)
    requires
        forall|i: int| 0 <= i < subscriptions@.len() ==> valid_topic_filter(#[trigger] subscriptions@[i].0@),
        2 + subscribe_entries_length(subscriptions@) <= LENGTH_LIMIT,
    ensures
        bytes@ == mqtt_subscribe_bytes(id, subscription_views(subscriptions@)),
{
    let subscriptions = subscriptions.iter().map(|(t, q)| (mqtt::TopicFilter::new(t.clone()).unwrap(), match q {
        QualityOfService::Level0 => mqtt::QualityOfService::Level0,
        QualityOfService::Level1 => mqtt::QualityOfService::Level1,
        QualityOfService::Level2 => mqtt::QualityOfService::Level2,
    })).collect();
    let mut buf = Vec::new();
    mqtt::Encodable::encode(&mqtt::packet::SubscribePacket::new(id, subscriptions), &mut buf).unwrap();
    buf
}

/// Encodes an UNSUBSCRIBE: `mqtt::packet::UnsubscribePacket::new` on the
/// identifier and the filters (as `mqtt::TopicFilter`s), then
/// `mqtt::Encodable::encode` into a byte buffer.
#[verifier::external_body]
fn encode_unsubscribe(id: u16, topic_filters: &Vec<String>) -> (bytes: Vec<u8>)
    requires
        forall|i: int| 0 <= i < topic_filters@.len() ==> valid_topic_filter(#[trigger] topic_filters@[i]@),
        2 + unsubscribe_entries_length(topic_filters@) <= LENGTH_LIMIT,
    ensures
        bytes@ == mqtt_unsubscribe_bytes(id, string_views(topic_filters@)),
{
    let filters = topic_filters.iter().map(|t| mqtt::TopicFilter::new(t.clone()).unwrap()).collect();
    let mut buf = Vec::new();
    mqtt::Encodable::encode(&mqtt::packet::UnsubscribePacket::new(id, filters), &mut buf).unwrap();
    buf
}

/// Encodes a CONNECT: `mqtt::packet::ConnectPacket::new` on the client name
/// (protocol "MQTT", level 4), with the user name, password and keep alive
/// (0 when not given, as the crate starts with) set, then
/// `mqtt::Encodable::encode` into a byte buffer; each string field must fit
/// the crate's 65535-byte limit, which it asserts.
#[verifier::external_body]
fn encode_connect(
    client_name: &String,
    user_name: &Option<String>,
    password: &Option<String>,
    keep_alive: Option<u16>,
) -> (bytes: Vec<u8>)
    requires
        connect_fields_fit(client_name@, *user_name, *password),
    ensures
        bytes@ == mqtt_connect_bytes(client_name@, optional_view(*user_name), optional_view(*password), keep_alive),
{
    let mut packet = mqtt::packet::ConnectPacket::new(client_name.clone());
    packet.set_user_name(user_name.clone());
    packet.set_password(password.clone());
    packet.set_keep_alive(keep_alive.unwrap_or(0));
    let mut buf = Vec::new();
    mqtt::Encodable::encode(&packet, &mut buf).unwrap();
    buf
}

/// Encodes a PUBACK: `mqtt::packet::PubackPacket::new`, then
/// `mqtt::Encodable::encode`: type byte 0x40, remaining length 2, the
/// identifier big-endian.
#[verifier::external_body]
fn encode_puback(id: u16) -> (bytes: Vec<u8>)
    ensures
        bytes@ == id_packet_bytes(0x40, id),
{
    let mut buf = Vec::new();
    mqtt::Encodable::encode(&mqtt::packet::PubackPacket::new(id), &mut buf).unwrap();
    buf
}

/// Encodes a PUBREC: `mqtt::packet::PubrecPacket::new`, then
/// `mqtt::Encodable::encode`: type byte 0x50, remaining length 2, the
/// identifier big-endian.
#[verifier::external_body]
fn encode_pubrec(id: u16) -> (bytes: Vec<u8>)
    ensures
        bytes@ == id_packet_bytes(0x50, id),
{
    let mut buf = Vec::new();
    mqtt::Encodable::encode(&mqtt::packet::PubrecPacket::new(id), &mut buf).unwrap();
    buf
}

/// Encodes a PUBREL: `mqtt::packet::PubrelPacket::new`, then
/// `mqtt::Encodable::encode`: type byte 0x62 (flags 0010), remaining length
/// 2, the identifier big-endian.
#[verifier::external_body]
fn encode_pubrel(id: u16) -> (bytes: Vec<u8>)
    ensures
        bytes@ == id_packet_bytes(0x62, id),
{
    let mut buf = Vec::new();
    mqtt::Encodable::encode(&mqtt::packet::PubrelPacket::new(id), &mut buf).unwrap();
    buf
}

/// Encodes a PUBCOMP: `mqtt::packet::PubcompPacket::new`, then
/// `mqtt::Encodable::encode`: type byte 0x70, remaining length 2, the
/// identifier big-endian.
#[verifier::external_body]
fn encode_pubcomp(id: u16) -> (bytes: Vec<u8>)
    ensures
        bytes@ == id_packet_bytes(0x70, id),
{
    let mut buf = Vec::new();
    mqtt::Encodable::encode(&mqtt::packet::PubcompPacket::new(id), &mut buf).unwrap();
    buf
}

/// Encodes a PINGREQ: `mqtt::packet::PingreqPacket::new`, then
/// `mqtt::Encodable::encode`: type byte 0xC0, remaining length 0.
#[verifier::external_body]
fn encode_pingreq() -> (bytes: Vec<u8>)
    ensures
        bytes@ == seq![0xC0u8, 0u8],
{
    let mut buf = Vec::new();
    mqtt::Encodable::encode(&mqtt::packet::PingreqPacket::new(), &mut buf).unwrap();
    buf
}

/// Encodes a DISCONNECT: `mqtt::packet::DisconnectPacket::new`, then
/// `mqtt::Encodable::encode`: type byte 0xE0, remaining length 0.
#[verifier::external_body]
fn encode_disconnect() -> (bytes: Vec<u8>)
    ensures
        bytes@ == seq![0xE0u8, 0u8],
{
    let mut buf = Vec::new();
    mqtt::Encodable::encode(&mqtt::packet::DisconnectPacket::new(), &mut buf).unwrap();
    buf
}

/// The remaining length of a PUBLISH as the crate sums it: the payload's
/// length is taken as a 32-bit number.
pub open spec fn publish_remaining_length(topic: Seq<char>, qos: QoSWithPacketIdentifier, payload: Seq<u8>) -> int {
    2 + utf8_len(topic) + (if qos is Level0 { 0int } else { 2int }) + payload.len() % 4294967296
}

/// The length of the entries of a SUBSCRIBE: each filter with its length
/// prefix and its quality of service.
pub open spec fn subscribe_entries_length(s: Seq<(String, QualityOfService)>) -> int
    decreases s.len(),
{
    if s.len() == 0 {
        0
    } else {
        subscribe_entries_length(s.drop_last()) + 3 + utf8_len(s.last().0@)
    }
}

/// The length of the entries of an UNSUBSCRIBE: each filter with its length prefix.
pub open spec fn unsubscribe_entries_length(s: Seq<String>) -> int
    decreases s.len(),
{
    if s.len() == 0 {
        0
    } else {
        unsubscribe_entries_length(s.drop_last()) + 2 + utf8_len(s.last()@)
    }
}

/// Whether an optional string field fits the 65535-byte limit.
pub open spec fn optional_field_fits(s: Option<String>) -> bool {
    match s {
        Some(v) => utf8_len(v@) <= MAX_STRING_BYTES,
        None => true,
    }
}

/// Whether the string fields of a CONNECT fit the 65535-byte limit (the
/// remaining length then stays far below MQTT's limit).
pub open spec fn connect_fields_fit(client_name: Seq<char>, user_name: Option<String>, password: Option<String>) -> bool {
    utf8_len(client_name) <= MAX_STRING_BYTES && optional_field_fits(user_name) && optional_field_fits(password)
}

/// Whether the `mqtt` crate can encode `p`.
pub open spec fn encodable(p: OutgoingPacketView) -> bool {
    match p {
        OutgoingPacketView::Connect { client_name, user_name, password, .. } => connect_fields_fit(
            client_name@,
            user_name,
            password,
        ),
        OutgoingPacketView::Publish { topic_name, qos, payload } => valid_topic_name(topic_name@)
            && publish_remaining_length(topic_name@, qos, payload) <= LENGTH_LIMIT,
        OutgoingPacketView::Subscribe { subscriptions, .. } => (forall|i: int|
            0 <= i < subscriptions.len() ==> valid_topic_filter(#[trigger] subscriptions[i].0@)) && 2
            + subscribe_entries_length(subscriptions) <= LENGTH_LIMIT,
        OutgoingPacketView::Unsubscribe { topic_filters, .. } => (forall|i: int|
            0 <= i < topic_filters.len() ==> valid_topic_filter(#[trigger] topic_filters[i]@)) && 2
            + unsubscribe_entries_length(topic_filters) <= LENGTH_LIMIT,
        _ => true,
    }
}

/// The bytes of an encodable packet.
pub open spec fn encoding(p: OutgoingPacketView) -> Seq<u8> {
    match p {
        OutgoingPacketView::Connect { client_name, user_name, password, keep_alive } =>
            mqtt_connect_bytes(client_name@, optional_view(user_name), optional_view(password), keep_alive),
        OutgoingPacketView::Publish { topic_name, qos, payload } => mqtt_publish_bytes(
            topic_name@,
            qos,
            payload,
        ),
        OutgoingPacketView::Puback(id) => id_packet_bytes(0x40, id),
        OutgoingPacketView::Pubrec(id) => id_packet_bytes(0x50, id),
        OutgoingPacketView::Pubrel(id) => id_packet_bytes(0x62, id),
        OutgoingPacketView::Pubcomp(id) => id_packet_bytes(0x70, id),
        OutgoingPacketView::Subscribe { id, subscriptions } => mqtt_subscribe_bytes(
            id,
            subscription_views(subscriptions),
        ),
        OutgoingPacketView::Unsubscribe { id, topic_filters } => mqtt_unsubscribe_bytes(
            id,
            string_views(topic_filters),
        ),
        OutgoingPacketView::Pingreq => seq![0xC0u8, 0u8],
        OutgoingPacketView::Disconnect => seq![0xE0u8, 0u8],
    }
}

/// The number of bytes of `s` in UTF-8.
fn byte_len(s: &String) -> (n: usize)
    ensures
        n == utf8_len(s@),
{
    s.as_str().as_bytes().len()
}

fn optional_fits(s: &Option<String>) -> (r: bool)
    ensures
        r == optional_field_fits(*s),
{
    match s {
        Some(v) => byte_len(v) <= MAX_STRING_BYTES,
        None => true,
    }
}

/// Whether every filter of `s` is valid and the entries fit.
fn subscriptions_encodable(s: &Vec<(String, QualityOfService)>) -> (r: bool)
    ensures
        r == ((forall|i: int| 0 <= i < s@.len() ==> valid_topic_filter(#[trigger] s@[i].0@)) && 2
            + subscribe_entries_length(s@) <= LENGTH_LIMIT),
{
    let mut total: u64 = 2;
    let n = s.len();
    for i in 0..n
        invariant
            n == s@.len(),
            forall|j: int| 0 <= j < i ==> valid_topic_filter(#[trigger] s@[j].0@),
            total == 2 + subscribe_entries_length(s@.take(i as int)),
            total <= LENGTH_LIMIT,
    {
        assert(s@.take(i + 1).drop_last() =~= s@.take(i as int));
        if !is_valid_topic_filter(&s[i].0) {
            return false;
        }
        let len = byte_len(&s[i].0) as u64;
        if len + 3 > LENGTH_LIMIT - total {
            proof { lemma_subscribe_entries_grow(s@, i as int + 1); }
            return false;
        }
        total = total + 3 + len;
    }
    assert(s@.take(n as int) =~= s@);
    true
}

/// The entries' length of a prefix never exceeds that of the whole list.
proof fn lemma_subscribe_entries_grow(s: Seq<(String, QualityOfService)>, k: int)
    requires
        0 <= k <= s.len(),
    ensures
        subscribe_entries_length(s.take(k)) <= subscribe_entries_length(s),
    decreases s.len() - k,
{
    if k < s.len() {
        lemma_subscribe_entries_grow(s, k + 1);
        assert(s.take(k + 1).drop_last() =~= s.take(k));
    } else {
        assert(s.take(k) =~= s);
    }
}

/// The entries' length of a prefix never exceeds that of the whole list.
proof fn lemma_unsubscribe_entries_grow(s: Seq<String>, k: int)
    requires
        0 <= k <= s.len(),
    ensures
        unsubscribe_entries_length(s.take(k)) <= unsubscribe_entries_length(s),
    decreases s.len() - k,
{
    if k < s.len() {
        lemma_unsubscribe_entries_grow(s, k + 1);
        assert(s.take(k + 1).drop_last() =~= s.take(k));
    } else {
        assert(s.take(k) =~= s);
    }
}

/// Whether every filter of `s` is valid and the entries fit.
fn topic_filters_encodable(s: &Vec<String>) -> (r: bool)
    ensures
        r == ((forall|i: int| 0 <= i < s@.len() ==> valid_topic_filter(#[trigger] s@[i]@)) && 2
            + unsubscribe_entries_length(s@) <= LENGTH_LIMIT),
{
    let mut total: u64 = 2;
    let n = s.len();
    for i in 0..n
        invariant
            n == s@.len(),
            forall|j: int| 0 <= j < i ==> valid_topic_filter(#[trigger] s@[j]@),
            total == 2 + unsubscribe_entries_length(s@.take(i as int)),
            total <= LENGTH_LIMIT,
    {
        assert(s@.take(i + 1).drop_last() =~= s@.take(i as int));
        if !is_valid_topic_filter(&s[i]) {
            return false;
        }
        let len = byte_len(&s[i]) as u64;
        if len + 2 > LENGTH_LIMIT - total {
            proof { lemma_unsubscribe_entries_grow(s@, i as int + 1); }
            return false;
        }
        total = total + 2 + len;
    }
    assert(s@.take(n as int) =~= s@);
    true
}

/// The error for a packet the `mqtt` crate cannot encode.
pub open spec fn unencodable_error() -> Seq<char> {
    "Failed to send message, error: packet cannot be encoded"@
}

/// Encodes `packet`: its bytes when the `mqtt` crate can encode it, an
/// error otherwise.
pub fn encode_packet(packet: &OutgoingPacket) -> (r: Result<Vec<u8>, ErrorMessage>)
    ensures
        r is Ok <==> encodable(packet@),
        r matches Ok(bytes) ==> bytes@ == encoding(packet@),
        r matches Err(e) ==> e.kind == ErrorKind::Interrupted && e.message@ == unencodable_error(),
{
    let encoded = match packet {
        OutgoingPacket::Connect { client_name, user_name, password, keep_alive } => {
            if byte_len(client_name) <= MAX_STRING_BYTES && optional_fits(user_name) && optional_fits(password) {
                Some(encode_connect(client_name, user_name, password, *keep_alive))
            } else {
                None
            }
        },
        OutgoingPacket::Publish { topic_name, qos, payload } => {
            let fits = match check_topic_name(topic_name) {
                Ok(()) => {
                    let id_len: u64 = match qos {
                        QoSWithPacketIdentifier::Level0 => 0,
                        _ => 2,
                    };
                    let header: u64 = 2 + byte_len(topic_name) as u64 + id_len;
                    let payload_len: u64 = (payload.len() as u64) % 4294967296;
                    payload_len <= LENGTH_LIMIT - header
                },
                Err(_) => false,
            };
            if fits {
                Some(encode_publish(topic_name, *qos, payload))
            } else {
                None
            }
        },
        OutgoingPacket::Puback(id) => Some(encode_puback(*id)),
        OutgoingPacket::Pubrec(id) => Some(encode_pubrec(*id)),
        OutgoingPacket::Pubrel(id) => Some(encode_pubrel(*id)),
        OutgoingPacket::Pubcomp(id) => Some(encode_pubcomp(*id)),
        OutgoingPacket::Subscribe { id, subscriptions } => {
            if subscriptions_encodable(subscriptions) {
                Some(encode_subscribe(*id, subscriptions))
            } else {
                None
            }
        },
        OutgoingPacket::Unsubscribe { id, topic_filters } => {
            if topic_filters_encodable(topic_filters) {
                Some(encode_unsubscribe(*id, topic_filters))
            } else {
                None
            }
        },
        OutgoingPacket::Pingreq => Some(encode_pingreq()),
        OutgoingPacket::Disconnect => Some(encode_disconnect()),
    };
    match encoded {
        Some(bytes) => Ok(bytes),
        None => Err(
            ErrorMessage {
                kind: ErrorKind::Interrupted,
                message: String::from_str("Failed to send message, error: packet cannot be encoded"),
            },
        ),
    }
}

} // verus!
