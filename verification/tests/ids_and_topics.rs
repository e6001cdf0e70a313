use actix_mqtt_client::codec::encode_packet;
use actix_mqtt_client::ids::{next_id, IdGenerator};
use actix_mqtt_client::packet::{OutgoingPacket, QoSWithPacketIdentifier, QualityOfService};
use actix_mqtt_client::subscribe::{filter_valid_subscriptions, Subscribe};
use actix_mqtt_client::unsubscribe::filter_valid_topics;

#[test]
fn ids_count_up_from_the_seed() {
    let mut ids = IdGenerator::with_seed(0);
    assert_eq!(next_id(&mut ids), 1);
    assert_eq!(next_id(&mut ids), 2);
    assert_eq!(next_id(&mut ids), 3);
}

#[test]
fn ids_cycle_through_1_to_65535() {
    let mut ids = IdGenerator::with_seed(65533);
    assert_eq!(next_id(&mut ids), 65534);
    assert_eq!(next_id(&mut ids), 65535);
    assert_eq!(next_id(&mut ids), 1);
}

#[test]
fn ids_repeat_across_the_counter_wrap() {
    let mut ids = IdGenerator::with_seed(usize::MAX);
    let before_wrap = next_id(&mut ids);
    let after_wrap = next_id(&mut ids);
    assert_eq!(before_wrap, 1);
    assert_eq!(after_wrap, 1);
}

#[test]
fn random_ids_are_never_zero() {
    let mut ids = IdGenerator::new();
    for _ in 0..1000 {
        assert_ne!(next_id(&mut ids), 0);
    }
}

fn sub(topic: &str) -> Subscribe {
    Subscribe::new(topic.to_string(), QualityOfService::Level1)
}

#[test]
fn subscriptions_keep_only_valid_filters() {
    let subs = vec![
        sub("sport/+/player1"),
        sub("sport+"),
        sub("#"),
        sub("sport/tennis/#/ranking"),
        sub("$SYS"),
        sub(""),
        sub("+/tennis/#"),
        sub("sport/tennis#"),
    ];
    let kept: Vec<String> = filter_valid_subscriptions(&subs).into_iter().map(|(t, _)| t).collect();
    assert_eq!(kept, vec!["sport/+/player1", "#", "$SYS", "+/tennis/#"]);
}

#[test]
fn unsubscribe_keeps_only_valid_filters() {
    let topics = vec!["a/b".to_string(), "a/#/b".to_string(), "+".to_string(), "a+b".to_string()];
    assert_eq!(filter_valid_topics(&topics), vec!["a/b".to_string(), "+".to_string()]);
}

#[test]
fn a_filter_over_65535_bytes_is_refused() {
    let fits = "a".repeat(65535);
    let too_long = "a".repeat(65536);
    let kept = filter_valid_topics(&vec![fits.clone(), too_long]);
    assert_eq!(kept, vec![fits]);
}

#[test]
fn multibyte_characters_count_as_bytes() {
    // 21846 three-byte characters: 65538 bytes, more than a topic may hold.
    let too_long: String = std::iter::repeat('€').take(21846).collect();
    let fits: String = std::iter::repeat('€').take(21845).collect();
    assert_eq!(filter_valid_topics(&vec![too_long, fits.clone()]), vec![fits]);
}

#[test]
fn fixed_packets_encode_byte_for_byte() {
    assert_eq!(encode_packet(&OutgoingPacket::Puback(0x1234)).ok().unwrap(), vec![0x40, 2, 0x12, 0x34]);
    assert_eq!(encode_packet(&OutgoingPacket::Pubrec(7)).ok().unwrap(), vec![0x50, 2, 0, 7]);
    assert_eq!(encode_packet(&OutgoingPacket::Pubrel(0x0102)).ok().unwrap(), vec![0x62, 2, 1, 2]);
    assert_eq!(encode_packet(&OutgoingPacket::Pubcomp(65535)).ok().unwrap(), vec![0x70, 2, 0xff, 0xff]);
    assert_eq!(encode_packet(&OutgoingPacket::Pingreq).ok().unwrap(), vec![0xC0, 0]);
    assert_eq!(encode_packet(&OutgoingPacket::Disconnect).ok().unwrap(), vec![0xE0, 0]);
}

#[test]
fn publish_encodes_topic_identifier_and_payload() {
    let packet = OutgoingPacket::Publish {
        topic_name: "a/b".to_string(),
        qos: QoSWithPacketIdentifier::Level1(10),
        payload: b"hi".to_vec(),
    };
    assert_eq!(
        encode_packet(&packet).ok().unwrap(),
        vec![0x32, 9, 0, 3, b'a', b'/', b'b', 0, 10, b'h', b'i']
    );
    let level0 = OutgoingPacket::Publish {
        topic_name: "t".to_string(),
        qos: QoSWithPacketIdentifier::Level0,
        payload: vec![1, 2],
    };
    assert_eq!(encode_packet(&level0).ok().unwrap(), vec![0x30, 5, 0, 1, b't', 1, 2]);
}

#[test]
fn publish_to_a_wildcard_topic_cannot_be_encoded() {
    let packet = OutgoingPacket::Publish {
        topic_name: "a/+".to_string(),
        qos: QoSWithPacketIdentifier::Level0,
        payload: vec![],
    };
    let e = encode_packet(&packet).err().unwrap();
    assert_eq!(e.message, "Failed to send message, error: packet cannot be encoded");
}

#[test]
fn subscribe_and_unsubscribe_encode() {
    let packet = OutgoingPacket::Subscribe {
        id: 5,
        subscriptions: vec![("a/#".to_string(), QualityOfService::Level2)],
    };
    assert_eq!(encode_packet(&packet).ok().unwrap(), vec![0x82, 8, 0, 5, 0, 3, b'a', b'/', b'#', 2]);
    let packet = OutgoingPacket::Unsubscribe { id: 6, topic_filters: vec!["x".to_string()] };
    assert_eq!(encode_packet(&packet).ok().unwrap(), vec![0xA2, 5, 0, 6, 0, 1, b'x']);
    let bad = OutgoingPacket::Unsubscribe { id: 6, topic_filters: vec!["x#".to_string()] };
    assert!(encode_packet(&bad).is_err());
}

#[test]
fn connect_encodes_protocol_name_and_client_name() {
    let packet = OutgoingPacket::Connect {
        client_name: "test".to_string(),
        user_name: None,
        password: None,
        keep_alive: None,
    };
    let bytes = encode_packet(&packet).ok().unwrap();
    assert_eq!(bytes[0], 0x10);
    assert_eq!(bytes[1] as usize, bytes.len() - 2);
    assert_eq!(&bytes[2..9], &[0, 4, b'M', b'Q', b'T', b'T', 4]);
    assert_eq!(&bytes[bytes.len() - 6..], &[0, 4, b't', b'e', b's', b't']);
    let with_keep_alive = OutgoingPacket::Connect {
        client_name: "test".to_string(),
        user_name: None,
        password: None,
        keep_alive: Some(30),
    };
    let bytes = encode_packet(&with_keep_alive).ok().unwrap();
    assert_eq!(&bytes[10..12], &[0, 30]);
}

#[test]
fn a_cycle_of_ids_is_pairwise_distinct() {
    let mut ids = IdGenerator::with_seed(123_456);
    let mut seen = std::collections::HashSet::new();
    for _ in 0..65535 {
        assert!(seen.insert(next_id(&mut ids)));
    }
    assert!(!seen.insert(next_id(&mut ids)));
}
