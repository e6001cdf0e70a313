use actix_mqtt_client::connect::{
    after_connect_timeout, handle_connack, handle_connect, Connect, ConnackOutcome,
    ConnectTimeoutOutcome,
};
use actix_mqtt_client::dispatch::{dispatch, Dispatch};
use actix_mqtt_client::failure::ErrorKind;
use actix_mqtt_client::ids::{next_id, IdGenerator};
use actix_mqtt_client::packet::{
    IncomingPacket, IncomingPublish, OutgoingPacket, PacketMessage, PublishMessage,
    PublishPacketStatus, QoSWithPacketIdentifier, QualityOfService,
};
use actix_mqtt_client::ping::{
    ping_after_connection_check, ping_after_status, ping_tick, send_ping, PingTick, Pingreq,
    SendPing,
};
use actix_mqtt_client::plan::{should_resend, Effect, OnFailure, Plan, StatusCheck, Step};
use actix_mqtt_client::publish::{
    handle_publish, handle_puback, handle_pubrec, handle_pubrel, handle_recv_publish,
    recv_publish_after_status, Publish, RecvPublishStart,
};
use actix_mqtt_client::status::{
    PacketStatus, PacketStatusStore, StatusExistenceMessage, StatusOperationMessage,
};
use actix_mqtt_client::subscribe::{batch_of_one, handle_batch_subscribe, Subscribe};
use actix_mqtt_client::unsubscribe::{handle_batch_unsubscribe, BatchUnsubscribe};

fn steps<M, T>(plan: &Plan<M, T>) -> Vec<&Step<T>> {
    plan.effects.iter().map(|e: &Effect<T>| &e.step).collect()
}

fn status<T>(id: u16, retry_count: u16, payload: T) -> PacketStatus<T> {
    PacketStatus { id, retry_count, payload }
}

#[test]
fn status_store_set_get_take_remove() {
    let mut store: PacketStatusStore<PublishPacketStatus> = PacketStatusStore::new();
    assert!(store.send_status().finished);
    let s = status(7, 0, PublishPacketStatus::PendingAck);
    assert_eq!(store.handle_operation(StatusOperationMessage::SetPacketStatus(7, s)), None);
    assert!(!store.send_status().finished);
    assert!(store.handle_existence(&StatusExistenceMessage(7)));
    assert!(!store.handle_existence(&StatusExistenceMessage(8)));
    assert_eq!(store.handle_operation(StatusOperationMessage::GetPacketStatus(7)), Some(s));
    assert_eq!(store.handle_operation(StatusOperationMessage::GetAndRemovePacketStatus(7)), Some(s));
    assert_eq!(store.handle_operation(StatusOperationMessage::GetAndRemovePacketStatus(7)), None);
    assert!(store.send_status().finished);
    store.handle_operation(StatusOperationMessage::SetPacketStatus(3, status(3, 1, PublishPacketStatus::PendingRec)));
    assert_eq!(store.handle_operation(StatusOperationMessage::RemovePacketStatus(3)), None);
    assert!(!store.handle_existence(&StatusExistenceMessage(3)));
}

#[test]
fn level0_publish_is_sent_once_under_identifier_0() {
    let mut ids = IdGenerator::with_seed(41);
    let msg = Publish::new("test".to_string(), QualityOfService::Level0, b"test".to_vec());
    let plan = handle_publish(&msg, &mut ids);
    assert_eq!(plan.effects.len(), 1);
    assert_eq!(
        plan.effects[0].step,
        Step::SendPacket(OutgoingPacket::Publish {
            topic_name: "test".to_string(),
            qos: QoSWithPacketIdentifier::Level0,
            payload: b"test".to_vec(),
        })
    );
    assert_eq!(plan.effects[0].on_failure, OnFailure::Report);
    assert!(plan.resend.is_none() && plan.check.is_none());
    // no identifier was taken
    assert_eq!(next_id(&mut ids), 42);
}

#[test]
fn level1_publish_awaits_puback() {
    let mut ids = IdGenerator::with_seed(41);
    let msg = Publish::new("test".to_string(), QualityOfService::Level1, b"test2".to_vec());
    let plan = handle_publish(&msg, &mut ids);
    assert_eq!(
        steps(&plan),
        vec![
            &Step::UpdateStatus(StatusOperationMessage::SetPacketStatus(42, status(42, 0, PublishPacketStatus::PendingAck))),
            &Step::SendPacket(OutgoingPacket::Publish {
                topic_name: "test".to_string(),
                qos: QoSWithPacketIdentifier::Level1(42),
                payload: b"test2".to_vec(),
            }),
        ]
    );
    assert_eq!(plan.check, Some(StatusCheck { id: 42, stage: None }));
    let resend = plan.resend.unwrap();
    assert_eq!(resend.retry_time, 1);
    assert_eq!(resend.payload, b"test2".to_vec());
    // still recorded after the timeout: sent again; acknowledged: not
    let check = StatusCheck { id: 42, stage: None };
    assert!(should_resend(&check, &Some(status(42, 0, PublishPacketStatus::PendingAck))));
    assert!(!should_resend::<PublishPacketStatus>(&check, &None));
}

#[test]
fn level2_publish_awaits_pubrec() {
    let mut ids = IdGenerator::with_seed(0);
    let msg = Publish::new("test".to_string(), QualityOfService::Level2, b"test3".to_vec());
    let plan = handle_publish(&msg, &mut ids);
    assert_eq!(
        plan.effects[0].step,
        Step::UpdateStatus(StatusOperationMessage::SetPacketStatus(1, status(1, 0, PublishPacketStatus::PendingRec)))
    );
    let check = plan.check.unwrap();
    assert_eq!(check, StatusCheck { id: 1, stage: Some(PublishPacketStatus::PendingRec) });
    assert!(should_resend(&check, &Some(status(1, 0, PublishPacketStatus::PendingRec))));
    assert!(!should_resend(&check, &Some(status(1, 0, PublishPacketStatus::PendingComp))));
}

#[test]
fn publish_to_invalid_topic_is_reported() {
    let mut ids = IdGenerator::with_seed(9);
    let msg = Publish::new("a/+".to_string(), QualityOfService::Level1, vec![]);
    let plan = handle_publish(&msg, &mut ids);
    match &plan.effects[..] {
        [Effect { step: Step::Report(e), .. }] => {
            assert_eq!(e.kind, ErrorKind::InvalidInput);
            assert_eq!(e.message, "Failed to create topic from a/+, error: invalid topic filter (a/+)");
        }
        other => panic!("unexpected plan {:?}", other),
    }
    assert_eq!(next_id(&mut ids), 10);
}

#[test]
fn publish_past_the_retry_limit_gives_up() {
    let mut ids = IdGenerator::with_seed(0);
    let mut msg = Publish::new("t".to_string(), QualityOfService::Level1, vec![]);
    msg.retry_time = 6;
    let plan = handle_publish(&msg, &mut ids);
    assert_eq!(steps(&plan), vec![&Step::UpdateStatus(StatusOperationMessage::RemovePacketStatus(0))]);
    msg.retry_time = 5;
    let plan = handle_publish(&msg, &mut ids);
    assert_eq!(plan.resend.unwrap().retry_time, 6);
}

#[test]
fn pubrec_is_answered_with_pubrel() {
    let plan = handle_pubrec(&PacketMessage::new(9, 0));
    assert_eq!(
        steps(&plan),
        vec![
            &Step::UpdateStatus(StatusOperationMessage::SetPacketStatus(9, status(9, 0, PublishPacketStatus::PendingComp))),
            &Step::SendPacket(OutgoingPacket::Pubrel(9)),
        ]
    );
    assert_eq!(plan.resend, Some(PacketMessage::new(9, 1)));
}

#[test]
fn pubrel_is_answered_with_pubcomp() {
    let plan = handle_pubrel(&PacketMessage::new(9, 2));
    assert_eq!(
        steps(&plan),
        vec![
            &Step::UpdateStatus(StatusOperationMessage::RemovePacketStatus(9)),
            &Step::SendPacket(OutgoingPacket::Pubcomp(9)),
        ]
    );
    assert_eq!(plan.check, Some(StatusCheck { id: 9, stage: Some(PublishPacketStatus::PendingRel) }));
}

#[test]
fn puback_drops_the_status() {
    let plan = handle_puback(&PacketMessage::new(4, 0));
    assert_eq!(steps(&plan), vec![&Step::UpdateStatus(StatusOperationMessage::RemovePacketStatus(4))]);
    assert_eq!(plan.resend, Some(PacketMessage::new(4, 1)));
}

fn incoming(qos: QoSWithPacketIdentifier) -> PacketMessage<IncomingPublish> {
    PacketMessage::new(
        IncomingPublish { topic_name: "test".to_string(), qos, payload: b"hello".to_vec() },
        0,
    )
}

#[test]
fn received_level0_publish_is_delivered() {
    match handle_recv_publish(&incoming(QoSWithPacketIdentifier::Level0)) {
        RecvPublishStart::Run(plan) => {
            assert_eq!(plan.effects.len(), 2);
            assert!(plan.effects.iter().all(|e| e.go_on && e.on_failure == OnFailure::Report));
            assert_eq!(
                plan.effects[1].step,
                Step::Deliver(PublishMessage { id: 0, topic_name: "test".to_string(), payload: b"hello".to_vec() })
            );
        }
        other => panic!("unexpected {:?}", other),
    }
}

#[test]
fn received_level1_publish_is_acknowledged_then_delivered() {
    match handle_recv_publish(&incoming(QoSWithPacketIdentifier::Level1(3))) {
        RecvPublishStart::Run(plan) => {
            assert_eq!(plan.effects[0].step, Step::SendPacket(OutgoingPacket::Puback(3)));
            assert_eq!(
                plan.effects[1].step,
                Step::Deliver(PublishMessage { id: 3, topic_name: "test".to_string(), payload: b"hello".to_vec() })
            );
            assert_eq!(plan.resend.unwrap().retry_count, 1);
        }
        other => panic!("unexpected {:?}", other),
    }
}

#[test]
fn received_level2_publish_is_delivered_once() {
    let msg = incoming(QoSWithPacketIdentifier::Level2(5));
    assert_eq!(handle_recv_publish(&msg), RecvPublishStart::QueryStatus(5));
    let mut store: PacketStatusStore<PublishPacketStatus> = PacketStatusStore::new();
    let seen = store.handle_operation(StatusOperationMessage::GetPacketStatus(5));
    let first = recv_publish_after_status(&msg, &seen);
    assert_eq!(first.effects.len(), 3);
    assert_eq!(first.effects[0].on_failure, OnFailure::Repeat);
    assert!(matches!(first.effects[0].step, Step::Deliver(_)));
    if let Step::UpdateStatus(op) = &first.effects[1].step {
        store.handle_operation(*op_clone(op));
    }
    let seen = store.handle_operation(StatusOperationMessage::GetPacketStatus(5));
    let again = recv_publish_after_status(&msg, &seen);
    assert_eq!(again.effects.len(), 2);
    assert!(!again.effects.iter().any(|e| matches!(e.step, Step::Deliver(_))));
    assert_eq!(again.effects[1].step, Step::SendPacket(OutgoingPacket::Pubrec(5)));
}

fn op_clone(op: &StatusOperationMessage<PublishPacketStatus>) -> Box<StatusOperationMessage<PublishPacketStatus>> {
    Box::new(match op {
        StatusOperationMessage::SetPacketStatus(id, s) => StatusOperationMessage::SetPacketStatus(*id, *s),
        StatusOperationMessage::GetPacketStatus(id) => StatusOperationMessage::GetPacketStatus(*id),
        StatusOperationMessage::GetAndRemovePacketStatus(id) => StatusOperationMessage::GetAndRemovePacketStatus(*id),
        StatusOperationMessage::RemovePacketStatus(id) => StatusOperationMessage::RemovePacketStatus(*id),
    })
}

#[test]
fn subscribe_takes_a_fresh_identifier() {
    let mut ids = IdGenerator::with_seed(99);
    let batch = batch_of_one(Subscribe::new("test".to_string(), QualityOfService::Level2));
    let plan = handle_batch_subscribe(&batch, &mut ids);
    assert_eq!(
        steps(&plan),
        vec![
            &Step::UpdateStatus(StatusOperationMessage::SetPacketStatus(100, status(100, 0, ()))),
            &Step::SendPacket(OutgoingPacket::Subscribe {
                id: 100,
                subscriptions: vec![("test".to_string(), QualityOfService::Level2)],
            }),
        ]
    );
    assert_eq!(plan.resend.unwrap().retry_count, 1);
}

#[test]
fn subscribe_without_valid_filter_does_nothing() {
    let mut ids = IdGenerator::with_seed(99);
    let batch = batch_of_one(Subscribe::new("a#".to_string(), QualityOfService::Level0));
    let plan = handle_batch_subscribe(&batch, &mut ids);
    assert!(plan.effects.is_empty() && plan.resend.is_none() && plan.check.is_none());
    assert_eq!(next_id(&mut ids), 100);
}

#[test]
fn unsubscribe_takes_a_fresh_identifier() {
    let mut ids = IdGenerator::with_seed(0);
    let plan = handle_batch_unsubscribe(&BatchUnsubscribe::new(vec!["test".to_string()]), &mut ids);
    assert_eq!(
        plan.effects[1].step,
        Step::SendPacket(OutgoingPacket::Unsubscribe { id: 1, topic_filters: vec!["test".to_string()] })
    );
}

#[test]
fn pings_go_one_at_a_time() {
    assert_eq!(ping_tick(&Pingreq(0)), PingTick::CheckConnection(StatusExistenceMessage(1)));
    assert!(matches!(ping_tick(&Pingreq(6)), PingTick::GiveUp(_)));
    assert_eq!(ping_after_connection_check(Ok(false)), None);
    assert_eq!(ping_after_connection_check(Ok(true)), Some(StatusOperationMessage::GetAndRemovePacketStatus(0)));
    assert_eq!(ping_after_status(&None), Some(SendPing(0)));
    assert_eq!(ping_after_status(&Some(status(0, 0, ()))), None);
    let plan = send_ping(&SendPing(0));
    assert_eq!(plan.effects[1].step, Step::SendPacket(OutgoingPacket::Pingreq));
    assert_eq!(plan.resend, Some(SendPing(1)));
}

#[test]
fn connect_records_connecting_then_connack_connected() {
    let plan = handle_connect(
        &"test".to_string(),
        Connect { user_name: Some("u".to_string()), password: None, keep_alive: Some(10) },
    );
    assert_eq!(plan.status, StatusOperationMessage::SetPacketStatus(0, status(0, 0, ())));
    assert_eq!(
        plan.packet,
        OutgoingPacket::Connect {
            client_name: "test".to_string(),
            user_name: Some("u".to_string()),
            password: None,
            keep_alive: Some(10),
        }
    );
    let mut store: PacketStatusStore<()> = PacketStatusStore::new();
    store.handle_operation(plan.status);
    let connack = handle_connack(0, "ConnectionAccepted");
    store.handle_operation(connack.clear);
    match connack.outcome {
        ConnackOutcome::Accepted(op) => {
            store.handle_operation(op);
        }
        other => panic!("unexpected {:?}", other),
    }
    assert!(store.handle_existence(&StatusExistenceMessage(1)));
    let pending = store.handle_operation(StatusOperationMessage::GetPacketStatus(0));
    assert_eq!(after_connect_timeout(Ok(pending)), ConnectTimeoutOutcome::Answered);
}

#[test]
fn refused_or_unanswered_connect_fails() {
    match handle_connack(5, "NotAuthorized").outcome {
        ConnackOutcome::Refused(e) => {
            assert_eq!(e.kind, ErrorKind::NotConnected);
            assert_eq!(e.message, "Failed to connect to server, server returns: NotAuthorized");
        }
        other => panic!("unexpected {:?}", other),
    }
    match after_connect_timeout(Ok(Some(status(0, 0, ())))) {
        ConnectTimeoutOutcome::Failed(e) => {
            assert_eq!(e.kind, ErrorKind::InvalidData);
            assert_eq!(e.message, "Doesn't got connect ack from server, exit");
        }
        other => panic!("unexpected {:?}", other),
    }
    match after_connect_timeout(Err("Mailbox has closed")) {
        ConnectTimeoutOutcome::Failed(e) => {
            assert_eq!(e.message, "Failed to check connect ack status: Mailbox has closed")
        }
        other => panic!("unexpected {:?}", other),
    }
}

#[test]
fn dispatch_routes_by_kind() {
    assert_eq!(dispatch(IncomingPacket::Connack(0)), Dispatch::Connack(PacketMessage::new(0, 0)));
    assert_eq!(dispatch(IncomingPacket::Pingresp), Dispatch::Pingresp(PacketMessage::new(0, 0)));
    assert_eq!(dispatch(IncomingPacket::Suback(3)), Dispatch::Suback(PacketMessage::new(3, 0)));
    assert_eq!(dispatch(IncomingPacket::Pubrel(8)), Dispatch::Pubrel(PacketMessage::new(8, 0)));
    assert_eq!(dispatch(IncomingPacket::Other), Dispatch::Ignore);
}

fn apply_status_steps<M, T: Copy>(store: &mut PacketStatusStore<T>, plan: Plan<M, T>) {
    for effect in plan.effects {
        if let Step::UpdateStatus(op) = effect.step {
            store.handle_operation(op);
        }
    }
}

#[test]
fn qos1_exchange_leaves_the_record_empty() {
    let mut ids = IdGenerator::with_seed(0);
    let mut store: PacketStatusStore<PublishPacketStatus> = PacketStatusStore::new();
    let plan = handle_publish(&Publish::new("t".to_string(), QualityOfService::Level1, vec![1]), &mut ids);
    let check = plan.check.unwrap();
    apply_status_steps(&mut store, plan);
    let recorded = store.handle_operation(StatusOperationMessage::GetPacketStatus(1));
    assert!(should_resend(&check, &recorded));
    assert!(!store.send_status().finished);
    apply_status_steps(&mut store, handle_puback(&PacketMessage::new(1, 0)));
    let recorded = store.handle_operation(StatusOperationMessage::GetPacketStatus(1));
    assert!(!should_resend(&check, &recorded));
    assert!(store.send_status().finished);
}

#[test]
fn qos2_exchange_moves_through_its_stages() {
    let mut ids = IdGenerator::with_seed(0);
    let mut store: PacketStatusStore<PublishPacketStatus> = PacketStatusStore::new();
    let plan = handle_publish(&Publish::new("t".to_string(), QualityOfService::Level2, vec![1]), &mut ids);
    let check = plan.check.unwrap();
    apply_status_steps(&mut store, plan);
    assert!(should_resend(&check, &store.handle_operation(StatusOperationMessage::GetPacketStatus(1))));
    apply_status_steps(&mut store, handle_pubrec(&PacketMessage::new(1, 0)));
    let now = store.handle_operation(StatusOperationMessage::GetPacketStatus(1));
    assert_eq!(now, Some(status(1, 0, PublishPacketStatus::PendingComp)));
    assert!(!should_resend(&check, &now));
    apply_status_steps(&mut store, actix_mqtt_client::publish::handle_pubcomp(&PacketMessage::new(1, 0)));
    assert!(store.send_status().finished);
}
