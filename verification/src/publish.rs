//! Publishing, in both directions, with the acknowledgement exchanges of
//! levels 1 and 2.
//!
//! Sending: a level 0 publish goes out once, under identifier 0; a level 1
//! publish is recorded as awaiting its PUBACK, a level 2 publish as awaiting
//! its PUBREC, and both are sent again while that holds. A PUBREC from the
//! server is answered with PUBREL (recorded as awaiting PUBCOMP); PUBACK and
//! PUBCOMP drop the record.
//!
//! Receiving: a level 0 publish is handed to the user; a level 1 publish is
//! acknowledged with PUBACK and handed to the user; a level 2 publish is
//! handed to the user only the first time it comes (no record of it, not a
//! retry), recorded as awaiting PUBREL and acknowledged with PUBREC. A PUBREL
//! from the server is answered with PUBCOMP and drops the record.

use vstd::prelude::*;

use crate::consts::MAX_RETRY_COUNT;
use crate::failure::{ErrorKind, ErrorMessage, ErrorMessageView};
use crate::ids::{id_for_counter, next_id, IdGenerator};
use crate::packet::{
    copy_bytes, qos_with_id, IncomingPublish, IncomingPublishView, OutgoingPacket,
    OutgoingPacketView, PacketMessage, PacketMessageView, PublishMessage, PublishMessageView,
    PublishPacketStatus, QoSWithPacketIdentifier, QualityOfService,
};
use crate::plan::{
    acknowledge, acknowledge_plan, effect, give_up, give_up_plan, make_effect, report_only,
    tracked_send, tracked_send_plan, EffectView, OnFailure, Plan, PlanView, StatusCheck, Step,
    StepView,
};
use crate::status::{PacketStatus, StatusOperationMessage};
use crate::topic::{check_topic_name, invalid_topic_text, valid_topic_name};

verus! {

/// The request to publish `payload` on `topic`, with the number of times it
/// has been retried.
#[derive(Debug, PartialEq)]
pub struct Publish {
    pub topic: String,
    pub qos: QualityOfService,
    pub payload: Vec<u8>,
    pub retry_time: u16,
}

/// A publish request as a value.
pub struct PublishView {
    pub topic: String,
    pub qos: QualityOfService,
    pub payload: Seq<u8>,
    pub retry_time: u16,
}

impl View for Publish {
    type V = PublishView;

    open spec fn view(&self) -> PublishView {
        PublishView {
            topic: self.topic,
            qos: self.qos,
            payload: self.payload@,
            retry_time: self.retry_time,
        }
    }
}

impl Publish {
    pub fn new(topic: String, qos: QualityOfService, payload: Vec<u8>) -> (p: Self)
        ensures
            p@ == (PublishView { topic, qos, payload: payload@, retry_time: 0 }),
    {
        Publish { topic, qos, payload, retry_time: 0 }
    }
}

/// The error reported for a publish to an invalid topic name.
pub open spec fn invalid_topic_error(topic: Seq<char>) -> ErrorMessageView {
    ErrorMessageView {
        kind: ErrorKind::InvalidInput,
        message: "Failed to create topic from "@ + topic + ", error: "@ + invalid_topic_text(topic),
    }
}

/// Builds the PUBLISH of `msg`: refused when the topic is not a valid topic
/// name; otherwise under identifier 0 at level 0, and under the next packet
/// identifier at levels 1 and 2.
pub fn create_packet_and_id_from_message(msg: &Publish, ids: &mut IdGenerator) -> (r: Result<
    (OutgoingPacket, u16),
    ErrorMessage,
>)
    ensures
        !valid_topic_name(msg.topic@) ==> (r matches Err(e) && e@ == invalid_topic_error(msg.topic@)
            && final(ids)@ == old(ids)@),
        valid_topic_name(msg.topic@) ==> {
            let id: u16 = if msg.qos == QualityOfService::Level0 {
                0
            } else {
                id_for_counter(old(ids)@)
            };
            &&& final(ids)@ == (if msg.qos == QualityOfService::Level0 {
                old(ids)@
            } else {
                old(ids)@.wrapping_add(1)
            })
            &&& r matches Ok((packet, pid)) && pid == id && packet@ == publish_packet(msg@, id)
        },
{
    match check_topic_name(&msg.topic) {
        Err(text) => {
            let mut message = String::from_str("Failed to create topic from ");
            message.append(msg.topic.as_str());
            message.append(", error: ");
            message.append(text.as_str());
            Err(ErrorMessage { kind: ErrorKind::InvalidInput, message })
        },
        Ok(()) => {
            let id = match msg.qos {
                QualityOfService::Level0 => 0,
                _ => next_id(ids),
            };
            let packet = OutgoingPacket::Publish {
                topic_name: msg.topic.clone(),
                qos: qos_with_id(msg.qos, id),
                payload: copy_bytes(&msg.payload),
            };
            Ok((packet, id))
        },
    }
}

/// The PUBLISH of `msg` under identifier `id`.
pub open spec fn publish_packet(msg: PublishView, id: u16) -> OutgoingPacketView {
    OutgoingPacketView::Publish {
        topic_name: msg.topic,
        qos: match msg.qos {
            QualityOfService::Level0 => QoSWithPacketIdentifier::Level0,
            QualityOfService::Level1 => QoSWithPacketIdentifier::Level1(id),
            QualityOfService::Level2 => QoSWithPacketIdentifier::Level2(id),
        },
        payload: msg.payload,
    }
}

/// `msg` counted as one more retry.
pub open spec fn retried_publish(msg: PublishView) -> PublishView {
    PublishView { retry_time: (msg.retry_time + 1) as u16, ..msg }
}

/// What sending `msg` does, with the identifier counter at `counter`: past
/// the retry limit the status of identifier 0 is dropped; an invalid topic
/// is reported; a level 0 publish is sent once; a level 1 (level 2) publish
/// is recorded as awaiting PUBACK (PUBREC), sent, and sent again if, after
/// the command timeout, it is still recorded (still awaiting PUBREC).
pub open spec fn send_publish_plan(msg: PublishView, counter: usize) -> PlanView<PublishView, PublishPacketStatus> {
    if msg.retry_time > MAX_RETRY_COUNT {
        give_up_plan(0)
    } else if !valid_topic_name(msg.topic@) {
        PlanView {
            effects: seq![effect(StepView::Report(invalid_topic_error(msg.topic@)), OnFailure::Ignore)],
            resend: None,
            check: None,
        }
    } else {
        match msg.qos {
            QualityOfService::Level0 => PlanView {
                effects: seq![
                    effect(StepView::SendPacket(publish_packet(msg, 0)), OnFailure::Report),
                ],
                resend: None,
                check: None,
            },
            QualityOfService::Level1 => {
                let id = id_for_counter(counter);
                tracked_send_plan(
                    StatusOperationMessage::SetPacketStatus(
                        id,
                        PacketStatus { id, retry_count: msg.retry_time, payload: PublishPacketStatus::PendingAck },
                    ),
                    publish_packet(msg, id),
                    retried_publish(msg),
                    StatusCheck { id, stage: None },
                )
            },
            QualityOfService::Level2 => {
                let id = id_for_counter(counter);
                tracked_send_plan(
                    StatusOperationMessage::SetPacketStatus(
                        id,
                        PacketStatus { id, retry_count: msg.retry_time, payload: PublishPacketStatus::PendingRec },
                    ),
                    publish_packet(msg, id),
                    retried_publish(msg),
                    StatusCheck { id, stage: Some(PublishPacketStatus::PendingRec) },
                )
            },
        }
    }
}

/// Within the retry limit, a publish to a valid topic sends a PUBLISH of its
/// own topic and payload at its own level: at level 0 once, with no
/// identifier and nothing recorded; at levels 1 and 2 under the identifier
/// the counter gives, recorded under that identifier as awaiting PUBACK
/// (PUBREC), checked on later, and sent again with one more retry. A publish
/// to an invalid topic only reports it.
pub proof fn lemma_publish_sends_the_message(msg: PublishView, counter: usize)
    requires
        msg.retry_time <= MAX_RETRY_COUNT,
    ensures
        ({
            let p = send_publish_plan(msg, counter);
            let id = id_for_counter(counter);
            let sent = |qos: QoSWithPacketIdentifier|
                StepView::<PublishPacketStatus>::SendPacket(
                    OutgoingPacketView::Publish { topic_name: msg.topic, qos, payload: msg.payload },
                );
            let retried = PublishView {
                topic: msg.topic,
                qos: msg.qos,
                payload: msg.payload,
                retry_time: (msg.retry_time + 1) as u16,
            };
            &&& !valid_topic_name(msg.topic@) ==> p.effects.len() == 1 && p.effects[0].step is Report
                && p.resend is None && p.check is None
            &&& valid_topic_name(msg.topic@) ==> match msg.qos {
                QualityOfService::Level0 => {
                    &&& p.effects.len() == 1
                    &&& p.effects[0].step == sent(QoSWithPacketIdentifier::Level0)
                    &&& p.resend is None
                    &&& p.check is None
                },
                QualityOfService::Level1 => {
                    &&& p.effects.len() == 2
                    &&& p.effects[0].step == StepView::UpdateStatus(
                        StatusOperationMessage::SetPacketStatus(
                            id,
                            PacketStatus { id, retry_count: msg.retry_time, payload: PublishPacketStatus::PendingAck },
                        ),
                    )
                    &&& p.effects[1].step == sent(QoSWithPacketIdentifier::Level1(id))
                    &&& p.check == Some(StatusCheck { id, stage: None })
                    &&& p.resend == Some(retried)
                },
                QualityOfService::Level2 => {
                    &&& p.effects.len() == 2
                    &&& p.effects[0].step == StepView::UpdateStatus(
                        StatusOperationMessage::SetPacketStatus(
                            id,
                            PacketStatus { id, retry_count: msg.retry_time, payload: PublishPacketStatus::PendingRec },
                        ),
                    )
                    &&& p.effects[1].step == sent(QoSWithPacketIdentifier::Level2(id))
                    &&& p.check == Some(StatusCheck { id, stage: Some(PublishPacketStatus::PendingRec) })
                    &&& p.resend == Some(retried)
                },
            }
        }),
{
}

/// Whether sending `msg` takes a packet identifier.
pub open spec fn send_publish_takes_id(msg: PublishView) -> bool {
    msg.retry_time <= MAX_RETRY_COUNT && valid_topic_name(msg.topic@) && msg.qos
        != QualityOfService::Level0
}

/// Handles a request to publish.
pub fn handle_publish(msg: &Publish, ids: &mut IdGenerator) -> (p: Plan<Publish, PublishPacketStatus>)
    ensures
        p@ == send_publish_plan(msg@, old(ids)@),
        final(ids)@ == (if send_publish_takes_id(msg@) {
            old(ids)@.wrapping_add(1)
        } else {
            old(ids)@
        }),
{
    if msg.retry_time > MAX_RETRY_COUNT {
        return give_up(0);
    }
    let (packet, id) = match create_packet_and_id_from_message(msg, ids) {
        Err(error) => {
            return report_only(error);
        },
        Ok(pair) => pair,
    };
    match msg.qos {
        QualityOfService::Level0 => {
            let ghost pv = packet@;
            let mut effects = Vec::new();
            effects.push(make_effect(Step::SendPacket(packet), OnFailure::Report, false));
            let p = Plan { effects, resend: None, check: None };
            assert(p@.effects =~= seq![effect(StepView::<PublishPacketStatus>::SendPacket(pv), OnFailure::Report)]);
            p
        },
        QualityOfService::Level1 => {
            let retry = Publish {
                topic: msg.topic.clone(),
                qos: msg.qos,
                payload: copy_bytes(&msg.payload),
                retry_time: msg.retry_time + 1,
            };
            tracked_send(
                StatusOperationMessage::SetPacketStatus(
                    id,
                    PacketStatus { id, retry_count: msg.retry_time, payload: PublishPacketStatus::PendingAck },
                ),
                packet,
                retry,
                StatusCheck { id, stage: None },
            )
        },
        QualityOfService::Level2 => {
            let retry = Publish {
                topic: msg.topic.clone(),
                qos: msg.qos,
                payload: copy_bytes(&msg.payload),
                retry_time: msg.retry_time + 1,
            };
            tracked_send(
                StatusOperationMessage::SetPacketStatus(
                    id,
                    PacketStatus { id, retry_count: msg.retry_time, payload: PublishPacketStatus::PendingRec },
                ),
                packet,
                retry,
                StatusCheck { id, stage: Some(PublishPacketStatus::PendingRec) },
            )
        },
    }
}

/// What the client does first with a received publish.
#[derive(Debug, PartialEq)]
pub enum RecvPublishStart {
    /// Carry out this plan.
    Run(Plan<PacketMessage<IncomingPublish>, PublishPacketStatus>),
    /// Read the status of this level 2 packet first (see `recv_publish_after_status`).
    QueryStatus(u16),
}

/// The publish handed to the user for a received publish with identifier `id`.
pub open spec fn delivered_message(p: IncomingPublishView, id: u16) -> PublishMessageView {
    PublishMessageView { id, topic_name: p.topic_name, payload: p.payload }
}

/// `msg` counted as one more retry.
pub open spec fn retried_incoming(msg: PacketMessageView<IncomingPublishView>) -> PacketMessageView<IncomingPublishView> {
    PacketMessageView { packet: msg.packet, retry_count: (msg.retry_count + 1) as u16 }
}

/// What a received level 0 or level 1 publish does: past the retry limit
/// its status is dropped; at level 0 the status of identifier 0 is dropped
/// and the publish handed to the user, each whatever became of the other; at
/// level 1 a PUBACK is sent and the publish handed to the user, a full
/// mailbox sending the message again with one more retry.
pub open spec fn recv_publish_plan(msg: PacketMessageView<IncomingPublishView>) -> PlanView<
    PacketMessageView<IncomingPublishView>,
    PublishPacketStatus,
> {
    let id = crate::packet::qos_packet_id(msg.packet.qos);
    if msg.retry_count > MAX_RETRY_COUNT {
        give_up_plan(id)
    } else {
        match msg.packet.qos {
            QoSWithPacketIdentifier::Level1(id) => PlanView {
                effects: seq![
                    effect(StepView::SendPacket(OutgoingPacketView::Puback(id)), OnFailure::Resend),
                    effect(StepView::Deliver(delivered_message(msg.packet, id)), OnFailure::Resend),
                ],
                resend: Some(retried_incoming(msg)),
                check: None,
            },
            _ => PlanView {
                effects: seq![
                    EffectView {
                        step: StepView::UpdateStatus(StatusOperationMessage::RemovePacketStatus(0)),
                        on_failure: OnFailure::Report,
                        go_on: true,
                    },
                    EffectView {
                        step: StepView::Deliver(delivered_message(msg.packet, 0)),
                        on_failure: OnFailure::Report,
                        go_on: true,
                    },
                ],
                resend: None,
                check: None,
            },
        }
    }
}

/// A received publish, counted as one more retry.
pub fn retried_incoming_message(msg: &PacketMessage<IncomingPublish>) -> (r: PacketMessage<IncomingPublish>)
    requires
        msg.retry_count < u16::MAX,
    ensures
        r@ == retried_incoming(msg@),
{
    PacketMessage {
        packet: IncomingPublish {
            topic_name: msg.packet.topic_name.clone(),
            qos: msg.packet.qos,
            payload: copy_bytes(&msg.packet.payload),
        },
        retry_count: msg.retry_count + 1,
    }
}

fn delivery(p: &IncomingPublish, id: u16) -> (m: PublishMessage)
    ensures
        m@ == delivered_message(p@, id),
        m.id == id,
        m.topic_name == p.topic_name,
        m.payload@ == p.payload@,
{
    PublishMessage { id, topic_name: p.topic_name.clone(), payload: copy_bytes(&p.payload) }
}

/// Starts handling a received publish: levels 0 and 1 are handled at once;
/// level 2 first reads the packet's status, unless its retries are used up.
pub fn handle_recv_publish(msg: &PacketMessage<IncomingPublish>) -> (r: RecvPublishStart)
    ensures
        match msg.packet.qos {
            QoSWithPacketIdentifier::Level2(id) => if msg.retry_count > MAX_RETRY_COUNT {
                r matches RecvPublishStart::Run(p) && p@ == give_up_plan::<
                    PacketMessageView<IncomingPublishView>,
                    PublishPacketStatus,
                >(id)
            } else {
                r == RecvPublishStart::QueryStatus(id)
            },
            _ => r matches RecvPublishStart::Run(p) && p@ == recv_publish_plan(msg@),
        },
{
    match msg.packet.qos {
        QoSWithPacketIdentifier::Level0 => {
            if msg.retry_count > MAX_RETRY_COUNT {
                return RecvPublishStart::Run(give_up(0));
            }
            let ghost d = delivered_message(msg.packet@, 0);
            let mut effects = Vec::new();
            effects.push(
                make_effect(
                    Step::UpdateStatus(StatusOperationMessage::RemovePacketStatus(0)),
                    OnFailure::Report,
                    true,
                ),
            );
            effects.push(make_effect(Step::Deliver(delivery(&msg.packet, 0)), OnFailure::Report, true));
            let p = Plan { effects, resend: None, check: None };
            assert(p@.effects =~= recv_publish_plan(msg@).effects);
            RecvPublishStart::Run(p)
        },
        QoSWithPacketIdentifier::Level1(id) => {
            if msg.retry_count > MAX_RETRY_COUNT {
                return RecvPublishStart::Run(give_up(id));
            }
            let mut effects = Vec::new();
            effects.push(make_effect(Step::SendPacket(OutgoingPacket::Puback(id)), OnFailure::Resend, false));
            effects.push(make_effect(Step::Deliver(delivery(&msg.packet, id)), OnFailure::Resend, false));
            let p = Plan { effects, resend: Some(retried_incoming_message(msg)), check: None };
            assert(p@.effects =~= recv_publish_plan(msg@).effects);
            RecvPublishStart::Run(p)
        },
        QoSWithPacketIdentifier::Level2(id) => {
            if msg.retry_count > MAX_RETRY_COUNT {
                return RecvPublishStart::Run(give_up(id));
            }
            RecvPublishStart::QueryStatus(id)
        },
    }
}

/// Whether a received level 2 publish is handed to the user: only when no
/// status is recorded for it and it is not a retry.
pub open spec fn first_receipt(status: Option<PacketStatus<PublishPacketStatus>>, retry_count: u16) -> bool {
    status is None && retry_count == 0
}

/// What a received level 2 publish with identifier `id` does once its status
/// has been read: it is handed to the user if this is its first receipt (a
/// full mailbox sending the message itself again); it is recorded as
/// awaiting PUBREL, a PUBREC is sent, and the message is sent again, with
/// one more retry, if after the command timeout it still awaits PUBREC.
pub open spec fn recv_publish_level2_plan(
    msg: PacketMessageView<IncomingPublishView>,
    id: u16,
    status: Option<PacketStatus<PublishPacketStatus>>,
) -> PlanView<PacketMessageView<IncomingPublishView>, PublishPacketStatus> {
    let acknowledge = seq![
        effect(
            StepView::UpdateStatus(
                StatusOperationMessage::SetPacketStatus(
                    id,
                    PacketStatus { id, retry_count: msg.retry_count, payload: PublishPacketStatus::PendingRel },
                ),
            ),
            OnFailure::Resend,
        ),
        effect(StepView::SendPacket(OutgoingPacketView::Pubrec(id)), OnFailure::Resend),
    ];
    PlanView {
        effects: if first_receipt(status, msg.retry_count) {
            seq![effect(StepView::Deliver(delivered_message(msg.packet, id)), OnFailure::Repeat)] + acknowledge
        } else {
            acknowledge
        },
        resend: Some(retried_incoming(msg)),
        check: Some(StatusCheck { id, stage: Some(PublishPacketStatus::PendingRec) }),
    }
}

/// Goes on with a received level 2 publish once its status has been read.
pub fn recv_publish_after_status(
    msg: &PacketMessage<IncomingPublish>,
    status: &Option<PacketStatus<PublishPacketStatus>>,
) -> (p: Plan<PacketMessage<IncomingPublish>, PublishPacketStatus>)
    requires
        msg.packet.qos is Level2,
        msg.retry_count <= MAX_RETRY_COUNT,
    ensures
        p@ == recv_publish_level2_plan(msg@, crate::packet::qos_packet_id(msg.packet.qos), *status),
{
    let id = match msg.packet.qos {
        QoSWithPacketIdentifier::Level2(id) => id,
        QoSWithPacketIdentifier::Level1(id) => id,
        QoSWithPacketIdentifier::Level0 => 0,
    };
    let ghost expected = recv_publish_level2_plan(msg@, id, *status);
    let mut effects = Vec::new();
    if status.is_none() && msg.retry_count == 0 {
        effects.push(make_effect(Step::Deliver(delivery(&msg.packet, id)), OnFailure::Repeat, false));
    }
    effects.push(
        make_effect(
            Step::UpdateStatus(
                StatusOperationMessage::SetPacketStatus(
                    id,
                    PacketStatus { id, retry_count: msg.retry_count, payload: PublishPacketStatus::PendingRel },
                ),
            ),
            OnFailure::Resend,
            false,
        ),
    );
    effects.push(make_effect(Step::SendPacket(OutgoingPacket::Pubrec(id)), OnFailure::Resend, false));
    let p = Plan {
        effects,
        resend: Some(retried_incoming_message(msg)),
        check: Some(StatusCheck { id, stage: Some(PublishPacketStatus::PendingRec) }),
    };
    assert(p@.effects =~= expected.effects);
    p
}

/// What is handed to the user is the received packet itself: its own
/// identifier (the one its level 1 or 2 carries, 0 at level 0), its topic
/// and its payload. Within the retry limit, levels 0 and 1 hand it over on
/// every receipt, level 1 after a PUBACK for that same identifier; level 2
/// on its first receipt, and never as anything else.
pub proof fn lemma_delivery_carries_packet(
    msg: PacketMessageView<IncomingPublishView>,
    status: Option<PacketStatus<PublishPacketStatus>>,
)
    requires
        msg.retry_count <= MAX_RETRY_COUNT,
    ensures
        match msg.packet.qos {
            QoSWithPacketIdentifier::Level2(id) => {
                let effects = recv_publish_level2_plan(msg, id, status).effects;
                let handed = PublishMessageView {
                    id,
                    topic_name: msg.packet.topic_name,
                    payload: msg.packet.payload,
                };
                &&& forall|i: int|
                    0 <= i < effects.len() && (#[trigger] effects[i].step) is Deliver ==> effects[i].step
                        == StepView::<PublishPacketStatus>::Deliver(handed)
                &&& (status is None && msg.retry_count == 0) ==> effects[0].step
                    == StepView::<PublishPacketStatus>::Deliver(handed)
            },
            QoSWithPacketIdentifier::Level1(id) => {
                let effects = recv_publish_plan(msg).effects;
                &&& effects.len() == 2
                &&& effects[0].step == StepView::<PublishPacketStatus>::SendPacket(OutgoingPacketView::Puback(id))
                &&& effects[1].step == StepView::<PublishPacketStatus>::Deliver(
                    PublishMessageView { id, topic_name: msg.packet.topic_name, payload: msg.packet.payload },
                )
                &&& !(effects[0].step is Deliver)
            },
            QoSWithPacketIdentifier::Level0 => {
                let effects = recv_publish_plan(msg).effects;
                &&& effects.len() == 2
                &&& effects[1].step == StepView::<PublishPacketStatus>::Deliver(
                    PublishMessageView { id: 0, topic_name: msg.packet.topic_name, payload: msg.packet.payload },
                )
                &&& !(effects[0].step is Deliver)
            },
        },
{
}

/// Handles a PUBACK for packet `msg.packet`: its status is dropped.
pub fn handle_puback(msg: &PacketMessage<u16>) -> (p: Plan<PacketMessage<u16>, PublishPacketStatus>)
    requires
        msg.retry_count < u16::MAX,
    ensures
        p@ == acknowledge_plan::<PublishPacketStatus>(*msg, msg.packet),
{
    acknowledge(msg, msg.packet)
}

/// Handles a PUBCOMP for packet `msg.packet`: its status is dropped.
pub fn handle_pubcomp(msg: &PacketMessage<u16>) -> (p: Plan<PacketMessage<u16>, PublishPacketStatus>)
    requires
        msg.retry_count < u16::MAX,
    ensures
        p@ == acknowledge_plan::<PublishPacketStatus>(*msg, msg.packet),
{
    acknowledge(msg, msg.packet)
}

/// `msg` counted as one more retry.
pub open spec fn retried_id_message(msg: PacketMessage<u16>) -> PacketMessageView<u16> {
    PacketMessageView { packet: msg.packet, retry_count: (msg.retry_count + 1) as u16 }
}

/// What a PUBREC for packet `id` does: past the retry limit the status is
/// dropped; otherwise the packet is recorded as awaiting PUBCOMP, a PUBREL is
/// sent, and the message is sent again, with one more retry, if after the
/// command timeout the packet still awaits PUBREC.
pub open spec fn pubrec_plan(msg: PacketMessage<u16>) -> PlanView<PacketMessageView<u16>, PublishPacketStatus> {
    let id = msg.packet;
    if msg.retry_count > MAX_RETRY_COUNT {
        give_up_plan(id)
    } else {
        tracked_send_plan(
            StatusOperationMessage::SetPacketStatus(
                id,
                PacketStatus { id, retry_count: msg.retry_count, payload: PublishPacketStatus::PendingComp },
            ),
            OutgoingPacketView::Pubrel(id),
            retried_id_message(msg),
            StatusCheck { id, stage: Some(PublishPacketStatus::PendingRec) },
        )
    }
}

/// Handles a PUBREC for packet `msg.packet`.
pub fn handle_pubrec(msg: &PacketMessage<u16>) -> (p: Plan<PacketMessage<u16>, PublishPacketStatus>)
    ensures
        p@ == pubrec_plan(*msg),
{
    let id = msg.packet;
    if msg.retry_count > MAX_RETRY_COUNT {
        return give_up(id);
    }
    tracked_send(
        StatusOperationMessage::SetPacketStatus(
            id,
            PacketStatus { id, retry_count: msg.retry_count, payload: PublishPacketStatus::PendingComp },
        ),
        OutgoingPacket::Pubrel(id),
        PacketMessage { packet: id, retry_count: msg.retry_count + 1 },
        StatusCheck { id, stage: Some(PublishPacketStatus::PendingRec) },
    )
}

/// What a PUBREL for packet `id` does: past the retry limit the status is
/// dropped; otherwise the status is dropped, a PUBCOMP is sent, and the
/// message is sent again, with one more retry, if after the command timeout
/// the packet awaits PUBREL again.
pub open spec fn pubrel_plan(msg: PacketMessage<u16>) -> PlanView<PacketMessageView<u16>, PublishPacketStatus> {
    let id = msg.packet;
    if msg.retry_count > MAX_RETRY_COUNT {
        give_up_plan(id)
    } else {
        tracked_send_plan(
            StatusOperationMessage::RemovePacketStatus(id),
            OutgoingPacketView::Pubcomp(id),
            retried_id_message(msg),
            StatusCheck { id, stage: Some(PublishPacketStatus::PendingRel) },
        )
    }
}

/// Handles a PUBREL for packet `msg.packet`.
pub fn handle_pubrel(msg: &PacketMessage<u16>) -> (p: Plan<PacketMessage<u16>, PublishPacketStatus>)
    ensures
        p@ == pubrel_plan(*msg),
{
    let id = msg.packet;
    if msg.retry_count > MAX_RETRY_COUNT {
        return give_up(id);
    }
    tracked_send(
        StatusOperationMessage::RemovePacketStatus(id),
        OutgoingPacket::Pubcomp(id),
        PacketMessage { packet: id, retry_count: msg.retry_count + 1 },
        StatusCheck { id, stage: Some(PublishPacketStatus::PendingRel) },
    )
}

} // verus!
