//! The protocol exchanges, followed across the functions that take part in
//! them: what the status record holds after each step, and what the checks
//! made after the command timeout then decide.

use vstd::prelude::*;

use crate::connect::{connect_unanswered, connected_status, connecting_status};
use crate::consts::MAX_RETRY_COUNT;
use crate::disconnect::{disconnect_step, send_status_step, DisconnectAction, DisconnectState};
use crate::ids::id_for_counter;
use crate::packet::{
    IncomingPublishView, OutgoingPacketView, PacketMessage, PacketMessageView, PublishPacketStatus,
    QoSWithPacketIdentifier, QualityOfService,
};
use crate::plan::{acknowledge_plan, effect, resend_due, OnFailure, StatusCheck, StepView};
use crate::publish::{
    delivered_message, publish_packet, pubrec_plan, pubrel_plan, recv_publish_level2_plan,
    retried_publish, send_publish_plan, PublishView,
};
use crate::status::{apply_operation, status_of, PacketStatus, StatusOperationMessage};
use crate::topic::valid_topic_name;

verus! {

/// A level 1 publish is recorded as awaiting PUBACK and would be sent again
/// after the command timeout; once its PUBACK is handled the record is as
/// before without it, and it is not sent again.
pub proof fn lemma_qos1_publish_acknowledged(
    m: Map<u16, PacketStatus<PublishPacketStatus>>,
    msg: PublishView,
    counter: usize,
    ack: PacketMessage<u16>,
)
    requires
        msg.qos == QualityOfService::Level1,
        msg.retry_time <= MAX_RETRY_COUNT,
        valid_topic_name(msg.topic@),
        ack.packet == id_for_counter(counter),
    ensures
        ({
            let id = id_for_counter(counter);
            let p = send_publish_plan(msg, counter);
            let record = StatusOperationMessage::SetPacketStatus(
                id,
                PacketStatus { id, retry_count: msg.retry_time, payload: PublishPacketStatus::PendingAck },
            );
            let sent = apply_operation(m, record);
            let acked = apply_operation(sent, StatusOperationMessage::RemovePacketStatus(id));
            &&& p.effects == seq![
                effect(StepView::UpdateStatus(record), OnFailure::Resend),
                effect(StepView::SendPacket(publish_packet(msg, id)), OnFailure::Resend),
            ]
            &&& p.check == Some(StatusCheck { id, stage: None })
            &&& p.resend == Some(retried_publish(msg))
            &&& resend_due(p.check.unwrap(), status_of(sent, id))
            &&& acknowledge_plan::<PublishPacketStatus>(ack, id).effects
                == seq![effect(StepView::UpdateStatus(StatusOperationMessage::<PublishPacketStatus>::RemovePacketStatus(id)), OnFailure::Resend)]
            &&& acked =~= m.remove(id)
            &&& !resend_due(p.check.unwrap(), status_of(acked, id))
        }),
{
    let id = id_for_counter(counter);
    let record = StatusOperationMessage::SetPacketStatus(
        id,
        PacketStatus { id, retry_count: msg.retry_time, payload: PublishPacketStatus::PendingAck },
    );
    let sent = apply_operation(m, record);
    let acked = apply_operation(sent, StatusOperationMessage::RemovePacketStatus(id));
    assert(acked =~= m.remove(id));
}

/// A level 2 publish is recorded as awaiting PUBREC and is sent again while
/// that holds; PUBREC is answered with PUBREL for the same packet and moves
/// the record to awaiting PUBCOMP, after which the publish is not sent again;
/// PUBCOMP leaves the record as before without it, and the check after the
/// command timeout then finds nothing to send again.
pub proof fn lemma_qos2_publish_flow(
    m: Map<u16, PacketStatus<PublishPacketStatus>>,
    msg: PublishView,
    counter: usize,
    rec: PacketMessage<u16>,
    comp: PacketMessage<u16>,
)
    requires
        msg.qos == QualityOfService::Level2,
        msg.retry_time <= MAX_RETRY_COUNT,
        valid_topic_name(msg.topic@),
        rec.packet == id_for_counter(counter),
        rec.retry_count <= MAX_RETRY_COUNT,
        comp.packet == id_for_counter(counter),
    ensures
        ({
            let id = id_for_counter(counter);
            let p = send_publish_plan(msg, counter);
            let awaiting_rec = StatusOperationMessage::SetPacketStatus(
                id,
                PacketStatus { id, retry_count: msg.retry_time, payload: PublishPacketStatus::PendingRec },
            );
            let awaiting_comp = StatusOperationMessage::SetPacketStatus(
                id,
                PacketStatus { id, retry_count: rec.retry_count, payload: PublishPacketStatus::PendingComp },
            );
            let sent = apply_operation(m, awaiting_rec);
            let released = apply_operation(sent, awaiting_comp);
            let completed = apply_operation(released, StatusOperationMessage::RemovePacketStatus(id));
            let q = pubrec_plan(rec);
            &&& p.effects[0] == effect(StepView::UpdateStatus(awaiting_rec), OnFailure::Resend)
            &&& p.effects[1] == effect(StepView::<PublishPacketStatus>::SendPacket(publish_packet(msg, id)), OnFailure::Resend)
            &&& p.check == Some(StatusCheck { id, stage: Some(PublishPacketStatus::PendingRec) })
            &&& resend_due(p.check.unwrap(), status_of(sent, id))
            &&& q.effects[0] == effect(StepView::UpdateStatus(awaiting_comp), OnFailure::Resend)
            &&& q.effects[1] == effect(StepView::<PublishPacketStatus>::SendPacket(OutgoingPacketView::Pubrel(id)), OnFailure::Resend)
            &&& !resend_due(p.check.unwrap(), status_of(released, id))
            &&& completed =~= m.remove(id)
            &&& !resend_due(p.check.unwrap(), status_of(completed, id))
        }),
{
    let id = id_for_counter(counter);
    let awaiting_rec = StatusOperationMessage::SetPacketStatus(
        id,
        PacketStatus { id, retry_count: msg.retry_time, payload: PublishPacketStatus::PendingRec },
    );
    let awaiting_comp = StatusOperationMessage::SetPacketStatus(
        id,
        PacketStatus { id, retry_count: rec.retry_count, payload: PublishPacketStatus::PendingComp },
    );
    let sent = apply_operation(m, awaiting_rec);
    let released = apply_operation(sent, awaiting_comp);
    let completed = apply_operation(released, StatusOperationMessage::RemovePacketStatus(id));
    assert(completed =~= m.remove(id));
    assert(!completed.contains_key(id));
}

/// Whether a plan hands a publish to the user.
pub open spec fn delivers<T>(effects: Seq<crate::plan::EffectView<T>>) -> bool {
    exists|i: int| 0 <= i < effects.len() && #[trigger] effects[i].step is Deliver
}

/// A level 2 publish is handed to the user once: the first receipt (no
/// record of it, not a retry) delivers it and records it as awaiting PUBREL;
/// the same publish received again, or retried, is acknowledged without
/// being delivered; once PUBREL has dropped the record, a new publish under
/// the same identifier is delivered again.
pub proof fn lemma_qos2_delivered_once(
    m: Map<u16, PacketStatus<PublishPacketStatus>>,
    msg: PacketMessageView<IncomingPublishView>,
    id: u16,
    rel: PacketMessage<u16>,
)
    requires
        msg.packet.qos == QoSWithPacketIdentifier::Level2(id),
        msg.retry_count == 0,
        !m.contains_key(id),
        rel.packet == id,
        rel.retry_count <= MAX_RETRY_COUNT,
    ensures
        ({
            let first = recv_publish_level2_plan(msg, id, status_of(m, id));
            let recorded = StatusOperationMessage::SetPacketStatus(
                id,
                PacketStatus { id, retry_count: 0, payload: PublishPacketStatus::PendingRel },
            );
            let after_first = apply_operation(m, recorded);
            let again = recv_publish_level2_plan(msg, id, status_of(after_first, id));
            let retried = recv_publish_level2_plan(
                PacketMessageView { retry_count: 1, ..msg },
                id,
                status_of(m, id),
            );
            let after_rel = apply_operation(after_first, StatusOperationMessage::RemovePacketStatus(id));
            let anew = recv_publish_level2_plan(msg, id, status_of(after_rel, id));
            &&& first.effects[0] == effect(StepView::<PublishPacketStatus>::Deliver(delivered_message(msg.packet, id)), OnFailure::Repeat)
            &&& first.effects[1] == effect(StepView::UpdateStatus(recorded), OnFailure::Resend)
            &&& first.effects[2] == effect(StepView::<PublishPacketStatus>::SendPacket(OutgoingPacketView::Pubrec(id)), OnFailure::Resend)
            &&& !delivers(again.effects)
            &&& !delivers(retried.effects)
            &&& pubrel_plan(rel).effects[0] == effect(
                StepView::UpdateStatus(StatusOperationMessage::<PublishPacketStatus>::RemovePacketStatus(id)),
                OnFailure::Resend,
            )
            &&& pubrel_plan(rel).effects[1] == effect(
                StepView::<PublishPacketStatus>::SendPacket(OutgoingPacketView::Pubcomp(id)),
                OnFailure::Resend,
            )
            &&& delivers(anew.effects)
        }),
{
    let recorded = StatusOperationMessage::SetPacketStatus(
        id,
        PacketStatus { id, retry_count: 0, payload: PublishPacketStatus::PendingRel },
    );
    let after_first = apply_operation(m, recorded);
    let again = recv_publish_level2_plan(msg, id, status_of(after_first, id));
    let retried = recv_publish_level2_plan(PacketMessageView { retry_count: 1, ..msg }, id, status_of(m, id));
    let after_rel = apply_operation(after_first, StatusOperationMessage::RemovePacketStatus(id));
    let anew = recv_publish_level2_plan(msg, id, status_of(after_rel, id));
    assert(!after_rel.contains_key(id));
    assert(anew.effects[0].step is Deliver);
    assert(again.effects.len() == 2);
    assert(retried.effects.len() == 2);
}

/// CONNECT records "connecting"; an accepting CONNACK clears it and records
/// "connected", so the check after the command timeout finds the server
/// answered and the connection check finds the client connected. Without a
/// CONNACK the check finds the connection failed.
pub proof fn lemma_connect_accepted(m: Map<u16, PacketStatus<()>>)
    ensures
        ({
            let connecting = apply_operation(m, connecting_status());
            let cleared = apply_operation(connecting, StatusOperationMessage::RemovePacketStatus(0));
            let connected = apply_operation(cleared, connected_status());
            &&& connect_unanswered(status_of(connecting, 0))
            &&& !connect_unanswered(status_of(connected, 0))
            &&& connected.contains_key(1)
        }),
{
}

/// One ping at a time: while a sent ping is recorded, the next tick takes
/// its status out and sends nothing; once its PINGRESP dropped it, the next
/// tick finds none and sends a ping.
pub proof fn lemma_single_ping_in_flight(m: Map<u16, PacketStatus<()>>, retry: u16)
    ensures
        ({
            let sent = apply_operation(
                m,
                StatusOperationMessage::SetPacketStatus(0, PacketStatus { id: 0, retry_count: retry, payload: () }),
            );
            let answered = apply_operation(sent, StatusOperationMessage::RemovePacketStatus(0));
            &&& crate::status::operation_answer(sent, StatusOperationMessage::GetAndRemovePacketStatus(0)) is Some
            &&& crate::status::operation_answer(answered, StatusOperationMessage::GetAndRemovePacketStatus(0)) is None
        }),
{
}

/// Retries are bounded: a publish past the retry limit sends nothing, and
/// the message a plan would send again counts one more retry, so a publish
/// goes out at most `MAX_RETRY_COUNT + 1` times.
pub proof fn lemma_publish_retries_bounded(msg: PublishView, counter: usize)
    ensures
        msg.retry_time > MAX_RETRY_COUNT ==> forall|i: int|
            0 <= i < send_publish_plan(msg, counter).effects.len()
                ==> !(#[trigger] send_publish_plan(msg, counter).effects[i].step is SendPacket),
        send_publish_plan(msg, counter).resend matches Some(r) ==> msg.retry_time <= MAX_RETRY_COUNT
            && r.retry_time == msg.retry_time + 1,
{
}

/// A disconnect asked for while one publish still waits for its answer is
/// held back, and goes out, forced, when the answer drops the last status:
/// the record is then empty, so the send status reports finished.
pub proof fn lemma_disconnect_waits_for_last_publish(
    m: Map<u16, PacketStatus<PublishPacketStatus>>,
    id: u16,
)
    requires
        m.dom().finite(),
        m.dom() == set![id],
    ensures
        ({
            let before = DisconnectState { packet_send_finished: m.len() == 0, pending_disconnect: false };
            let (waiting, action) = disconnect_step(before, false);
            let answered = apply_operation(m, StatusOperationMessage::RemovePacketStatus(id));
            let (released, fired) = send_status_step(waiting, answered.len() == 0);
            &&& action == DisconnectAction::Wait
            &&& answered.len() == 0
            &&& fired
            &&& !released.pending_disconnect
        }),
{
    assert(m.dom().len() == 1);
    let answered = apply_operation(m, StatusOperationMessage::RemovePacketStatus(id));
    assert(answered.dom() =~= Set::<u16>::empty());
}

/// Whether a plan hands a packet to the sender.
pub open spec fn sends<T>(effects: Seq<crate::plan::EffectView<T>>) -> bool {
    exists|i: int| 0 <= i < effects.len() && #[trigger] effects[i].step is SendPacket
}

/// Retries are bounded for the other exchanges that send a packet and wait
/// for its answer (SUBSCRIBE, UNSUBSCRIBE, PUBREL after PUBREC, PUBCOMP
/// after PUBREL, PINGREQ): past the retry limit nothing is sent, and the
/// message sent again counts one more retry.
pub proof fn lemma_exchange_retries_bounded(
    sub: crate::subscribe::BatchSubscribeView,
    unsub: crate::unsubscribe::BatchUnsubscribeView,
    ack: PacketMessage<u16>,
    counter: usize,
)
    ensures
        sub.retry_count > MAX_RETRY_COUNT ==> !sends(crate::subscribe::subscribe_plan(sub, counter).effects),
        crate::subscribe::subscribe_plan(sub, counter).resend matches Some(r) ==> r.retry_count
            == sub.retry_count + 1 && sub.retry_count <= MAX_RETRY_COUNT,
        unsub.retry_time > MAX_RETRY_COUNT ==> !sends(crate::unsubscribe::unsubscribe_plan(unsub, counter).effects),
        crate::unsubscribe::unsubscribe_plan(unsub, counter).resend matches Some(r) ==> r.retry_time
            == unsub.retry_time + 1 && unsub.retry_time <= MAX_RETRY_COUNT,
        ack.retry_count > MAX_RETRY_COUNT ==> !sends(pubrec_plan(ack).effects) && !sends(pubrel_plan(ack).effects),
        pubrec_plan(ack).resend matches Some(r) ==> r.retry_count == ack.retry_count + 1,
        pubrel_plan(ack).resend matches Some(r) ==> r.retry_count == ack.retry_count + 1,
{
    let s = crate::subscribe::subscribe_plan(sub, counter);
    let u = crate::unsubscribe::unsubscribe_plan(unsub, counter);
    if sub.retry_count > MAX_RETRY_COUNT {
        assert(!sends(s.effects)) by {
            if s.effects.len() > 0 {
                assert(s.effects.len() == 1);
            }
        }
    }
    if unsub.retry_time > MAX_RETRY_COUNT {
        assert(!sends(u.effects)) by {
            if u.effects.len() > 0 {
                assert(u.effects.len() == 1);
            }
        }
    }
    if ack.retry_count > MAX_RETRY_COUNT {
        assert(pubrec_plan(ack).effects.len() == 1);
        assert(pubrel_plan(ack).effects.len() == 1);
    }
}

/// A CONNACK that refuses the connection, or whose clearing of "connecting"
/// failed, leads to `connack_after_clear`'s `Abort`, which records nothing:
/// "connected" stays absent from the connect record, so the connection check
/// keeps answering not connected.
pub proof fn lemma_connack_refused_not_connected(m: Map<u16, PacketStatus<()>>)
    requires
        !m.contains_key(1),
    ensures
        ({
            let connecting = apply_operation(m, connecting_status());
            let cleared = apply_operation(connecting, StatusOperationMessage::RemovePacketStatus(0));
            &&& !connecting.contains_key(1)
            &&& !cleared.contains_key(1)
        }),
{
}

} // verus!
