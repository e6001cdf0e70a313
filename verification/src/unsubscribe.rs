//! Unsubscribing: an UNSUBSCRIBE carries every requested topic filter that
//! is valid, under a fresh packet identifier; it is sent again until
//! UNSUBACK comes or the retries are used up.

use vstd::prelude::*;

use crate::consts::MAX_RETRY_COUNT;
use crate::ids::{id_for_counter, next_id, IdGenerator};
use crate::packet::{OutgoingPacket, OutgoingPacketView, PacketMessage};
use crate::plan::{
    acknowledge, acknowledge_plan, do_nothing, empty_plan, give_up, give_up_plan, tracked_send,
    tracked_send_plan, Plan, PlanView, StatusCheck, StepView,
};
use crate::status::{PacketStatus, StatusOperationMessage};
use crate::topic::{is_valid_topic_filter, valid_topic_filter};

verus! {

/// The request to unsubscribe from a topic filter.
#[derive(Debug, PartialEq)]
pub struct Unsubscribe {
    pub topic: String,
}

impl Unsubscribe {
    pub fn new(topic: String) -> (u: Self)
        ensures
            u.topic == topic,
    {
        Unsubscribe { topic }
    }
}

/// Several topic filters unsubscribed in one UNSUBSCRIBE, with the number of
/// times the request has been retried.
#[derive(Debug, PartialEq)]
pub struct BatchUnsubscribe {
    pub topics: Vec<String>,
    pub retry_time: u16,
}

/// A batch of topic filters as a value.
pub struct BatchUnsubscribeView {
    pub topics: Seq<String>,
    pub retry_time: u16,
}

impl View for BatchUnsubscribe {
    type V = BatchUnsubscribeView;

    open spec fn view(&self) -> BatchUnsubscribeView {
        BatchUnsubscribeView { topics: self.topics@, retry_time: self.retry_time }
    }
}

impl BatchUnsubscribe {
    pub fn new(topics: Vec<String>) -> (b: Self)
        ensures
            b.topics@ == topics@,
            b.retry_time == 0,
    {
        BatchUnsubscribe { topics, retry_time: 0 }
    }
}

/// A single unsubscription is sent as a batch of one.
pub fn batch_of_one(msg: Unsubscribe) -> (b: BatchUnsubscribe)
    ensures
        b.topics@ == seq![msg.topic],
        b.retry_time == 0,
{
    let mut topics = Vec::new();
    topics.push(msg.topic);
    BatchUnsubscribe::new(topics)
}

/// The number of times `msg` has been retried.
pub fn get_retry_time_from_message(msg: &BatchUnsubscribe) -> (r: u16)
    ensures
        r == msg.retry_time,
{
    msg.retry_time
}

/// The same batch, counted as one more retry.
pub fn create_retry_message_from_message(msg: &BatchUnsubscribe) -> (r: BatchUnsubscribe)
    requires
        msg.retry_time < u16::MAX,
    ensures
        r@ == (BatchUnsubscribeView { topics: msg.topics@, retry_time: (msg.retry_time + 1) as u16 }),
{
    BatchUnsubscribe { topics: copy_topics(&msg.topics), retry_time: msg.retry_time + 1 }
}

/// The topic filters of `s` that are valid, in order.
pub open spec fn valid_topic_filters(s: Seq<String>) -> Seq<String>
    decreases s.len(),
{
    if s.len() == 0 {
        seq![]
    } else {
        let rest = valid_topic_filters(s.drop_last());
        if valid_topic_filter(s.last()@) {
            rest.push(s.last())
        } else {
            rest
        }
    }
}

/// The topic filters kept are exactly those of `s` that are valid, in their
/// order.
pub proof fn lemma_valid_topic_filters_filter(s: Seq<String>)
    ensures
        valid_topic_filters(s) == s.filter(|t: String| valid_topic_filter(t@)),
    decreases s.len(),
{
    reveal(Seq::filter);
    if s.len() > 0 {
        lemma_valid_topic_filters_filter(s.drop_last());
    }
}

/// Copies a list of topic filters.
pub fn copy_topics(v: &Vec<String>) -> (r: Vec<String>)
    ensures
        r@ == v@,
{
    let mut r: Vec<String> = Vec::new();
    let n = v.len();
    for i in 0..n
        invariant
            n == v@.len(),
            r@ == v@.take(i as int),
    {
        r.push(v[i].clone());
        assert(v@.take(i + 1) =~= v@.take(i as int).push(v@[i as int]));
    }
    assert(v@.take(n as int) =~= v@);
    r
}

/// Keeps the topic filters the `mqtt` crate accepts.
pub fn filter_valid_topics(v: &Vec<String>) -> (r: Vec<String>)
    ensures
        r@ == valid_topic_filters(v@),
        r@ == v@.filter(|t: String| valid_topic_filter(t@)),
{
    proof { lemma_valid_topic_filters_filter(v@); }
    let mut r: Vec<String> = Vec::new();
    let n = v.len();
    for i in 0..n
        invariant
            n == v@.len(),
            r@ == valid_topic_filters(v@.take(i as int)),
    {
        assert(v@.take(i + 1).drop_last() =~= v@.take(i as int));
        if is_valid_topic_filter(&v[i]) {
            r.push(v[i].clone());
        }
    }
    assert(v@.take(n as int) =~= v@);
    r
}

/// Builds the UNSUBSCRIBE of `msg`: none when no topic filter is valid;
/// otherwise the valid ones, under the next packet identifier.
pub fn create_packet_and_id_from_message(msg: &BatchUnsubscribe, ids: &mut IdGenerator) -> (r:
    Option<(OutgoingPacket, u16)>)
    ensures
        valid_topic_filters(msg.topics@).len() == 0 ==> r is None && final(ids)@ == old(ids)@,
        valid_topic_filters(msg.topics@).len() > 0 ==> {
            &&& final(ids)@ == old(ids)@.wrapping_add(1)
            &&& r matches Some((packet, id)) && id == id_for_counter(old(ids)@) && packet@
                == (OutgoingPacketView::Unsubscribe { id, topic_filters: valid_topic_filters(msg.topics@) })
        },
{
    let topic_filters = filter_valid_topics(&msg.topics);
    if topic_filters.len() == 0 {
        return None;
    }
    let id = next_id(ids);
    Some((OutgoingPacket::Unsubscribe { id, topic_filters }, id))
}

/// What handling `msg` does, with the identifier counter at `counter`:
/// nothing when no topic filter is valid; past the retry limit the status of
/// the new identifier is dropped; otherwise the UNSUBSCRIBE is recorded,
/// sent, and checked on later, a retry sending the same batch with one more
/// retry.
pub open spec fn unsubscribe_plan(msg: BatchUnsubscribeView, counter: usize) -> PlanView<BatchUnsubscribeView, ()> {
    let topic_filters = valid_topic_filters(msg.topics);
    let id = id_for_counter(counter);
    if topic_filters.len() == 0 {
        empty_plan()
    } else if msg.retry_time > MAX_RETRY_COUNT {
        give_up_plan(id)
    } else {
        tracked_send_plan(
            StatusOperationMessage::SetPacketStatus(
                id,
                PacketStatus { id, retry_count: msg.retry_time, payload: () },
            ),
            OutgoingPacketView::Unsubscribe { id, topic_filters },
            BatchUnsubscribeView { topics: msg.topics, retry_time: (msg.retry_time + 1) as u16 },
            StatusCheck { id, stage: None },
        )
    }
}

/// A batch with a valid filter, within the retry limit, records its packet as
/// waiting under the identifier the counter gives, sends an UNSUBSCRIBE under
/// that identifier carrying exactly the valid filters, in order, and checks
/// on that identifier later, the same batch being sent again with one more
/// retry; a batch with no valid filter does nothing.
pub proof fn lemma_unsubscribe_sends_valid_filters(msg: BatchUnsubscribeView, counter: usize)
    ensures
        ({
            let kept = msg.topics.filter(|t: String| valid_topic_filter(t@));
            let id = id_for_counter(counter);
            let p = unsubscribe_plan(msg, counter);
            &&& kept.len() == 0 ==> p.effects.len() == 0 && p.resend is None && p.check is None
            &&& kept.len() > 0 && msg.retry_time <= MAX_RETRY_COUNT ==> {
                &&& p.effects.len() == 2
                &&& p.effects[0].step == StepView::UpdateStatus(
                    StatusOperationMessage::SetPacketStatus(
                        id,
                        PacketStatus { id, retry_count: msg.retry_time, payload: () },
                    ),
                )
                &&& p.effects[1].step == StepView::<()>::SendPacket(
                    OutgoingPacketView::Unsubscribe { id, topic_filters: kept },
                )
                &&& p.check == Some(StatusCheck { id, stage: None })
                &&& p.resend == Some(
                    BatchUnsubscribeView { topics: msg.topics, retry_time: (msg.retry_time + 1) as u16 },
                )
            }
        }),
{
    lemma_valid_topic_filters_filter(msg.topics);
}

/// Handles a batch of unsubscriptions.
pub fn handle_batch_unsubscribe(msg: &BatchUnsubscribe, ids: &mut IdGenerator) -> (p: Plan<
    BatchUnsubscribe,
    (),
>)
    ensures
        p@ == unsubscribe_plan(msg@, old(ids)@),
        final(ids)@ == (if valid_topic_filters(msg.topics@).len() == 0 {
            old(ids)@
        } else {
            old(ids)@.wrapping_add(1)
        }),
{
    match create_packet_and_id_from_message(msg, ids) {
        None => do_nothing(),
        Some((packet, id)) => {
            let retry_time = get_retry_time_from_message(msg);
            if retry_time > MAX_RETRY_COUNT {
                return give_up(id);
            }
            tracked_send(
                StatusOperationMessage::SetPacketStatus(
                    id,
                    PacketStatus { id, retry_count: retry_time, payload: () },
                ),
                packet,
                create_retry_message_from_message(msg),
                StatusCheck { id, stage: None },
            )
        },
    }
}

/// Handles an UNSUBACK for packet `msg.packet`: its status is dropped.
pub fn handle_unsuback(msg: &PacketMessage<u16>) -> (p: Plan<PacketMessage<u16>, ()>)
    requires
        msg.retry_count < u16::MAX,
    ensures
        p@ == acknowledge_plan::<()>(*msg, msg.packet),
{
    acknowledge(msg, msg.packet)
}

} // verus!
