//! Subscribing: a SUBSCRIBE carries every requested topic filter that is
//! valid, under a fresh packet identifier; it is sent again until SUBACK
//! comes or the retries are used up.

use vstd::prelude::*;

use crate::consts::MAX_RETRY_COUNT;
use crate::ids::{id_for_counter, next_id, IdGenerator};
use crate::packet::{OutgoingPacket, OutgoingPacketView, PacketMessage, QualityOfService};
use crate::plan::{
    acknowledge, acknowledge_plan, do_nothing, empty_plan, give_up, give_up_plan, tracked_send,
    tracked_send_plan, Plan, PlanView, StatusCheck, StepView,
};
use crate::status::{PacketStatus, StatusOperationMessage};
use crate::topic::{is_valid_topic_filter, valid_topic_filter};

verus! {

/// A subscription to a topic filter with a quality of service.
#[derive(Debug, PartialEq)]
pub struct Subscribe {
    pub topic: String,
    pub qos: QualityOfService,
}

impl Subscribe {
    pub fn new(topic: String, qos: QualityOfService) -> (s: Self)
        ensures
            s.topic == topic,
            s.qos == qos,
    {
        Subscribe { topic, qos }
    }
}

/// Several subscriptions sent in one SUBSCRIBE, with the number of times
/// the request has been retried.
#[derive(Debug, PartialEq)]
pub struct BatchSubscribe {
    pub subscriptions: Vec<Subscribe>,
    pub retry_count: u16,
}

/// A batch of subscriptions as a value.
pub struct BatchSubscribeView {
    pub subscriptions: Seq<Subscribe>,
    pub retry_count: u16,
}

impl View for BatchSubscribe {
    type V = BatchSubscribeView;

    open spec fn view(&self) -> BatchSubscribeView {
        BatchSubscribeView { subscriptions: self.subscriptions@, retry_count: self.retry_count }
    }
}

impl BatchSubscribe {
    pub fn new(subscriptions: Vec<Subscribe>) -> (b: Self)
        ensures
            b.subscriptions@ == subscriptions@,
            b.retry_count == 0,
    {
        BatchSubscribe { subscriptions, retry_count: 0 }
    }
}

/// A single subscription is sent as a batch of one.
pub fn batch_of_one(msg: Subscribe) -> (b: BatchSubscribe)
    ensures
        b.subscriptions@ == seq![msg],
        b.retry_count == 0,
{
    let mut subscriptions = Vec::new();
    subscriptions.push(msg);
    BatchSubscribe::new(subscriptions)
}

/// The subscriptions of `s` whose topic filter is valid, in order, as
/// (filter, quality of service) pairs.
pub open spec fn valid_subscriptions(s: Seq<Subscribe>) -> Seq<(String, QualityOfService)>
    decreases s.len(),
{
    if s.len() == 0 {
        seq![]
    } else {
        let rest = valid_subscriptions(s.drop_last());
        if valid_topic_filter(s.last().topic@) {
            rest.push((s.last().topic, s.last().qos))
        } else {
            rest
        }
    }
}

/// The subscriptions kept are exactly those of `s` whose topic filter is
/// valid, in their order, each as its own (filter, quality of service) pair.
pub proof fn lemma_valid_subscriptions_filter(s: Seq<Subscribe>)
    ensures
        valid_subscriptions(s) == s.filter(|x: Subscribe| valid_topic_filter(x.topic@)).map_values(
            |x: Subscribe| (x.topic, x.qos),
        ),
    decreases s.len(),
{
    reveal(Seq::filter);
    let keep = |x: Subscribe| valid_topic_filter(x.topic@);
    let pair = |x: Subscribe| (x.topic, x.qos);
    if s.len() > 0 {
        lemma_valid_subscriptions_filter(s.drop_last());
        let kept = s.drop_last().filter(keep);
        assert(kept.push(s.last()).map_values(pair) =~= kept.map_values(pair).push(pair(s.last())));
    } else {
        assert(s.filter(keep).map_values(pair) =~= Seq::<(String, QualityOfService)>::empty());
    }
}

/// Copies a list of subscriptions.
pub fn copy_subscriptions(v: &Vec<Subscribe>) -> (r: Vec<Subscribe>)
    ensures
        r@ == v@,
{
    let mut r: Vec<Subscribe> = Vec::new();
    let n = v.len();
    for i in 0..n
        invariant
            n == v@.len(),
            r@ == v@.take(i as int),
    {
        r.push(Subscribe { topic: v[i].topic.clone(), qos: v[i].qos });
        assert(v@.take(i + 1) =~= v@.take(i as int).push(v@[i as int]));
    }
    assert(v@.take(n as int) =~= v@);
    r
}

/// Keeps the subscriptions whose topic filter the `mqtt` crate accepts.
pub fn filter_valid_subscriptions(v: &Vec<Subscribe>) -> (r: Vec<(String, QualityOfService)>)
    ensures
        r@ == valid_subscriptions(v@),
        r@ == v@.filter(|x: Subscribe| valid_topic_filter(x.topic@)).map_values(
            |x: Subscribe| (x.topic, x.qos),
        ),
{
    proof { lemma_valid_subscriptions_filter(v@); }
    let mut r: Vec<(String, QualityOfService)> = Vec::new();
    let n = v.len();
    for i in 0..n
        invariant
            n == v@.len(),
            r@ == valid_subscriptions(v@.take(i as int)),
    {
        assert(v@.take(i + 1).drop_last() =~= v@.take(i as int));
        if is_valid_topic_filter(&v[i].topic) {
            r.push((v[i].topic.clone(), v[i].qos));
        }
    }
    assert(v@.take(n as int) =~= v@);
    r
}

/// Builds the SUBSCRIBE of `msg`: none when no topic filter is valid;
/// otherwise the valid ones, under the next packet identifier.
pub fn create_packet_and_id_from_message(msg: &BatchSubscribe, ids: &mut IdGenerator) -> (r:
    Option<(OutgoingPacket, u16)>)
    ensures
        valid_subscriptions(msg.subscriptions@).len() == 0 ==> r is None && final(ids)@ == old(ids)@,
        valid_subscriptions(msg.subscriptions@).len() > 0 ==> {
            &&& final(ids)@ == old(ids)@.wrapping_add(1)
            &&& r matches Some((packet, id)) && id == id_for_counter(old(ids)@) && packet@
                == (OutgoingPacketView::Subscribe { id, subscriptions: valid_subscriptions(msg.subscriptions@) })
        },
{
    let subscriptions = filter_valid_subscriptions(&msg.subscriptions);
    if subscriptions.len() == 0 {
        return None;
    }
    let id = next_id(ids);
    Some((OutgoingPacket::Subscribe { id, subscriptions }, id))
}

/// What handling `msg` does, with the identifier counter at `counter`:
/// nothing when no topic filter is valid; past the retry limit the status of
/// the new identifier is dropped; otherwise the SUBSCRIBE is recorded, sent,
/// and checked on later, a retry sending the same batch with one more retry.
pub open spec fn subscribe_plan(msg: BatchSubscribeView, counter: usize) -> PlanView<BatchSubscribeView, ()> {
    let subscriptions = valid_subscriptions(msg.subscriptions);
    let id = id_for_counter(counter);
    if subscriptions.len() == 0 {
        empty_plan()
    } else if msg.retry_count > MAX_RETRY_COUNT {
        give_up_plan(id)
    } else {
        tracked_send_plan(
            StatusOperationMessage::SetPacketStatus(
                id,
                PacketStatus { id, retry_count: msg.retry_count, payload: () },
            ),
            OutgoingPacketView::Subscribe { id, subscriptions },
            BatchSubscribeView {
                subscriptions: msg.subscriptions,
                retry_count: (msg.retry_count + 1) as u16,
            },
            StatusCheck { id, stage: None },
        )
    }
}

/// A batch with a valid filter, within the retry limit, records its packet as
/// waiting under the identifier the counter gives, sends a SUBSCRIBE under
/// that identifier carrying exactly the valid subscriptions, in order, each
/// with its own quality of service, and checks on that identifier later, the
/// same batch being sent again with one more retry; a batch with no valid
/// filter does nothing.
pub proof fn lemma_subscribe_sends_valid_filters(msg: BatchSubscribeView, counter: usize)
    ensures
        ({
            let kept = msg.subscriptions.filter(|x: Subscribe| valid_topic_filter(x.topic@)).map_values(
                |x: Subscribe| (x.topic, x.qos),
            );
            let id = id_for_counter(counter);
            let p = subscribe_plan(msg, counter);
            &&& kept.len() == 0 ==> p.effects.len() == 0 && p.resend is None && p.check is None
            &&& kept.len() > 0 && msg.retry_count <= MAX_RETRY_COUNT ==> {
                &&& p.effects.len() == 2
                &&& p.effects[0].step == StepView::UpdateStatus(
                    StatusOperationMessage::SetPacketStatus(
                        id,
                        PacketStatus { id, retry_count: msg.retry_count, payload: () },
                    ),
                )
                &&& p.effects[1].step == StepView::<()>::SendPacket(
                    OutgoingPacketView::Subscribe { id, subscriptions: kept },
                )
                &&& p.check == Some(StatusCheck { id, stage: None })
                &&& p.resend == Some(
                    BatchSubscribeView { subscriptions: msg.subscriptions, retry_count: (msg.retry_count + 1) as u16 },
                )
            }
        }),
{
    lemma_valid_subscriptions_filter(msg.subscriptions);
}

/// Handles a batch of subscriptions.
pub fn handle_batch_subscribe(msg: &BatchSubscribe, ids: &mut IdGenerator) -> (p: Plan<
    BatchSubscribe,
    (),
>)
    ensures
        p@ == subscribe_plan(msg@, old(ids)@),
        final(ids)@ == (if valid_subscriptions(msg.subscriptions@).len() == 0 {
            old(ids)@
        } else {
            old(ids)@.wrapping_add(1)
        }),
{
    match create_packet_and_id_from_message(msg, ids) {
        None => do_nothing(),
        Some((packet, id)) => {
            if msg.retry_count > MAX_RETRY_COUNT {
                return give_up(id);
            }
            let retry = BatchSubscribe {
                subscriptions: copy_subscriptions(&msg.subscriptions),
                retry_count: msg.retry_count + 1,
            };
            tracked_send(
                StatusOperationMessage::SetPacketStatus(
                    id,
                    PacketStatus { id, retry_count: msg.retry_count, payload: () },
                ),
                packet,
                retry,
                StatusCheck { id, stage: None },
            )
        },
    }
}

/// Handles a SUBACK for packet `msg.packet`: its status is dropped.
pub fn handle_suback(msg: &PacketMessage<u16>) -> (p: Plan<PacketMessage<u16>, ()>)
    requires
        msg.retry_count < u16::MAX,
    ensures
        p@ == acknowledge_plan::<()>(*msg, msg.packet),
{
    acknowledge(msg, msg.packet)
}

} // verus!
