//! Keeping the connection alive: a PINGREQ every ping interval, one at a time.
//!
//! The ping record holds identifier 0 while a ping waits for its PINGRESP.
//! On each tick the client checks that it is connected (identifier 1 in the
//! connect record), takes the pending ping's status out of the ping record,
//! and sends a new ping only if no ping was pending.

use vstd::prelude::*;

use crate::consts::MAX_RETRY_COUNT;
use crate::failure::MailboxFailure;
use crate::packet::{OutgoingPacket, OutgoingPacketView, PacketMessage};
use crate::plan::{
    acknowledge, acknowledge_plan, give_up, give_up_plan, tracked_send, tracked_send_plan, Plan, StatusCheck,
};
use crate::status::{PacketStatus, StatusExistenceMessage, StatusOperationMessage};

verus! {

/// A ping tick, with the number of times it has been retried.
#[derive(Debug, PartialEq)]
pub struct Pingreq(pub u16);

/// The request to send a PINGREQ, with the number of times it has been retried.
#[derive(Debug, PartialEq)]
pub struct SendPing(pub u16);

impl View for Pingreq {
    type V = u16;

    open spec fn view(&self) -> u16 {
        self.0
    }
}

impl View for SendPing {
    type V = u16;

    open spec fn view(&self) -> u16 {
        self.0
    }
}

/// What a ping tick does first.
#[derive(Debug, PartialEq)]
pub enum PingTick {
    /// The tick's retries are used up.
    GiveUp(Plan<Pingreq, ()>),
    /// Ask the connect record whether the client is connected.
    CheckConnection(StatusExistenceMessage),
}

/// Starts a ping tick: past the retry limit the ping status is dropped,
/// otherwise the connection is checked (identifier 1 of the connect record).
pub fn ping_tick(msg: &Pingreq) -> (r: PingTick)
    ensures
        msg.0 > MAX_RETRY_COUNT ==> (r matches PingTick::GiveUp(p) && p@ == give_up_plan::<u16, ()>(0)),
        msg.0 <= MAX_RETRY_COUNT ==> (r matches PingTick::CheckConnection(q) && q.0 == 1),
{
    if msg.0 > MAX_RETRY_COUNT {
        PingTick::GiveUp(give_up(0))
    } else {
        PingTick::CheckConnection(StatusExistenceMessage(1))
    }
}

/// Goes on with a ping tick once the connection check has answered: only a
/// connected client takes the pending ping's status out of the ping record.
pub fn ping_after_connection_check(answer: Result<bool, MailboxFailure>) -> (r: Option<
    StatusOperationMessage<()>,
>)
    ensures
        r is Some <==> answer == Ok::<bool, MailboxFailure>(true),
        r matches Some(op) ==> op == StatusOperationMessage::<()>::GetAndRemovePacketStatus(0),
{
    match answer {
        Ok(true) => Some(StatusOperationMessage::GetAndRemovePacketStatus(0)),
        _ => None,
    }
}

/// Ends a ping tick once the ping record has answered: a new ping is sent
/// only if no ping was pending.
pub fn ping_after_status(pending: &Option<PacketStatus<()>>) -> (r: Option<SendPing>)
    ensures
        r is Some <==> pending is None,
        r matches Some(s) ==> s.0 == 0,
{
    match pending {
        None => Some(SendPing(0)),
        Some(_) => None,
    }
}

/// The tick sent again when the ping record did not answer.
pub fn retried_tick(msg: &Pingreq) -> (r: Pingreq)
    requires
        msg.0 < u16::MAX,
    ensures
        r.0 == msg.0 + 1,
{
    Pingreq(msg.0 + 1)
}

/// The number of times `msg` has been retried.
pub fn get_retry_count_from_message(msg: &SendPing) -> (r: u16)
    ensures
        r == msg.0,
{
    msg.0
}

/// The same request, counted as one more retry.
pub fn create_retry_msessage_from_message(msg: &SendPing) -> (r: SendPing)
    requires
        msg.0 < u16::MAX,
    ensures
        r.0 == msg.0 + 1,
{
    SendPing(msg.0 + 1)
}

/// The plan of sending a ping: past the retry limit the ping status is
/// dropped; otherwise the ping is recorded under identifier 0, sent, and
/// checked on later.
pub fn send_ping(msg: &SendPing) -> (p: Plan<SendPing, ()>)
    ensures
        msg.0 > MAX_RETRY_COUNT ==> p@ == give_up_plan::<u16, ()>(0),
        msg.0 <= MAX_RETRY_COUNT ==> p@ == tracked_send_plan(
            StatusOperationMessage::SetPacketStatus(0, PacketStatus { id: 0, retry_count: msg.0, payload: () }),
            OutgoingPacketView::Pingreq,
            (msg.0 + 1) as u16,
            StatusCheck { id: 0, stage: None },
        ),
{
    let retry_count = get_retry_count_from_message(msg);
    if retry_count > MAX_RETRY_COUNT {
        return give_up(0);
    }
    tracked_send(
        StatusOperationMessage::SetPacketStatus(0, PacketStatus { id: 0, retry_count, payload: () }),
        OutgoingPacket::Pingreq,
        create_retry_msessage_from_message(msg),
        StatusCheck { id: 0, stage: None },
    )
}

/// Handles a PINGRESP: the ping status (identifier 0) is dropped.
pub fn handle_pingresp(msg: &PacketMessage<u16>) -> (p: Plan<PacketMessage<u16>, ()>)
    requires
        msg.retry_count < u16::MAX,
    ensures
        p@ == acknowledge_plan::<()>(*msg, 0),
{
    acknowledge(msg, 0)
}

} // verus!
