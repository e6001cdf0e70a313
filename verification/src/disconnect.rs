//! Disconnecting: a disconnect that is not forced waits until no publish
//! waits for an answer, then goes out as a forced one.

use vstd::prelude::*;

verus! {

/// Whether every publish that waited for an answer has got it.
#[derive(Debug, PartialEq)]
pub struct PacketSendStatus {
    pub finished: bool,
}

/// The request to disconnect; a forced one does not wait for pending publishes.
#[derive(Debug, PartialEq)]
pub struct Disconnect {
    pub force: bool,
}

/// What the disconnecting actor knows: whether the publish record is empty,
/// and whether a disconnect waits for it to become so.
#[derive(Debug, PartialEq)]
pub struct DisconnectState {
    pub packet_send_finished: bool,
    pub pending_disconnect: bool,
}

/// What a disconnect request does.
#[derive(Clone, Copy, Debug, PartialEq, Eq, Structural)]
pub enum DisconnectAction {
    /// DISCONNECT is sent (a full mailbox sends the request again) and the
    /// client stops.
    SendAndStop,
    /// The disconnect waits for the pending publishes.
    Wait,
}

/// The state and action after a disconnect request.
pub open spec fn disconnect_step(s: DisconnectState, force: bool) -> (DisconnectState, DisconnectAction) {
    if force || s.packet_send_finished {
        (s, DisconnectAction::SendAndStop)
    } else {
        (DisconnectState { pending_disconnect: true, ..s }, DisconnectAction::Wait)
    }
}

/// The state after a send status, and the forced disconnect it releases.
pub open spec fn send_status_step(s: DisconnectState, finished: bool) -> (DisconnectState, bool) {
    if s.pending_disconnect && finished {
        (DisconnectState { packet_send_finished: finished, pending_disconnect: false }, true)
    } else {
        (DisconnectState { packet_send_finished: finished, ..s }, false)
    }
}

impl DisconnectState {
    /// At the start nothing is pending.
    pub fn new() -> (s: Self)
        ensures
            s.packet_send_finished,
            !s.pending_disconnect,
    {
        DisconnectState { packet_send_finished: true, pending_disconnect: false }
    }

    /// Handles a disconnect request.
    pub fn handle_disconnect(&mut self, msg: &Disconnect) -> (a: DisconnectAction)
        ensures
            (*final(self), a) == disconnect_step(*old(self), msg.force),
    {
        if msg.force || self.packet_send_finished {
            DisconnectAction::SendAndStop
        } else {
            self.pending_disconnect = true;
            DisconnectAction::Wait
        }
    }

    /// Handles a send status; gives the forced disconnect it releases.
    pub fn handle_send_status(&mut self, msg: &PacketSendStatus) -> (r: Option<Disconnect>)
        ensures
            *final(self) == send_status_step(*old(self), msg.finished).0,
            r is Some == send_status_step(*old(self), msg.finished).1,
            r matches Some(d) ==> d.force,
    {
        self.packet_send_finished = msg.finished;
        if self.pending_disconnect && self.packet_send_finished {
            self.pending_disconnect = false;
            Some(Disconnect { force: true })
        } else {
            None
        }
    }
}

/// A disconnect that is not forced never goes out while a publish waits for
/// an answer; it waits instead.
pub proof fn lemma_no_disconnect_while_pending(s: DisconnectState)
    requires
        !s.packet_send_finished,
    ensures
        disconnect_step(s, false).1 == DisconnectAction::Wait,
        disconnect_step(s, false).0.pending_disconnect,
{
}

/// A waiting disconnect goes out, forced, as soon as the publish record is
/// reported empty; it goes out once: a further empty report releases nothing.
pub proof fn lemma_waiting_disconnect_released_once(s: DisconnectState)
    requires
        !s.packet_send_finished,
    ensures
        ({
            let (waiting, _) = disconnect_step(s, false);
            let (released, fired) = send_status_step(waiting, true);
            &&& fired
            &&& !released.pending_disconnect
            &&& disconnect_step(released, true).1 == DisconnectAction::SendAndStop
            &&& !send_status_step(released, true).1
        }),
{
}

/// A forced disconnect always goes out at once.
pub proof fn lemma_forced_disconnect_immediate(s: DisconnectState)
    ensures
        disconnect_step(s, true) == (s, DisconnectAction::SendAndStop),
{
}

} // verus!
