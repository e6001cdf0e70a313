//! The client's handle: which operations it still offers.
//!
//! `connect` can be called once; `disconnect` withdraws publishing,
//! subscribing, unsubscribing and the connection check, and a forced
//! disconnect withdraws disconnecting too.

use vstd::prelude::*;

use crate::connect::Connect;
use crate::failure::{send_error, ErrorKind, ErrorMessage, MailboxFailure};
use crate::status::StatusExistenceMessage;

verus! {

/// The options for setting up MQTT connection
#[derive(Clone, Debug, PartialEq)]
pub struct MqttOptions {
    /// User name
    pub user_name: Option<String>,
    /// Password
    pub password: Option<String>,
    /// Keep alive time(in seconds)
    pub keep_alive: Option<u16>,
}

impl Default for MqttOptions {
    fn default() -> (o: Self)
        ensures
            o.user_name is None,
            o.password is None,
            o.keep_alive is None,
    {
        MqttOptions { user_name: None, password: None, keep_alive: None }
    }
}

/// An operation of the client that needs one of its actors.
#[derive(Clone, Copy, Debug, PartialEq, Eq, Structural)]
pub enum Operation {
    Publish,
    Subscribe,
    Unsubscribe,
    Disconnect,
}

/// Which of the client's actors it can still address, and the options of
/// the connection it has not made yet.
#[derive(Clone, Debug, PartialEq)]
pub struct ClientState {
    pub connect: bool,
    pub publish: bool,
    pub subscribe: bool,
    pub unsubscribe: bool,
    pub disconnect: bool,
    pub connection_status: bool,
    pub options: Option<MqttOptions>,
}

/// Whether `state` can still address the actor of `op`.
pub open spec fn offers(state: ClientState, op: Operation) -> bool {
    match op {
        Operation::Publish => state.publish,
        Operation::Subscribe => state.subscribe,
        Operation::Unsubscribe => state.unsubscribe,
        Operation::Disconnect => state.disconnect,
    }
}

/// The name of `op`'s actor in its "address not found" error.
pub open spec fn operation_name(op: Operation) -> Seq<char> {
    match op {
        Operation::Publish => "publish"@,
        Operation::Subscribe => "subscribe"@,
        Operation::Unsubscribe => "unsubscribe"@,
        Operation::Disconnect => "disconnect"@,
    }
}

/// The error for an operation whose actor is gone.
pub fn address_not_found_error(name: &str) -> (e: ErrorMessage)
    ensures
        e.kind == ErrorKind::NotFound,
        e.message@ == name@ + " address not found"@,
{
    let mut message = String::from_str(name);
    message.append(" address not found");
    ErrorMessage { kind: ErrorKind::NotFound, message }
}

/// The error for a request an actor did not answer (`detail`: the failure's text).
pub fn map_mailbox_error_to_io_error(detail: &str) -> (e: ErrorMessage)
    ensures
        e.kind == ErrorKind::Interrupted,
        e.message@ == detail@,
{
    ErrorMessage { kind: ErrorKind::Interrupted, message: String::from_str(detail) }
}

/// Whether `connect` succeeds in `s`.
pub open spec fn can_connect(s: ClientState) -> bool {
    s.connect && s.options is Some
}

/// The state after `connect`: connecting is withdrawn and the options used up.
pub open spec fn after_connect(s: ClientState) -> ClientState {
    ClientState { connect: false, options: None, ..s }
}

/// The state after a disconnect (forced or not).
pub open spec fn after_disconnect(s: ClientState, forced: bool) -> ClientState {
    ClientState {
        connect: false,
        publish: false,
        subscribe: false,
        unsubscribe: false,
        connection_status: false,
        disconnect: s.disconnect && !forced,
        ..s
    }
}

impl ClientState {
    /// A client whose actors have all started, with the options of its connection.
    pub fn new(options: MqttOptions) -> (s: Self)
        ensures
            s.connect && s.publish && s.subscribe && s.unsubscribe && s.disconnect && s.connection_status,
            s.options == Some(options),
    {
        ClientState {
            connect: true,
            publish: true,
            subscribe: true,
            unsubscribe: true,
            disconnect: true,
            connection_status: true,
            options: Some(options),
        }
    }

    /// Starts connecting: gives the connect request made of the options, and
    /// withdraws connecting for good; a second call is an "Already connected"
    /// error.
    pub fn connect(&mut self) -> (r: Result<Connect, ErrorMessage>)
        ensures
            *final(self) == after_connect(*old(self)),
            r is Ok <==> can_connect(*old(self)),
            r matches Ok(c) ==> old(self).options matches Some(o) && c.user_name == o.user_name
                && c.password == o.password && c.keep_alive == o.keep_alive,
            r matches Err(e) ==> e.kind == ErrorKind::AlreadyExists && e.message@ == "Already connected"@,
    {
        let had_connect = self.connect;
        self.connect = false;
        let options = self.options.take();
        match (had_connect, options) {
            (true, Some(o)) => Ok(Connect { user_name: o.user_name, password: o.password, keep_alive: o.keep_alive }),
            _ => Err(ErrorMessage { kind: ErrorKind::AlreadyExists, message: String::from_str("Already connected") }),
        }
    }

    /// Checks that `op`'s actor can still be addressed.
    pub fn check(&self, op: Operation) -> (r: Result<(), ErrorMessage>)
        ensures
            r is Ok <==> offers(*self, op),
            r matches Err(e) ==> e.kind == ErrorKind::NotFound && e.message@ == operation_name(op)
                + " address not found"@,
    {
        match op {
            Operation::Publish => if self.publish { Ok(()) } else { Err(address_not_found_error("publish")) },
            Operation::Subscribe => if self.subscribe { Ok(()) } else { Err(address_not_found_error("subscribe")) },
            Operation::Unsubscribe => if self.unsubscribe { Ok(()) } else { Err(address_not_found_error("unsubscribe")) },
            Operation::Disconnect => if self.disconnect { Ok(()) } else { Err(address_not_found_error("disconnect")) },
        }
    }

    /// Whether the connection check can be made; without it the client
    /// counts as not connected.
    pub fn can_check_connection(&self) -> (r: bool)
        ensures
            r == self.connection_status,
    {
        self.connection_status
    }

    /// The question the connection check asks, when it can still be made:
    /// whether the connect record holds "connected" (identifier 1).
    pub fn connection_check(&self) -> (r: Option<StatusExistenceMessage>)
        ensures
            r is Some <==> self.connection_status,
            r matches Some(q) ==> q.0 == 1,
    {
        if self.connection_status {
            Some(StatusExistenceMessage(1))
        } else {
            None
        }
    }

    /// Withdraws every operation after a disconnect, disconnecting itself
    /// only when the disconnect was forced.
    pub fn clear_all_addrs(&mut self, include_disconnect: bool)
        ensures
            *final(self) == after_disconnect(*old(self), include_disconnect),
    {
        self.publish = false;
        self.subscribe = false;
        self.unsubscribe = false;
        self.connect = false;
        self.connection_status = false;
        if include_disconnect {
            self.disconnect = false;
        }
    }

    /// Whether the client has disconnected: its disconnecting actor is gone
    /// or has stopped (`actor_alive` false).
    pub fn is_disconnected(&self, actor_alive: bool) -> (r: bool)
        ensures
            r == !(self.disconnect && actor_alive),
    {
        if self.disconnect {
            !actor_alive
        } else {
            true
        }
    }
}

/// What `is_connected` answers: not connected when no check could be made
/// (`answer` `None`), the connect record's answer, or a NotConnected error
/// when the record did not answer.
pub fn connection_answer(answer: Option<Result<bool, MailboxFailure>>) -> (r: Result<bool, ErrorMessage>)
    ensures
        match answer {
            None => r == Ok::<bool, ErrorMessage>(false),
            Some(Ok(connected)) => r == Ok::<bool, ErrorMessage>(connected),
            Some(Err(_)) => r matches Err(e) && e.kind == ErrorKind::NotConnected && e.message@
                == "Failed to connect to server"@,
        },
{
    match answer {
        None => Ok(false),
        Some(Ok(connected)) => Ok(connected),
        Some(Err(_)) => Err(send_error(ErrorKind::NotConnected, "Failed to connect to server")),
    }
}

/// Connecting is possible once: whatever the state, after one `connect` a
/// second one is refused.
pub proof fn lemma_connect_once(s: ClientState)
    ensures
        !can_connect(after_connect(s)),
{
}

/// After a disconnect, publishing, subscribing and unsubscribing are refused
/// with "address not found", and connecting too; after a forced one,
/// disconnecting too.
pub proof fn lemma_disconnect_withdraws(s: ClientState, forced: bool)
    ensures
        !offers(after_disconnect(s, forced), Operation::Publish),
        !offers(after_disconnect(s, forced), Operation::Subscribe),
        !offers(after_disconnect(s, forced), Operation::Unsubscribe),
        !can_connect(after_disconnect(s, forced)),
        !after_disconnect(s, forced).connection_status,
        forced ==> !offers(after_disconnect(s, forced), Operation::Disconnect),
{
}

} // verus!
