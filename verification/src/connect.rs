//! Connecting: CONNECT is sent with the connect record holding identifier 0
//! ("connecting"); an accepting CONNACK replaces it with identifier 1
//! ("connected"). If identifier 0 is still there once the command timeout
//! has passed, the connection has failed.

use vstd::prelude::*;

use crate::failure::{error_with_detail, ErrorKind, ErrorMessage};
use crate::packet::{OutgoingPacket, OutgoingPacketView};
use crate::status::{PacketStatus, StatusOperationMessage};

verus! {

/// The request to connect, with the options of the connection.
#[derive(Debug, PartialEq)]
pub struct Connect {
    pub user_name: Option<String>,
    pub password: Option<String>,
    pub keep_alive: Option<u16>,
}

/// The "connecting" status: identifier 0 of the connect record.
pub open spec fn connecting_status() -> StatusOperationMessage<()> {
    StatusOperationMessage::SetPacketStatus(0, PacketStatus { id: 0, retry_count: 0, payload: () })
}

/// The "connected" status: identifier 1 of the connect record.
pub open spec fn connected_status() -> StatusOperationMessage<()> {
    StatusOperationMessage::SetPacketStatus(1, PacketStatus { id: 1, retry_count: 0, payload: () })
}

/// What a connect request does: record "connecting", then send CONNECT; a
/// failure of either is reported and stops the client.
#[derive(Debug, PartialEq)]
pub struct ConnectPlan {
    pub status: StatusOperationMessage<()>,
    pub packet: OutgoingPacket,
}

/// The CONNECT of client `client_name` with the options of `msg`.
pub open spec fn connect_packet(client_name: String, msg: Connect) -> OutgoingPacketView {
    OutgoingPacketView::Connect {
        client_name,
        user_name: msg.user_name,
        password: msg.password,
        keep_alive: msg.keep_alive,
    }
}

/// CONNECT carries the client's name and the requested options unchanged:
/// its user name, password and keep-alive are those of the request.
pub proof fn lemma_connect_packet_carries_options(client_name: String, msg: Connect)
    ensures
        connect_packet(client_name, msg) matches OutgoingPacketView::Connect {
            client_name: name,
            user_name,
            password,
            keep_alive,
        } && name == client_name && user_name == msg.user_name && password == msg.password
            && keep_alive == msg.keep_alive,
{
}

/// Handles a connect request for client `client_name`.
pub fn handle_connect(client_name: &String, msg: Connect) -> (p: ConnectPlan)
    ensures
        p.status == connecting_status(),
        p.packet@ == connect_packet(*client_name, msg),
        p.packet matches OutgoingPacket::Connect { client_name: name, user_name, password, keep_alive }
            && name == *client_name && user_name == msg.user_name && password == msg.password
            && keep_alive == msg.keep_alive,
{
    ConnectPlan {
        status: StatusOperationMessage::SetPacketStatus(
            0,
            PacketStatus { id: 0, retry_count: 0, payload: () },
        ),
        packet: OutgoingPacket::Connect {
            client_name: client_name.clone(),
            user_name: msg.user_name,
            password: msg.password,
            keep_alive: msg.keep_alive,
        },
    }
}

/// The error reported when "connecting" could not be recorded.
pub fn connect_status_error(detail: &str) -> (e: ErrorMessage)
    ensures
        e.kind == ErrorKind::Interrupted,
        e.message@ == "Failed to set packet status: "@ + detail@,
{
    error_with_detail(ErrorKind::Interrupted, "Failed to set packet status: ", detail)
}

/// The error reported when CONNECT could not be handed to the sender.
pub fn connect_send_error(detail: &str) -> (e: ErrorMessage)
    ensures
        e.kind == ErrorKind::Interrupted,
        e.message@ == "Failed to send connect packet: "@ + detail@,
{
    error_with_detail(ErrorKind::Interrupted, "Failed to send connect packet: ", detail)
}

/// A step of connecting.
#[derive(Clone, Copy, Debug, PartialEq, Eq, Structural)]
pub enum ConnectStep {
    /// Recording "connecting" (the plan's status).
    RecordConnecting,
    /// Sending CONNECT (the plan's packet).
    SendConnect,
}

/// What follows a step of connecting.
#[derive(Debug, PartialEq)]
pub enum ConnectNext {
    /// Send CONNECT.
    SendConnect,
    /// Check on this identifier of the connect record once the command
    /// timeout has passed (see `after_connect_timeout`).
    ScheduleCheck(u16),
    /// Report the error and stop the client; nothing more is done: no
    /// CONNECT is sent, no check is scheduled.
    Abort(ErrorMessage),
}

/// Decides what follows a step of connecting, handed over (`failure` `None`)
/// or not (`failure` the failure's text): "connecting" recorded leads to
/// CONNECT, CONNECT sent leads to the check on "connecting"; a failed step
/// reports an Interrupted error and stops the client.
pub fn connect_after_step(step: ConnectStep, failure: Option<&str>) -> (r: ConnectNext)
    ensures
        match failure {
            None => match step {
                ConnectStep::RecordConnecting => r == ConnectNext::SendConnect,
                ConnectStep::SendConnect => r == ConnectNext::ScheduleCheck(0),
            },
            Some(detail) => r matches ConnectNext::Abort(e) && e.kind == ErrorKind::Interrupted
                && e.message@ == (match step {
                    ConnectStep::RecordConnecting => "Failed to set packet status: "@,
                    ConnectStep::SendConnect => "Failed to send connect packet: "@,
                }) + detail@,
        },
{
    match failure {
        None => match step {
            ConnectStep::RecordConnecting => ConnectNext::SendConnect,
            ConnectStep::SendConnect => ConnectNext::ScheduleCheck(0),
        },
        Some(detail) => match step {
            ConnectStep::RecordConnecting => ConnectNext::Abort(connect_status_error(detail)),
            ConnectStep::SendConnect => ConnectNext::Abort(connect_send_error(detail)),
        },
    }
}

/// What happens once the command timeout after CONNECT has passed.
#[derive(Debug, PartialEq)]
pub enum ConnectTimeoutOutcome {
    /// The server answered: the connect actor stops.
    Answered,
    /// No answer came, or the record could not be read: the error is
    /// reported and the client stops.
    Failed(ErrorMessage),
}

/// Whether the "connecting" status read after the command timeout means the
/// server never answered.
pub open spec fn connect_unanswered(status: Option<PacketStatus<()>>) -> bool {
    status is Some
}

/// Decides, from the "connecting" status read after the command timeout
/// (`Err` carrying the text of the read's failure), whether the connection
/// has failed.
pub fn after_connect_timeout(answer: Result<Option<PacketStatus<()>>, &str>) -> (r: ConnectTimeoutOutcome)
    ensures
        match answer {
            Ok(status) if !connect_unanswered(status) => r is Answered,
            Ok(_) => r matches ConnectTimeoutOutcome::Failed(e) && e.kind == ErrorKind::InvalidData
                && e.message@ == "Doesn't got connect ack from server, exit"@,
            Err(detail) => r matches ConnectTimeoutOutcome::Failed(e) && e.kind == ErrorKind::InvalidData
                && e.message@ == "Failed to check connect ack status: "@ + detail@,
        },
{
    match answer {
        Ok(None) => ConnectTimeoutOutcome::Answered,
        Ok(Some(_)) => ConnectTimeoutOutcome::Failed(
            ErrorMessage {
                kind: ErrorKind::InvalidData,
                message: String::from_str("Doesn't got connect ack from server, exit"),
            },
        ),
        Err(detail) => ConnectTimeoutOutcome::Failed(
            error_with_detail(ErrorKind::InvalidData, "Failed to check connect ack status: ", detail),
        ),
    }
}

/// The return code of a CONNACK that accepts the connection.
pub const CONNECTION_ACCEPTED: u8 = 0;

/// What a CONNACK does after "connecting" was cleared.
#[derive(Debug, PartialEq)]
pub enum ConnackOutcome {
    /// The connection is accepted: "connected" is recorded (a failure is
    /// ignored) and the connect and connack actors stop.
    Accepted(StatusOperationMessage<()>),
    /// The connection is refused: the error is reported and the client stops.
    Refused(ErrorMessage),
}

/// What a CONNACK does: clear "connecting" (a failure is reported, with the
/// failure's text, and stops the client), then the outcome.
#[derive(Debug, PartialEq)]
pub struct ConnackPlan {
    pub clear: StatusOperationMessage<()>,
    pub outcome: ConnackOutcome,
}

/// Handles a CONNACK with `return_code`; `code_text` names the code in the
/// refusal's error.
pub fn handle_connack(return_code: u8, code_text: &str) -> (p: ConnackPlan)
    ensures
        p.clear == StatusOperationMessage::<()>::RemovePacketStatus(0),
        return_code == CONNECTION_ACCEPTED ==> p.outcome == ConnackOutcome::Accepted(connected_status()),
        return_code != CONNECTION_ACCEPTED ==> (p.outcome matches ConnackOutcome::Refused(e) && e.kind
            == ErrorKind::NotConnected && e.message@ == "Failed to connect to server, server returns: "@
            + code_text@),
{
    let outcome = if return_code == CONNECTION_ACCEPTED {
        ConnackOutcome::Accepted(
            StatusOperationMessage::SetPacketStatus(1, PacketStatus { id: 1, retry_count: 0, payload: () }),
        )
    } else {
        ConnackOutcome::Refused(
            error_with_detail(
                ErrorKind::NotConnected,
                "Failed to connect to server, server returns: ",
                code_text,
            ),
        )
    };
    ConnackPlan { clear: StatusOperationMessage::RemovePacketStatus(0), outcome }
}

/// The error reported when "connecting" could not be cleared on CONNACK.
pub fn connack_status_error(detail: &str) -> (e: ErrorMessage)
    ensures
        e.kind == ErrorKind::NotConnected,
        e.message@ == "Failed to mark status for connack packet: "@ + detail@,
{
    error_with_detail(ErrorKind::NotConnected, "Failed to mark status for connack packet: ", detail)
}

/// What follows clearing "connecting" on CONNACK.
#[derive(Debug, PartialEq)]
pub enum ConnackNext {
    /// Record "connected" (a failure is ignored), then stop the connect and
    /// connack actors.
    MarkConnected(StatusOperationMessage<()>),
    /// Report the error and stop the client; "connected" is not recorded.
    Abort(ErrorMessage),
}

/// Decides what follows clearing "connecting", handed over (`failure`
/// `None`) or not (`failure` the failure's text): a failed clearing reports
/// a NotConnected error and stops the client; otherwise the CONNACK's outcome
/// is carried out.
pub fn connack_after_clear(outcome: ConnackOutcome, failure: Option<&str>) -> (r: ConnackNext)
    ensures
        match failure {
            Some(detail) => r matches ConnackNext::Abort(e) && e.kind == ErrorKind::NotConnected
                && e.message@ == "Failed to mark status for connack packet: "@ + detail@,
            None => match outcome {
                ConnackOutcome::Accepted(op) => r == ConnackNext::MarkConnected(op),
                ConnackOutcome::Refused(e) => r == ConnackNext::Abort(e),
            },
        },
{
    match failure {
        Some(detail) => ConnackNext::Abort(connack_status_error(detail)),
        None => match outcome {
            ConnackOutcome::Accepted(op) => ConnackNext::MarkConnected(op),
            ConnackOutcome::Refused(e) => ConnackNext::Abort(e),
        },
    }
}

} // verus!
