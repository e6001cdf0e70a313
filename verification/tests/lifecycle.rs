use actix_mqtt_client::client::{connection_answer, ClientState, MqttOptions, Operation};
use actix_mqtt_client::connect::{
    connack_after_clear, connect_after_step, handle_connack, ConnackNext, ConnectNext, ConnectStep,
};
use actix_mqtt_client::plan::{after_step, OnFailure, ResendChoice};
use actix_mqtt_client::disconnect::{Disconnect, DisconnectAction, DisconnectState, PacketSendStatus};
use actix_mqtt_client::failure::{
    handle_mailbox_error_with_resend, handle_send_error, handle_send_error_with_resend,
    ErrorKind, MailboxFailure, SendFailure,
};
use actix_mqtt_client::packet::OutgoingPacket;
use actix_mqtt_client::stop::{AddStopRecipient, StopMessage, StopState};
use actix_mqtt_client::transport::prepare_write;

#[test]
fn closed_mailbox_stops_full_mailbox_retries() {
    let r = handle_send_error("DispatchActor:connack_recipient", SendFailure::Closed);
    assert!(r.stop && !r.resend);
    assert_eq!(r.error.kind, ErrorKind::Interrupted);
    assert_eq!(r.error.message, "[DispatchActor:connack_recipient] Target mailbox is closed");
    let r = handle_send_error("X", SendFailure::Full);
    assert!(!r.stop && !r.resend);
    assert_eq!(r.error.message, "[X] Target mailbox is full");
    let r = handle_send_error_with_resend("X", SendFailure::Full);
    assert!(!r.stop && r.resend);
    assert_eq!(r.error.message, "[X] Target mailbox is full, will retry send");
    let r = handle_mailbox_error_with_resend(MailboxFailure::Timeout);
    assert!(!r.stop && r.resend);
    assert_eq!(r.error.message, "Send timeout, will resend");
    let r = handle_mailbox_error_with_resend(MailboxFailure::Closed);
    assert!(r.stop && !r.resend);
}

#[test]
fn disconnect_waits_for_pending_publishes() {
    let mut s = DisconnectState::new();
    assert_eq!(s.handle_disconnect(&Disconnect { force: false }), DisconnectAction::SendAndStop);
    assert_eq!(s.handle_send_status(&PacketSendStatus { finished: false }), None);
    assert_eq!(s.handle_disconnect(&Disconnect { force: false }), DisconnectAction::Wait);
    assert_eq!(s.handle_send_status(&PacketSendStatus { finished: false }), None);
    assert_eq!(s.handle_send_status(&PacketSendStatus { finished: true }), Some(Disconnect { force: true }));
    assert_eq!(s.handle_send_status(&PacketSendStatus { finished: true }), None);
    let mut s = DisconnectState::new();
    s.handle_send_status(&PacketSendStatus { finished: false });
    assert_eq!(s.handle_disconnect(&Disconnect { force: true }), DisconnectAction::SendAndStop);
}

#[test]
fn stop_is_passed_on_once() {
    let mut s: StopState<u32> = StopState::new();
    s.add_stop_recipient(AddStopRecipient(1));
    s.add_stop_recipient(AddStopRecipient(2));
    assert!(s.handle_stop(&StopMessage));
    assert_eq!(s.stop_recipients(), &vec![1, 2]);
    assert!(!s.handle_stop(&StopMessage));
}

#[test]
fn connect_is_possible_once() {
    let options = MqttOptions { user_name: Some("user".to_string()), password: None, keep_alive: Some(5) };
    let mut c = ClientState::new(options);
    let connect = c.connect().ok().unwrap();
    assert_eq!(connect.user_name, Some("user".to_string()));
    assert_eq!(connect.keep_alive, Some(5));
    let e = c.connect().err().unwrap();
    assert_eq!(e.kind, ErrorKind::AlreadyExists);
    assert_eq!(e.message, "Already connected");
}

#[test]
fn disconnect_withdraws_the_operations() {
    let mut c = ClientState::new(MqttOptions::default());
    assert!(c.check(Operation::Publish).is_ok());
    assert!(!c.is_disconnected(true));
    c.clear_all_addrs(false);
    let e = c.check(Operation::Subscribe).err().unwrap();
    assert_eq!(e.kind, ErrorKind::NotFound);
    assert_eq!(e.message, "subscribe address not found");
    assert!(c.check(Operation::Disconnect).is_ok());
    assert!(c.is_disconnected(false));
    c.clear_all_addrs(true);
    assert_eq!(c.check(Operation::Disconnect).err().unwrap().message, "disconnect address not found");
    assert!(c.is_disconnected(true));
    assert!(!c.can_check_connection());
}

#[test]
fn default_options_are_empty() {
    let o = MqttOptions::default();
    assert_eq!(o, MqttOptions { user_name: None, password: None, keep_alive: None });
}

#[test]
fn nothing_is_written_without_a_writer() {
    let e = prepare_write(false, &OutgoingPacket::Pingreq).err().unwrap();
    assert_eq!(e.kind, ErrorKind::NotFound);
    assert_eq!(e.message, "Writer is none");
    assert_eq!(prepare_write(true, &OutgoingPacket::Pingreq).ok().unwrap(), vec![0xC0, 0]);
}

#[test]
fn a_failed_connect_step_aborts() {
    assert_eq!(connect_after_step(ConnectStep::RecordConnecting, None), ConnectNext::SendConnect);
    assert_eq!(connect_after_step(ConnectStep::SendConnect, None), ConnectNext::ScheduleCheck(0));
    match connect_after_step(ConnectStep::RecordConnecting, Some("Mailbox is full")) {
        ConnectNext::Abort(e) => {
            assert_eq!(e.kind, ErrorKind::Interrupted);
            assert_eq!(e.message, "Failed to set packet status: Mailbox is full");
        }
        other => panic!("unexpected {:?}", other),
    }
    match connect_after_step(ConnectStep::SendConnect, Some("closed")) {
        ConnectNext::Abort(e) => assert_eq!(e.message, "Failed to send connect packet: closed"),
        other => panic!("unexpected {:?}", other),
    }
}

#[test]
fn a_failed_connack_clearing_aborts() {
    match connack_after_clear(handle_connack(0, "ConnectionAccepted").outcome, Some("closed")) {
        ConnackNext::Abort(e) => {
            assert_eq!(e.kind, ErrorKind::NotConnected);
            assert_eq!(e.message, "Failed to mark status for connack packet: closed");
        }
        other => panic!("unexpected {:?}", other),
    }
    assert!(matches!(
        connack_after_clear(handle_connack(0, "ConnectionAccepted").outcome, None),
        ConnackNext::MarkConnected(_)
    ));
    assert!(matches!(connack_after_clear(handle_connack(4, "BadUserNameOrPassword").outcome, None), ConnackNext::Abort(_)));
}

#[test]
fn is_connected_answers() {
    assert_eq!(connection_answer(None), Ok(false));
    assert_eq!(connection_answer(Some(Ok(true))), Ok(true));
    let e = connection_answer(Some(Err(MailboxFailure::Closed))).err().unwrap();
    assert_eq!(e.kind, ErrorKind::NotConnected);
    assert_eq!(e.message, "Failed to connect to server");
    let mut c = ClientState::new(MqttOptions::default());
    assert!(c.connection_check().is_some());
    c.clear_all_addrs(false);
    assert!(c.connection_check().is_none());
}

#[test]
fn what_follows_a_step() {
    let ok = after_step("T", OnFailure::Resend, false, None);
    assert!(ok.response.is_none() && ok.go_on && ok.resend == ResendChoice::Nothing);
    let full = after_step("T", OnFailure::Resend, false, Some(SendFailure::Full));
    assert_eq!(full.resend, ResendChoice::PlanMessage);
    assert!(!full.go_on);
    assert_eq!(full.response.unwrap().error.message, "[T] Target mailbox is full, will retry send");
    let closed = after_step("T", OnFailure::Repeat, false, Some(SendFailure::Closed));
    assert_eq!(closed.resend, ResendChoice::Nothing);
    assert!(closed.response.unwrap().stop);
    let repeat = after_step("T", OnFailure::Repeat, false, Some(SendFailure::Full));
    assert_eq!(repeat.resend, ResendChoice::HandledMessage);
    let report = after_step("T", OnFailure::Report, true, Some(SendFailure::Full));
    assert!(report.go_on && report.resend == ResendChoice::Nothing);
    assert_eq!(report.response.unwrap().error.message, "[T] Target mailbox is full");
    let ignore = after_step("T", OnFailure::Ignore, false, Some(SendFailure::Closed));
    assert!(ignore.response.is_none() && !ignore.go_on);
}
