//! Errors reported to the user, and what is done when a message cannot be
//! handed to another actor.

use vstd::prelude::*;

verus! {

/// The kind of an error reported to the user's error recipient.
#[derive(Clone, Copy, Debug, PartialEq, Eq, Structural)]
pub enum ErrorKind {
    NotFound,
    NotConnected,
    AlreadyExists,
    InvalidInput,
    InvalidData,
    TimedOut,
    Interrupted,
    Other,
}

/// The message carrying an error that happened inside the client.
#[derive(Debug, PartialEq)]
pub struct ErrorMessage {
    pub kind: ErrorKind,
    pub message: String,
}

/// An error message as a value.
pub struct ErrorMessageView {
    pub kind: ErrorKind,
    pub message: Seq<char>,
}

impl View for ErrorMessage {
    type V = ErrorMessageView;

    open spec fn view(&self) -> ErrorMessageView {
        ErrorMessageView { kind: self.kind, message: self.message@ }
    }
}

/// Why a message could not be queued in an actor's mailbox.
#[derive(Clone, Copy, Debug, PartialEq, Eq, Structural)]
pub enum SendFailure {
    /// The mailbox is closed: the actor has stopped.
    Closed,
    /// The mailbox is full.
    Full,
}

/// Why a request to an actor got no answer.
#[derive(Clone, Copy, Debug, PartialEq, Eq, Structural)]
pub enum MailboxFailure {
    /// The actor's mailbox is closed.
    Closed,
    /// The answer did not come in time.
    Timeout,
}

/// What the client does about a failed hand-over: the error it reports, and
/// whether it stops and whether it sends the message again after a delay.
#[derive(Debug, PartialEq)]
pub struct FailureResponse {
    pub error: ErrorMessage,
    pub stop: bool,
    pub resend: bool,
}

/// A failure response as a value.
pub struct FailureResponseView {
    pub error: ErrorMessageView,
    pub stop: bool,
    pub resend: bool,
}

impl View for FailureResponse {
    type V = FailureResponseView;

    open spec fn view(&self) -> FailureResponseView {
        FailureResponseView { error: self.error@, stop: self.stop, resend: self.resend }
    }
}

/// The response to a hand-over that is not retried: a closed mailbox is
/// reported and stops the client, a full one is only reported.
pub open spec fn report_response(tag: Seq<char>, failure: SendFailure) -> FailureResponseView {
    match failure {
        SendFailure::Closed => FailureResponseView {
            error: ErrorMessageView { kind: ErrorKind::Interrupted, message: tagged(tag, "Target mailbox is closed"@) },
            stop: true,
            resend: false,
        },
        SendFailure::Full => FailureResponseView {
            error: ErrorMessageView { kind: ErrorKind::Other, message: tagged(tag, "Target mailbox is full"@) },
            stop: false,
            resend: false,
        },
    }
}

/// The response to a hand-over that may be retried: a closed mailbox is
/// reported and stops the client, a full one is reported and retried.
pub open spec fn retry_response(tag: Seq<char>, failure: SendFailure) -> FailureResponseView {
    match failure {
        SendFailure::Closed => FailureResponseView {
            error: ErrorMessageView { kind: ErrorKind::Interrupted, message: tagged(tag, "Target mailbox is closed"@) },
            stop: true,
            resend: false,
        },
        SendFailure::Full => FailureResponseView {
            error: ErrorMessageView {
                kind: ErrorKind::Other,
                message: tagged(tag, "Target mailbox is full, will retry send"@),
            },
            stop: false,
            resend: true,
        },
    }
}

/// `text` prefixed with the tag of the place where it happened: `[tag] text`.
pub open spec fn tagged(tag: Seq<char>, text: Seq<char>) -> Seq<char> {
    "["@ + tag + "] "@ + text
}

/// Builds the error message `kind` / `message`.
pub fn send_error(kind: ErrorKind, message: &str) -> (e: ErrorMessage)
    ensures
        e.kind == kind,
        e.message@ == message@,
{
    ErrorMessage { kind, message: String::from_str(message) }
}

/// Builds `prefix` followed by `detail`, the way the client words an error
/// that carries the text of another error.
pub fn error_with_detail(kind: ErrorKind, prefix: &str, detail: &str) -> (e: ErrorMessage)
    ensures
        e.kind == kind,
        e.message@ == prefix@ + detail@,
{
    let mut message = String::from_str(prefix);
    message.append(detail);
    ErrorMessage { kind, message }
}

fn tag_text(tag: &str, text: &str) -> (s: String)
    ensures
        s@ == tagged(tag@, text@),
{
    let mut s = String::from_str("[");
    s.append(tag);
    s.append("] ");
    s.append(text);
    s
}

/// A message that could not be queued and will not be sent again: a closed
/// mailbox stops the client, a full one is only reported.
pub fn handle_send_error(tag: &str, failure: SendFailure) -> (r: FailureResponse)
    ensures
        r@ == report_response(tag@, failure),
        !r.resend,
        r.stop == (failure == SendFailure::Closed),
        failure == SendFailure::Closed ==> r.error.kind == ErrorKind::Interrupted
            && r.error.message@ == tagged(tag@, "Target mailbox is closed"@),
        failure == SendFailure::Full ==> r.error.kind == ErrorKind::Other
            && r.error.message@ == tagged(tag@, "Target mailbox is full"@),
{
    match failure {
        SendFailure::Closed => FailureResponse {
            error: ErrorMessage {
                kind: ErrorKind::Interrupted,
                message: tag_text(tag, "Target mailbox is closed"),
            },
            stop: true,
            resend: false,
        },
        SendFailure::Full => FailureResponse {
            error: ErrorMessage {
                kind: ErrorKind::Other,
                message: tag_text(tag, "Target mailbox is full"),
            },
            stop: false,
            resend: false,
        },
    }
}

/// A message that could not be queued and may be sent again: a closed
/// mailbox stops the client, a full one is retried after a delay.
pub fn handle_send_error_with_resend(tag: &str, failure: SendFailure) -> (r: FailureResponse)
    ensures
        r@ == retry_response(tag@, failure),
        r.stop == (failure == SendFailure::Closed),
        r.resend == (failure == SendFailure::Full),
        failure == SendFailure::Closed ==> r.error.kind == ErrorKind::Interrupted
            && r.error.message@ == tagged(tag@, "Target mailbox is closed"@),
        failure == SendFailure::Full ==> r.error.kind == ErrorKind::Other
            && r.error.message@ == tagged(tag@, "Target mailbox is full, will retry send"@),
{
    match failure {
        SendFailure::Closed => FailureResponse {
            error: ErrorMessage {
                kind: ErrorKind::Interrupted,
                message: tag_text(tag, "Target mailbox is closed"),
            },
            stop: true,
            resend: false,
        },
        SendFailure::Full => FailureResponse {
            error: ErrorMessage {
                kind: ErrorKind::Other,
                message: tag_text(tag, "Target mailbox is full, will retry send"),
            },
            stop: false,
            resend: true,
        },
    }
}

/// A request that got no answer: a closed mailbox stops the client, a
/// timeout is retried after a delay.
pub fn handle_mailbox_error_with_resend(failure: MailboxFailure) -> (r: FailureResponse)
    ensures
        r.stop == (failure == MailboxFailure::Closed),
        r.resend == (failure == MailboxFailure::Timeout),
        failure == MailboxFailure::Closed ==> r.error.kind == ErrorKind::Interrupted
            && r.error.message@ == "Target mailbox is closed"@,
        failure == MailboxFailure::Timeout ==> r.error.kind == ErrorKind::Other
            && r.error.message@ == "Send timeout, will resend"@,
{
    match failure {
        MailboxFailure::Closed => FailureResponse {
            error: send_error(ErrorKind::Interrupted, "Target mailbox is closed"),
            stop: true,
            resend: false,
        },
        MailboxFailure::Timeout => FailureResponse {
            error: send_error(ErrorKind::Other, "Send timeout, will resend"),
            stop: false,
            resend: true,
        },
    }
}

} // verus!
