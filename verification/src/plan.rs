//! What an actor does with a message it handles, written down as a plan.
//!
//! A plan is a list of effects carried out in order. An effect may fail (the
//! target mailbox is closed or full); its failure handling says how that is
//! reported and whether the message is sent again, and the plan goes on after
//! a failure only where the effect says so. After the effects, a plan may ask
//! for a status check once the command timeout has passed: the message is then
//! sent again when the check finds the exchange unanswered.

use vstd::prelude::*;

use crate::failure::{
    handle_send_error, handle_send_error_with_resend, report_response, retry_response, ErrorMessage,
    ErrorMessageView, FailureResponse, FailureResponseView, SendFailure,
};
use crate::packet::{
    OutgoingPacket, OutgoingPacketView, PacketMessage, PacketMessageView, PublishMessage,
    PublishMessageView, PublishPacketStatus,
};
use crate::status::{PacketStatus, StatusOperationMessage};

verus! {

/// One thing an actor does.
#[derive(Debug, PartialEq)]
pub enum Step<T> {
    /// An operation on the exchange's status record.
    UpdateStatus(StatusOperationMessage<T>),
    /// A packet handed to the sending actor.
    SendPacket(OutgoingPacket),
    /// A received publish handed to the user.
    Deliver(PublishMessage),
    /// An error reported to the user.
    Report(ErrorMessage),
}

/// A step as a value.
pub enum StepView<T> {
    UpdateStatus(StatusOperationMessage<T>),
    SendPacket(OutgoingPacketView),
    Deliver(PublishMessageView),
    Report(ErrorMessageView),
}

impl<T> View for Step<T> {
    type V = StepView<T>;

    open spec fn view(&self) -> StepView<T> {
        match self {
            Step::UpdateStatus(op) => StepView::UpdateStatus(*op),
            Step::SendPacket(p) => StepView::SendPacket(p@),
            Step::Deliver(m) => StepView::Deliver(m@),
            Step::Report(e) => StepView::Report(e@),
        }
    }
}

/// What is done when a step cannot be handed over.
#[derive(Clone, Copy, Debug, PartialEq, Eq, Structural)]
pub enum OnFailure {
    /// The failure is reported; the message is not sent again.
    Report,
    /// The failure is reported, and on a full mailbox the plan's resend
    /// message is sent again after a delay.
    Resend,
    /// As `Resend`, with the handled message itself (same retry count).
    Repeat,
    /// Nothing is done.
    Ignore,
}

/// A step with its failure handling; `go_on` says whether the plan goes on
/// after the step failed.
#[derive(Debug, PartialEq)]
pub struct Effect<T> {
    pub step: Step<T>,
    pub on_failure: OnFailure,
    pub go_on: bool,
}

/// An effect as a value.
pub struct EffectView<T> {
    pub step: StepView<T>,
    pub on_failure: OnFailure,
    pub go_on: bool,
}

impl<T> View for Effect<T> {
    type V = EffectView<T>;

    open spec fn view(&self) -> EffectView<T> {
        EffectView { step: self.step@, on_failure: self.on_failure, go_on: self.go_on }
    }
}

/// The check made once the command timeout has passed: the status of packet
/// `id` is read, and the message sent again when it is still there (`stage`
/// `None`) or still at `stage`.
#[derive(Clone, Copy, Debug, PartialEq, Eq, Structural)]
pub struct StatusCheck {
    pub id: u16,
    pub stage: Option<PublishPacketStatus>,
}

/// What an actor does with a message: effects, the message to send again
/// when asked to, and the status check to make later.
#[derive(Debug, PartialEq)]
pub struct Plan<M, T> {
    pub effects: Vec<Effect<T>>,
    pub resend: Option<M>,
    pub check: Option<StatusCheck>,
}

/// A plan as a value; `MV` is the view of the resent message.
pub struct PlanView<MV, T> {
    pub effects: Seq<EffectView<T>>,
    pub resend: Option<MV>,
    pub check: Option<StatusCheck>,
}

/// The views of a list of effects.
pub open spec fn effect_views<T>(effects: Seq<Effect<T>>) -> Seq<EffectView<T>> {
    effects.map_values(|e: Effect<T>| e@)
}

impl<M: View, T> View for Plan<M, T> {
    type V = PlanView<M::V, T>;

    open spec fn view(&self) -> PlanView<M::V, T> {
        PlanView {
            effects: effect_views(self.effects@),
            resend: match self.resend {
                Some(m) => Some(m@),
                None => None,
            },
            check: self.check,
        }
    }
}

/// The effect `step` with failure handling `on_failure`, stopping the plan on failure.
pub open spec fn effect<T>(step: StepView<T>, on_failure: OnFailure) -> EffectView<T> {
    EffectView { step, on_failure, go_on: false }
}

/// The plan that does nothing.
pub open spec fn empty_plan<MV, T>() -> PlanView<MV, T> {
    PlanView { effects: seq![], resend: None, check: None }
}

/// The plan of a message whose retries are used up: the status of `id` is
/// dropped and nothing is sent.
pub open spec fn give_up_plan<MV, T>(id: u16) -> PlanView<MV, T> {
    PlanView {
        effects: seq![
            effect(StepView::UpdateStatus(StatusOperationMessage::RemovePacketStatus(id)), OnFailure::Report),
        ],
        resend: None,
        check: None,
    }
}

/// The plan of a packet that waits for an answer: record `status`, send
/// `packet`, and check on packet `id` later; a full mailbox sends `resend`
/// again.
pub open spec fn tracked_send_plan<MV, T>(
    status: StatusOperationMessage<T>,
    packet: OutgoingPacketView,
    resend: MV,
    check: StatusCheck,
) -> PlanView<MV, T> {
    PlanView {
        effects: seq![
            effect(StepView::UpdateStatus(status), OnFailure::Resend),
            effect(StepView::SendPacket(packet), OnFailure::Resend),
        ],
        resend: Some(resend),
        check: Some(check),
    }
}

/// The effect `step` with failure handling `on_failure`.
pub fn make_effect<T>(step: Step<T>, on_failure: OnFailure, go_on: bool) -> (e: Effect<T>)
    ensures
        e@ == (EffectView { step: step@, on_failure, go_on }),
{
    Effect { step, on_failure, go_on }
}

/// The plan that does nothing.
pub fn do_nothing<M: View, T>() -> (p: Plan<M, T>)
    ensures
        p@ == empty_plan::<M::V, T>(),
{
    let p = Plan { effects: Vec::new(), resend: None, check: None };
    assert(p@.effects =~= seq![]);
    p
}

/// The plan that only reports `error`.
pub fn report_only<M: View, T>(error: ErrorMessage) -> (p: Plan<M, T>)
    ensures
        p@ == (PlanView::<M::V, T> {
            effects: seq![effect(StepView::Report(error@), OnFailure::Ignore)],
            resend: None,
            check: None,
        }),
{
    let ghost e = error@;
    let mut effects = Vec::new();
    effects.push(make_effect(Step::Report(error), OnFailure::Ignore, false));
    let p = Plan { effects, resend: None, check: None };
    assert(p@.effects =~= seq![effect(StepView::<T>::Report(e), OnFailure::Ignore)]);
    p
}

/// The plan of a message whose retries are used up.
pub fn give_up<M: View, T>(id: u16) -> (p: Plan<M, T>)
    ensures
        p@ == give_up_plan::<M::V, T>(id),
{
    let mut effects = Vec::new();
    effects.push(
        make_effect(
            Step::UpdateStatus(StatusOperationMessage::RemovePacketStatus(id)),
            OnFailure::Report,
            false,
        ),
    );
    let p = Plan { effects, resend: None, check: None };
    assert(p@.effects =~= give_up_plan::<M::V, T>(id).effects);
    p
}

/// The plan of a packet that waits for an answer.
pub fn tracked_send<M: View, T>(
    status: StatusOperationMessage<T>,
    packet: OutgoingPacket,
    resend: M,
    check: StatusCheck,
) -> (p: Plan<M, T>)
    ensures
        p@ == tracked_send_plan(status, packet@, resend@, check),
{
    let ghost pv = packet@;
    let ghost rv = resend@;
    let mut effects = Vec::new();
    effects.push(make_effect(Step::UpdateStatus(status), OnFailure::Resend, false));
    effects.push(make_effect(Step::SendPacket(packet), OnFailure::Resend, false));
    let p = Plan { effects, resend: Some(resend), check: Some(check) };
    assert(p@.effects =~= tracked_send_plan(status, pv, rv, check).effects);
    p
}

/// Which message a failed step sends again.
#[derive(Clone, Copy, Debug, PartialEq, Eq, Structural)]
pub enum ResendChoice {
    /// None.
    Nothing,
    /// The plan's resend message.
    PlanMessage,
    /// The handled message itself.
    HandledMessage,
}

/// What follows a step of a plan: the failure response to carry out (error
/// to report, whether to stop), the message to send again after the resend
/// delay, and whether the plan goes on with its next step.
#[derive(Debug, PartialEq)]
pub struct AfterStep {
    pub response: Option<FailureResponse>,
    pub resend: ResendChoice,
    pub go_on: bool,
}

/// What follows a step with failure handling `on_failure` and `go_on`,
/// handed over (`failure` `None`) or not: a step handed over lets the plan go
/// on; a failed one is answered as its failure handling says (a full mailbox
/// is retried only for `Resend` and `Repeat`), and the plan goes on only if
/// the step says so.
pub open spec fn after_step_spec(
    tag: Seq<char>,
    on_failure: OnFailure,
    go_on: bool,
    failure: Option<SendFailure>,
) -> (Option<FailureResponseView>, ResendChoice, bool) {
    match failure {
        None => (None, ResendChoice::Nothing, true),
        Some(f) => match on_failure {
            OnFailure::Report => (Some(report_response(tag, f)), ResendChoice::Nothing, go_on),
            OnFailure::Resend => (
                Some(retry_response(tag, f)),
                if f == SendFailure::Full { ResendChoice::PlanMessage } else { ResendChoice::Nothing },
                go_on,
            ),
            OnFailure::Repeat => (
                Some(retry_response(tag, f)),
                if f == SendFailure::Full { ResendChoice::HandledMessage } else { ResendChoice::Nothing },
                go_on,
            ),
            OnFailure::Ignore => (None, ResendChoice::Nothing, go_on),
        },
    }
}

/// Decides what follows a step of a plan.
pub fn after_step(tag: &str, on_failure: OnFailure, go_on: bool, failure: Option<SendFailure>) -> (r: AfterStep)
    ensures
        (match r.response {
            Some(resp) => Some(resp@),
            None => None,
        }, r.resend, r.go_on) == after_step_spec(tag@, on_failure, go_on, failure),
{
    match failure {
        None => AfterStep { response: None, resend: ResendChoice::Nothing, go_on: true },
        Some(f) => match on_failure {
            OnFailure::Report => AfterStep {
                response: Some(handle_send_error(tag, f)),
                resend: ResendChoice::Nothing,
                go_on,
            },
            OnFailure::Resend => AfterStep {
                response: Some(handle_send_error_with_resend(tag, f)),
                resend: match f {
                    SendFailure::Full => ResendChoice::PlanMessage,
                    SendFailure::Closed => ResendChoice::Nothing,
                },
                go_on,
            },
            OnFailure::Repeat => AfterStep {
                response: Some(handle_send_error_with_resend(tag, f)),
                resend: match f {
                    SendFailure::Full => ResendChoice::HandledMessage,
                    SendFailure::Closed => ResendChoice::Nothing,
                },
                go_on,
            },
            OnFailure::Ignore => AfterStep { response: None, resend: ResendChoice::Nothing, go_on },
        },
    }
}

/// The status check to schedule once every step of a plan is done: the
/// plan's check, when its resend message is still at hand (a failed step
/// that sent it again ends the plan).
pub fn check_to_schedule(check: Option<StatusCheck>, resend_at_hand: bool) -> (r: Option<StatusCheck>)
    ensures
        r == (if resend_at_hand { check } else { None }),
{
    if resend_at_hand {
        check
    } else {
        None
    }
}

/// A status payload, read for the stage of a publish exchange it records.
pub trait StatusPayload {
    spec fn stage_of(&self) -> Option<PublishPacketStatus>;

    fn stage(&self) -> (r: Option<PublishPacketStatus>)
        ensures
            r == self.stage_of(),
    ;
}

impl StatusPayload for () {
    open spec fn stage_of(&self) -> Option<PublishPacketStatus> {
        None
    }

    fn stage(&self) -> (r: Option<PublishPacketStatus>) {
        None
    }
}

impl StatusPayload for PublishPacketStatus {
    open spec fn stage_of(&self) -> Option<PublishPacketStatus> {
        Some(*self)
    }

    fn stage(&self) -> (r: Option<PublishPacketStatus>) {
        Some(*self)
    }
}

/// Whether the status read by `check` calls for sending the message again.
pub open spec fn resend_due<T: StatusPayload>(check: StatusCheck, status: Option<PacketStatus<T>>) -> bool {
    match check.stage {
        None => status is Some,
        Some(stage) => match status {
            Some(s) => s.payload.stage_of() == Some(stage),
            None => false,
        },
    }
}

/// A check finds something to send again only where the record still holds
/// a status for the packet: with no status, nothing is sent again, whatever
/// the check; a check on a stage sends again only when the status is at that
/// stage; a check without a stage sends again whenever a status is there.
pub proof fn lemma_resend_needs_status<T: StatusPayload>(check: StatusCheck, status: Option<PacketStatus<T>>)
    ensures
        status is None ==> !resend_due(check, status),
        resend_due(check, status) && check.stage is Some ==> status->Some_0.payload.stage_of()
            == check.stage,
        check.stage is None ==> (resend_due(check, status) <==> status is Some),
{
}

/// Decides, from the status read after the command timeout, whether the
/// message is sent again.
pub fn should_resend<T: StatusPayload>(check: &StatusCheck, status: &Option<PacketStatus<T>>) -> (r: bool)
    ensures
        r == resend_due(*check, *status),
        status is None ==> !r,
        r && check.stage is Some ==> status->Some_0.payload.stage_of() == check.stage,
        check.stage is None ==> r == status is Some,
{
    proof { lemma_resend_needs_status(*check, *status); }
    match check.stage {
        None => status.is_some(),
        Some(stage) => match status {
            Some(s) => match s.payload.stage() {
                Some(found) => found == stage,
                None => false,
            },
            None => false,
        },
    }
}

} // verus!

verus! {

/// The plan of an acknowledgement received for packet `id`: the packet's
/// status is dropped; a full mailbox sends the message again, counted as one
/// more retry.
pub open spec fn acknowledge_plan<T>(msg: PacketMessage<u16>, id: u16) -> PlanView<PacketMessageView<u16>, T> {
    PlanView {
        effects: seq![
            effect(StepView::UpdateStatus(StatusOperationMessage::RemovePacketStatus(id)), OnFailure::Resend),
        ],
        resend: Some(PacketMessageView { packet: msg.packet, retry_count: (msg.retry_count + 1) as u16 }),
        check: None,
    }
}

/// Handles an acknowledgement received for packet `id`.
pub fn acknowledge<T>(msg: &PacketMessage<u16>, id: u16) -> (p: Plan<PacketMessage<u16>, T>)
    requires
        msg.retry_count < u16::MAX,
    ensures
        p@ == acknowledge_plan::<T>(*msg, id),
{
    let mut effects = Vec::new();
    effects.push(
        make_effect(
            Step::UpdateStatus(StatusOperationMessage::RemovePacketStatus(id)),
            OnFailure::Resend,
            false,
        ),
    );
    let p = Plan {
        effects,
        resend: Some(PacketMessage { packet: msg.packet, retry_count: msg.retry_count + 1 }),
        check: None,
    };
    assert(p@.effects =~= acknowledge_plan::<T>(*msg, id).effects);
    p
}

} // verus!
