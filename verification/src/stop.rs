//! Stopping: the first stop message is passed on to every registered
//! recipient; later ones are ignored.

use vstd::prelude::*;

verus! {

/// The message telling the client, or one of its actors, to stop.
#[derive(Debug, PartialEq)]
pub struct StopMessage;

/// The request to pass future stop messages on to `.0`.
pub struct AddStopRecipient<R>(pub R);

/// The recipients a stop is passed on to, and whether a stop has happened.
pub struct StopState<R> {
    stop_recipients: Vec<R>,
    stopping: bool,
}

/// Whether a stop message is passed on, and the stopping flag after it.
pub open spec fn stop_step(stopping: bool) -> (bool, bool) {
    (true, !stopping)
}

impl<R> StopState<R> {
    pub closed spec fn recipients(&self) -> Seq<R> {
        self.stop_recipients@
    }

    pub closed spec fn is_stopping(&self) -> bool {
        self.stopping
    }

    /// No recipient, not stopping.
    pub fn new() -> (s: Self)
        ensures
            s.recipients() == Seq::<R>::empty(),
            !s.is_stopping(),
    {
        StopState { stop_recipients: Vec::new(), stopping: false }
    }

    /// Registers a recipient.
    pub fn add_stop_recipient(&mut self, msg: AddStopRecipient<R>)
        ensures
            final(self).recipients() == old(self).recipients().push(msg.0),
            final(self).is_stopping() == old(self).is_stopping(),
    {
        self.stop_recipients.push(msg.0);
    }

    /// Handles a stop message: true when the stop is to be passed on to every
    /// recipient (the first stop), false when a stop already happened.
    pub fn handle_stop(&mut self, msg: &StopMessage) -> (pass_on: bool)
        ensures
            (final(self).is_stopping(), pass_on) == stop_step(old(self).is_stopping()),
            final(self).recipients() == old(self).recipients(),
    {
        if self.stopping {
            return false;
        }
        self.stopping = true;
        true
    }

    /// The registered recipients.
    pub fn stop_recipients(&self) -> (r: &Vec<R>)
        ensures
            r@ == self.recipients(),
    {
        &self.stop_recipients
    }
}

/// A stop is passed on at most once: whatever the state, of two stop
/// messages in a row the second passes nothing on.
pub proof fn lemma_stop_passed_on_once(stopping: bool)
    ensures
        !stop_step(stop_step(stopping).0).1,
{
}

} // verus!
