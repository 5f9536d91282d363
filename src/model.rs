use vstd::prelude::*;
use crate::action::TransitionAction;

verus! {

/// An action scheduled for an actor, with an optional pause before it.
#[derive(Clone, Copy, Debug, PartialEq, Eq, Structural)]
pub struct Transition {
    /// Pause before the action, in milliseconds.
    pub delay: Option<u64>,
    pub action: TransitionAction,
}

impl Transition {
    /// The pause before the action, in milliseconds.
    pub fn delay(&self) -> (r: Option<u64>)
        ensures
            r == self.delay,
    {
        self.delay
    }
}

/// How an executed transition went.
#[derive(Clone, Copy, Debug, PartialEq, Eq, Structural)]
pub enum TransitionResult {
    /// The directory call succeeded.
    Success,
    /// The directory call failed; the failure is measured, not raised.
    Error,
}

/// What an event record reports about an executed transition.
#[derive(Clone, Copy, Debug, PartialEq, Eq, Structural)]
pub enum EventDetail {
    Authentication,
    Logout,
    PersonGet,
    PersonSet,
    Error,
}

/// The detail reported for an action whose directory call succeeded.
pub open spec fn success_detail(a: TransitionAction) -> EventDetail {
    match a {
        TransitionAction::Login => EventDetail::Authentication,
        TransitionAction::Logout => EventDetail::Logout,
        TransitionAction::ReadProperty => EventDetail::PersonGet,
        TransitionAction::WriteProperty => EventDetail::PersonSet,
    }
}

/// Classifies the outcome of the directory call made for `action`.
///
/// A failed call is absorbed into `(Error, EventDetail::Error)`; it is never
/// an error of the process.
pub fn classify(action: TransitionAction, succeeded: bool) -> (r: (TransitionResult, EventDetail))
    ensures
        succeeded ==> r == (TransitionResult::Success, success_detail(action)),
        !succeeded ==> r == (TransitionResult::Error, EventDetail::Error),
{
    if !succeeded {
        return (TransitionResult::Error, EventDetail::Error);
    }
    let detail = match action {
        TransitionAction::Login => EventDetail::Authentication,
        TransitionAction::Logout => EventDetail::Logout,
        TransitionAction::ReadProperty => EventDetail::PersonGet,
        TransitionAction::WriteProperty => EventDetail::PersonSet,
    };
    (TransitionResult::Success, detail)
}

/// The scripted successor of an action in the deterministic strategy:
/// authenticate, read the profile, write it, end the session, and again.
pub open spec fn basic_successor(a: TransitionAction) -> TransitionAction {
    match a {
        TransitionAction::Login => TransitionAction::ReadProperty,
        TransitionAction::ReadProperty => TransitionAction::WriteProperty,
        TransitionAction::WriteProperty => TransitionAction::Logout,
        TransitionAction::Logout => TransitionAction::Login,
    }
}

/// The deterministic strategy: a fixed, repeating script of actions.
#[derive(Clone, Copy, Debug, PartialEq, Eq, Structural)]
pub struct ActorBasic {
    /// The action the next transition performs.
    pub next: TransitionAction,
}

impl ActorBasic {
    /// A fresh actor, whose first action is to authenticate.
    pub fn new() -> (r: ActorBasic)
        ensures
            r.next == TransitionAction::Login,
    {
        ActorBasic { next: TransitionAction::Login }
    }

    /// The next scripted transition, which has no pause.
    pub fn next_transition(&mut self) -> (r: Transition)
        ensures
            r == (Transition { delay: None, action: old(self).next }),
            final(self).next == basic_successor(old(self).next),
    {
        let action = self.next;
        self.next = match action {
            TransitionAction::Login => TransitionAction::ReadProperty,
            TransitionAction::ReadProperty => TransitionAction::WriteProperty,
            TransitionAction::WriteProperty => TransitionAction::Logout,
            TransitionAction::Logout => TransitionAction::Login,
        };
        Transition { delay: None, action }
    }
}

} // verus!
