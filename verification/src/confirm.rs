//! Confirmation flow: the short-lived state machine that guards overwriting
//! an existing session. A prompt is posted, and a bounded-time response from
//! the requesting user resolves it to approval, rejection or timeout.

use vstd::prelude::*;

verus! {

/// How long a confirmation prompt waits for a response, in seconds.
pub const CONFIRMATION_DEADLINE_SECS: u64 = 15;

/// The states of one confirmation: the prompt is posted once, and exactly one
/// of the three terminal states is reached.
#[derive(Clone, Copy, Debug, PartialEq, Eq, Structural)]
pub enum ConfirmationState {
    Idle,
    PromptSent,
    Approved,
    Rejected,
    TimedOut,
}

/// What can happen to a confirmation: a start request posts the prompt; an
/// affirmative or any other response, or the deadline, resolves it.
#[derive(Clone, Copy, Debug, PartialEq, Eq, Structural)]
pub enum ConfirmationEvent {
    StartRequested,
    Affirmative,
    OtherResponse,
    Deadline,
}

/// A confirmation that has run its course.
pub open spec fn confirmation_terminal(s: ConfirmationState) -> bool {
    s == ConfirmationState::Approved || s == ConfirmationState::Rejected || s
        == ConfirmationState::TimedOut
}

/// The transition relation. A second start request while the prompt is
/// pending is not taken up, and a terminal state absorbs every event.
pub open spec fn spec_step(s: ConfirmationState, e: ConfirmationEvent) -> ConfirmationState {
    match (s, e) {
        (ConfirmationState::Idle, ConfirmationEvent::StartRequested) => ConfirmationState::PromptSent,
        (ConfirmationState::PromptSent, ConfirmationEvent::Affirmative) => ConfirmationState::Approved,
        (ConfirmationState::PromptSent, ConfirmationEvent::OtherResponse) => ConfirmationState::Rejected,
        (ConfirmationState::PromptSent, ConfirmationEvent::Deadline) => ConfirmationState::TimedOut,
        _ => s,
    }
}

/// Takes one step of the confirmation state machine.
pub fn step(s: ConfirmationState, e: ConfirmationEvent) -> (r: ConfirmationState)
    ensures
        r == spec_step(s, e),
{
    match (s, e) {
        (ConfirmationState::Idle, ConfirmationEvent::StartRequested) => ConfirmationState::PromptSent,
        (ConfirmationState::PromptSent, ConfirmationEvent::Affirmative) => ConfirmationState::Approved,
        (ConfirmationState::PromptSent, ConfirmationEvent::OtherResponse) => ConfirmationState::Rejected,
        (ConfirmationState::PromptSent, ConfirmationEvent::Deadline) => ConfirmationState::TimedOut,
        _ => s,
    }
}

/// The response the transport collected before the deadline, if any:
/// `Some(true)` for the affirmative option, `Some(false)` for any other
/// response, `None` when the deadline passed silently.
pub open spec fn spec_event_of_response(response: Option<bool>) -> ConfirmationEvent {
    match response {
        Some(true) => ConfirmationEvent::Affirmative,
        Some(false) => ConfirmationEvent::OtherResponse,
        None => ConfirmationEvent::Deadline,
    }
}

/// How a pending confirmation resolves for a given response.
pub open spec fn spec_resolve(response: Option<bool>) -> ConfirmationState {
    spec_step(ConfirmationState::PromptSent, spec_event_of_response(response))
}

/// Resolves a posted prompt: runs the state machine from `PromptSent` on the
/// event the response denotes. Only an affirmative response approves; every
/// other response rejects; silence times out.
pub fn resolve_confirmation(response: Option<bool>) -> (r: ConfirmationState)
    ensures
        r == spec_resolve(response),
        confirmation_terminal(r),
        r == ConfirmationState::Approved <==> response == Some(true),
{
    let e = match response {
        Some(true) => ConfirmationEvent::Affirmative,
        Some(false) => ConfirmationEvent::OtherResponse,
        None => ConfirmationEvent::Deadline,
    };
    step(ConfirmationState::PromptSent, e)
}

/// One invocation, one outcome: every resolving event takes the posted
/// prompt to a terminal state, the same state for the same event, and to
/// `Approved` exactly on the affirmative response.
pub proof fn lemma_confirmation_resolves(e: ConfirmationEvent)
    requires
        e != ConfirmationEvent::StartRequested,
    ensures
        confirmation_terminal(spec_step(ConfirmationState::PromptSent, e)),
        spec_step(ConfirmationState::PromptSent, e) == ConfirmationState::Approved <==> e
            == ConfirmationEvent::Affirmative,
        spec_step(ConfirmationState::PromptSent, e) == ConfirmationState::Rejected <==> e
            == ConfirmationEvent::OtherResponse,
        spec_step(ConfirmationState::PromptSent, e) == ConfirmationState::TimedOut <==> e
            == ConfirmationEvent::Deadline,
{
}

/// A terminal state never moves again: the confirmation resolves exactly once.
pub proof fn lemma_terminal_absorbs(s: ConfirmationState, e: ConfirmationEvent)
    requires
        confirmation_terminal(s),
    ensures
        spec_step(s, e) == s,
{
}

/// A pending confirmation: who asked, for which origin, and how long the
/// prompt waits. Only a response from the requesting user may resolve it.
#[derive(Clone, Copy, Debug, PartialEq, Eq, Structural)]
pub struct PendingConfirmation {
    pub origin: u64,
    pub requesting_user: u64,
    pub deadline_secs: u64,
}

impl PendingConfirmation {
    pub fn new(origin: u64, requesting_user: u64) -> (p: PendingConfirmation)
        ensures
            p.origin == origin,
            p.requesting_user == requesting_user,
            p.deadline_secs == CONFIRMATION_DEADLINE_SECS,
    {
        PendingConfirmation { origin, requesting_user, deadline_secs: CONFIRMATION_DEADLINE_SECS }
    }

    /// Whether a response authored by the given user may resolve this prompt.
    pub fn may_respond(&self, user: u64) -> (r: bool)
        ensures
            r == (user == self.requesting_user),
    {
        user == self.requesting_user
    }
}

} // verus!
