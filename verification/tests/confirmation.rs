use chess_chat::confirm::{
    resolve_confirmation, step, ConfirmationEvent, ConfirmationState, PendingConfirmation,
    CONFIRMATION_DEADLINE_SECS,
};

#[test]
fn affirmative_response_approves() {
    assert_eq!(resolve_confirmation(Some(true)), ConfirmationState::Approved);
}

#[test]
fn other_response_rejects() {
    assert_eq!(resolve_confirmation(Some(false)), ConfirmationState::Rejected);
}

#[test]
fn silence_times_out() {
    assert_eq!(resolve_confirmation(None), ConfirmationState::TimedOut);
}

#[test]
fn start_request_posts_prompt() {
    assert_eq!(
        step(ConfirmationState::Idle, ConfirmationEvent::StartRequested),
        ConfirmationState::PromptSent
    );
}

#[test]
fn second_start_request_is_not_taken_up() {
    assert_eq!(
        step(ConfirmationState::PromptSent, ConfirmationEvent::StartRequested),
        ConfirmationState::PromptSent
    );
}

#[test]
fn terminal_states_absorb_events() {
    assert_eq!(
        step(ConfirmationState::Approved, ConfirmationEvent::Deadline),
        ConfirmationState::Approved
    );
    assert_eq!(
        step(ConfirmationState::Rejected, ConfirmationEvent::Affirmative),
        ConfirmationState::Rejected
    );
    assert_eq!(
        step(ConfirmationState::TimedOut, ConfirmationEvent::OtherResponse),
        ConfirmationState::TimedOut
    );
}

#[test]
fn prompt_waits_fifteen_seconds() {
    assert_eq!(CONFIRMATION_DEADLINE_SECS, 15);
    let p = PendingConfirmation::new(7, 42);
    assert_eq!(p.deadline_secs, 15);
}

#[test]
fn only_requesting_user_may_respond() {
    let p = PendingConfirmation::new(7, 42);
    assert!(p.may_respond(42));
    assert!(!p.may_respond(43));
}
