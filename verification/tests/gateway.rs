use chess_chat::commands::{
    aborted_text, confirmation_prompt_text, handle_move, handle_start, settle_confirmation,
    starting_text, MoveError, StartAction, StartReply,
};
use chess_chat::session::SessionStore;

const ORIGIN: u64 = 17;

fn store_with(fen: &str) -> SessionStore {
    let mut store = SessionStore::new();
    store.put(ORIGIN, pleco::Board::from_fen(fen).unwrap());
    store
}

fn current_rendering(store: &SessionStore) -> String {
    store.get(ORIGIN).unwrap().pretty_string()
}

#[test]
fn fresh_origin_start_creates_initial_position() {
    let mut store = SessionStore::new();
    match handle_start(&mut store, ORIGIN) {
        StartAction::Created(rendering) => {
            assert_eq!(rendering, pleco::Board::start_pos().pretty_string());
        }
        StartAction::ConfirmationNeeded => panic!("fresh origin must get a game"),
    }
    assert!(store.contains(ORIGIN));
    assert_eq!(current_rendering(&store), pleco::Board::start_pos().pretty_string());
}

#[test]
fn occupied_origin_start_needs_confirmation() {
    let mut store = SessionStore::new();
    handle_start(&mut store, ORIGIN);
    let before = current_rendering(&store);
    match handle_start(&mut store, ORIGIN) {
        StartAction::ConfirmationNeeded => {}
        StartAction::Created(_) => panic!("existing session must not be overwritten silently"),
    }
    assert_eq!(current_rendering(&store), before);
    assert_eq!(
        confirmation_prompt_text(),
        "Previous game found, delete and add new game?"
    );
}

#[test]
fn double_pawn_push_updates_board() {
    let mut store = SessionStore::new();
    handle_start(&mut store, ORIGIN);
    let rendering = handle_move(&mut store, ORIGIN, b"E2 E4").unwrap();
    let expected = pleco::Board::from_fen(
        "rnbqkbnr/pppppppp/8/8/4P3/8/PPPP1PPP/RNBQKBNR b KQkq e3 0 1",
    )
    .unwrap()
    .pretty_string();
    assert_eq!(rendering, expected);
    assert_eq!(current_rendering(&store), expected);
}

#[test]
fn king_side_castle_applies() {
    let mut store = store_with("4k3/8/8/8/8/8/8/4K2R w K - 0 1");
    let rendering = handle_move(&mut store, ORIGIN, b"E1 G1").unwrap();
    let expected = pleco::Board::from_fen("4k3/8/8/8/8/8/8/5RK1 b - - 1 1")
        .unwrap()
        .pretty_string();
    assert_eq!(rendering, expected);
}

#[test]
fn promotion_always_makes_a_queen() {
    let mut store = store_with("8/P7/8/8/8/8/8/K6k w - - 0 1");
    let rendering = handle_move(&mut store, ORIGIN, b"A7 A8").unwrap();
    let expected = pleco::Board::from_fen("Q7/8/8/8/8/8/8/K6k b - - 0 1")
        .unwrap()
        .pretty_string();
    assert_eq!(rendering, expected);
}

#[test]
fn malformed_text_changes_nothing() {
    let mut store = SessionStore::new();
    handle_start(&mut store, ORIGIN);
    let before = current_rendering(&store);
    let r = handle_move(&mut store, ORIGIN, b"ZZ 99");
    assert_eq!(r, Err(MoveError::Parse));
    assert_eq!(r.unwrap_err().message(), "Invalid move");
    assert_eq!(current_rendering(&store), before);
}

#[test]
fn move_without_session_is_reported() {
    let mut store = SessionStore::new();
    let r = handle_move(&mut store, ORIGIN, b"E2 E4");
    assert_eq!(r, Err(MoveError::NoSession));
    assert_eq!(
        r.unwrap_err().message(),
        "You don't currently have a game running"
    );
}

#[test]
fn moving_opponents_piece_is_rejected() {
    let mut store = SessionStore::new();
    handle_start(&mut store, ORIGIN);
    let before = current_rendering(&store);
    let r = handle_move(&mut store, ORIGIN, b"E7 E5");
    assert_eq!(r, Err(MoveError::Ownership));
    assert_eq!(r.unwrap_err().message(), "Invalid move");
    assert_eq!(current_rendering(&store), before);
}

#[test]
fn moving_empty_square_is_rejected() {
    let mut store = SessionStore::new();
    handle_start(&mut store, ORIGIN);
    let before = current_rendering(&store);
    let r = handle_move(&mut store, ORIGIN, b"E4 E5");
    assert_eq!(r, Err(MoveError::Ownership));
    assert_eq!(current_rendering(&store), before);
}

#[test]
fn illegal_move_leaves_board_identical() {
    let mut store = SessionStore::new();
    handle_start(&mut store, ORIGIN);
    let before = current_rendering(&store);
    let r = handle_move(&mut store, ORIGIN, b"E2 E5");
    assert_eq!(r, Err(MoveError::Illegal));
    assert_eq!(r.unwrap_err().message(), "Invalid move");
    assert_eq!(current_rendering(&store), before);
}

#[test]
fn rejected_confirmation_keeps_old_game() {
    let mut store = SessionStore::new();
    handle_start(&mut store, ORIGIN);
    handle_move(&mut store, ORIGIN, b"E2 E4").unwrap();
    let before = current_rendering(&store);
    match settle_confirmation(&mut store, ORIGIN, Some(false)) {
        StartReply::Aborted => {}
        StartReply::NewGame(_) => panic!("a rejection must not replace the session"),
    }
    assert_eq!(current_rendering(&store), before);
    assert_eq!(aborted_text(), "Aborted");
}

#[test]
fn timed_out_confirmation_keeps_old_game() {
    let mut store = SessionStore::new();
    handle_start(&mut store, ORIGIN);
    handle_move(&mut store, ORIGIN, b"E2 E4").unwrap();
    let before = current_rendering(&store);
    match settle_confirmation(&mut store, ORIGIN, None) {
        StartReply::Aborted => {}
        StartReply::NewGame(_) => panic!("a timeout must not replace the session"),
    }
    assert_eq!(current_rendering(&store), before);
}

#[test]
fn approved_confirmation_replaces_game() {
    let mut store = SessionStore::new();
    handle_start(&mut store, ORIGIN);
    handle_move(&mut store, ORIGIN, b"E2 E4").unwrap();
    match settle_confirmation(&mut store, ORIGIN, Some(true)) {
        StartReply::NewGame(rendering) => {
            assert_eq!(rendering, pleco::Board::start_pos().pretty_string());
        }
        StartReply::Aborted => panic!("an approval must replace the session"),
    }
    assert_eq!(current_rendering(&store), pleco::Board::start_pos().pretty_string());
    assert_eq!(starting_text(), "Starting a new game...");
}

#[test]
fn sessions_are_independent_per_origin() {
    let mut store = SessionStore::new();
    handle_start(&mut store, ORIGIN);
    let other: u64 = ORIGIN + 1;
    assert!(!store.contains(other));
    handle_start(&mut store, other);
    handle_move(&mut store, other, b"D2 D4").unwrap();
    assert_eq!(current_rendering(&store), pleco::Board::start_pos().pretty_string());
    store.remove(other);
    assert!(!store.contains(other));
    assert!(store.contains(ORIGIN));
}
