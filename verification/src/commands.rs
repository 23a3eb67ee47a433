//! The command surface of the core: starting a session (with the overwrite
//! confirmation) and proposing a move. A move request reads the session,
//! parses the text, infers the flag, asks the rules engine for legality, and
//! replaces the session's board only when the engine applied the move; every
//! rejection leaves the store exactly as it was.

use vstd::prelude::*;

use crate::confirm::{spec_resolve, resolve_confirmation, ConfirmationState};
use crate::engine::{
    board_after, board_squares, board_turn, code_of, legal_codes, render_of, apply_code,
    contains_code, engine_form, legal_move_codes, move_code, new_game_board, piece_at,
    render_board, side_to_move, spec_engine_form, flag_encodable,
};
use crate::inference::{infer_flag, spec_infer};
use crate::model::{initial_piece, Color, MoveDescriptor, Piece};
use crate::parser::{parse_move, spec_parse};
use crate::session::SessionStore;

verus! {

/// Why a move request was turned down. Every rejection is scoped to the one
/// command and leaves the session untouched.
#[derive(Clone, Copy, Debug, PartialEq, Eq, Structural)]
pub enum MoveError {
    /// The move text was malformed.
    Parse,
    /// The origin has no game in progress.
    NoSession,
    /// The source square holds no piece of the side to move.
    Ownership,
    /// The rules engine rejected the proposed descriptor.
    Illegal,
}

impl MoveError {
    /// The reply the user sees: ownership and legality failures are
    /// indistinguishable from a parse failure.
    pub open spec fn spec_message(self) -> Seq<char> {
        match self {
            MoveError::NoSession => "You don't currently have a game running"@,
            _ => "Invalid move"@,
        }
    }

    pub fn message(&self) -> (s: &'static str)
        ensures
            s@ == self.spec_message(),
    {
        match self {
            MoveError::NoSession => "You don't currently have a game running",
            _ => "Invalid move",
        }
    }
}

/// The descriptor a move text proposes against a board: parse the two
/// squares, then infer the flag from what stands on them and whose turn it
/// is. Rejects exactly the malformed texts and the moves that fail the
/// ownership check.
pub open spec fn spec_propose(
    squares: Map<u8, Option<Piece>>,
    turn: Color,
    text: Seq<u8>,
) -> Result<MoveDescriptor, MoveError> {
    match spec_parse(text) {
        None => Err(MoveError::Parse),
        Some(req) => match spec_infer(
            req.source,
            req.destination,
            squares[req.source.index_spec()],
            squares[req.destination.index_spec()] is Some,
            turn,
        ) {
            Err(_) => Err(MoveError::Ownership),
            Ok(flag) => Ok(
                MoveDescriptor { source: req.source, destination: req.destination, flag },
            ),
        },
    }
}

/// Handles `move <src> <dst>`: `text` is the remainder after the command
/// word. On success the origin's board is replaced by the engine's post-move
/// board and its rendering is returned; on any rejection the store is left
/// byte-for-byte as it was, and the error says exactly why.
pub fn handle_move(store: &mut SessionStore, origin: u64, text: &[u8]) -> (r: Result<
    String,
    MoveError,
>)
    ensures
        ({
            let m0 = old(store)@;
            match r {
                Ok(rendering) => {
                    &&& m0.contains_key(origin)
                    &&& spec_propose(
                        board_squares(m0[origin]),
                        board_turn(m0[origin]),
                        text@,
                    ) matches Ok(d) && legal_codes(m0[origin]).contains(code_of(spec_engine_form(d)))
                        && final(store)@ == m0.insert(
                            origin,
                            board_after(m0[origin], code_of(spec_engine_form(d))),
                        ) && rendering@ == render_of(board_after(m0[origin], code_of(spec_engine_form(d))))
                },
                Err(e) => {
                    &&& final(store)@ == m0
                    &&& match e {
                        MoveError::NoSession => !m0.contains_key(origin),
                        MoveError::Parse => m0.contains_key(origin) && spec_propose(
                            board_squares(m0[origin]),
                            board_turn(m0[origin]),
                            text@,
                        ) == Err::<MoveDescriptor, MoveError>(MoveError::Parse),
                        MoveError::Ownership => m0.contains_key(origin) && spec_propose(
                            board_squares(m0[origin]),
                            board_turn(m0[origin]),
                            text@,
                        ) == Err::<MoveDescriptor, MoveError>(MoveError::Ownership),
                        MoveError::Illegal => m0.contains_key(origin) && (spec_propose(
                            board_squares(m0[origin]),
                            board_turn(m0[origin]),
                            text@,
                        ) matches Ok(d) && !legal_codes(m0[origin]).contains(code_of(spec_engine_form(d)))),
                    }
                },
            }
        }),
{
    let code: u16;
    {
        let board = match store.get(origin) {
            Some(b) => b,
            None => {
                return Err(MoveError::NoSession);
            },
        };
        let req = match parse_move(text) {
            Ok(rq) => rq,
            Err(_) => {
                return Err(MoveError::Parse);
            },
        };
        let source_piece = piece_at(board, req.source);
        let destination_occupied = piece_at(board, req.destination).is_some();
        let turn = side_to_move(board);
        let flag = match infer_flag(
            req.source,
            req.destination,
            source_piece,
            destination_occupied,
            turn,
        ) {
            Ok(f) => f,
            Err(_) => {
                return Err(MoveError::Ownership);
            },
        };
        let descriptor = MoveDescriptor { source: req.source, destination: req.destination, flag };
        let engine_descriptor = engine_form(descriptor);
        let c = move_code(&engine_descriptor);
        let codes = legal_move_codes(board);
        if !contains_code(&codes, c) {
            return Err(MoveError::Illegal);
        }
        code = c;
    }
    let mut board = match store.take(origin) {
        Some(b) => b,
        None => {
            return Err(MoveError::NoSession);  // unreachable: the session was just read
        },
    };
    apply_code(&mut board, code);
    let rendering = render_board(&board);
    store.put(origin, board);
    Ok(rendering)
}

/// The board stands at the standard initial position, White to move.
pub open spec fn at_initial_position(b: pleco::Board) -> bool {
    &&& board_turn(b) == Color::White
    &&& forall|i: u8| i < 64 ==> #[trigger] board_squares(b)[i] == initial_piece(i)
}

/// Idempotence of rejection: a rejected move leaves the session's board
/// untouched, so the board renders byte-for-byte the same before and after
/// the failed attempt. `handle_move` ensures every rejection leaves the
/// store equal to its old value; this law carries that equality to the
/// rendering of the origin's board.
pub proof fn lemma_rejection_preserves_rendering(
    before: Map<u64, pleco::Board>,
    after: Map<u64, pleco::Board>,
    origin: u64,
)
    requires
        after == before,
        before.contains_key(origin),
    ensures
        render_of(after[origin]) == render_of(before[origin]),
{
}

/// What a `start` request does at once: a fresh game for an origin with no
/// session, a confirmation prompt otherwise.
#[derive(Debug)]
pub enum StartAction {
    /// A new session was created; the rendering of its board is attached.
    Created(String),
    /// A session exists: nothing changed, a confirmation must be posted.
    ConfirmationNeeded,
}

/// Creates a fresh game for the origin: the standard initial position, White
/// to move, rendered for display.
fn fresh_session(store: &mut SessionStore, origin: u64) -> (rendering: String)
    ensures
        final(store)@ == old(store)@.insert(origin, final(store)@[origin]),
        at_initial_position(final(store)@[origin]),
        rendering@ == render_of(final(store)@[origin]),
{
    let board = new_game_board();
    let rendering = render_board(&board);
    store.put(origin, board);
    rendering
}

/// Handles `start`: an origin with no session gets a fresh game at the
/// standard initial position; an origin with one is left untouched until the
/// overwrite is confirmed.
pub fn handle_start(store: &mut SessionStore, origin: u64) -> (r: StartAction)
    ensures
        old(store)@.contains_key(origin) ==> final(store)@ == old(store)@ && (r matches
            StartAction::ConfirmationNeeded),
        !old(store)@.contains_key(origin) ==> (r matches StartAction::Created(rendering) && {
            &&& final(store)@ == old(store)@.insert(origin, final(store)@[origin])
            &&& at_initial_position(final(store)@[origin])
            &&& rendering@ == render_of(final(store)@[origin])
        }),
{
    if store.contains(origin) {
        StartAction::ConfirmationNeeded
    } else {
        let rendering = fresh_session(store, origin);
        StartAction::Created(rendering)
    }
}

/// How a resolved confirmation answers the `start` request.
#[derive(Debug)]
pub enum StartReply {
    /// The overwrite was approved: the old session is gone and a fresh game
    /// stands in its place, rendered for display.
    NewGame(String),
    /// The overwrite was rejected or timed out: nothing changed.
    Aborted,
}

/// Settles a posted confirmation prompt: only the approval replaces the
/// session; a rejection or a silent deadline leaves the store exactly as it
/// was and answers "Aborted".
pub fn settle_confirmation(store: &mut SessionStore, origin: u64, response: Option<bool>) -> (r:
    StartReply)
    ensures
        spec_resolve(response) == ConfirmationState::Approved ==> (r matches StartReply::NewGame(
            rendering,
        ) && {
            &&& final(store)@ == old(store)@.insert(origin, final(store)@[origin])
            &&& at_initial_position(final(store)@[origin])
            &&& rendering@ == render_of(final(store)@[origin])
        }),
        spec_resolve(response) != ConfirmationState::Approved ==> (r matches StartReply::Aborted)
            && final(store)@ == old(store)@,
{
    let outcome = resolve_confirmation(response);
    if outcome == ConfirmationState::Approved {
        store.remove(origin);
        let rendering = fresh_session(store, origin);
        StartReply::NewGame(rendering)
    } else {
        StartReply::Aborted
    }
}

/// The overwrite prompt posted when `start` finds an existing session.
pub fn confirmation_prompt_text() -> (s: &'static str)
    ensures
        s@ == "Previous game found, delete and add new game?"@,
{
    "Previous game found, delete and add new game?"
}

/// The reply when a confirmation is rejected or times out.
pub fn aborted_text() -> (s: &'static str)
    ensures
        s@ == "Aborted"@,
{
    "Aborted"
}

/// The reply sent while an approved overwrite creates the fresh game.
pub fn starting_text() -> (s: &'static str)
    ensures
        s@ == "Starting a new game..."@,
{
    "Starting a new game..."
}

} // verus!
