//! The boundary to the pleco rules engine. Everything pleco computes is named
//! by an uninterpreted spec function of its arguments; each wrapper's contract
//! states its result through those names, and the verified code around them
//! never looks inside a `pleco::Board`.

use vstd::prelude::*;

use crate::model::{Color, MoveDescriptor, MoveFlag, Piece, PieceKind, Square};

verus! {

use pleco::BitMove;

#[verifier::external_type_specification]
#[verifier::external_body]
pub struct ExBoard(pleco::Board);

#[verifier::external_type_specification]
#[verifier::external_body]
pub struct ExPieceType(pleco::PieceType);

/// What stands on each square of the board, indexed in rank-major order
/// (A1 is 0, .., H8 is 63): the results of `pleco::Board::piece_at_sq`.
pub uninterp spec fn board_squares(b: pleco::Board) -> Map<u8, Option<Piece>>;

/// The side to move: the result of `pleco::Board::turn`.
pub uninterp spec fn board_turn(b: pleco::Board) -> Color;

/// The fixed-width text diagram of the board: the result of
/// `pleco::Board::pretty_string`.
pub uninterp spec fn render_of(b: pleco::Board) -> Seq<char>;

/// The 16-bit codes of the board's generated legal-move set: the results of
/// `pleco::Board::generate_moves`, each encoded by `BitMove::get_raw`.
pub uninterp spec fn legal_codes(b: pleco::Board) -> Seq<u16>;

/// The 16-bit code the engine gives a move descriptor: the result of
/// `BitMove::init` on the descriptor's squares and flag.
pub uninterp spec fn code_of(d: MoveDescriptor) -> u16;

/// The board after the engine applies a legal move: the result of
/// `pleco::Board::apply_move`.
pub uninterp spec fn board_after(b: pleco::Board, code: u16) -> pleco::Board;

/// The color of the piece on a square, if any.
pub open spec fn square_color(occupant: Option<Piece>) -> Option<Color> {
    match occupant {
        Some(p) => Some(p.color),
        None => None,
    }
}

/// The kind of the piece on a square, if any.
pub open spec fn square_kind(occupant: Option<Piece>) -> Option<PieceKind> {
    match occupant {
        Some(p) => Some(p.kind),
        None => None,
    }
}

/// The engine can encode every flag the inference produces; of promotions it
/// encodes only the four pieces a pawn may become.
pub open spec fn flag_encodable(f: MoveFlag) -> bool {
    match f {
        MoveFlag::Promotion { capture: _, promoted_to } => promoted_to != PieceKind::Pawn
            && promoted_to != PieceKind::King,
        _ => true,
    }
}

/// Relies on `pleco::Board::start_pos`: the standard initial position, in
/// which White is to move.
#[verifier::external_body]
pub(crate) fn new_game_board() -> (b: pleco::Board)
    ensures
        board_turn(b) == Color::White,
        forall|i: u8| i < 64 ==> #[trigger] board_squares(b)[i] == crate::model::initial_piece(i),
{
    pleco::Board::start_pos()
}

/// Relies on `pleco::Board::piece_at_sq` and `pleco::Piece::player`: the
/// owner of the piece on the square, if the square is occupied.
#[verifier::external_body]
pub(crate) fn color_at(b: &pleco::Board, s: Square) -> (r: Option<Color>)
    requires
        s.valid(),
    ensures
        r == square_color(board_squares(*b)[s.index_spec()]),
{
    match b.piece_at_sq(pleco::SQ(s.index())).player() {
        Some(pleco::Player::White) => Some(Color::White),
        Some(pleco::Player::Black) => Some(Color::Black),
        None => None,
    }
}

/// Relies on `pleco::Board::piece_at_sq` and `pleco::Piece::type_of`: the
/// kind of the piece on the square, if the square is occupied. The catch-all
/// arm covers the engine's two non-piece answers, both of which mean an
/// empty square here.
#[verifier::external_body]
pub(crate) fn kind_at(b: &pleco::Board, s: Square) -> (r: Option<PieceKind>)
    requires
        s.valid(),
    ensures
        r == square_kind(board_squares(*b)[s.index_spec()]),
{
    match b.piece_at_sq(pleco::SQ(s.index())).type_of() {
        pleco::PieceType::P => Some(PieceKind::Pawn),
        pleco::PieceType::N => Some(PieceKind::Knight),
        pleco::PieceType::B => Some(PieceKind::Bishop),
        pleco::PieceType::R => Some(PieceKind::Rook),
        pleco::PieceType::Q => Some(PieceKind::Queen),
        pleco::PieceType::K => Some(PieceKind::King),
        _ => None,
    }
}

/// Relies on `pleco::Board::turn`: the side to move.
#[verifier::external_body]
pub(crate) fn side_to_move(b: &pleco::Board) -> (c: Color)
    ensures
        c == board_turn(*b),
{
    match b.turn() {
        pleco::Player::White => Color::White,
        pleco::Player::Black => Color::Black,
    }
}

/// Relies on `pleco::Board::pretty_string`: the board as a fixed-width text
/// diagram, a function of the position alone.
#[verifier::external_body]
pub(crate) fn render_board(b: &pleco::Board) -> (s: String)
    ensures
        s@ == render_of(*b),
{
    b.pretty_string()
}

/// Relies on `pleco::PieceType`'s variants: the engine's spelling of a piece
/// kind. Pawn and King are not promotion pieces; the encoding in `move_code`
/// never asks for them.
#[verifier::external_body]
fn engine_piece_type(k: PieceKind) -> pleco::PieceType {
    match k {
        PieceKind::Knight => pleco::PieceType::N,
        PieceKind::Bishop => pleco::PieceType::B,
        PieceKind::Rook => pleco::PieceType::R,
        _ => pleco::PieceType::Q,
    }
}

/// Relies on `pleco::BitMove::init` and `BitMove::get_raw`: the 16-bit
/// encoding of the descriptor's squares and flag (spelled in the engine's
/// own flag type, variant for variant), a function of the descriptor alone.
#[verifier::external_body]
pub(crate) fn move_code(d: &MoveDescriptor) -> (c: u16)
    requires
        d.valid(),
        flag_encodable(d.flag),
    ensures
        c == code_of(*d),
{
    let flags = match d.flag {
        MoveFlag::QuietMove => pleco::core::piece_move::MoveFlag::QuietMove,
        MoveFlag::Capture => pleco::core::piece_move::MoveFlag::Capture { ep_capture: false },
        MoveFlag::EnPassantCapture => pleco::core::piece_move::MoveFlag::Capture { ep_capture: true },
        MoveFlag::DoublePawnPush => pleco::core::piece_move::MoveFlag::DoublePawnPush,
        MoveFlag::Castle { king_side } => pleco::core::piece_move::MoveFlag::Castle { king_side },
        MoveFlag::Promotion { capture, promoted_to } => pleco::core::piece_move::MoveFlag::Promotion { capture, prom: engine_piece_type(promoted_to) },
    };
    let src = pleco::SQ(d.source.index());
    let dst = pleco::SQ(d.destination.index());
    BitMove::init(pleco::core::piece_move::PreMoveInfo { src, dst, flags }).get_raw()
}

/// Relies on `pleco::Board::generate_moves` and `BitMove::get_raw`: the codes
/// of every legal move of the position, in the engine's generation order.
#[verifier::external_body]
pub(crate) fn legal_move_codes(b: &pleco::Board) -> (v: Vec<u16>)
    ensures
        v@ == legal_codes(*b),
{
    b.generate_moves().vec().iter().map(|m| m.get_raw()).collect()
}

/// Relies on `pleco::Board::apply_move` and `BitMove::new`: applies a move of
/// the board's generated legal-move set, which pleco documents as safe to
/// apply.
#[verifier::external_body]
pub(crate) fn apply_code(b: &mut pleco::Board, code: u16)
    requires
        legal_codes(*old(b)).contains(code),
    ensures
        *final(b) == board_after(*old(b), code),
{
    b.apply_move(BitMove::new(code));
}

/// A descriptor in the engine's own convention: the engine writes a castle
/// as the king's square to the rook's square (file 7 of the king's rank on
/// the king side, file 0 on the queen side); every other move keeps its
/// squares.
pub open spec fn spec_engine_form(d: MoveDescriptor) -> MoveDescriptor {
    match d.flag {
        MoveFlag::Castle { king_side } => MoveDescriptor {
            source: d.source,
            destination: Square { file: if king_side { 7 } else { 0 }, rank: d.source.rank },
            flag: d.flag,
        },
        _ => d,
    }
}

/// Rewrites a descriptor into the engine's own convention before encoding.
pub(crate) fn engine_form(d: MoveDescriptor) -> (r: MoveDescriptor)
    requires
        d.valid(),
    ensures
        r == spec_engine_form(d),
        r.valid(),
        r.flag == d.flag,
{
    match d.flag {
        MoveFlag::Castle { king_side } => MoveDescriptor {
            source: d.source,
            destination: Square { file: if king_side { 7 } else { 0 }, rank: d.source.rank },
            flag: d.flag,
        },
        _ => d,
    }
}

/// What stands on a square, read through the two trusted accessors and
/// recombined; the two always agree on whether the square is occupied.
pub(crate) fn piece_at(b: &pleco::Board, s: Square) -> (r: Option<Piece>)
    requires
        s.valid(),
    ensures
        r == board_squares(*b)[s.index_spec()],
{
    let color = color_at(b, s);
    let kind = kind_at(b, s);
    match (color, kind) {
        (Some(c), Some(k)) => Some(Piece { color: c, kind: k }),
        _ => None,
    }
}

/// Whether a move code is among the generated legal-move codes.
pub(crate) fn contains_code(codes: &Vec<u16>, code: u16) -> (r: bool)
    ensures
        r == codes@.contains(code),
{
    let mut i: usize = 0;
    while i < codes.len()
        invariant
            0 <= i <= codes@.len(),
            forall|j: int| 0 <= j < i ==> codes@[j] != code,
        decreases codes@.len() - i,
    {
        if codes[i] == code {
            return true;
        }
        i = i + 1;
    }
    false
}

} // verus!
