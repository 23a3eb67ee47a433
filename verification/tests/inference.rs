use chess_chat::inference::infer_flag;
use chess_chat::model::{Color, MoveFlag, Piece, PieceKind, Square};

fn sq(file: u8, rank: u8) -> Square {
    Square::new(file, rank)
}

fn piece(color: Color, kind: PieceKind) -> Option<Piece> {
    Some(Piece { color, kind })
}

#[test]
fn infer_double_pawn_push() {
    let r = infer_flag(
        sq(4, 1),
        sq(4, 3),
        piece(Color::White, PieceKind::Pawn),
        false,
        Color::White,
    );
    assert_eq!(r, Ok(MoveFlag::DoublePawnPush));
}

#[test]
fn infer_castle_king_side() {
    let r = infer_flag(
        sq(4, 0),
        sq(6, 0),
        piece(Color::White, PieceKind::King),
        false,
        Color::White,
    );
    assert_eq!(r, Ok(MoveFlag::Castle { king_side: true }));
}

#[test]
fn infer_castle_queen_side() {
    let r = infer_flag(
        sq(4, 0),
        sq(2, 0),
        piece(Color::White, PieceKind::King),
        false,
        Color::White,
    );
    assert_eq!(r, Ok(MoveFlag::Castle { king_side: false }));
}

#[test]
fn infer_promotion_to_empty_square() {
    let r = infer_flag(
        sq(0, 6),
        sq(0, 7),
        piece(Color::White, PieceKind::Pawn),
        false,
        Color::White,
    );
    assert_eq!(
        r,
        Ok(MoveFlag::Promotion { capture: false, promoted_to: PieceKind::Queen })
    );
}

#[test]
fn infer_promotion_capturing() {
    let r = infer_flag(
        sq(1, 6),
        sq(0, 7),
        piece(Color::White, PieceKind::Pawn),
        true,
        Color::White,
    );
    assert_eq!(
        r,
        Ok(MoveFlag::Promotion { capture: true, promoted_to: PieceKind::Queen })
    );
}

#[test]
fn infer_black_promotion() {
    let r = infer_flag(
        sq(3, 1),
        sq(3, 0),
        piece(Color::Black, PieceKind::Pawn),
        false,
        Color::Black,
    );
    assert_eq!(
        r,
        Ok(MoveFlag::Promotion { capture: false, promoted_to: PieceKind::Queen })
    );
}

#[test]
fn infer_en_passant_shape() {
    // A pawn move of distance greater than one that changes file onto an
    // empty square carries the en-passant flag.
    let r = infer_flag(
        sq(4, 4),
        sq(3, 6),
        piece(Color::White, PieceKind::Pawn),
        false,
        Color::White,
    );
    assert_eq!(r, Ok(MoveFlag::EnPassantCapture));
}

#[test]
fn infer_capture_on_occupied_square() {
    let r = infer_flag(
        sq(1, 0),
        sq(2, 2),
        piece(Color::White, PieceKind::Knight),
        true,
        Color::White,
    );
    assert_eq!(r, Ok(MoveFlag::Capture));
}

#[test]
fn infer_far_pawn_diagonal_onto_piece_is_capture() {
    // A pawn two squares away on a different file, aimed at an occupied
    // square: the en-passant check asks for an empty destination, so this
    // falls through to the generic capture flag.
    let r = infer_flag(
        sq(4, 1),
        sq(3, 3),
        piece(Color::White, PieceKind::Pawn),
        true,
        Color::White,
    );
    assert_eq!(r, Ok(MoveFlag::Capture));
}

#[test]
fn infer_quiet_move() {
    let r = infer_flag(
        sq(4, 1),
        sq(4, 2),
        piece(Color::White, PieceKind::Pawn),
        false,
        Color::White,
    );
    assert_eq!(r, Ok(MoveFlag::QuietMove));
}

#[test]
fn infer_king_single_step_not_castle() {
    let r = infer_flag(
        sq(4, 0),
        sq(5, 0),
        piece(Color::White, PieceKind::King),
        false,
        Color::White,
    );
    assert_eq!(r, Ok(MoveFlag::QuietMove));
}

#[test]
fn ownership_empty_square_rejected() {
    let r = infer_flag(sq(4, 3), sq(4, 4), None, false, Color::White);
    assert!(r.is_err());
}

#[test]
fn ownership_wrong_side_rejected() {
    let r = infer_flag(
        sq(4, 6),
        sq(4, 4),
        piece(Color::Black, PieceKind::Pawn),
        false,
        Color::White,
    );
    assert!(r.is_err());
}

#[test]
fn inference_is_deterministic() {
    let a = infer_flag(
        sq(4, 1),
        sq(4, 3),
        piece(Color::White, PieceKind::Pawn),
        false,
        Color::White,
    );
    let b = infer_flag(
        sq(4, 1),
        sq(4, 3),
        piece(Color::White, PieceKind::Pawn),
        false,
        Color::White,
    );
    assert_eq!(a, b);
}
