//! Move flag inference: given what sits on the two squares and whose turn it
//! is, decide the semantic kind of the proposed move, or reject it when the
//! source square does not hold a piece of the side to move.

use vstd::prelude::*;

use crate::model::{Color, MoveFlag, Piece, PieceKind, Square};

verus! {

/// The source square does not hold a piece of the side to move.
#[derive(Clone, Copy, Debug, PartialEq, Eq, Structural)]
pub struct OwnershipError;

/// The absolute difference of two coordinates.
pub open spec fn coord_delta(a: u8, b: u8) -> int {
    if a >= b {
        a - b
    } else {
        b - a
    }
}

/// Chebyshev distance between two squares: the larger coordinate difference.
pub open spec fn chebyshev(a: Square, b: Square) -> int {
    let df = coord_delta(a.file, b.file);
    let dr = coord_delta(a.rank, b.rank);
    if df >= dr {
        df
    } else {
        dr
    }
}

/// The move crosses into the final rank for the given color: rank 6 to rank 7
/// for White, rank 1 to rank 0 for Black (0-indexed ranks).
pub open spec fn crosses_final_rank(source: Square, destination: Square) -> bool {
    (source.rank == 6 && destination.rank == 7) || (source.rank == 1 && destination.rank == 0)
}

/// The flag a move earns once ownership has been established. The checks are
/// ordered: castle, promotion, double push, en passant, capture, quiet; the
/// first that holds decides.
pub open spec fn spec_flag(
    source: Square,
    destination: Square,
    piece: Piece,
    destination_occupied: bool,
) -> MoveFlag {
    if piece.kind == PieceKind::King && chebyshev(source, destination) > 1 {
        MoveFlag::Castle { king_side: destination.file > 4 }
    } else if piece.kind == PieceKind::Pawn && crosses_final_rank(source, destination) {
        MoveFlag::Promotion { capture: destination_occupied, promoted_to: PieceKind::Queen }
    } else if piece.kind == PieceKind::Pawn && chebyshev(source, destination) > 1
        && source.file == destination.file {
        MoveFlag::DoublePawnPush
    } else if piece.kind == PieceKind::Pawn && chebyshev(source, destination) > 1
        && source.file != destination.file && !destination_occupied {
        MoveFlag::EnPassantCapture
    } else if destination_occupied {
        MoveFlag::Capture
    } else {
        MoveFlag::QuietMove
    }
}

/// The piece at the source square exists and belongs to the side to move.
pub open spec fn owns_source(source_piece: Option<Piece>, turn: Color) -> bool {
    match source_piece {
        Some(p) => p.color == turn,
        None => false,
    }
}

/// The full inference: ownership check first, then the flag. Total over all
/// inputs; rejects exactly the moves that fail the ownership check.
pub open spec fn spec_infer(
    source: Square,
    destination: Square,
    source_piece: Option<Piece>,
    destination_occupied: bool,
    turn: Color,
) -> Result<MoveFlag, OwnershipError> {
    match source_piece {
        Some(p) => if p.color == turn {
            Ok(spec_flag(source, destination, p, destination_occupied))
        } else {
            Err(OwnershipError)
        },
        None => Err(OwnershipError),
    }
}

/// Larger coordinate difference between two squares, executable form.
fn chebyshev_distance(a: Square, b: Square) -> (d: u8)
    requires
        a.valid(),
        b.valid(),
    ensures
        d == chebyshev(a, b),
{
    let df: u8 = if a.file >= b.file {
        a.file - b.file
    } else {
        b.file - a.file
    };
    let dr: u8 = if a.rank >= b.rank {
        a.rank - b.rank
    } else {
        b.rank - a.rank
    };
    if df >= dr {
        df
    } else {
        dr
    }
}

/// Infers the semantic kind of the proposed move. Deterministic and total:
/// the result is a function of the five arguments, stated by `spec_infer`.
/// Fails exactly when the source square is empty or holds a piece of the side
/// not to move.
pub fn infer_flag(
    source: Square,
    destination: Square,
    source_piece: Option<Piece>,
    destination_occupied: bool,
    turn: Color,
) -> (r: Result<MoveFlag, OwnershipError>)
    requires
        source.valid(),
        destination.valid(),
    ensures
        r == spec_infer(source, destination, source_piece, destination_occupied, turn),
        r is Err <==> !owns_source(source_piece, turn),
{
    let piece = match source_piece {
        Some(p) => p,
        None => {
            return Err(OwnershipError);
        },
    };
    if piece.color != turn {
        return Err(OwnershipError);
    }
    let distance = chebyshev_distance(source, destination);
    if piece.kind == PieceKind::King && distance > 1 {
        Ok(MoveFlag::Castle { king_side: destination.file > 4 })
    } else if piece.kind == PieceKind::Pawn
        && ((source.rank == 6 && destination.rank == 7) || (source.rank == 1
        && destination.rank == 0)) {
        Ok(MoveFlag::Promotion { capture: destination_occupied, promoted_to: PieceKind::Queen })
    } else if piece.kind == PieceKind::Pawn && distance > 1 && source.file == destination.file {
        Ok(MoveFlag::DoublePawnPush)
    } else if piece.kind == PieceKind::Pawn && distance > 1 && source.file != destination.file
        && !destination_occupied {
        Ok(MoveFlag::EnPassantCapture)
    } else if destination_occupied {
        Ok(MoveFlag::Capture)
    } else {
        Ok(MoveFlag::QuietMove)
    }
}

/// Inference is a total, deterministic function: `spec_infer` is defined on
/// every snapshot of the two squares and every turn, and two results drawn
/// from the same inputs always agree.
pub proof fn lemma_inference_deterministic(
    source: Square,
    destination: Square,
    source_piece: Option<Piece>,
    destination_occupied: bool,
    turn: Color,
    r1: Result<MoveFlag, OwnershipError>,
    r2: Result<MoveFlag, OwnershipError>,
)
    requires
        r1 == spec_infer(source, destination, source_piece, destination_occupied, turn),
        r2 == spec_infer(source, destination, source_piece, destination_occupied, turn),
    ensures
        r1 == r2,
{
}

/// Ownership law: a move from an empty square, or from a square holding a
/// piece of the side not to move, is always rejected, whatever the squares
/// and whatever stands on the destination.
pub proof fn lemma_ownership_rejected(
    source: Square,
    destination: Square,
    source_piece: Option<Piece>,
    destination_occupied: bool,
    turn: Color,
)
    requires
        !owns_source(source_piece, turn),
    ensures
        spec_infer(source, destination, source_piece, destination_occupied, turn) == Result::<
            MoveFlag,
            OwnershipError,
        >::Err(OwnershipError),
{
}

} // verus!
