//! Value types shared by the parser, the flag inference and the gateway:
//! squares, pieces, move flags and move descriptors.

use vstd::prelude::*;

verus! {

/// The side a piece belongs to, and whose turn it is.
#[derive(Clone, Copy, Debug, PartialEq, Eq, Structural)]
pub enum Color {
    White,
    Black,
}

/// The kind of a piece, independent of its color.
#[derive(Clone, Copy, Debug, PartialEq, Eq, Structural)]
pub enum PieceKind {
    Pawn,
    Knight,
    Bishop,
    Rook,
    Queen,
    King,
}

/// A piece on the board: its owner and its kind.
#[derive(Clone, Copy, Debug, PartialEq, Eq, Structural)]
pub struct Piece {
    pub color: Color,
    pub kind: PieceKind,
}

/// A board coordinate: file 0..=7 (A..=H) and rank 0..=7 (rank 1..=rank 8).
#[derive(Clone, Copy, Debug, PartialEq, Eq, Structural)]
pub struct Square {
    pub file: u8,
    pub rank: u8,
}

impl Square {
    /// Both coordinates lie on the board.
    pub open spec fn valid(self) -> bool {
        self.file < 8 && self.rank < 8
    }

    /// The square's index in rank-major order: A1 is 0, B1 is 1, .., H8 is 63.
    pub open spec fn index_spec(self) -> u8
        recommends
            self.valid(),
    {
        (self.rank * 8 + self.file) as u8
    }

    pub fn new(file: u8, rank: u8) -> (s: Square)
        requires
            file < 8,
            rank < 8,
        ensures
            s == (Square { file, rank }),
    {
        Square { file, rank }
    }

    /// The square's index in rank-major order, as the rules engine numbers squares.
    pub fn index(self) -> (i: u8)
        requires
            self.valid(),
        ensures
            i == self.index_spec(),
            i < 64,
    {
        self.rank * 8 + self.file
    }
}

/// The piece kind on the back rank of the standard initial position, by file:
/// rooks in the corners, then knights, then bishops, the queen on file 3 and
/// the king on file 4.
pub open spec fn back_rank_kind(file: u8) -> PieceKind {
    if file == 0 || file == 7 {
        PieceKind::Rook
    } else if file == 1 || file == 6 {
        PieceKind::Knight
    } else if file == 2 || file == 5 {
        PieceKind::Bishop
    } else if file == 3 {
        PieceKind::Queen
    } else {
        PieceKind::King
    }
}

/// What stands on a square of the standard initial position, the square
/// given by its rank-major index: White on ranks 0 and 1, Black on ranks 6
/// and 7, pawns on ranks 1 and 6.
pub open spec fn initial_piece(index: u8) -> Option<Piece> {
    let file = index % 8;
    let rank = index / 8;
    if rank == 0 {
        Some(Piece { color: Color::White, kind: back_rank_kind(file) })
    } else if rank == 1 {
        Some(Piece { color: Color::White, kind: PieceKind::Pawn })
    } else if rank == 6 {
        Some(Piece { color: Color::Black, kind: PieceKind::Pawn })
    } else if rank == 7 {
        Some(Piece { color: Color::Black, kind: back_rank_kind(file) })
    } else {
        None
    }
}

/// Two squares read from a move command, before any board-dependent checks.
#[derive(Clone, Copy, Debug, PartialEq, Eq, Structural)]
pub struct MoveRequest {
    pub source: Square,
    pub destination: Square,
}

impl MoveRequest {
    pub open spec fn valid(self) -> bool {
        self.source.valid() && self.destination.valid()
    }
}

/// The semantic category of a move, inferred from board geometry and piece
/// identity alone.
#[derive(Clone, Copy, Debug, PartialEq, Eq, Structural)]
pub enum MoveFlag {
    QuietMove,
    Capture,
    EnPassantCapture,
    DoublePawnPush,
    Castle { king_side: bool },
    Promotion { capture: bool, promoted_to: PieceKind },
}

/// The unit handed to the rules engine: the two squares plus the inferred flag.
#[derive(Clone, Copy, Debug, PartialEq, Eq, Structural)]
pub struct MoveDescriptor {
    pub source: Square,
    pub destination: Square,
    pub flag: MoveFlag,
}

impl MoveDescriptor {
    pub open spec fn valid(self) -> bool {
        self.source.valid() && self.destination.valid()
    }
}

} // verus!
