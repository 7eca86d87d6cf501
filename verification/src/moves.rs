//! The inputs that move a piece, and what a sequence of them does.

use vstd::prelude::*;
use crate::board::{Board, Field};
use crate::falling::FallingPiece;

verus! {

/// A single input to a piece.
#[derive(Copy, Clone, Debug, Hash, Eq, PartialEq, Structural)]
pub enum PieceMovement {
    Left,
    Right,
    Cw,
    Ccw,
    SonicDrop,
}

/// An input to a piece as the path search uses them: besides the single
/// inputs, a direction may be held until the piece stops.
#[derive(Copy, Clone, Debug, Hash, Eq, PartialEq, Structural)]
pub enum DasPieceMovement {
    DasLeft,
    DasRight,
    SonicDrop,
    Left,
    Right,
    Ccw,
    Cw,
}

/// The inputs in the order in which the path search tries them.
pub const BOARD_MOVES: [DasPieceMovement; 7] = [
    DasPieceMovement::DasLeft,
    DasPieceMovement::DasRight,
    DasPieceMovement::SonicDrop,
    DasPieceMovement::Left,
    DasPieceMovement::Right,
    DasPieceMovement::Ccw,
    DasPieceMovement::Cw,
];

impl PieceMovement {
    /// The piece after this input.
    pub open spec fn applied(self, piece: FallingPiece, field: Field) -> FallingPiece {
        match self {
            PieceMovement::Left => piece.shifted(field, -1, 0),
            PieceMovement::Right => piece.shifted(field, 1, 0),
            PieceMovement::Ccw => piece.turned_ccw(field),
            PieceMovement::Cw => piece.turned_cw(field),
            PieceMovement::SonicDrop => piece.sonic_dropped(field),
        }
    }

    /// The same input in the alphabet of the path search.
    pub open spec fn to_das(self) -> DasPieceMovement {
        match self {
            PieceMovement::SonicDrop => DasPieceMovement::SonicDrop,
            PieceMovement::Left => DasPieceMovement::Left,
            PieceMovement::Right => DasPieceMovement::Right,
            PieceMovement::Ccw => DasPieceMovement::Ccw,
            PieceMovement::Cw => DasPieceMovement::Cw,
        }
    }

    /// Gives the input to `piece`. Says whether the piece moved; one that
    /// did not is unchanged.
    pub fn apply(self, piece: &mut FallingPiece, board: &Board) -> (moved: bool)
        ensures
            *final(piece) == self.applied(*old(piece), board@),
            moved == (*final(piece) != *old(piece)),
            final(piece).kind.0 == old(piece).kind.0,
    {
        proof {
            crate::piece::lemma_rotation_cycle(piece.kind.1);
        }
        match self {
            PieceMovement::Left => piece.shift(board, -1, 0),
            PieceMovement::Right => piece.shift(board, 1, 0),
            PieceMovement::Ccw => piece.ccw(board),
            PieceMovement::Cw => piece.cw(board),
            PieceMovement::SonicDrop => piece.sonic_drop(board),
        }
    }
}

impl DasPieceMovement {
    /// The place of the input in the order in which the path search tries
    /// the inputs: `DasLeft`, `DasRight`, `SonicDrop`, `Left`, `Right`, `Ccw`,
    /// `Cw`.
    pub open spec fn code(self) -> int {
        match self {
            DasPieceMovement::DasLeft => 0,
            DasPieceMovement::DasRight => 1,
            DasPieceMovement::SonicDrop => 2,
            DasPieceMovement::Left => 3,
            DasPieceMovement::Right => 4,
            DasPieceMovement::Ccw => 5,
            DasPieceMovement::Cw => 6,
        }
    }

    /// The input at place `code` of that order.
    pub open spec fn from_code(code: int) -> DasPieceMovement {
        if code == 0 {
            DasPieceMovement::DasLeft
        } else if code == 1 {
            DasPieceMovement::DasRight
        } else if code == 2 {
            DasPieceMovement::SonicDrop
        } else if code == 3 {
            DasPieceMovement::Left
        } else if code == 4 {
            DasPieceMovement::Right
        } else if code == 5 {
            DasPieceMovement::Ccw
        } else {
            DasPieceMovement::Cw
        }
    }

    /// The character that stands for the input when a path is handed on.
    pub open spec fn to_char_spec(self) -> char {
        match self {
            DasPieceMovement::DasLeft => 'L',
            DasPieceMovement::DasRight => 'R',
            DasPieceMovement::SonicDrop => 'D',
            DasPieceMovement::Left => 'l',
            DasPieceMovement::Right => 'r',
            DasPieceMovement::Ccw => 'z',
            DasPieceMovement::Cw => 'c',
        }
    }

    /// The piece after this input. A held direction moves the piece until it
    /// stops; a drop moves it down until it rests.
    pub open spec fn applied(self, piece: FallingPiece, field: Field) -> FallingPiece {
        match self {
            DasPieceMovement::DasLeft => piece.slid(field, -1, 0),
            DasPieceMovement::DasRight => piece.slid(field, 1, 0),
            DasPieceMovement::SonicDrop => piece.slid(field, 0, -1),
            DasPieceMovement::Left => piece.shifted(field, -1, 0),
            DasPieceMovement::Right => piece.shifted(field, 1, 0),
            DasPieceMovement::Ccw => piece.turned_ccw(field),
            DasPieceMovement::Cw => piece.turned_cw(field),
        }
    }

    /// The input at place `code` of the order in which the path search tries
    /// the inputs.
    pub fn nth(code: usize) -> (mv: DasPieceMovement)
        requires
            code < 7,
        ensures
            mv == DasPieceMovement::from_code(code as int),
            mv.code() == code,
    {
        BOARD_MOVES[code]
    }

    /// The character that stands for the input when a path is handed on.
    pub fn to_char(self) -> (c: char)
        ensures
            c == self.to_char_spec(),
    {
        match self {
            DasPieceMovement::DasLeft => 'L',
            DasPieceMovement::DasRight => 'R',
            DasPieceMovement::SonicDrop => 'D',
            DasPieceMovement::Left => 'l',
            DasPieceMovement::Right => 'r',
            DasPieceMovement::Ccw => 'z',
            DasPieceMovement::Cw => 'c',
        }
    }

    /// Gives the input to `piece`. Says whether the piece moved; one that
    /// did not is unchanged.
    pub fn apply(self, piece: &mut FallingPiece, board: &Board) -> (moved: bool)
        ensures
            *final(piece) == self.applied(*old(piece), board@),
            moved == (*final(piece) != *old(piece)),
            moved ==> final(piece).legal(board@),
            final(piece).kind.0 == old(piece).kind.0,
    {
        proof {
            crate::piece::lemma_rotation_cycle(piece.kind.1);
        }
        match self {
            DasPieceMovement::DasLeft => piece.slide(board, -1, 0),
            DasPieceMovement::DasRight => piece.slide(board, 1, 0),
            DasPieceMovement::SonicDrop => piece.slide(board, 0, -1),
            DasPieceMovement::Left => piece.shift(board, -1, 0),
            DasPieceMovement::Right => piece.shift(board, 1, 0),
            DasPieceMovement::Ccw => piece.ccw(board),
            DasPieceMovement::Cw => piece.cw(board),
        }
    }
}

impl From<PieceMovement> for DasPieceMovement {
    fn from(mv: PieceMovement) -> (das: DasPieceMovement) {
        match mv {
            PieceMovement::SonicDrop => DasPieceMovement::SonicDrop,
            PieceMovement::Left => DasPieceMovement::Left,
            PieceMovement::Right => DasPieceMovement::Right,
            PieceMovement::Ccw => DasPieceMovement::Ccw,
            PieceMovement::Cw => DasPieceMovement::Cw,
        }
    }
}

impl vstd::std_specs::convert::FromSpecImpl<PieceMovement> for DasPieceMovement {
    open spec fn obeys_from_spec() -> bool {
        true
    }

    open spec fn from_spec(mv: PieceMovement) -> DasPieceMovement {
        mv.to_das()
    }
}

/// The piece that `start` has become after the inputs `moves`, given in
/// order.
pub open spec fn replay(field: Field, start: FallingPiece, moves: Seq<DasPieceMovement>) -> FallingPiece
    decreases moves.len(),
{
    if moves.len() == 0 {
        start
    } else {
        moves.last().applied(replay(field, start, moves.drop_last()), field)
    }
}

/// Gives the inputs `moves` to `start`, in order, and returns the piece that
/// it has become.
pub fn replay_path(board: &Board, start: FallingPiece, moves: &Vec<DasPieceMovement>) -> (end:
    FallingPiece)
    ensures
        end == replay(board@, start, moves@),
{
    let mut piece = start;
    let mut i: usize = 0;
    while i < moves.len()
        invariant
            i <= moves.len(),
            piece == replay(board@, start, moves@.take(i as int)),
        decreases moves.len() - i,
    {
        let mv = moves[i];
        mv.apply(&mut piece, board);
        proof {
            assert(moves@.take(i + 1).drop_last() =~= moves@.take(i as int));
        }
        i += 1;
    }
    proof {
        assert(moves@.take(moves.len() as int) =~= moves@);
    }
    piece
}

/// What an input does to a piece. The shape stays. A piece that the input
/// changed is legal. After a shift, a held direction or a drop that changed
/// it, the piece has no spin. After a turn that changed it, the piece has
/// the spin `Full` if it can move neither left nor right nor down, and else
/// the spin it had: no other input ever gives a piece the spin `Full`.
pub proof fn lemma_move_outcome(field: Field, piece: FallingPiece, mv: DasPieceMovement)
    ensures
        mv.applied(piece, field).kind.0 == piece.kind.0,
        mv.applied(piece, field) != piece ==> mv.applied(piece, field).legal(field),
        mv.applied(piece, field) != piece && !(mv is Ccw || mv is Cw) ==> mv.applied(
            piece,
            field,
        ).tspin == crate::piece::TspinStatus::NoSpin,
        mv.applied(piece, field) != piece && (mv is Ccw || mv is Cw) ==> mv.applied(
            piece,
            field,
        ).tspin == (if mv.applied(piece, field).immobile(field) {
            crate::piece::TspinStatus::Full
        } else {
            piece.tspin
        }),
{
    match mv {
        DasPieceMovement::DasLeft => {
            crate::falling::lemma_slid(field, piece, -1, 0);
        },
        DasPieceMovement::DasRight => {
            crate::falling::lemma_slid(field, piece, 1, 0);
        },
        DasPieceMovement::SonicDrop => {
            crate::falling::lemma_slid(field, piece, 0, -1);
        },
        DasPieceMovement::Left => {
            if piece.can_shift(field, -1, 0) {
                crate::falling::lemma_free_placement_in_range(
                    field,
                    piece.kind,
                    piece.x - 1,
                    piece.y as int,
                );
            }
        },
        DasPieceMovement::Right => {
            if piece.can_shift(field, 1, 0) {
                crate::falling::lemma_free_placement_in_range(
                    field,
                    piece.kind,
                    piece.x + 1,
                    piece.y as int,
                );
            }
        },
        DasPieceMovement::Ccw => {
            crate::falling::lemma_rotated(field, piece, piece.kind.ccw_spec(), true);
        },
        DasPieceMovement::Cw => {
            crate::falling::lemma_rotated(field, piece, piece.kind.cw_spec(), false);
        },
    }
}

/// For a legal piece the inputs of the two alphabets that go by one name do
/// the same.
pub proof fn lemma_single_inputs_agree(field: Field, piece: FallingPiece, mv: PieceMovement)
    requires
        piece.legal(field),
    ensures
        mv.applied(piece, field) == mv.to_das().applied(piece, field),
{
    crate::falling::lemma_sonic_drop_is_slide(field, piece);
}

} // verus!
