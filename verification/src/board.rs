//! The playfield: forty rows of ten cells, row 0 at the bottom.

use vstd::prelude::*;
use crate::falling::FallingPiece;
use crate::piece::{lemma_offsets_bounded, PieceState};

verus! {

/// The cells of a playfield: `field[y][x]` says whether the cell in column
/// `x` of row `y` is filled.
pub type Field = [[bool; 10]; 40];

/// Whether the cell in column `x` of row `y` is filled. Only meaningful for
/// `0 <= x < 10` and `0 <= y < 40`.
pub open spec fn filled(field: Field, x: int, y: int) -> bool {
    field[y][x]
}

/// Whether a piece cannot have a cell at column `x` of row `y`: the cell is
/// filled, or it lies outside the playfield.
pub open spec fn blocked(field: Field, x: int, y: int) -> bool {
    x < 0 || x >= 10 || y < 0 || y >= 40 || filled(field, x, y)
}

/// Whether a piece of shape and orientation `kind` placed at `(x, y)` would
/// have a cell where none can be.
pub open spec fn collides(field: Field, kind: PieceState, x: int, y: int) -> bool {
    ||| blocked(field, x + kind.offset(0).0, y + kind.offset(0).1)
    ||| blocked(field, x + kind.offset(1).0, y + kind.offset(1).1)
    ||| blocked(field, x + kind.offset(2).0, y + kind.offset(2).1)
    ||| blocked(field, x + kind.offset(3).0, y + kind.offset(3).1)
}

/// The height of the stack in column `x` when only the rows below `top` are
/// looked at: one more than the highest filled row among them, or 0 if none
/// of them is filled.
pub open spec fn stack_height(field: Field, x: int, top: int) -> int
    decreases top,
{
    if top <= 0 {
        0
    } else if filled(field, x, top - 1) {
        top
    } else {
        stack_height(field, x, top - 1)
    }
}

/// The height of the stack in column `x`.
pub open spec fn column_height(field: Field, x: int) -> int {
    stack_height(field, x, 40)
}

/// The stack in a column is no higher than the rows looked at, the cell just
/// below its top is filled, and no cell from its top upwards is.
pub proof fn lemma_stack_height(field: Field, x: int, top: int)
    requires
        0 <= top,
    ensures
        0 <= stack_height(field, x, top) <= top,
        stack_height(field, x, top) > 0 ==> filled(field, x, stack_height(field, x, top) - 1),
        forall|y: int| stack_height(field, x, top) <= y < top ==> !#[trigger] filled(field, x, y),
    decreases top,
{
    if top > 0 && !filled(field, x, top - 1) {
        lemma_stack_height(field, x, top - 1);
    }
}

/// A snapshot of the playfield. Besides the cells it keeps, for every
/// column, the height of the stack in it.
#[derive(Copy, Clone, Debug)]
pub struct Board {
    cells: Field,
    column_heights: [i32; 10],
}

impl View for Board {
    type V = Field;

    closed spec fn view(&self) -> Field {
        self.cells
    }
}

impl Board {
    #[verifier::type_invariant]
    spec fn heights_agree(self) -> bool {
        forall|x: int|
            0 <= x < 10 ==> self.column_heights[x] == #[trigger] column_height(self.cells, x)
    }

    /// A playfield with no filled cell.
    pub fn new() -> (board: Board)
        ensures
            forall|x: int, y: int| 0 <= x < 10 && 0 <= y < 40 ==> !#[trigger] filled(board@, x, y),
    {
        let cells = [[false; 10]; 40];
        proof {
            assert forall|x: int| 0 <= x < 10 implies #[trigger] column_height(cells, x) == 0 by {
                lemma_stack_height_empty(cells, x, 40);
            }
        }
        Board { cells, column_heights: [0; 10] }
    }

    /// Replaces the cells of the playfield.
    pub fn set_field(&mut self, field: Field)
        ensures
            final(self)@ == field,
    {
        let mut heights: [i32; 10] = [0; 10];
        let mut x: usize = 0;
        while x < 10
            invariant
                x <= 10,
                forall|c: int| 0 <= c < x ==> heights[c] == #[trigger] column_height(field, c),
            decreases 10 - x,
        {
            let mut top: usize = 40;
            while top > 0 && !field[top - 1][x]
                invariant
                    top <= 40,
                    x < 10,
                    stack_height(field, x as int, top as int) == column_height(field, x as int),
                decreases top,
            {
                top -= 1;
            }
            heights[x] = top as i32;
            x += 1;
        }
        *self = Board { cells: field, column_heights: heights };
    }

    /// The cells of the playfield.
    pub fn get_field(&self) -> (field: Field)
        ensures
            field == self@,
    {
        self.cells
    }

    /// The height of the stack in each column.
    pub fn column_heights(&self) -> (heights: &[i32; 10])
        ensures
            forall|x: int| 0 <= x < 10 ==> #[trigger] heights[x] == column_height(self@, x),
    {
        proof {
            use_type_invariant(self);
        }
        &self.column_heights
    }

    /// Whether a piece cannot have a cell at column `x` of row `y`.
    pub fn occupied(&self, x: i32, y: i32) -> (hit: bool)
        ensures
            hit == blocked(self@, x as int, y as int),
    {
        x < 0 || y < 0 || x >= 10 || y >= 40 || self.cells[y as usize][x as usize]
    }

    fn occupied_wide(&self, x: i64, y: i64) -> (hit: bool)
        ensures
            hit == blocked(self@, x as int, y as int),
    {
        x < 0 || y < 0 || x >= 10 || y >= 40 || self.cells[y as usize][x as usize]
    }

    /// Whether `piece` has a cell where none can be.
    pub fn obstructed(&self, piece: &FallingPiece) -> (hit: bool)
        ensures
            hit == collides(self@, piece.kind, piece.x as int, piece.y as int),
    {
        let cells = piece.kind.cells();
        let x = piece.x as i64;
        let y = piece.y as i64;
        proof {
            lemma_offsets_bounded(piece.kind, 0);
            lemma_offsets_bounded(piece.kind, 1);
            lemma_offsets_bounded(piece.kind, 2);
            lemma_offsets_bounded(piece.kind, 3);
        }
        self.occupied_wide(x + cells[0].0 as i64, y + cells[0].1 as i64) || self.occupied_wide(
            x + cells[1].0 as i64,
            y + cells[1].1 as i64,
        ) || self.occupied_wide(x + cells[2].0 as i64, y + cells[2].1 as i64)
            || self.occupied_wide(x + cells[3].0 as i64, y + cells[3].1 as i64)
    }
}

proof fn lemma_stack_height_empty(field: Field, x: int, top: int)
    requires
        0 <= x < 10,
        top <= 40,
        forall|c: int, r: int| 0 <= c < 10 && 0 <= r < 40 ==> !#[trigger] field[r][c],
    ensures
        stack_height(field, x, top) == 0,
    decreases top,
{
    if top > 0 {
        lemma_stack_height_empty(field, x, top - 1);
    }
}

} // verus!
