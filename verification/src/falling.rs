//! A piece in play: where it is, how it is turned, and how it moves against
//! a playfield.

use vstd::prelude::*;
use crate::board::{collides, column_height, Board, Field};
use crate::kicks::{kick, kick_offset, KICKS};
use crate::piece::{lemma_offsets_bounded, DirectionSet, Piece, PieceState, RotationState, TspinStatus};

verus! {

/// A piece in play. `x` and `y` give the column and the row of the point the
/// shape turns about; row 0 is the bottom row. Two values are the same piece
/// only if all four fields agree.
#[derive(Copy, Clone, Debug, Hash, Eq, PartialEq, Structural)]
pub struct FallingPiece {
    pub kind: PieceState,
    pub x: i32,
    pub y: i32,
    pub tspin: TspinStatus,
}

/// A placement that collides with nothing lies on or next to the playfield.
pub proof fn lemma_free_placement_in_range(field: Field, kind: PieceState, x: int, y: int)
    requires
        !collides(field, kind, x, y),
    ensures
        -2 <= x <= 11,
        -2 <= y <= 41,
{
    lemma_offsets_bounded(kind, 0);
}

impl FallingPiece {
    /// The piece as it stands at `(x, y)` without a spin.
    pub open spec fn moved_to(self, x: int, y: int) -> FallingPiece {
        FallingPiece { kind: self.kind, x: x as i32, y: y as i32, tspin: TspinStatus::NoSpin }
    }

    /// Whether the piece has all its cells where a piece can be.
    pub open spec fn legal(self, field: Field) -> bool {
        !collides(field, self.kind, self.x as int, self.y as int)
    }

    /// Whether the piece can move `dx` columns to the right and `dy` rows up
    /// in one step: the place it would come to is free.
    pub open spec fn can_shift(self, field: Field, dx: int, dy: int) -> bool {
        !collides(field, self.kind, self.x + dx, self.y + dy)
    }

    /// The piece after an attempt to move it `dx` columns to the right and
    /// `dy` rows up: moved and without a spin if it can move, else as it was.
    pub open spec fn shifted(self, field: Field, dx: int, dy: int) -> FallingPiece {
        if self.can_shift(field, dx, dy) {
            self.moved_to(self.x + dx, self.y + dy)
        } else {
            self
        }
    }

    /// An upper bound on the number of steps of `(dx, dy)` that the piece can
    /// still take before it leaves the playfield.
    pub open spec fn room(self, dx: int, dy: int) -> int {
        if dx < 0 {
            self.x + 3
        } else if dx > 0 {
            12 - self.x
        } else if dy < 0 {
            self.y + 3
        } else if dy > 0 {
            42 - self.y
        } else {
            0
        }
    }

    /// The piece after it has moved by `(dx, dy)` again and again until it
    /// could move no further. `(0, 0)` is no move.
    pub open spec fn slid(self, field: Field, dx: int, dy: int) -> FallingPiece
        decreases self.room(dx, dy),
        via Self::slid_terminates
    {
        if (dx != 0 || dy != 0) && self.can_shift(field, dx, dy) {
            self.moved_to(self.x + dx, self.y + dy).slid(field, dx, dy)
        } else {
            self
        }
    }

    #[via_fn]
    proof fn slid_terminates(self, field: Field, dx: int, dy: int) {
        if (dx != 0 || dy != 0) && self.can_shift(field, dx, dy) {
            lemma_free_placement_in_range(field, self.kind, self.x + dx, self.y + dy);
        }
    }

    /// Whether every cell of the piece lies in a column of the playfield.
    pub open spec fn columns_on_board(self) -> bool {
        forall|i: int| 0 <= i < 4 ==> 0 <= self.x + #[trigger] self.kind.offset(i).0 < 10
    }

    /// How far the `i`-th cell of the piece is above the stack in its column.
    pub open spec fn cell_gap(self, field: Field, i: int) -> int {
        self.y + self.kind.offset(i).1 - column_height(field, self.x + self.kind.offset(i).0)
    }

    /// The least distance of a cell of the piece to the stack in its column.
    pub open spec fn drop_gap(self, field: Field) -> int {
        let a = self.cell_gap(field, 0);
        let b = self.cell_gap(field, 1);
        let c = self.cell_gap(field, 2);
        let d = self.cell_gap(field, 3);
        let ab = if a <= b { a } else { b };
        let cd = if c <= d { c } else { d };
        if ab <= cd {
            ab
        } else {
            cd
        }
    }

    /// The piece after a sonic drop. If all its cells are in columns of the
    /// playfield and above the stacks there, it comes to rest on the nearest
    /// stack in one step; otherwise it moves down row by row while it can.
    pub open spec fn sonic_dropped(self, field: Field) -> FallingPiece {
        if self.columns_on_board() && self.drop_gap(field) > 0 {
            self.moved_to(self.x as int, self.y - self.drop_gap(field))
        } else {
            self.slid(field, 0, -1)
        }
    }

    /// Whether the piece can move neither left nor right nor down.
    pub open spec fn immobile(self, field: Field) -> bool {
        !self.can_shift(field, -1, 0) && !self.can_shift(field, 1, 0) && !self.can_shift(
            field,
            0,
            -1,
        )
    }

    /// The index of the first offset at or after `from` at which the piece,
    /// turned to `target`, finds room; 22 if there is none.
    pub open spec fn first_kick(self, field: Field, target: PieceState, is_ccw: bool, from: int) -> int
        decreases 22 - from,
    {
        if from >= 22 {
            22
        } else if !collides(
            field,
            target,
            self.x + kick(is_ccw, from).0,
            self.y + kick(is_ccw, from).1,
        ) {
            from
        } else {
            self.first_kick(field, target, is_ccw, from + 1)
        }
    }

    /// Whether the piece finds room when it turns to `target`.
    pub open spec fn can_rotate(self, field: Field, target: PieceState, is_ccw: bool) -> bool {
        self.first_kick(field, target, is_ccw, 0) < 22
    }

    /// The piece after an attempt to turn it to `target`. It takes the first
    /// offset at which it finds room. There it keeps its spin, unless it can
    /// move neither left nor right nor down: then the spin is `Full`. If no
    /// offset gives room the piece stays as it was.
    pub open spec fn rotated(self, field: Field, target: PieceState, is_ccw: bool) -> FallingPiece {
        let k = self.first_kick(field, target, is_ccw, 0);
        let landed = FallingPiece {
            kind: target,
            x: (self.x + kick(is_ccw, k).0) as i32,
            y: (self.y + kick(is_ccw, k).1) as i32,
            tspin: self.tspin,
        };
        if k >= 22 {
            self
        } else if landed.immobile(field) {
            FallingPiece { tspin: TspinStatus::Full, ..landed }
        } else {
            landed
        }
    }

    /// The piece as it enters the playfield: in the spawn orientation and
    /// without a spin, in column 4, in row 19 if it has room there, else in
    /// row 20. No piece enters where row 20 gives no room.
    pub open spec fn spawned(piece: Piece, field: Field) -> Option<FallingPiece> {
        let kind = PieceState(piece, RotationState::North);
        let high = FallingPiece { kind, x: 4, y: 20, tspin: TspinStatus::NoSpin };
        if collides(field, kind, 4, 20) {
            None
        } else if collides(field, kind, 4, 19) {
            Some(high)
        } else {
            Some(FallingPiece { y: 19, ..high })
        }
    }

    /// Places a new piece on the playfield, if there is room for it.
    pub fn spawn(piece: Piece, board: &Board) -> (spawned: Option<FallingPiece>)
        ensures
            spawned == FallingPiece::spawned(piece, board@),
    {
        let mut this = FallingPiece {
            kind: PieceState(piece, RotationState::North),
            x: 4,
            y: 20,
            tspin: TspinStatus::NoSpin,
        };
        if board.obstructed(&this) {
            None
        } else {
            this.y -= 1;
            if board.obstructed(&this) {
                this.y += 1;
            }
            Some(this)
        }
    }

    /// The four cells of the piece on the playfield, each with the sides on
    /// which it touches another cell of the piece.
    pub fn cells(&self) -> (cells: [(i32, i32, DirectionSet); 4])
        requires
            i32::MIN + 2 <= self.x <= i32::MAX - 2,
            i32::MIN + 2 <= self.y <= i32::MAX - 2,
        ensures
            cells@.len() == 4,
            forall|i: int|
                #![trigger cells[i]]
                0 <= i < 4 ==> cells[i].0 == self.x + self.kind.offset(i).0 && cells[i].1
                    == self.y + self.kind.offset(i).1,
            forall|i: int, d: crate::piece::Direction|
                0 <= i < 4 ==> #[trigger] cells[i].2.has(d) == self.kind.linked(i, d),
    {
        let rel = self.kind.cells();
        proof {
            lemma_offsets_bounded(self.kind, 0);
            lemma_offsets_bounded(self.kind, 1);
            lemma_offsets_bounded(self.kind, 2);
            lemma_offsets_bounded(self.kind, 3);
        }
        [
            (rel[0].0 + self.x, rel[0].1 + self.y, rel[0].2),
            (rel[1].0 + self.x, rel[1].1 + self.y, rel[1].2),
            (rel[2].0 + self.x, rel[2].1 + self.y, rel[2].2),
            (rel[3].0 + self.x, rel[3].1 + self.y, rel[3].2),
        ]
    }

    /// Tries to move the piece `dx` columns to the right and `dy` rows up.
    /// Says whether it moved. A piece that moved has no spin; one that did
    /// not is unchanged.
    pub fn shift(&mut self, board: &Board, dx: i32, dy: i32) -> (moved: bool)
        ensures
            moved == old(self).can_shift(board@, dx as int, dy as int),
            *final(self) == old(self).shifted(board@, dx as int, dy as int),
            !moved ==> *final(self) == *old(self),
            moved ==> final(self).tspin == TspinStatus::NoSpin && final(self).legal(board@),
            final(self).kind == old(self).kind,
    {
        proof {
            if self.can_shift(board@, dx as int, dy as int) {
                lemma_free_placement_in_range(board@, self.kind, self.x + dx, self.y + dy);
            }
        }
        let x = match self.x.checked_add(dx) {
            Some(x) => x,
            None => {
                return false;
            },
        };
        let y = match self.y.checked_add(dy) {
            Some(y) => y,
            None => {
                return false;
            },
        };
        let moved = FallingPiece { kind: self.kind, x, y, tspin: TspinStatus::NoSpin };
        if board.obstructed(&moved) {
            false
        } else {
            *self = moved;
            true
        }
    }

    /// Moves the piece by `(dx, dy)` again and again until it can move no
    /// further. Says whether it moved at all. A piece that moved has no spin;
    /// one that did not is unchanged.
    pub fn slide(&mut self, board: &Board, dx: i32, dy: i32) -> (moved: bool)
        ensures
            *final(self) == old(self).slid(board@, dx as int, dy as int),
            moved == (*final(self) != *old(self)),
            moved == ((dx != 0 || dy != 0) && old(self).can_shift(board@, dx as int, dy as int)),
            moved == (final(self).room(dx as int, dy as int) < old(self).room(
                dx as int,
                dy as int,
            )),
            !moved ==> *final(self) == *old(self),
            moved ==> final(self).tspin == TspinStatus::NoSpin && final(self).legal(board@),
            final(self).kind == old(self).kind,
            dx == 0 ==> final(self).x == old(self).x,
            dy == 0 ==> final(self).y == old(self).y,
    {
        let ghost before = *self;
        let mut moved = false;
        if dx == 0 && dy == 0 {
            return false;
        }
        loop
            invariant
                dx != 0 || dy != 0,
                before == *old(self),
                self.kind == before.kind,
                dx == 0 ==> self.x == before.x,
                dy == 0 ==> self.y == before.y,
                self.slid(board@, dx as int, dy as int) == before.slid(
                    board@,
                    dx as int,
                    dy as int,
                ),
                moved == (*self != before),
                moved == (self.room(dx as int, dy as int) < before.room(dx as int, dy as int)),
                moved ==> self.tspin == TspinStatus::NoSpin && self.legal(board@),
                !moved ==> *self == before,
                moved ==> before.can_shift(board@, dx as int, dy as int),
            ensures
                *self == before.slid(board@, dx as int, dy as int),
                moved == (*self != before),
                moved == before.can_shift(board@, dx as int, dy as int),
                moved == (self.room(dx as int, dy as int) < before.room(dx as int, dy as int)),
                moved ==> self.tspin == TspinStatus::NoSpin && self.legal(board@),
                self.kind == before.kind,
                dx == 0 ==> self.x == before.x,
                dy == 0 ==> self.y == before.y,
            decreases self.room(dx as int, dy as int),
        {
            proof {
                if self.can_shift(board@, dx as int, dy as int) {
                    lemma_free_placement_in_range(board@, self.kind, self.x + dx, self.y + dy);
                }
            }
            if !self.shift(board, dx, dy) {
                break ;
            }
            moved = true;
        }
        moved
    }

    /// How far the cell of the piece at `(dx, dy)` from its turning point is
    /// above the stack in its column, if that column is one of the playfield.
    fn gap_at(&self, board: &Board, dx: i32, dy: i32) -> (gap: Option<i64>)
        requires
            -2 <= dx <= 2,
            -2 <= dy <= 2,
        ensures
            gap is Some <==> 0 <= self.x + dx < 10,
            gap matches Some(g) ==> g == self.y + dy - column_height(board@, self.x + dx),
    {
        let column = self.x as i64 + dx as i64;
        if 0 <= column && column < 10 {
            let heights = board.column_heights();
            proof {
                crate::board::lemma_stack_height(board@, column as int, 40);
            }
            Some(self.y as i64 + dy as i64 - heights[column as usize] as i64)
        } else {
            None
        }
    }

    /// Drops the piece as far as it can fall. Says whether it fell. A piece
    /// that fell has no spin; one that did not is unchanged.
    pub fn sonic_drop(&mut self, board: &Board) -> (fell: bool)
        ensures
            *final(self) == old(self).sonic_dropped(board@),
            fell == (*final(self) != *old(self)),
            fell == (final(self).y < old(self).y),
            !fell ==> *final(self) == *old(self),
            fell ==> final(self).tspin == TspinStatus::NoSpin,
            final(self).kind == old(self).kind,
            final(self).x == old(self).x,
    {
        let rel = self.kind.cells();
        proof {
            lemma_offsets_bounded(self.kind, 0);
            lemma_offsets_bounded(self.kind, 1);
            lemma_offsets_bounded(self.kind, 2);
            lemma_offsets_bounded(self.kind, 3);
        }
        let a = self.gap_at(board, rel[0].0, rel[0].1);
        let b = self.gap_at(board, rel[1].0, rel[1].1);
        let c = self.gap_at(board, rel[2].0, rel[2].1);
        let d = self.gap_at(board, rel[3].0, rel[3].1);
        match (a, b, c, d) {
            (Some(a), Some(b), Some(c), Some(d)) => {
                let ab = if a <= b { a } else { b };
                let cd = if c <= d { c } else { d };
                let drop_by = if ab <= cd { ab } else { cd };
                if drop_by > 0 {
                    proof {
                        crate::board::lemma_stack_height(board@, self.x + self.kind.offset(0).0, 40);
                        crate::board::lemma_stack_height(board@, self.x + self.kind.offset(1).0, 40);
                        crate::board::lemma_stack_height(board@, self.x + self.kind.offset(2).0, 40);
                        crate::board::lemma_stack_height(board@, self.x + self.kind.offset(3).0, 40);
                    }
                    self.tspin = TspinStatus::NoSpin;
                    self.y = (self.y as i64 - drop_by) as i32;
                    return true;
                }
            },
            _ => {},
        }
        self.slide(board, 0, -1)
    }

    /// Tries to turn the piece to `target`, offset by offset. Says whether it
    /// found room. A piece that found none is unchanged.
    pub fn rotate(&mut self, target: PieceState, board: &Board, is_ccw: bool) -> (turned: bool)
        ensures
            turned == old(self).can_rotate(board@, target, is_ccw),
            *final(self) == old(self).rotated(board@, target, is_ccw),
            !turned ==> *final(self) == *old(self),
            turned ==> final(self).kind == target && final(self).legal(board@),
            turned ==> final(self).tspin == (if final(self).immobile(board@) {
                TspinStatus::Full
            } else {
                old(self).tspin
            }),
    {
        let initial = *self;
        let mut i: usize = 0;
        while i < KICKS
            invariant
                i <= KICKS,
                *self == initial,
                initial == *old(self),
                initial.first_kick(board@, target, is_ccw, 0) == initial.first_kick(
                    board@,
                    target,
                    is_ccw,
                    i as int,
                ),
            decreases KICKS - i,
        {
            let offset = kick_offset(is_ccw, i);
            proof {
                let x = initial.x + kick(is_ccw, i as int).0;
                let y = initial.y + kick(is_ccw, i as int).1;
                if !collides(board@, target, x, y) {
                    lemma_free_placement_in_range(board@, target, x, y);
                }
            }
            let x = initial.x as i64 + offset.0 as i64;
            let y = initial.y as i64 + offset.1 as i64;
            if -2 <= x && x <= 11 && -2 <= y && y <= 41 {
                let mut landed = FallingPiece {
                    kind: target,
                    x: x as i32,
                    y: y as i32,
                    tspin: initial.tspin,
                };
                if !board.obstructed(&landed) {
                    let mut probe = landed;
                    if !probe.shift(board, -1, 0) {
                        if !probe.shift(board, 1, 0) {
                            if !probe.shift(board, 0, -1) {
                                landed.tspin = TspinStatus::Full;
                            }
                        }
                    }
                    *self = landed;
                    return true;
                }
            }
            i += 1;
        }
        false
    }

    /// The piece after an attempt to turn it clockwise.
    pub open spec fn turned_cw(self, field: Field) -> FallingPiece {
        self.rotated(field, self.kind.cw_spec(), false)
    }

    /// The piece after an attempt to turn it counter-clockwise.
    pub open spec fn turned_ccw(self, field: Field) -> FallingPiece {
        self.rotated(field, self.kind.ccw_spec(), true)
    }

    /// Tries to turn the piece one quarter turn clockwise. Says whether it
    /// found room. A piece that found none is unchanged.
    pub fn cw(&mut self, board: &Board) -> (turned: bool)
        ensures
            turned == old(self).can_rotate(board@, old(self).kind.cw_spec(), false),
            *final(self) == old(self).turned_cw(board@),
            !turned ==> *final(self) == *old(self),
            turned ==> final(self).kind == old(self).kind.cw_spec() && final(self).legal(board@),
            turned ==> final(self).tspin == (if final(self).immobile(board@) {
                TspinStatus::Full
            } else {
                old(self).tspin
            }),
    {
        let mut target = self.kind;
        target.cw();
        self.rotate(target, board, false)
    }

    /// Tries to turn the piece one quarter turn counter-clockwise. Says
    /// whether it found room. A piece that found none is unchanged.
    pub fn ccw(&mut self, board: &Board) -> (turned: bool)
        ensures
            turned == old(self).can_rotate(board@, old(self).kind.ccw_spec(), true),
            *final(self) == old(self).turned_ccw(board@),
            !turned ==> *final(self) == *old(self),
            turned ==> final(self).kind == old(self).kind.ccw_spec() && final(self).legal(board@),
            turned ==> final(self).tspin == (if final(self).immobile(board@) {
                TspinStatus::Full
            } else {
                old(self).tspin
            }),
    {
        let mut target = self.kind;
        target.ccw();
        self.rotate(target, board, true)
    }
}

/// What holds of a piece after it slid by `(dx, dy)`, not both 0: it has the
/// shape and orientation it had; it differs from the piece before exactly if
/// that piece could move; if it differs it is legal and has no spin; it can
/// move no further, so that sliding it again changes nothing.
pub proof fn lemma_slid(field: Field, piece: FallingPiece, dx: int, dy: int)
    requires
        dx != 0 || dy != 0,
    ensures
        piece.slid(field, dx, dy).kind == piece.kind,
        piece.slid(field, dx, dy) != piece <==> piece.can_shift(field, dx, dy),
        piece.slid(field, dx, dy) != piece ==> piece.slid(field, dx, dy).legal(field)
            && piece.slid(field, dx, dy).tspin == TspinStatus::NoSpin,
        !piece.slid(field, dx, dy).can_shift(field, dx, dy),
        piece.slid(field, dx, dy).slid(field, dx, dy) == piece.slid(field, dx, dy),
        piece.slid(field, dx, dy).room(dx, dy) <= piece.room(dx, dy),
    decreases piece.room(dx, dy),
{
    if piece.can_shift(field, dx, dy) {
        lemma_free_placement_in_range(field, piece.kind, piece.x + dx, piece.y + dy);
        let next = piece.moved_to(piece.x + dx, piece.y + dy);
        lemma_slid(field, next, dx, dy);
    }
}

/// A piece that can move down `n` rows and no further comes to rest `n`
/// rows lower.
proof fn lemma_slide_down(field: Field, piece: FallingPiece, n: int)
    requires
        0 <= n,
        forall|j: int| 1 <= j <= n ==> !#[trigger] collides(field, piece.kind, piece.x as int, piece.y - j),
        collides(field, piece.kind, piece.x as int, piece.y - n - 1),
    ensures
        piece.slid(field, 0, -1) == (if n == 0 {
            piece
        } else {
            piece.moved_to(piece.x as int, piece.y - n)
        }),
    decreases n,
{
    if n > 0 {
        lemma_free_placement_in_range(field, piece.kind, piece.x as int, piece.y - 1);
        let next = piece.moved_to(piece.x as int, piece.y - 1);
        assert forall|j: int| 1 <= j <= n - 1 implies !#[trigger] collides(
            field,
            next.kind,
            next.x as int,
            next.y - j,
        ) by {
            assert(!collides(field, piece.kind, piece.x as int, piece.y - (j + 1)));
        }
        lemma_slide_down(field, next, n - 1);
        if n > 1 {
            lemma_free_placement_in_range(field, piece.kind, piece.x as int, piece.y - n);
        }
    }
}

/// A sonic drop takes a legal piece as far down as it can go row by row:
/// the shortcut over the heights of the stacks and the walk down agree.
pub proof fn lemma_sonic_drop_is_slide(field: Field, piece: FallingPiece)
    requires
        piece.legal(field),
    ensures
        piece.sonic_dropped(field) == piece.slid(field, 0, -1),
{
    let gap = piece.drop_gap(field);
    if piece.columns_on_board() && gap > 0 {
        crate::board::lemma_stack_height(field, piece.x + piece.kind.offset(0).0, 40);
        crate::board::lemma_stack_height(field, piece.x + piece.kind.offset(1).0, 40);
        crate::board::lemma_stack_height(field, piece.x + piece.kind.offset(2).0, 40);
        crate::board::lemma_stack_height(field, piece.x + piece.kind.offset(3).0, 40);
        lemma_slide_down(field, piece, gap);
    }
}

/// The first offset at which a turning piece finds room is one at which it
/// has room, and it has none at any offset before that one.
pub proof fn lemma_first_kick(
    field: Field,
    piece: FallingPiece,
    target: PieceState,
    is_ccw: bool,
    from: int,
)
    requires
        0 <= from <= 22,
    ensures
        from <= piece.first_kick(field, target, is_ccw, from) <= 22,
        piece.first_kick(field, target, is_ccw, from) < 22 ==> !collides(
            field,
            target,
            piece.x + kick(is_ccw, piece.first_kick(field, target, is_ccw, from)).0,
            piece.y + kick(is_ccw, piece.first_kick(field, target, is_ccw, from)).1,
        ),
        forall|i: int|
            from <= i < piece.first_kick(field, target, is_ccw, from) ==> #[trigger] collides(
                field,
                target,
                piece.x + kick(is_ccw, i).0,
                piece.y + kick(is_ccw, i).1,
            ),
    decreases 22 - from,
{
    if from < 22 && collides(
        field,
        target,
        piece.x + kick(is_ccw, from).0,
        piece.y + kick(is_ccw, from).1,
    ) {
        lemma_first_kick(field, piece, target, is_ccw, from + 1);
    }
}

/// What holds of a piece after an attempt to turn it to `target`: if it
/// found room it is legal, has the shape and orientation `target`, and has
/// the spin `Full` if it can move neither left nor right nor down, else the
/// spin it had; if it found none it is the piece it was.
pub proof fn lemma_rotated(field: Field, piece: FallingPiece, target: PieceState, is_ccw: bool)
    ensures
        !piece.can_rotate(field, target, is_ccw) ==> piece.rotated(field, target, is_ccw) == piece,
        piece.can_rotate(field, target, is_ccw) ==> {
            let turned = piece.rotated(field, target, is_ccw);
            &&& turned.kind == target
            &&& turned.legal(field)
            &&& turned.tspin == (if turned.immobile(field) {
                TspinStatus::Full
            } else {
                piece.tspin
            })
        },
{
    lemma_first_kick(field, piece, target, is_ccw, 0);
    let k = piece.first_kick(field, target, is_ccw, 0);
    if k < 22 {
        lemma_free_placement_in_range(
            field,
            target,
            piece.x + kick(is_ccw, k).0,
            piece.y + kick(is_ccw, k).1,
        );
    }
}

} // verus!
