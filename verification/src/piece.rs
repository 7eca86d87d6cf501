//! Piece shapes, orientations and the lookup tables derived from them.

use vstd::prelude::*;

verus! {

/// One of the seven piece shapes.
#[derive(Copy, Clone, Debug, Hash, Eq, PartialEq, Structural)]
pub enum Piece {
    I,
    O,
    T,
    L,
    J,
    S,
    Z,
}

/// What a cell of the playfield shows.
#[derive(Copy, Clone, Debug, Hash, Eq, PartialEq, Structural)]
pub enum CellColor {
    I,
    O,
    T,
    L,
    J,
    S,
    Z,
    Garbage,
    Unclearable,
    Empty,
}

/// The orientation of a piece. `North` is the orientation a piece spawns in;
/// `East` is one clockwise quarter turn away from it.
#[derive(Copy, Clone, Debug, Hash, Eq, PartialEq, Structural)]
pub enum RotationState {
    North,
    South,
    East,
    West,
}

/// A shape together with its orientation.
#[derive(Copy, Clone, Debug, Hash, Eq, PartialEq, Structural)]
pub struct PieceState(pub Piece, pub RotationState);

/// Whether the last successful move of a piece was a rotation that left it
/// unable to move, and how that rotation is classified.
#[derive(Copy, Clone, Debug, Hash, Eq, PartialEq, Structural)]
pub enum TspinStatus {
    NoSpin,
    Mini,
    Full,
    PersistentFull,
}

/// One of the four sides of a cell.
#[derive(Copy, Clone, Debug, Hash, Eq, PartialEq, Structural)]
pub enum Direction {
    Up,
    Down,
    Left,
    Right,
}

/// A set of sides of a cell.
#[derive(Copy, Clone, Debug, Hash, Eq, PartialEq, Structural)]
pub struct DirectionSet {
    pub up: bool,
    pub down: bool,
    pub left: bool,
    pub right: bool,
}

impl Direction {
    /// The step from a cell to its neighbour on this side.
    pub open spec fn delta(self) -> (int, int) {
        match self {
            Direction::Up => (0, 1),
            Direction::Down => (0, -1),
            Direction::Left => (-1, 0),
            Direction::Right => (1, 0),
        }
    }
}

impl DirectionSet {
    /// Whether `d` is a member of the set.
    pub open spec fn has(self, d: Direction) -> bool {
        match d {
            Direction::Up => self.up,
            Direction::Down => self.down,
            Direction::Left => self.left,
            Direction::Right => self.right,
        }
    }

    /// Whether `d` is a member of the set.
    pub fn contains(self, d: Direction) -> (present: bool)
        ensures
            present == self.has(d),
    {
        match d {
            Direction::Up => self.up,
            Direction::Down => self.down,
            Direction::Left => self.left,
            Direction::Right => self.right,
        }
    }
}

impl RotationState {
    /// The orientation one clockwise quarter turn after `self`.
    pub open spec fn cw_spec(self) -> RotationState {
        match self {
            RotationState::North => RotationState::East,
            RotationState::East => RotationState::South,
            RotationState::South => RotationState::West,
            RotationState::West => RotationState::North,
        }
    }

    /// The orientation one counter-clockwise quarter turn after `self`.
    pub open spec fn ccw_spec(self) -> RotationState {
        match self {
            RotationState::North => RotationState::West,
            RotationState::West => RotationState::South,
            RotationState::South => RotationState::East,
            RotationState::East => RotationState::North,
        }
    }

    /// The two corners, relative to the centre of a T piece, that lie on the
    /// side its stem points to. `North` points up; each clockwise quarter turn
    /// carries a corner `(x, y)` to `(y, -x)`.
    pub open spec fn mini_tspin_corners_spec(self) -> Seq<(int, int)> {
        match self {
            RotationState::North => seq![(-1, 1), (1, 1)],
            RotationState::East => seq![(1, 1), (1, -1)],
            RotationState::South => seq![(1, -1), (-1, -1)],
            RotationState::West => seq![(-1, -1), (-1, 1)],
        }
    }

    /// The two corners on the side opposite to the stem: those that
    /// `mini_tspin_corners_spec` gives for the orientation half a turn away.
    pub open spec fn non_mini_tspin_corners_spec(self) -> Seq<(int, int)> {
        self.cw_spec().cw_spec().mini_tspin_corners_spec()
    }

    /// Turns `self` one quarter turn clockwise.
    pub fn cw(&mut self)
        ensures
            *final(self) == old(self).cw_spec(),
    {
        let next = match *self {
            RotationState::North => RotationState::East,
            RotationState::East => RotationState::South,
            RotationState::South => RotationState::West,
            RotationState::West => RotationState::North,
        };
        *self = next;
    }

    /// Turns `self` one quarter turn counter-clockwise.
    pub fn ccw(&mut self)
        ensures
            *final(self) == old(self).ccw_spec(),
    {
        let next = match *self {
            RotationState::North => RotationState::West,
            RotationState::West => RotationState::South,
            RotationState::South => RotationState::East,
            RotationState::East => RotationState::North,
        };
        *self = next;
    }

    /// The corners on the stem's side of a T piece in this orientation.
    pub fn mini_tspin_corners(self) -> (corners: [(i32, i32); 2])
        ensures
            corners@.len() == 2,
            forall|i: int|
                0 <= i < 2 ==> (#[trigger] corners[i].0 as int, corners[i].1 as int)
                    == self.mini_tspin_corners_spec()[i],
    {
        match self {
            RotationState::North => [(-1, 1), (1, 1)],
            RotationState::East => [(1, 1), (1, -1)],
            RotationState::South => [(1, -1), (-1, -1)],
            RotationState::West => [(-1, -1), (-1, 1)],
        }
    }

    /// The corners on the side opposite to the stem of a T piece in this
    /// orientation.
    pub fn non_mini_tspin_corners(self) -> (corners: [(i32, i32); 2])
        ensures
            corners@.len() == 2,
            forall|i: int|
                0 <= i < 2 ==> (#[trigger] corners[i].0 as int, corners[i].1 as int)
                    == self.non_mini_tspin_corners_spec()[i],
    {
        match self {
            RotationState::South => [(-1, 1), (1, 1)],
            RotationState::West => [(1, 1), (1, -1)],
            RotationState::North => [(1, -1), (-1, -1)],
            RotationState::East => [(-1, -1), (-1, 1)],
        }
    }
}

/// The `i`-th of four values.
pub open spec fn pick(i: int, a: (int, int), b: (int, int), c: (int, int), d: (int, int)) -> (
    int,
    int,
) {
    if i == 0 {
        a
    } else if i == 1 {
        b
    } else if i == 2 {
        c
    } else {
        d
    }
}

fn cell(dx: i32, dy: i32, up: bool, down: bool, left: bool, right: bool) -> (c: (
    i32,
    i32,
    DirectionSet,
))
    ensures
        c == (dx, dy, (DirectionSet { up, down, left, right })),
{
    (dx, dy, DirectionSet { up, down, left, right })
}

impl PieceState {
    /// The state one clockwise quarter turn after `self`.
    pub open spec fn cw_spec(self) -> PieceState {
        PieceState(self.0, self.1.cw_spec())
    }

    /// The state one counter-clockwise quarter turn after `self`.
    pub open spec fn ccw_spec(self) -> PieceState {
        PieceState(self.0, self.1.ccw_spec())
    }

    /// The position of the `i`-th cell (`0 <= i < 4`) of this shape and
    /// orientation, relative to the point the shape turns about: how many
    /// columns to the right of it and how many rows above it.
    pub open spec fn offset(self, i: int) -> (int, int) {
        match (self.0, self.1) {
            (Piece::I, RotationState::North) => pick(i, (-1, 0), (0, 0), (1, 0), (2, 0)),
            (Piece::I, RotationState::East) => pick(i, (0, -1), (0, 0), (0, 1), (0, 2)),
            (Piece::I, RotationState::South) => pick(i, (-2, 0), (-1, 0), (0, 0), (1, 0)),
            (Piece::I, RotationState::West) => pick(i, (0, -2), (0, -1), (0, 0), (0, 1)),
            (Piece::O, RotationState::North) => pick(i, (0, 0), (0, 1), (1, 0), (1, 1)),
            (Piece::O, RotationState::East) => pick(i, (0, 0), (0, -1), (1, 0), (1, -1)),
            (Piece::O, RotationState::South) => pick(i, (0, 0), (0, -1), (-1, 0), (-1, -1)),
            (Piece::O, RotationState::West) => pick(i, (0, 0), (0, 1), (-1, 0), (-1, 1)),
            (Piece::T, RotationState::North) => pick(i, (-1, 0), (0, 0), (1, 0), (0, 1)),
            (Piece::T, RotationState::East) => pick(i, (0, 1), (0, 0), (0, -1), (1, 0)),
            (Piece::T, RotationState::South) => pick(i, (1, 0), (0, 0), (-1, 0), (0, -1)),
            (Piece::T, RotationState::West) => pick(i, (0, -1), (0, 0), (0, 1), (-1, 0)),
            (Piece::L, RotationState::North) => pick(i, (-1, 0), (0, 0), (1, 0), (1, 1)),
            (Piece::L, RotationState::East) => pick(i, (0, 1), (0, 0), (0, -1), (1, -1)),
            (Piece::L, RotationState::South) => pick(i, (1, 0), (0, 0), (-1, 0), (-1, -1)),
            (Piece::L, RotationState::West) => pick(i, (0, -1), (0, 0), (0, 1), (-1, 1)),
            (Piece::J, RotationState::North) => pick(i, (-1, 0), (0, 0), (1, 0), (-1, 1)),
            (Piece::J, RotationState::East) => pick(i, (0, 1), (0, 0), (0, -1), (1, 1)),
            (Piece::J, RotationState::South) => pick(i, (1, 0), (0, 0), (-1, 0), (1, -1)),
            (Piece::J, RotationState::West) => pick(i, (0, -1), (0, 0), (0, 1), (-1, -1)),
            (Piece::S, RotationState::North) => pick(i, (0, 0), (0, 1), (-1, 0), (1, 1)),
            (Piece::S, RotationState::East) => pick(i, (0, 0), (1, 0), (0, 1), (1, -1)),
            (Piece::S, RotationState::South) => pick(i, (0, -1), (0, 0), (-1, -1), (1, 0)),
            (Piece::S, RotationState::West) => pick(i, (-1, 0), (0, 0), (-1, 1), (0, -1)),
            (Piece::Z, RotationState::North) => pick(i, (0, 0), (0, 1), (-1, 1), (1, 0)),
            (Piece::Z, RotationState::East) => pick(i, (0, 0), (1, 0), (1, 1), (0, -1)),
            (Piece::Z, RotationState::South) => pick(i, (0, -1), (0, 0), (-1, 0), (1, -1)),
            (Piece::Z, RotationState::West) => pick(i, (-1, 0), (0, 0), (0, 1), (-1, -1)),
        }
    }

    /// Whether some cell of the shape lies at `at`, relative to the point the
    /// shape turns about.
    pub open spec fn covers(self, at: (int, int)) -> bool {
        at == self.offset(0) || at == self.offset(1) || at == self.offset(2) || at == self.offset(3)
    }

    /// Whether the `i`-th cell touches another cell of the shape on side `d`.
    pub open spec fn linked(self, i: int, d: Direction) -> bool {
        self.covers((self.offset(i).0 + d.delta().0, self.offset(i).1 + d.delta().1))
    }

    /// Turns the piece one quarter turn clockwise.
    pub fn cw(&mut self)
        ensures
            *final(self) == old(self).cw_spec(),
    {
        let mut r = self.1;
        r.cw();
        self.1 = r;
    }

    /// Turns the piece one quarter turn counter-clockwise.
    pub fn ccw(&mut self)
        ensures
            *final(self) == old(self).ccw_spec(),
    {
        let mut r = self.1;
        r.ccw();
        self.1 = r;
    }

    /// The four cells of this shape and orientation relative to the point
    /// the shape turns about, each with the sides on which it touches
    /// another cell of the shape.
    pub fn cells(&self) -> (cells: [(i32, i32, DirectionSet); 4])
        ensures
            cells@.len() == 4,
            forall|i: int|
                #![trigger cells[i]]
                0 <= i < 4 ==> cells[i].0 == self.offset(i).0 && cells[i].1 == self.offset(i).1,
            forall|i: int, d: Direction|
                0 <= i < 4 ==> #[trigger] cells[i].2.has(d) == self.linked(i, d),
    {
        let cells = match (self.0, self.1) {
            (Piece::I, RotationState::North) => [
                cell(-1, 0, false, false, false, true),
                cell(0, 0, false, false, true, true),
                cell(1, 0, false, false, true, true),
                cell(2, 0, false, false, true, false),
            ],
            (Piece::I, RotationState::East) => [
                cell(0, -1, true, false, false, false),
                cell(0, 0, true, true, false, false),
                cell(0, 1, true, true, false, false),
                cell(0, 2, false, true, false, false),
            ],
            (Piece::I, RotationState::South) => [
                cell(-2, 0, false, false, false, true),
                cell(-1, 0, false, false, true, true),
                cell(0, 0, false, false, true, true),
                cell(1, 0, false, false, true, false),
            ],
            (Piece::I, RotationState::West) => [
                cell(0, -2, true, false, false, false),
                cell(0, -1, true, true, false, false),
                cell(0, 0, true, true, false, false),
                cell(0, 1, false, true, false, false),
            ],
            (Piece::O, RotationState::North) => [
                cell(0, 0, true, false, false, true),
                cell(0, 1, false, true, false, true),
                cell(1, 0, true, false, true, false),
                cell(1, 1, false, true, true, false),
            ],
            (Piece::O, RotationState::East) => [
                cell(0, 0, false, true, false, true),
                cell(0, -1, true, false, false, true),
                cell(1, 0, false, true, true, false),
                cell(1, -1, true, false, true, false),
            ],
            (Piece::O, RotationState::South) => [
                cell(0, 0, false, true, true, false),
                cell(0, -1, true, false, true, false),
                cell(-1, 0, false, true, false, true),
                cell(-1, -1, true, false, false, true),
            ],
            (Piece::O, RotationState::West) => [
                cell(0, 0, true, false, true, false),
                cell(0, 1, false, true, true, false),
                cell(-1, 0, true, false, false, true),
                cell(-1, 1, false, true, false, true),
            ],
            (Piece::T, RotationState::North) => [
                cell(-1, 0, false, false, false, true),
                cell(0, 0, true, false, true, true),
                cell(1, 0, false, false, true, false),
                cell(0, 1, false, true, false, false),
            ],
            (Piece::T, RotationState::East) => [
                cell(0, 1, false, true, false, false),
                cell(0, 0, true, true, false, true),
                cell(0, -1, true, false, false, false),
                cell(1, 0, false, false, true, false),
            ],
            (Piece::T, RotationState::South) => [
                cell(1, 0, false, false, true, false),
                cell(0, 0, false, true, true, true),
                cell(-1, 0, false, false, false, true),
                cell(0, -1, true, false, false, false),
            ],
            (Piece::T, RotationState::West) => [
                cell(0, -1, true, false, false, false),
                cell(0, 0, true, true, true, false),
                cell(0, 1, false, true, false, false),
                cell(-1, 0, false, false, false, true),
            ],
            (Piece::L, RotationState::North) => [
                cell(-1, 0, false, false, false, true),
                cell(0, 0, false, false, true, true),
                cell(1, 0, true, false, true, false),
                cell(1, 1, false, true, false, false),
            ],
            (Piece::L, RotationState::East) => [
                cell(0, 1, false, true, false, false),
                cell(0, 0, true, true, false, false),
                cell(0, -1, true, false, false, true),
                cell(1, -1, false, false, true, false),
            ],
            (Piece::L, RotationState::South) => [
                cell(1, 0, false, false, true, false),
                cell(0, 0, false, false, true, true),
                cell(-1, 0, false, true, false, true),
                cell(-1, -1, true, false, false, false),
            ],
            (Piece::L, RotationState::West) => [
                cell(0, -1, true, false, false, false),
                cell(0, 0, true, true, false, false),
                cell(0, 1, false, true, true, false),
                cell(-1, 1, false, false, false, true),
            ],
            (Piece::J, RotationState::North) => [
                cell(-1, 0, true, false, false, true),
                cell(0, 0, false, false, true, true),
                cell(1, 0, false, false, true, false),
                cell(-1, 1, false, true, false, false),
            ],
            (Piece::J, RotationState::East) => [
                cell(0, 1, false, true, false, true),
                cell(0, 0, true, true, false, false),
                cell(0, -1, true, false, false, false),
                cell(1, 1, false, false, true, false),
            ],
            (Piece::J, RotationState::South) => [
                cell(1, 0, false, true, true, false),
                cell(0, 0, false, false, true, true),
                cell(-1, 0, false, false, false, true),
                cell(1, -1, true, false, false, false),
            ],
            (Piece::J, RotationState::West) => [
                cell(0, -1, true, false, true, false),
                cell(0, 0, true, true, false, false),
                cell(0, 1, false, true, false, false),
                cell(-1, -1, false, false, false, true),
            ],
            (Piece::S, RotationState::North) => [
                cell(0, 0, true, false, true, false),
                cell(0, 1, false, true, false, true),
                cell(-1, 0, false, false, false, true),
                cell(1, 1, false, false, true, false),
            ],
            (Piece::S, RotationState::East) => [
                cell(0, 0, true, false, false, true),
                cell(1, 0, false, true, true, false),
                cell(0, 1, false, true, false, false),
                cell(1, -1, true, false, false, false),
            ],
            (Piece::S, RotationState::South) => [
                cell(0, -1, true, false, true, false),
                cell(0, 0, false, true, false, true),
                cell(-1, -1, false, false, false, true),
                cell(1, 0, false, false, true, false),
            ],
            (Piece::S, RotationState::West) => [
                cell(-1, 0, true, false, false, true),
                cell(0, 0, false, true, true, false),
                cell(-1, 1, false, true, false, false),
                cell(0, -1, true, false, false, false),
            ],
            (Piece::Z, RotationState::North) => [
                cell(0, 0, true, false, false, true),
                cell(0, 1, false, true, true, false),
                cell(-1, 1, false, false, false, true),
                cell(1, 0, false, false, true, false),
            ],
            (Piece::Z, RotationState::East) => [
                cell(0, 0, false, true, false, true),
                cell(1, 0, true, false, true, false),
                cell(1, 1, false, true, false, false),
                cell(0, -1, true, false, false, false),
            ],
            (Piece::Z, RotationState::South) => [
                cell(0, -1, true, false, false, true),
                cell(0, 0, false, true, true, false),
                cell(-1, 0, false, false, false, true),
                cell(1, -1, false, false, true, false),
            ],
            (Piece::Z, RotationState::West) => [
                cell(-1, 0, false, true, false, true),
                cell(0, 0, true, false, true, false),
                cell(0, 1, false, true, false, false),
                cell(-1, -1, true, false, false, false),
            ],
        };
        cells
    }
}

/// Every cell of a shape lies within two columns and two rows of the point
/// the shape turns about.
pub proof fn lemma_offsets_bounded(kind: PieceState, i: int)
    requires
        0 <= i < 4,
    ensures
        -2 <= kind.offset(i).0 <= 2,
        -2 <= kind.offset(i).1 <= 2,
{
}

/// The four cells of a shape are four different cells.
pub proof fn lemma_offsets_distinct(kind: PieceState, i: int, j: int)
    requires
        0 <= i < j < 4,
    ensures
        kind.offset(i) != kind.offset(j),
{
}

/// A quarter turn clockwise and one counter-clockwise undo each other, and
/// four quarter turns in one direction give the first orientation again.
pub proof fn lemma_rotation_cycle(r: RotationState)
    ensures
        r.cw_spec().ccw_spec() == r,
        r.ccw_spec().cw_spec() == r,
        r.cw_spec().cw_spec().cw_spec().cw_spec() == r,
        r.ccw_spec().ccw_spec().ccw_spec().ccw_spec() == r,
        r.cw_spec() != r,
        r.ccw_spec() != r,
{
}

impl Piece {
    /// The letter that names the shape.
    pub open spec fn to_char_spec(self) -> char {
        match self {
            Piece::I => 'I',
            Piece::T => 'T',
            Piece::O => 'O',
            Piece::L => 'L',
            Piece::J => 'J',
            Piece::S => 'S',
            Piece::Z => 'Z',
        }
    }

    /// The shape that the letter `c` names, if it names one.
    pub open spec fn from_char_spec(c: char) -> Option<Piece> {
        if c == 'I' {
            Some(Piece::I)
        } else if c == 'T' {
            Some(Piece::T)
        } else if c == 'O' {
            Some(Piece::O)
        } else if c == 'L' {
            Some(Piece::L)
        } else if c == 'J' {
            Some(Piece::J)
        } else if c == 'S' {
            Some(Piece::S)
        } else if c == 'Z' {
            Some(Piece::Z)
        } else {
            None
        }
    }

    /// The colour of the cells that the shape leaves on the playfield.
    pub open spec fn color_spec(self) -> CellColor {
        match self {
            Piece::I => CellColor::I,
            Piece::T => CellColor::T,
            Piece::O => CellColor::O,
            Piece::L => CellColor::L,
            Piece::J => CellColor::J,
            Piece::S => CellColor::S,
            Piece::Z => CellColor::Z,
        }
    }

    /// The shape that a draw `n` from `0..7` stands for: I, T, O, L, J, S, Z
    /// in this order.
    pub open spec fn from_index_spec(n: int) -> Piece {
        if n == 0 {
            Piece::I
        } else if n == 1 {
            Piece::T
        } else if n == 2 {
            Piece::O
        } else if n == 3 {
            Piece::L
        } else if n == 4 {
            Piece::J
        } else if n == 5 {
            Piece::S
        } else {
            Piece::Z
        }
    }

    /// The letter that names the shape.
    pub fn to_char(self) -> (c: char)
        ensures
            c == self.to_char_spec(),
    {
        match self {
            Piece::I => 'I',
            Piece::T => 'T',
            Piece::O => 'O',
            Piece::L => 'L',
            Piece::J => 'J',
            Piece::S => 'S',
            Piece::Z => 'Z',
        }
    }

    /// The shape that the letter `c` names, if it names one.
    pub fn from_char(c: char) -> (piece: Option<Piece>)
        ensures
            piece == Piece::from_char_spec(c),
            match piece {
                Some(p) => p.to_char_spec() == c,
                None => forall|p: Piece| p.to_char_spec() != c,
            },
    {
        if c == 'I' {
            Some(Piece::I)
        } else if c == 'T' {
            Some(Piece::T)
        } else if c == 'O' {
            Some(Piece::O)
        } else if c == 'L' {
            Some(Piece::L)
        } else if c == 'J' {
            Some(Piece::J)
        } else if c == 'S' {
            Some(Piece::S)
        } else if c == 'Z' {
            Some(Piece::Z)
        } else {
            None
        }
    }

    /// The colour of the cells that the shape leaves on the playfield.
    pub fn color(self) -> (color: CellColor)
        ensures
            color == self.color_spec(),
    {
        match self {
            Piece::I => CellColor::I,
            Piece::T => CellColor::T,
            Piece::O => CellColor::O,
            Piece::L => CellColor::L,
            Piece::J => CellColor::J,
            Piece::S => CellColor::S,
            Piece::Z => CellColor::Z,
        }
    }

    /// The shape that a draw `n` from `0..7` stands for.
    pub fn from_index(n: u32) -> (piece: Piece)
        requires
            n < 7,
        ensures
            piece == Piece::from_index_spec(n as int),
    {
        match n {
            0 => Piece::I,
            1 => Piece::T,
            2 => Piece::O,
            3 => Piece::L,
            4 => Piece::J,
            5 => Piece::S,
            _ => Piece::Z,
        }
    }
}

} // verus!
