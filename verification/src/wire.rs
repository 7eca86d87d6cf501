//! What a caller on the other side of a process boundary hands in and gets
//! back: rows packed into integers, a target spelled in codes, and a path
//! spelled in characters.

use vstd::prelude::*;
use crate::board::{filled, Board, Field};
use crate::falling::FallingPiece;
use crate::moves::DasPieceMovement;
use crate::path::best_path;
use crate::piece::{Piece, PieceState, RotationState, TspinStatus};
use crate::search::find_path;

verus! {

/// The greatest number of inputs of a path that can be handed back.
pub const PATH_CAPACITY: usize = 32;

/// Why no answer could be given.
#[derive(Copy, Clone, Debug, Hash, Eq, PartialEq, Structural)]
pub enum PathError {
    /// The character names no shape.
    UnknownPiece,
    /// The code names no orientation.
    UnknownRotation,
    /// The character names no spin.
    UnknownSpin,
    /// There are more rows than the playfield has.
    TooManyRows,
    /// The path has more inputs than can be handed back.
    PathTooLong,
}

/// Whether the row `row`, packed into an integer, has its cell in column `x`
/// filled: bit `x` of the integer is set.
pub open spec fn row_bit(row: i32, x: int) -> bool {
    row & (1i32 << x) != 0
}

/// Whether `field` holds the cells that `rows` pack. The rows come top row
/// first and the last of them is row 0 of the playfield; the rows of the
/// playfield above them are empty.
pub open spec fn unpacks(rows: Seq<i32>, field: Field) -> bool {
    forall|x: int, y: int|
        0 <= x < 10 && 0 <= y < 40 ==> #[trigger] filled(field, x, y) == (y < rows.len()
            && row_bit(rows[rows.len() - 1 - y], x))
}

/// The orientation that the code `code` stands for.
pub open spec fn rotation_of(code: int) -> Option<RotationState> {
    if code == 0 {
        Some(RotationState::North)
    } else if code == 1 {
        Some(RotationState::East)
    } else if code == 2 {
        Some(RotationState::South)
    } else if code == 3 {
        Some(RotationState::West)
    } else {
        None
    }
}

/// The spin that the character `c` stands for.
pub open spec fn spin_of(c: char) -> Option<TspinStatus> {
    if c == ' ' {
        Some(TspinStatus::NoSpin)
    } else if c == 't' {
        Some(TspinStatus::Mini)
    } else if c == 'T' {
        Some(TspinStatus::Full)
    } else if c == '+' {
        Some(TspinStatus::PersistentFull)
    } else {
        None
    }
}

/// The piece that the codes spell, or the first of them that spells
/// nothing: the shape is looked at first, then the orientation, then the
/// spin.
pub open spec fn target_of(piece: char, x: i32, y: i32, rot: i32, tspin: char) -> Result<
    FallingPiece,
    PathError,
> {
    match Piece::from_char_spec(piece) {
        None => Err(PathError::UnknownPiece),
        Some(shape) => match rotation_of(rot as int) {
            None => Err(PathError::UnknownRotation),
            Some(rotation) => match spin_of(tspin) {
                None => Err(PathError::UnknownSpin),
                Some(spin) => Ok(FallingPiece { kind: PieceState(shape, rotation), x, y, tspin: spin }),
            },
        },
    }
}

/// The bytes that spell `path`: one character for each input, in order, and
/// a zero byte at the end.
pub open spec fn spelled(path: Seq<DasPieceMovement>) -> Seq<u8> {
    Seq::new(path.len() + 1, |i: int| if i < path.len() { path[i].to_char_spec() as u8 } else { 0u8 })
}

/// What is handed back for the best path from where the shape of `target`
/// enters the playfield `field` to `target`: nothing if the shape cannot
/// enter or cannot come to `target`, an error if the path is too long, else
/// the bytes that spell it.
pub open spec fn answer(field: Field, target: FallingPiece) -> Result<Option<Seq<u8>>, PathError> {
    match FallingPiece::spawned(target.kind.0, field) {
        None => Ok(None),
        Some(start) => match best_path(field, start, target) {
            None => Ok(None),
            Some(path) => if path.len() > PATH_CAPACITY {
                Err(PathError::PathTooLong)
            } else {
                Ok(Some(spelled(path)))
            },
        },
    }
}

/// What `bytes` holds, with the bytes as a sequence.
pub open spec fn spelling_of(bytes: Result<Option<Vec<u8>>, PathError>) -> Result<
    Option<Seq<u8>>,
    PathError,
> {
    match bytes {
        Ok(Some(b)) => Ok(Some(b@)),
        Ok(None) => Ok(None),
        Err(e) => Err(e),
    }
}

/// The orientation that the code `code` stands for.
pub fn rotation_from_code(code: i32) -> (rotation: Option<RotationState>)
    ensures
        rotation == rotation_of(code as int),
{
    match code {
        0 => Some(RotationState::North),
        1 => Some(RotationState::East),
        2 => Some(RotationState::South),
        3 => Some(RotationState::West),
        _ => None,
    }
}

/// The spin that the character `c` stands for.
pub fn spin_from_char(c: char) -> (spin: Option<TspinStatus>)
    ensures
        spin == spin_of(c),
{
    if c == ' ' {
        Some(TspinStatus::NoSpin)
    } else if c == 't' {
        Some(TspinStatus::Mini)
    } else if c == 'T' {
        Some(TspinStatus::Full)
    } else if c == '+' {
        Some(TspinStatus::PersistentFull)
    } else {
        None
    }
}

/// The piece that the codes spell.
pub fn decode_target(piece: char, x: i32, y: i32, rot: i32, tspin: char) -> (target: Result<
    FallingPiece,
    PathError,
>)
    ensures
        target == target_of(piece, x, y, rot, tspin),
{
    let shape = match Piece::from_char(piece) {
        Some(shape) => shape,
        None => {
            return Err(PathError::UnknownPiece);
        },
    };
    let rotation = match rotation_from_code(rot) {
        Some(rotation) => rotation,
        None => {
            return Err(PathError::UnknownRotation);
        },
    };
    let spin = match spin_from_char(tspin) {
        Some(spin) => spin,
        None => {
            return Err(PathError::UnknownSpin);
        },
    };
    Ok(FallingPiece { kind: PieceState(shape, rotation), x, y, tspin: spin })
}

/// The cells that `rows` pack, if there are no more rows than the playfield
/// has.
pub fn field_from_rows(rows: &[i32]) -> (field: Option<Field>)
    ensures
        field is Some <==> rows@.len() <= 40,
        field matches Some(f) ==> unpacks(rows@, f),
{
    let count = rows.len();
    if count > 40 {
        return None;
    }
    let mut field: Field = [[false; 10]; 40];
    let mut y: usize = 0;
    while y < count
        invariant
            y <= count,
            count == rows@.len(),
            count <= 40,
            forall|c: int, r: int|
                0 <= c < 10 && 0 <= r < 40 ==> #[trigger] filled(field, c, r) == (r < y && row_bit(
                    rows@[count - 1 - r],
                    c,
                )),
        decreases count - y,
    {
        let packed = rows[count - 1 - y];
        let mut row: [bool; 10] = [false; 10];
        let mut x: u32 = 0;
        while x < 10
            invariant
                x <= 10,
                forall|c: int| 0 <= c < x ==> #[trigger] row[c] == row_bit(packed, c),
            decreases 10 - x,
        {
            row[x as usize] = (packed & (1i32 << x)) != 0;
            x += 1;
        }
        let ghost before = field;
        field[y] = row;
        proof {
            assert forall|c: int, r: int| 0 <= c < 10 && 0 <= r < 40 implies #[trigger] filled(
                field,
                c,
                r,
            ) == (r < y + 1 && row_bit(rows@[count - 1 - r], c)) by {
                if r != y {
                    assert(filled(field, c, r) == filled(before, c, r));
                }
            }
        }
        y += 1;
    }
    Some(field)
}

/// The bytes that spell `path`, if it has no more inputs than can be handed
/// back.
pub fn encode_path(path: &Vec<DasPieceMovement>) -> (bytes: Result<Vec<u8>, PathError>)
    ensures
        match bytes {
            Ok(b) => path@.len() <= PATH_CAPACITY && b@ == spelled(path@),
            Err(e) => path@.len() > PATH_CAPACITY && e == PathError::PathTooLong,
        },
{
    if path.len() > PATH_CAPACITY {
        return Err(PathError::PathTooLong);
    }
    let mut bytes: Vec<u8> = Vec::new();
    let mut i: usize = 0;
    while i < path.len()
        invariant
            i <= path.len(),
            bytes@.len() == i,
            forall|j: int| 0 <= j < i ==> bytes@[j] == path@[j].to_char_spec() as u8,
        decreases path.len() - i,
    {
        bytes.push(path[i].to_char() as u8);
        i += 1;
    }
    bytes.push(0);
    Ok(bytes)
}

/// Answers a request that comes in codes: finds the best path from where
/// the shape enters the playfield to the piece that the codes spell, and
/// spells it in bytes.
pub fn spawn_path(rows: &[i32], piece: char, x: i32, y: i32, rot: i32, tspin: char) -> (bytes:
    Result<Option<Vec<u8>>, PathError>)
    ensures
        match target_of(piece, x, y, rot, tspin) {
            Err(e) => spelling_of(bytes) == Err::<Option<Seq<u8>>, PathError>(e),
            Ok(target) => if rows@.len() > 40 {
                spelling_of(bytes) == Err::<Option<Seq<u8>>, PathError>(PathError::TooManyRows)
            } else {
                exists|field: Field|
                    unpacks(rows@, field) && spelling_of(bytes) == answer(field, target)
            },
        },
{
    let target = match decode_target(piece, x, y, rot, tspin) {
        Ok(target) => target,
        Err(e) => {
            return Err(e);
        },
    };
    let field = match field_from_rows(rows) {
        Some(field) => field,
        None => {
            return Err(PathError::TooManyRows);
        },
    };
    let mut board = Board::new();
    board.set_field(field);
    let bytes = match FallingPiece::spawn(target.kind.0, &board) {
        None => Ok(None),
        Some(start) => match find_path(&board, start, target) {
            None => Ok(None),
            Some(path) => match encode_path(&path) {
                Ok(bytes) => Ok(Some(bytes)),
                Err(e) => Err(e),
            },
        },
    };
    assert(unpacks(rows@, field) && spelling_of(bytes) == answer(field, target));
    bytes
}

} // verus!
