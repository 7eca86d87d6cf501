//! The offsets that a turning piece tries, in order, to find room.

use vstd::prelude::*;

verus! {

/// The number of offsets that a turning piece tries.
pub const KICKS: usize = 22;

/// The offsets that a piece turning counter-clockwise tries, in order:
/// columns to the right, rows up. The same offsets serve every shape and
/// every orientation.
pub const CCW_ROT: [(i32, i32); 22] = [
    (0, 0), (1, 0), (0, -1), (1, -1), (0, -2), (1, -2),
    (2, 0), (2, -1), (2, -2), (-1, 0), (-1, -1), (0, 1),
    (1, 1), (2, 1), (-1, -2), (-2, 0), (0, 2), (1, 2),
    (2, 2), (-2, -1), (-2, -2), (-1, 1),
];

/// The offsets that a piece turning clockwise tries, in order.
pub const CW_ROT: [(i32, i32); 22] = [
    (0, 0), (-1, 0), (0, -1), (-1, -1), (0, -2), (-1, -2),
    (-2, 0), (-2, -1), (-2, -2), (1, 0), (1, -1), (0, 1),
    (-1, 1), (-2, 1), (1, -2), (2, 0), (0, 2), (-1, 2),
    (-2, 2), (2, -1), (2, -2), (1, 1),
];

/// The `i`-th offset (`0 <= i < 22`) that a turning piece tries.
pub open spec fn kick(is_ccw: bool, i: int) -> (int, int) {
    if is_ccw {
        (CCW_ROT[i].0 as int, CCW_ROT[i].1 as int)
    } else {
        (CW_ROT[i].0 as int, CW_ROT[i].1 as int)
    }
}

/// The `i`-th offset that a turning piece tries.
pub fn kick_offset(is_ccw: bool, i: usize) -> (offset: (i32, i32))
    requires
        i < KICKS,
    ensures
        (offset.0 as int, offset.1 as int) == kick(is_ccw, i as int),
        -2 <= offset.0 <= 2,
        -2 <= offset.1 <= 2,
{
    proof {
        lemma_kicks(i as int);
    }
    if is_ccw {
        CCW_ROT[i]
    } else {
        CW_ROT[i]
    }
}

/// No offset moves a piece by more than two columns or two rows; the first
/// offset moves it not at all; and the offsets for a clockwise turn mirror
/// those for a counter-clockwise turn left to right.
pub proof fn lemma_kicks(i: int)
    requires
        0 <= i < 22,
    ensures
        -2 <= kick(true, i).0 <= 2,
        -2 <= kick(true, i).1 <= 2,
        -2 <= kick(false, i).0 <= 2,
        -2 <= kick(false, i).1 <= 2,
        kick(true, 0) == (0int, 0int),
        kick(false, 0) == (0int, 0int),
        kick(false, i) == (-kick(true, i).0, kick(true, i).1),
{
}

} // verus!
