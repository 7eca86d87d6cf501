use libtetris::kicks::{kick_offset, CCW_ROT, CW_ROT, KICKS};
use libtetris::piece::{
    CellColor, Direction, DirectionSet, Piece, PieceState, RotationState, TspinStatus,
};

const PIECES: [Piece; 7] = [Piece::I, Piece::O, Piece::T, Piece::L, Piece::J, Piece::S, Piece::Z];
const ROTATIONS: [RotationState; 4] =
    [RotationState::North, RotationState::East, RotationState::South, RotationState::West];
const SIDES: [(Direction, i32, i32); 4] = [
    (Direction::Up, 0, 1),
    (Direction::Down, 0, -1),
    (Direction::Left, -1, 0),
    (Direction::Right, 1, 0),
];

fn positions(kind: PieceState) -> Vec<(i32, i32)> {
    kind.cells().iter().map(|c| (c.0, c.1)).collect()
}

#[test]
fn rotation_state_cw_visits_all_four() {
    let mut r = RotationState::North;
    r.cw();
    assert_eq!(r, RotationState::East);
    r.cw();
    assert_eq!(r, RotationState::South);
    r.cw();
    assert_eq!(r, RotationState::West);
    r.cw();
    assert_eq!(r, RotationState::North);
}

#[test]
fn rotation_state_ccw_visits_all_four() {
    let mut r = RotationState::North;
    r.ccw();
    assert_eq!(r, RotationState::West);
    r.ccw();
    assert_eq!(r, RotationState::South);
    r.ccw();
    assert_eq!(r, RotationState::East);
    r.ccw();
    assert_eq!(r, RotationState::North);
}

#[test]
fn cw_and_ccw_undo_each_other() {
    for r in ROTATIONS {
        let mut s = r;
        s.cw();
        assert_ne!(s, r);
        s.ccw();
        assert_eq!(s, r);
    }
}

#[test]
fn piece_state_turns_keep_the_shape() {
    let mut s = PieceState(Piece::T, RotationState::West);
    s.cw();
    assert_eq!(s, PieceState(Piece::T, RotationState::North));
    s.ccw();
    s.ccw();
    assert_eq!(s, PieceState(Piece::T, RotationState::South));
}

#[test]
fn mini_tspin_corners_by_orientation() {
    assert_eq!(RotationState::North.mini_tspin_corners(), [(-1, 1), (1, 1)]);
    assert_eq!(RotationState::East.mini_tspin_corners(), [(1, 1), (1, -1)]);
    assert_eq!(RotationState::South.mini_tspin_corners(), [(1, -1), (-1, -1)]);
    assert_eq!(RotationState::West.mini_tspin_corners(), [(-1, -1), (-1, 1)]);
}

#[test]
fn non_mini_tspin_corners_by_orientation() {
    assert_eq!(RotationState::South.non_mini_tspin_corners(), [(-1, 1), (1, 1)]);
    assert_eq!(RotationState::West.non_mini_tspin_corners(), [(1, 1), (1, -1)]);
    assert_eq!(RotationState::North.non_mini_tspin_corners(), [(1, -1), (-1, -1)]);
    assert_eq!(RotationState::East.non_mini_tspin_corners(), [(-1, -1), (-1, 1)]);
}

#[test]
fn non_mini_corners_are_the_mini_corners_half_a_turn_away() {
    for r in ROTATIONS {
        let mut opposite = r;
        opposite.cw();
        opposite.cw();
        assert_eq!(r.non_mini_tspin_corners(), opposite.mini_tspin_corners());
    }
}

#[test]
fn cells_of_the_i_piece() {
    assert_eq!(
        positions(PieceState(Piece::I, RotationState::North)),
        vec![(-1, 0), (0, 0), (1, 0), (2, 0)]
    );
    assert_eq!(
        positions(PieceState(Piece::I, RotationState::East)),
        vec![(0, -1), (0, 0), (0, 1), (0, 2)]
    );
    assert_eq!(
        positions(PieceState(Piece::I, RotationState::South)),
        vec![(-2, 0), (-1, 0), (0, 0), (1, 0)]
    );
    assert_eq!(
        positions(PieceState(Piece::I, RotationState::West)),
        vec![(0, -2), (0, -1), (0, 0), (0, 1)]
    );
}

#[test]
fn cells_of_the_spawn_orientations() {
    assert_eq!(
        positions(PieceState(Piece::O, RotationState::North)),
        vec![(0, 0), (0, 1), (1, 0), (1, 1)]
    );
    assert_eq!(
        positions(PieceState(Piece::T, RotationState::North)),
        vec![(-1, 0), (0, 0), (1, 0), (0, 1)]
    );
    assert_eq!(
        positions(PieceState(Piece::L, RotationState::North)),
        vec![(-1, 0), (0, 0), (1, 0), (1, 1)]
    );
    assert_eq!(
        positions(PieceState(Piece::J, RotationState::North)),
        vec![(-1, 0), (0, 0), (1, 0), (-1, 1)]
    );
    assert_eq!(
        positions(PieceState(Piece::S, RotationState::North)),
        vec![(0, 0), (0, 1), (-1, 0), (1, 1)]
    );
    assert_eq!(
        positions(PieceState(Piece::Z, RotationState::North)),
        vec![(0, 0), (0, 1), (-1, 1), (1, 0)]
    );
}

#[test]
fn cells_of_other_orientations() {
    assert_eq!(
        positions(PieceState(Piece::T, RotationState::East)),
        vec![(0, 1), (0, 0), (0, -1), (1, 0)]
    );
    assert_eq!(
        positions(PieceState(Piece::S, RotationState::South)),
        vec![(0, -1), (0, 0), (-1, -1), (1, 0)]
    );
    assert_eq!(
        positions(PieceState(Piece::Z, RotationState::West)),
        vec![(-1, 0), (0, 0), (0, 1), (-1, -1)]
    );
    assert_eq!(
        positions(PieceState(Piece::O, RotationState::South)),
        vec![(0, 0), (0, -1), (-1, 0), (-1, -1)]
    );
}

#[test]
fn every_shape_has_four_different_cells_near_its_centre() {
    for p in PIECES {
        for r in ROTATIONS {
            let cells = positions(PieceState(p, r));
            assert_eq!(cells.len(), 4);
            for (i, a) in cells.iter().enumerate() {
                assert!(-2 <= a.0 && a.0 <= 2 && -2 <= a.1 && a.1 <= 2);
                for b in cells.iter().skip(i + 1) {
                    assert_ne!(a, b);
                }
            }
        }
    }
}

#[test]
fn a_side_is_marked_exactly_if_a_cell_of_the_shape_lies_there() {
    for p in PIECES {
        for r in ROTATIONS {
            let kind = PieceState(p, r);
            let cells = kind.cells();
            let at = positions(kind);
            for c in cells.iter() {
                for (side, dx, dy) in SIDES {
                    assert_eq!(c.2.contains(side), at.contains(&(c.0 + dx, c.1 + dy)));
                }
            }
        }
    }
}

#[test]
fn sides_of_the_t_piece() {
    let cells = PieceState(Piece::T, RotationState::North).cells();
    assert_eq!(cells[0].2, DirectionSet { up: false, down: false, left: false, right: true });
    assert_eq!(cells[1].2, DirectionSet { up: true, down: false, left: true, right: true });
    assert_eq!(cells[2].2, DirectionSet { up: false, down: false, left: true, right: false });
    assert_eq!(cells[3].2, DirectionSet { up: false, down: true, left: false, right: false });
}

#[test]
fn direction_set_contains() {
    let set = DirectionSet { up: true, down: false, left: false, right: true };
    assert!(set.contains(Direction::Up));
    assert!(!set.contains(Direction::Down));
    assert!(!set.contains(Direction::Left));
    assert!(set.contains(Direction::Right));
}

#[test]
fn piece_letters() {
    let letters = ['I', 'O', 'T', 'L', 'J', 'S', 'Z'];
    for (p, c) in PIECES.iter().zip(letters.iter()) {
        assert_eq!(p.to_char(), *c);
        assert_eq!(Piece::from_char(*c), Some(*p));
    }
    assert_eq!(Piece::from_char('i'), None);
    assert_eq!(Piece::from_char(' '), None);
    assert_eq!(Piece::from_char('X'), None);
}

#[test]
fn piece_colors() {
    assert_eq!(Piece::I.color(), CellColor::I);
    assert_eq!(Piece::O.color(), CellColor::O);
    assert_eq!(Piece::T.color(), CellColor::T);
    assert_eq!(Piece::L.color(), CellColor::L);
    assert_eq!(Piece::J.color(), CellColor::J);
    assert_eq!(Piece::S.color(), CellColor::S);
    assert_eq!(Piece::Z.color(), CellColor::Z);
}

#[test]
fn piece_from_index_follows_the_draw_order() {
    let order = [Piece::I, Piece::T, Piece::O, Piece::L, Piece::J, Piece::S, Piece::Z];
    for (n, p) in order.iter().enumerate() {
        assert_eq!(Piece::from_index(n as u32), *p);
    }
}

#[test]
fn spin_statuses_differ() {
    assert_ne!(TspinStatus::NoSpin, TspinStatus::Mini);
    assert_ne!(TspinStatus::Full, TspinStatus::PersistentFull);
}

#[test]
fn kick_tables() {
    let ccw = [
        (0, 0), (1, 0), (0, -1), (1, -1), (0, -2), (1, -2), (2, 0), (2, -1), (2, -2), (-1, 0),
        (-1, -1), (0, 1), (1, 1), (2, 1), (-1, -2), (-2, 0), (0, 2), (1, 2), (2, 2), (-2, -1),
        (-2, -2), (-1, 1),
    ];
    let cw = [
        (0, 0), (-1, 0), (0, -1), (-1, -1), (0, -2), (-1, -2), (-2, 0), (-2, -1), (-2, -2),
        (1, 0), (1, -1), (0, 1), (-1, 1), (-2, 1), (1, -2), (2, 0), (0, 2), (-1, 2), (-2, 2),
        (2, -1), (2, -2), (1, 1),
    ];
    assert_eq!(KICKS, 22);
    assert_eq!(CCW_ROT, ccw);
    assert_eq!(CW_ROT, cw);
    for i in 0..22 {
        assert_eq!(kick_offset(true, i), ccw[i]);
        assert_eq!(kick_offset(false, i), cw[i]);
        assert_eq!(cw[i], (-ccw[i].0, ccw[i].1));
    }
}
