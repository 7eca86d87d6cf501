use libtetris::board::Board;
use libtetris::falling::FallingPiece;
use libtetris::moves::PieceMovement;
use libtetris::piece::{Direction, Piece, PieceState, RotationState, TspinStatus};

fn board_with(cells: &[(usize, usize)]) -> Board {
    let mut field = [[false; 10]; 40];
    for &(x, y) in cells {
        field[y][x] = true;
    }
    let mut board = Board::new();
    board.set_field(field);
    board
}

fn piece(p: Piece, r: RotationState, x: i32, y: i32, tspin: TspinStatus) -> FallingPiece {
    FallingPiece { kind: PieceState(p, r), x, y, tspin }
}

fn walk_down(board: &Board, from: FallingPiece) -> FallingPiece {
    let mut at = from;
    loop {
        let below = FallingPiece { y: at.y - 1, tspin: TspinStatus::NoSpin, ..at };
        if board.obstructed(&below) {
            return at;
        }
        at = below;
    }
}

#[test]
fn board_field_round_trip() {
    let mut field = [[false; 10]; 40];
    field[0][3] = true;
    field[39][9] = true;
    let mut board = Board::new();
    assert_eq!(board.get_field(), [[false; 10]; 40]);
    board.set_field(field);
    assert_eq!(board.get_field(), field);
}

#[test]
fn board_occupied_inside_and_outside() {
    let board = board_with(&[(3, 0)]);
    assert!(board.occupied(3, 0));
    assert!(!board.occupied(4, 0));
    assert!(!board.occupied(0, 39));
    assert!(board.occupied(-1, 0));
    assert!(board.occupied(10, 0));
    assert!(board.occupied(0, -1));
    assert!(board.occupied(0, 40));
    assert!(board.occupied(i32::MIN, i32::MAX));
}

#[test]
fn board_column_heights() {
    let board = board_with(&[(0, 0), (0, 5), (2, 39), (9, 0)]);
    assert_eq!(*board.column_heights(), [6, 0, 40, 0, 0, 0, 0, 0, 0, 1]);
    assert_eq!(*Board::new().column_heights(), [0; 10]);
}

#[test]
fn board_obstructed() {
    let board = board_with(&[(5, 0)]);
    assert!(board.obstructed(&piece(Piece::I, RotationState::North, 4, 0, TspinStatus::NoSpin)));
    assert!(!board.obstructed(&piece(Piece::I, RotationState::North, 4, 1, TspinStatus::NoSpin)));
    assert!(board.obstructed(&piece(Piece::I, RotationState::North, 0, 1, TspinStatus::NoSpin)));
    assert!(!board.obstructed(&piece(Piece::I, RotationState::North, 1, 1, TspinStatus::NoSpin)));
    assert!(!board.obstructed(&piece(Piece::I, RotationState::North, 7, 1, TspinStatus::NoSpin)));
    assert!(board.obstructed(&piece(Piece::I, RotationState::North, 8, 1, TspinStatus::NoSpin)));
    assert!(board.obstructed(&piece(Piece::I, RotationState::East, 4, 38, TspinStatus::NoSpin)));
    assert!(!board.obstructed(&piece(Piece::I, RotationState::East, 4, 37, TspinStatus::NoSpin)));
    assert!(board.obstructed(&piece(
        Piece::T,
        RotationState::North,
        i32::MAX,
        i32::MIN,
        TspinStatus::NoSpin
    )));
}

#[test]
fn spawn_on_an_empty_board_settles_in_row_19() {
    let board = Board::new();
    for p in [Piece::I, Piece::O, Piece::T, Piece::L, Piece::J, Piece::S, Piece::Z] {
        assert_eq!(
            FallingPiece::spawn(p, &board),
            Some(piece(p, RotationState::North, 4, 19, TspinStatus::NoSpin))
        );
    }
}

#[test]
fn spawn_stays_in_row_20_when_row_19_is_taken() {
    let board = board_with(&[(4, 19)]);
    assert_eq!(
        FallingPiece::spawn(Piece::T, &board),
        Some(piece(Piece::T, RotationState::North, 4, 20, TspinStatus::NoSpin))
    );
}

#[test]
fn spawn_fails_when_row_20_is_taken() {
    let board = board_with(&[(5, 20)]);
    assert_eq!(FallingPiece::spawn(Piece::T, &board), None);
    assert_eq!(FallingPiece::spawn(Piece::I, &board), None);
    let above = board_with(&[(4, 21)]);
    assert_eq!(FallingPiece::spawn(Piece::T, &above), None);
    assert_eq!(
        FallingPiece::spawn(Piece::I, &above),
        Some(piece(Piece::I, RotationState::North, 4, 19, TspinStatus::NoSpin))
    );
}

#[test]
fn falling_piece_cells_are_placed_on_the_board() {
    let p = piece(Piece::L, RotationState::North, 4, 19, TspinStatus::NoSpin);
    let cells = p.cells();
    let at: Vec<(i32, i32)> = cells.iter().map(|c| (c.0, c.1)).collect();
    assert_eq!(at, vec![(3, 19), (4, 19), (5, 19), (5, 20)]);
    assert!(cells[2].2.contains(Direction::Up));
    assert!(cells[2].2.contains(Direction::Left));
    assert!(!cells[2].2.contains(Direction::Right));
    assert!(cells[3].2.contains(Direction::Down));
}

#[test]
fn shift_moves_and_clears_the_spin() {
    let board = Board::new();
    let mut p = piece(Piece::T, RotationState::North, 4, 5, TspinStatus::Full);
    assert!(p.shift(&board, -1, 0));
    assert_eq!(p, piece(Piece::T, RotationState::North, 3, 5, TspinStatus::NoSpin));
    assert!(p.shift(&board, 2, -3));
    assert_eq!(p, piece(Piece::T, RotationState::North, 5, 2, TspinStatus::NoSpin));
}

#[test]
fn shift_that_fails_changes_nothing() {
    let board = board_with(&[(2, 5)]);
    let before = piece(Piece::T, RotationState::North, 4, 5, TspinStatus::Mini);
    let mut p = before;
    assert!(!p.shift(&board, -1, 0));
    assert_eq!(p, before);
    let mut at_wall = piece(Piece::T, RotationState::North, 8, 0, TspinStatus::PersistentFull);
    let kept = at_wall;
    assert!(!at_wall.shift(&board, 1, 0));
    assert_eq!(at_wall, kept);
    assert!(!at_wall.shift(&board, 0, -1));
    assert_eq!(at_wall, kept);
}

#[test]
fn shift_near_the_limits_of_the_coordinates_fails() {
    let board = Board::new();
    let before = piece(Piece::T, RotationState::North, i32::MAX, i32::MIN, TspinStatus::Full);
    let mut p = before;
    assert!(!p.shift(&board, 1, 0));
    assert_eq!(p, before);
    assert!(!p.shift(&board, 0, -1));
    assert_eq!(p, before);
    assert!(!p.shift(&board, i32::MAX, i32::MIN));
    assert_eq!(p, before);
}

#[test]
fn an_illegal_piece_can_shift_to_a_free_place() {
    let board = Board::new();
    let mut p = piece(Piece::O, RotationState::North, -1, 0, TspinStatus::Full);
    assert!(board.obstructed(&p));
    assert!(p.shift(&board, 1, 0));
    assert_eq!(p, piece(Piece::O, RotationState::North, 0, 0, TspinStatus::NoSpin));
}

#[test]
fn slide_goes_to_the_wall() {
    let board = Board::new();
    let mut p = piece(Piece::I, RotationState::North, 4, 19, TspinStatus::Full);
    assert!(p.slide(&board, -1, 0));
    assert_eq!(p, piece(Piece::I, RotationState::North, 1, 19, TspinStatus::NoSpin));
    assert!(!p.slide(&board, -1, 0));
    assert_eq!(p, piece(Piece::I, RotationState::North, 1, 19, TspinStatus::NoSpin));
    assert!(p.slide(&board, 1, 0));
    assert_eq!(p, piece(Piece::I, RotationState::North, 7, 19, TspinStatus::NoSpin));
    assert!(p.slide(&board, 0, -1));
    assert_eq!(p, piece(Piece::I, RotationState::North, 7, 0, TspinStatus::NoSpin));
}

#[test]
fn slide_stops_at_a_block() {
    let board = board_with(&[(1, 19)]);
    let mut p = piece(Piece::I, RotationState::North, 6, 19, TspinStatus::NoSpin);
    assert!(p.slide(&board, -1, 0));
    assert_eq!(p.x, 3);
}

#[test]
fn slide_by_nothing_is_no_move() {
    let board = Board::new();
    let before = piece(Piece::I, RotationState::North, 4, 19, TspinStatus::Full);
    let mut p = before;
    assert!(!p.slide(&board, 0, 0));
    assert_eq!(p, before);
}

#[test]
fn sonic_drop_on_an_empty_board() {
    let board = Board::new();
    let mut p = piece(Piece::T, RotationState::North, 4, 19, TspinStatus::Mini);
    assert!(p.sonic_drop(&board));
    assert_eq!(p, piece(Piece::T, RotationState::North, 4, 0, TspinStatus::NoSpin));
    let rest = p;
    assert!(!p.sonic_drop(&board));
    assert_eq!(p, rest);
}

#[test]
fn sonic_drop_lands_on_the_highest_stack_below() {
    let board = board_with(&[(3, 0), (3, 1), (3, 2), (5, 0)]);
    let mut p = piece(Piece::T, RotationState::North, 4, 19, TspinStatus::NoSpin);
    assert!(p.sonic_drop(&board));
    assert_eq!(p, piece(Piece::T, RotationState::North, 4, 3, TspinStatus::NoSpin));
    assert_eq!(p, walk_down(&board, piece(Piece::T, RotationState::North, 4, 19, TspinStatus::NoSpin)));
}

#[test]
fn sonic_drop_that_fails_keeps_the_spin() {
    let board = Board::new();
    let before = piece(Piece::T, RotationState::South, 4, 1, TspinStatus::Full);
    let mut p = before;
    assert!(!p.sonic_drop(&board));
    assert_eq!(p, before);
}

#[test]
fn sonic_drop_under_an_overhang_walks_down() {
    let board = board_with(&[(4, 10), (5, 10), (4, 0)]);
    let from = piece(Piece::O, RotationState::North, 4, 5, TspinStatus::Full);
    assert!(!board.obstructed(&from));
    let mut p = from;
    assert!(p.sonic_drop(&board));
    assert_eq!(p, piece(Piece::O, RotationState::North, 4, 1, TspinStatus::NoSpin));
    assert_eq!(p, walk_down(&board, from));
}

#[test]
fn sonic_drop_agrees_with_a_walk_down_from_every_legal_place() {
    let board = board_with(&[
        (0, 0), (1, 0), (2, 0), (2, 1), (2, 2), (3, 2), (4, 2), (6, 5), (7, 5), (7, 0), (9, 3),
        (8, 8), (5, 12),
    ]);
    let mut tried = 0;
    for p in [Piece::I, Piece::O, Piece::T, Piece::L, Piece::J, Piece::S, Piece::Z] {
        for r in
            [RotationState::North, RotationState::East, RotationState::South, RotationState::West]
        {
            for x in -2..12 {
                for y in -2..22 {
                    let from = piece(p, r, x, y, TspinStatus::Full);
                    if board.obstructed(&from) {
                        continue;
                    }
                    tried += 1;
                    let rest = walk_down(&board, from);
                    let mut dropped = from;
                    let fell = dropped.sonic_drop(&board);
                    assert_eq!(fell, rest.y < from.y);
                    if fell {
                        assert_eq!(dropped, rest);
                    } else {
                        assert_eq!(dropped, from);
                    }
                }
            }
        }
    }
    assert!(tried > 3000);
}

#[test]
fn sonic_drop_off_the_board_changes_nothing() {
    let board = Board::new();
    let before = piece(Piece::I, RotationState::North, 12, 5, TspinStatus::Mini);
    let mut p = before;
    assert!(!p.sonic_drop(&board));
    assert_eq!(p, before);
    let far = piece(Piece::I, RotationState::North, i32::MIN, i32::MIN, TspinStatus::Mini);
    let mut q = far;
    assert!(!q.sonic_drop(&board));
    assert_eq!(q, far);
}

#[test]
fn cw_in_the_open_takes_the_first_offset() {
    let board = Board::new();
    let mut p = piece(Piece::T, RotationState::North, 4, 10, TspinStatus::NoSpin);
    assert!(p.cw(&board));
    assert_eq!(p, piece(Piece::T, RotationState::East, 4, 10, TspinStatus::NoSpin));
    assert!(p.ccw(&board));
    assert_eq!(p, piece(Piece::T, RotationState::North, 4, 10, TspinStatus::NoSpin));
}

#[test]
fn rotation_keeps_the_spin_of_a_piece_that_can_still_move() {
    let board = Board::new();
    let mut p = piece(Piece::T, RotationState::North, 4, 10, TspinStatus::Mini);
    assert!(p.cw(&board));
    assert_eq!(p.tspin, TspinStatus::Mini);
}

#[test]
fn ccw_at_the_floor_is_kicked_up() {
    let board = Board::new();
    let mut p = piece(Piece::I, RotationState::North, 4, 0, TspinStatus::NoSpin);
    assert!(p.ccw(&board));
    assert_eq!(p, piece(Piece::I, RotationState::West, 4, 2, TspinStatus::NoSpin));
}

#[test]
fn cw_at_the_left_wall_takes_an_offset_to_the_right() {
    let board = Board::new();
    let mut p = piece(Piece::I, RotationState::East, 0, 5, TspinStatus::NoSpin);
    assert!(p.cw(&board));
    assert_eq!(p, piece(Piece::I, RotationState::South, 2, 5, TspinStatus::NoSpin));
}

#[test]
fn rotation_into_a_tight_slot_gives_a_full_spin() {
    let mut cells = Vec::new();
    for x in 0..10 {
        if x != 4 {
            cells.push((x, 0));
            cells.push((x, 1));
            cells.push((x, 2));
        }
    }
    let open = board_with(&cells);
    let mut q = piece(Piece::I, RotationState::North, 4, 3, TspinStatus::NoSpin);
    assert!(q.cw(&open));
    assert_eq!(q, piece(Piece::I, RotationState::East, 4, 3, TspinStatus::NoSpin));
    cells.push((4, 4));
    let board = board_with(&cells);
    let mut p = piece(Piece::I, RotationState::North, 4, 3, TspinStatus::NoSpin);
    assert!(p.cw(&board));
    assert_eq!(p, piece(Piece::I, RotationState::East, 4, 1, TspinStatus::Full));
    let mut stuck = p;
    assert!(!stuck.shift(&board, -1, 0));
    assert!(!stuck.shift(&board, 1, 0));
    assert!(!stuck.shift(&board, 0, -1));
    assert_eq!(stuck, p);
}

#[test]
fn rotation_that_finds_no_room_changes_nothing() {
    let mut cells = Vec::new();
    for x in 0..10 {
        for y in 0..8 {
            if !(y == 3 && (3..=6).contains(&x)) {
                cells.push((x, y));
            }
        }
    }
    let board = board_with(&cells);
    let before = piece(Piece::I, RotationState::North, 4, 3, TspinStatus::Mini);
    assert!(!board.obstructed(&before));
    let mut p = before;
    assert!(!p.cw(&board));
    assert_eq!(p, before);
    assert!(!p.ccw(&board));
    assert_eq!(p, before);
    assert!(p.rotate(PieceState(Piece::I, RotationState::South), &board, false));
    assert_eq!(p, piece(Piece::I, RotationState::South, 5, 3, TspinStatus::Full));
}

#[test]
fn rotate_turns_to_the_given_state() {
    let board = Board::new();
    let mut p = piece(Piece::L, RotationState::North, 4, 10, TspinStatus::NoSpin);
    assert!(p.rotate(PieceState(Piece::L, RotationState::South), &board, true));
    assert_eq!(p, piece(Piece::L, RotationState::South, 4, 10, TspinStatus::NoSpin));
}

#[test]
fn piece_movement_apply() {
    let board = Board::new();
    let mut p = piece(Piece::T, RotationState::North, 4, 19, TspinStatus::NoSpin);
    assert!(PieceMovement::Left.apply(&mut p, &board));
    assert_eq!(p.x, 3);
    assert!(PieceMovement::Right.apply(&mut p, &board));
    assert_eq!(p.x, 4);
    assert!(PieceMovement::Cw.apply(&mut p, &board));
    assert_eq!(p.kind, PieceState(Piece::T, RotationState::East));
    assert!(PieceMovement::Ccw.apply(&mut p, &board));
    assert_eq!(p.kind, PieceState(Piece::T, RotationState::North));
    assert!(PieceMovement::SonicDrop.apply(&mut p, &board));
    assert_eq!(p, piece(Piece::T, RotationState::North, 4, 0, TspinStatus::NoSpin));
    assert!(!PieceMovement::SonicDrop.apply(&mut p, &board));
    assert_eq!(p, piece(Piece::T, RotationState::North, 4, 0, TspinStatus::NoSpin));
}

#[test]
fn a_move_that_fails_leaves_the_piece_as_it_was() {
    let board = board_with(&[(0, 0), (9, 0), (4, 4), (5, 1), (3, 7)]);
    let moves = [
        PieceMovement::Left,
        PieceMovement::Right,
        PieceMovement::Cw,
        PieceMovement::Ccw,
        PieceMovement::SonicDrop,
    ];
    for p in [Piece::I, Piece::O, Piece::T, Piece::L, Piece::J, Piece::S, Piece::Z] {
        for r in
            [RotationState::North, RotationState::East, RotationState::South, RotationState::West]
        {
            for x in -3..13 {
                for y in -3..12 {
                    let before = piece(p, r, x, y, TspinStatus::Mini);
                    for mv in moves {
                        let mut after = before;
                        let moved = mv.apply(&mut after, &board);
                        assert_eq!(moved, after != before);
                        if moved {
                            match mv {
                                PieceMovement::Cw | PieceMovement::Ccw => {
                                    assert!(
                                        after.tspin == TspinStatus::Mini
                                            || after.tspin == TspinStatus::Full
                                    );
                                    let mut probe = after;
                                    let free = probe.shift(&board, -1, 0)
                                        || probe.shift(&board, 1, 0)
                                        || probe.shift(&board, 0, -1);
                                    assert_eq!(after.tspin == TspinStatus::Full, !free);
                                }
                                _ => assert_eq!(after.tspin, TspinStatus::NoSpin),
                            }
                        }
                    }
                }
            }
        }
    }
}
