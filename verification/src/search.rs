//! The search for the best path between two placements.

use std::collections::{HashMap, VecDeque};
use vstd::prelude::*;
use crate::board::{Board, Field};
use crate::falling::{lemma_free_placement_in_range, FallingPiece};
use crate::frontier::{
    frontier, lemma_frontier_exhausted, lemma_frontier_found, lemma_frontier_new,
    lemma_frontier_next, lemma_frontier_seen, lemma_frontier_start,
};
use crate::moves::DasPieceMovement;
use crate::path::{
    best_path, is_best_path, lemma_best_path_unique, reachable, reaches, trim_drops,
};
use crate::piece::{RotationState, TspinStatus};

verus! {

/// The number of placements that a piece of one shape can have on or next to
/// the playfield: 14 columns, 44 rows, 4 orientations and 4 spins.
const PLACEMENTS: u64 = 9856;

spec fn rotation_code(r: RotationState) -> int {
    match r {
        RotationState::North => 0,
        RotationState::East => 1,
        RotationState::South => 2,
        RotationState::West => 3,
    }
}

spec fn spin_code(t: TspinStatus) -> int {
    match t {
        TspinStatus::NoSpin => 0,
        TspinStatus::Mini => 1,
        TspinStatus::Full => 2,
        TspinStatus::PersistentFull => 3,
    }
}

/// Whether the piece lies on or next to the playfield.
spec fn in_range(p: FallingPiece) -> bool {
    -2 <= p.x <= 11 && -2 <= p.y <= 41
}

/// The number under which the search files a piece that lies on or next to
/// the playfield. Pieces of one shape have different numbers.
spec fn key_of(p: FallingPiece) -> int {
    (((p.x + 2) * 44 + (p.y + 2)) * 4 + rotation_code(p.kind.1)) * 4 + spin_code(p.tspin)
}

proof fn lemma_key_injective(a: FallingPiece, b: FallingPiece)
    requires
        in_range(a),
        in_range(b),
        a.kind.0 == b.kind.0,
        key_of(a) == key_of(b),
    ensures
        a == b,
{
}

fn node_key(p: &FallingPiece) -> (key: u64)
    requires
        in_range(*p),
    ensures
        key == key_of(*p),
        key < PLACEMENTS,
{
    let r: u64 = match p.kind.1 {
        RotationState::North => 0,
        RotationState::East => 1,
        RotationState::South => 2,
        RotationState::West => 3,
    };
    let t: u64 = match p.tspin {
        TspinStatus::NoSpin => 0,
        TspinStatus::Mini => 1,
        TspinStatus::Full => 2,
        TspinStatus::PersistentFull => 3,
    };
    let x: u64 = (p.x + 2) as u64;
    let y: u64 = (p.y + 2) as u64;
    ((x * 44 + y) * 4 + r) * 4 + t
}

/// How the table of the search records the paths: every piece found but the
/// start is filed under its number, with the piece it was found from and the
/// input that led from there to it; and nothing else is filed.
spec fn links(
    start: FallingPiece,
    table: Map<u64, (FallingPiece, DasPieceMovement)>,
    paths: Map<FallingPiece, Seq<DasPieceMovement>>,
) -> bool {
    &&& forall|n: FallingPiece| #[trigger]
        paths.contains_key(n) && n != start ==> {
            &&& in_range(n)
            &&& n.kind.0 == start.kind.0
            &&& table.contains_key(key_of(n) as u64)
            &&& paths.contains_key(table[key_of(n) as u64].0)
            &&& paths[n] == paths[table[key_of(n) as u64].0].push(table[key_of(n) as u64].1)
        }
    &&& forall|n: FallingPiece|
        in_range(n) && n.kind.0 == start.kind.0 && table.contains_key(#[trigger] key_of(n) as u64)
            ==> paths.contains_key(n) && n != start
    &&& forall|key: u64| #[trigger] table.contains_key(key) ==> key < PLACEMENTS
}

proof fn lemma_links_insert(
    start: FallingPiece,
    table: Map<u64, (FallingPiece, DasPieceMovement)>,
    paths: Map<FallingPiece, Seq<DasPieceMovement>>,
    cur: FallingPiece,
    mv: DasPieceMovement,
    child: FallingPiece,
)
    requires
        links(start, table, paths),
        paths.contains_key(cur),
        !paths.contains_key(child),
        child != start,
        in_range(child),
        child.kind.0 == start.kind.0,
    ensures
        links(
            start,
            table.insert(key_of(child) as u64, (cur, mv)),
            paths.insert(child, paths[cur].push(mv)),
        ),
{
    let key = key_of(child) as u64;
    let table2 = table.insert(key, (cur, mv));
    let paths2 = paths.insert(child, paths[cur].push(mv));
    assert forall|n: FallingPiece| #[trigger] paths2.contains_key(n) && n != start implies {
        &&& in_range(n)
        &&& n.kind.0 == start.kind.0
        &&& table2.contains_key(key_of(n) as u64)
        &&& paths2.contains_key(table2[key_of(n) as u64].0)
        &&& paths2[n] == paths2[table2[key_of(n) as u64].0].push(table2[key_of(n) as u64].1)
    } by {
        if n != child {
            if key_of(n) == key_of(child) {
                lemma_key_injective(n, child);
            }
        }
    }
    assert forall|n: FallingPiece|
        in_range(n) && n.kind.0 == start.kind.0 && table2.contains_key(
            #[trigger] key_of(n) as u64,
        ) implies paths2.contains_key(n) && n != start by {
        if key_of(n) as u64 == key {
            lemma_key_injective(n, child);
        }
    }
}

/// A finite set of numbers below `cap` has at most `cap` members.
proof fn lemma_bounded_set(s: Set<u64>, cap: u64)
    requires
        s.finite(),
        forall|k: u64| s.contains(k) ==> k < cap,
    ensures
        s.len() <= cap,
    decreases cap,
{
    if cap == 0 {
        assert(s =~= Set::empty());
    } else {
        let top = (cap - 1) as u64;
        lemma_bounded_set(s.remove(top), top);
    }
}

/// The inputs in `rev`, last first.
spec fn backwards(rev: Seq<DasPieceMovement>) -> Seq<DasPieceMovement> {
    Seq::new(rev.len(), |i: int| rev[rev.len() - 1 - i])
}

/// The path recorded for `from`, followed by `last`.
fn trace_back(
    table: &HashMap<u64, (FallingPiece, DasPieceMovement)>,
    start: FallingPiece,
    from: FallingPiece,
    last: DasPieceMovement,
    Ghost(paths): Ghost<Map<FallingPiece, Seq<DasPieceMovement>>>,
) -> (path: Vec<DasPieceMovement>)
    requires
        links(start, table@, paths),
        paths.contains_key(from),
        paths.contains_key(start),
        paths[start] == Seq::<DasPieceMovement>::empty(),
    ensures
        path@ == paths[from].push(last),
{
    let mut rev: Vec<DasPieceMovement> = Vec::new();
    rev.push(last);
    let mut node = from;
    while node != start
        invariant
            links(start, table@, paths),
            paths.contains_key(node),
            paths.contains_key(start),
            paths[start] == Seq::<DasPieceMovement>::empty(),
            paths[from].push(last) == paths[node] + backwards(rev@),
        decreases paths[node].len(),
    {
        let key = node_key(&node);
        let link = match table.get(&key) {
            Some(link) => *link,
            None => vstd::pervasive::unreached(),
        };
        rev.push(link.1);
        node = link.0;
    }
    let mut path: Vec<DasPieceMovement> = Vec::new();
    let mut i: usize = rev.len();
    while i > 0
        invariant
            i <= rev.len(),
            path@.len() == rev.len() - i,
            forall|j: int| 0 <= j < path@.len() ==> path@[j] == backwards(rev@)[j],
        decreases i,
    {
        i -= 1;
        path.push(rev[i]);
    }
    path
}

/// Removes the drops at the end of the path.
pub fn trim_trailing_drops(path: &mut Vec<DasPieceMovement>)
    ensures
        final(path)@ == trim_drops(old(path)@),
{
    while path.len() > 0 && path[path.len() - 1] == DasPieceMovement::SonicDrop
        invariant
            trim_drops(path@) == trim_drops(old(path)@),
        decreases path.len(),
    {
        path.pop();
    }
}

/// Finds the best path from `start` to `target`: a shortest sequence of
/// inputs that turns `start` into exactly `target`, and among the shortest
/// the one that has the earlier input wherever two of them first differ.
/// There is none exactly if no sequence of inputs takes `start` to `target`.
pub fn find_path(board: &Board, start: FallingPiece, target: FallingPiece) -> (path: Option<
    Vec<DasPieceMovement>,
>)
    ensures
        match path {
            Some(p) => best_path(board@, start, target) == Some(p@),
            None => best_path(board@, start, target) is None,
        },
        path matches Some(p) ==> is_best_path(board@, start, target, p@),
        path is None ==> !reachable(board@, start, target),
{
    if start == target {
        let path: Vec<DasPieceMovement> = Vec::new();
        proof {
            lemma_best_path_unique(board@, start, target, path@, path@);
        }
        return Some(path);
    }
    let ghost mut paths = Map::<FallingPiece, Seq<DasPieceMovement>>::empty().insert(
        start,
        Seq::<DasPieceMovement>::empty(),
    );
    let mut table: HashMap<u64, (FallingPiece, DasPieceMovement)> = HashMap::new();
    let mut queue: VecDeque<FallingPiece> = VecDeque::new();
    let mut cur = start;
    proof {
        lemma_frontier_start(board@, start, target);
    }
    loop
        invariant
            start != target,
            frontier(board@, start, target, paths, queue@, cur, 0),
            links(start, table@, paths),
        decreases PLACEMENTS - table@.dom().len(), queue@.len(),
    {
        let ghost found_before = table@.dom().len();
        let ghost waiting_before = queue@.len();
        let mut k: usize = 0;
        while k < 7
            invariant
                k <= 7,
                start != target,
                frontier(board@, start, target, paths, queue@, cur, k as int),
                links(start, table@, paths),
                table@.dom().len() >= found_before,
                table@.dom().len() == found_before ==> queue@.len() == waiting_before,
            decreases 7 - k,
        {
            let mv = DasPieceMovement::nth(k);
            let mut child = cur;
            let moved = mv.apply(&mut child, board);
            if moved {
                if child == target {
                    let path = trace_back(&table, start, cur, mv, Ghost(paths));
                    proof {
                        lemma_frontier_found(board@, start, target, paths, queue@, cur, k as int);
                        lemma_best_path_unique(board@, start, target, path@, path@);
                    }
                    return Some(path);
                }
                if child == start {
                    proof {
                        lemma_frontier_seen(board@, start, target, paths, queue@, cur, k as int);
                    }
                } else {
                    proof {
                        lemma_free_placement_in_range(
                            board@,
                            child.kind,
                            child.x as int,
                            child.y as int,
                        );
                    }
                    let key = node_key(&child);
                    if table.contains_key(&key) {
                        proof {
                            lemma_frontier_seen(
                                board@,
                                start,
                                target,
                                paths,
                                queue@,
                                cur,
                                k as int,
                            );
                        }
                    } else {
                        proof {
                            lemma_frontier_new(board@, start, target, paths, queue@, cur, k as int);
                            lemma_links_insert(start, table@, paths, cur, mv, child);
                            paths = paths.insert(child, paths[cur].push(mv));
                        }
                        table.insert(key, (cur, mv));
                        queue.push_back(child);
                    }
                }
            } else {
                proof {
                    lemma_frontier_seen(board@, start, target, paths, queue@, cur, k as int);
                }
            }
            k += 1;
        }
        proof {
            lemma_bounded_set(table@.dom(), PLACEMENTS as u64);
        }
        let ghost waiting = queue@;
        match queue.pop_front() {
            Some(next) => {
                proof {
                    lemma_frontier_next(board@, start, target, paths, waiting, cur);
                }
                cur = next;
            },
            None => {
                proof {
                    assert forall|t: Seq<DasPieceMovement>|
                        !reaches(board@, start, t, target) by {
                        lemma_frontier_exhausted(board@, start, target, paths, queue@, cur, t);
                    }
                }
                return None;
            },
        }
    }
}

/// Finds the best path from `start` to `target`. With `trim`, for a caller
/// that drops the piece itself at the end, the drops at the end of the path
/// are left out.
pub fn search(board: &Board, start: FallingPiece, target: FallingPiece, trim: bool) -> (path:
    Option<Vec<DasPieceMovement>>)
    ensures
        match path {
            Some(p) => best_path(board@, start, target) matches Some(full) && p@ == (if trim {
                trim_drops(full)
            } else {
                full
            }),
            None => best_path(board@, start, target) is None,
        },
{
    match find_path(board, start, target) {
        Some(full) => {
            let mut path = full;
            if trim {
                trim_trailing_drops(&mut path);
            }
            Some(path)
        },
        None => None,
    }
}

/// Finds the best path from `start` to `target` on the playfield with the
/// cells `field`, for a caller that drops the piece itself at the end: the
/// drops at the end of the path are left out.
pub fn find_das_path(field: Field, start: FallingPiece, target: FallingPiece) -> (path: Option<
    Vec<DasPieceMovement>,
>)
    ensures
        match path {
            Some(p) => best_path(field, start, target) matches Some(full) && p@ == trim_drops(
                full,
            ),
            None => best_path(field, start, target) is None,
        },
{
    let mut board = Board::new();
    board.set_field(field);
    search(&board, start, target, true)
}

} // verus!
