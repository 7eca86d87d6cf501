//! What the path search knows while it runs, and why each of its steps
//! keeps that knowledge sound.

use vstd::prelude::*;
use crate::board::Field;
use crate::falling::FallingPiece;
use crate::moves::{replay, DasPieceMovement};
use crate::path::{
    is_best_path, lemma_rank_injective, lemma_rank_push, lemma_replay_push, rank, reaches,
};

verus! {

/// Whether the path `t` ends at a piece that the search has found, and the
/// path recorded for that piece comes no later than `t`.
pub open spec fn covered(
    field: Field,
    start: FallingPiece,
    paths: Map<FallingPiece, Seq<DasPieceMovement>>,
    t: Seq<DasPieceMovement>,
) -> bool {
    let end = replay(field, start, t);
    paths.contains_key(end) && rank(paths[end]) <= rank(t)
}

/// The state of a search from `start` for `target` that is about to give
/// the input with code `k` to the piece `cur`. `paths` records, for every
/// piece found so far, the path by which it was found; `queue` holds the
/// pieces that still wait for their inputs.
///
/// Every path that comes before `paths[cur]` followed by input `k` ends at a
/// piece that has been found, by a path that comes no later; and the pieces
/// in the queue are those found by paths that come after `paths[cur]`, in
/// this order.
pub open spec fn frontier(
    field: Field,
    start: FallingPiece,
    target: FallingPiece,
    paths: Map<FallingPiece, Seq<DasPieceMovement>>,
    queue: Seq<FallingPiece>,
    cur: FallingPiece,
    k: int,
) -> bool {
    let here = rank(paths[cur]);
    let pos = 7 * here + k + 1;
    &&& 0 <= k <= 7
    &&& paths.contains_key(start)
    &&& paths[start] == Seq::<DasPieceMovement>::empty()
    &&& paths.contains_key(cur)
    &&& !paths.contains_key(target)
    &&& forall|n: FallingPiece| #[trigger]
        paths.contains_key(n) ==> replay(field, start, paths[n]) == n && rank(paths[n]) < pos
    &&& forall|t: Seq<DasPieceMovement>| rank(t) < pos ==> #[trigger] covered(field, start, paths, t)
    &&& forall|i: int|
        0 <= i < queue.len() ==> paths.contains_key(#[trigger] queue[i]) && rank(paths[queue[i]])
            > here
    &&& forall|i: int, j: int|
        0 <= i < j < queue.len() ==> rank(paths[#[trigger] queue[i]]) < rank(
            paths[#[trigger] queue[j]],
        )
    &&& forall|n: FallingPiece| #[trigger]
        paths.contains_key(n) && rank(paths[n]) > here ==> queue.contains(n)
}

/// A path whose rank is that of `prefix` followed by the input with code
/// `k` is that path.
proof fn lemma_rank_names_path(t: Seq<DasPieceMovement>, prefix: Seq<DasPieceMovement>, k: int)
    requires
        0 <= k < 7,
        rank(t) == 7 * rank(prefix) + k + 1,
    ensures
        t == prefix.push(DasPieceMovement::from_code(k)),
{
    lemma_rank_push(prefix, DasPieceMovement::from_code(k));
    lemma_rank_injective(t, prefix.push(DasPieceMovement::from_code(k)));
}

/// A search that has only its start is in a sound state.
pub proof fn lemma_frontier_start(field: Field, start: FallingPiece, target: FallingPiece)
    requires
        start != target,
    ensures
        frontier(
            field,
            start,
            target,
            Map::empty().insert(start, Seq::<DasPieceMovement>::empty()),
            Seq::empty(),
            start,
            0,
        ),
{
    let paths = Map::<FallingPiece, Seq<DasPieceMovement>>::empty().insert(
        start,
        Seq::<DasPieceMovement>::empty(),
    );
    assert forall|t: Seq<DasPieceMovement>| rank(t) < 1 implies #[trigger] covered(
        field,
        start,
        paths,
        t,
    ) by {
        assert(t.len() == 0);
    }
}

/// The input with code `k` took `cur` to a piece that the search had found:
/// the search may go on to the next input.
pub proof fn lemma_frontier_seen(
    field: Field,
    start: FallingPiece,
    target: FallingPiece,
    paths: Map<FallingPiece, Seq<DasPieceMovement>>,
    queue: Seq<FallingPiece>,
    cur: FallingPiece,
    k: int,
)
    requires
        frontier(field, start, target, paths, queue, cur, k),
        k < 7,
        paths.contains_key(DasPieceMovement::from_code(k).applied(cur, field)),
    ensures
        frontier(field, start, target, paths, queue, cur, k + 1),
{
    let mv = DasPieceMovement::from_code(k);
    let child = mv.applied(cur, field);
    let pos = 7 * rank(paths[cur]) + k + 1;
    assert forall|t: Seq<DasPieceMovement>| rank(t) < pos + 1 implies #[trigger] covered(
        field,
        start,
        paths,
        t,
    ) by {
        if rank(t) == pos {
            lemma_rank_names_path(t, paths[cur], k);
            lemma_replay_push(field, start, paths[cur], mv);
        }
    }
}

/// The input with code `k` took `cur` to a piece, not the target, that the
/// search had not found: once the piece is recorded and queued, the search
/// may go on to the next input.
pub proof fn lemma_frontier_new(
    field: Field,
    start: FallingPiece,
    target: FallingPiece,
    paths: Map<FallingPiece, Seq<DasPieceMovement>>,
    queue: Seq<FallingPiece>,
    cur: FallingPiece,
    k: int,
)
    requires
        frontier(field, start, target, paths, queue, cur, k),
        k < 7,
        !paths.contains_key(DasPieceMovement::from_code(k).applied(cur, field)),
        DasPieceMovement::from_code(k).applied(cur, field) != target,
    ensures
        frontier(
            field,
            start,
            target,
            paths.insert(
                DasPieceMovement::from_code(k).applied(cur, field),
                paths[cur].push(DasPieceMovement::from_code(k)),
            ),
            queue.push(DasPieceMovement::from_code(k).applied(cur, field)),
            cur,
            k + 1,
        ),
{
    let mv = DasPieceMovement::from_code(k);
    let child = mv.applied(cur, field);
    let pos = 7 * rank(paths[cur]) + k + 1;
    let paths2 = paths.insert(child, paths[cur].push(mv));
    let queue2 = queue.push(child);
    lemma_rank_push(paths[cur], mv);
    lemma_replay_push(field, start, paths[cur], mv);
    assert forall|t: Seq<DasPieceMovement>| rank(t) < pos + 1 implies #[trigger] covered(
        field,
        start,
        paths2,
        t,
    ) by {
        if rank(t) == pos {
            lemma_rank_names_path(t, paths[cur], k);
        } else {
            assert(covered(field, start, paths, t));
        }
    }
    assert forall|n: FallingPiece| #[trigger]
        paths2.contains_key(n) && rank(paths2[n]) > rank(paths2[cur]) implies queue2.contains(
        n,
    ) by {
        if n == child {
            assert(queue2[queue.len() as int] == child);
        } else {
            assert(queue.contains(n));
            let i = choose|i: int| 0 <= i < queue.len() && queue[i] == n;
            assert(queue2[i] == n);
        }
    }
    assert forall|i: int| 0 <= i < queue2.len() implies paths2.contains_key(#[trigger] queue2[i])
        && rank(paths2[queue2[i]]) > rank(paths2[cur]) by {
        if i < queue.len() {
            assert(queue2[i] == queue[i]);
        }
    }
    assert forall|i: int, j: int| 0 <= i < j < queue2.len() implies rank(
        paths2[#[trigger] queue2[i]],
    ) < rank(paths2[#[trigger] queue2[j]]) by {
        assert(queue2[i] == queue[i]);
        if j < queue.len() {
            assert(queue2[j] == queue[j]);
        }
    }
}

/// The input with code `k` took `cur` to the target: the path recorded for
/// `cur`, followed by that input, is the best path.
pub proof fn lemma_frontier_found(
    field: Field,
    start: FallingPiece,
    target: FallingPiece,
    paths: Map<FallingPiece, Seq<DasPieceMovement>>,
    queue: Seq<FallingPiece>,
    cur: FallingPiece,
    k: int,
)
    requires
        frontier(field, start, target, paths, queue, cur, k),
        k < 7,
        DasPieceMovement::from_code(k).applied(cur, field) == target,
    ensures
        is_best_path(field, start, target, paths[cur].push(DasPieceMovement::from_code(k))),
{
    let mv = DasPieceMovement::from_code(k);
    let pos = 7 * rank(paths[cur]) + k + 1;
    lemma_rank_push(paths[cur], mv);
    lemma_replay_push(field, start, paths[cur], mv);
    assert forall|other: Seq<DasPieceMovement>| #[trigger]
        reaches(field, start, other, target) implies rank(paths[cur].push(mv)) <= rank(other) by {
        if rank(other) < pos {
            assert(covered(field, start, paths, other));
        }
    }
}

/// All inputs have been given to `cur`: the search may go on with the first
/// piece of the queue.
pub proof fn lemma_frontier_next(
    field: Field,
    start: FallingPiece,
    target: FallingPiece,
    paths: Map<FallingPiece, Seq<DasPieceMovement>>,
    queue: Seq<FallingPiece>,
    cur: FallingPiece,
)
    requires
        frontier(field, start, target, paths, queue, cur, 7),
        queue.len() > 0,
    ensures
        frontier(field, start, target, paths, queue.subrange(1, queue.len() as int), queue[0], 0),
{
    let next = queue[0];
    let rest = queue.subrange(1, queue.len() as int);
    let here = rank(paths[cur]);
    let there = rank(paths[next]);
    assert(paths.contains_key(next) && there > here);
    assert forall|t: Seq<DasPieceMovement>| rank(t) < 7 * there + 1 implies #[trigger] covered(
        field,
        start,
        paths,
        t,
    ) by {
        if rank(t) >= 7 * here + 8 {
            let u = t.drop_last();
            let mv = t.last();
            assert(t =~= u.push(mv));
            assert(here < rank(u) < there);
            assert(covered(field, start, paths, u));
            let w = replay(field, start, u);
            if rank(paths[w]) > here {
                assert(queue.contains(w));
                let i = choose|i: int| 0 <= i < queue.len() && queue[i] == w;
                if i > 0 {
                    assert(rank(paths[queue[0]]) < rank(paths[queue[i]]));
                }
                assert(false);
            }
            let v = paths[w].push(mv);
            lemma_rank_push(paths[w], mv);
            lemma_replay_push(field, start, paths[w], mv);
            lemma_replay_push(field, start, u, mv);
            assert(covered(field, start, paths, v));
        }
    }
    assert forall|i: int| 0 <= i < rest.len() implies paths.contains_key(#[trigger] rest[i])
        && rank(paths[rest[i]]) > there by {
        assert(rest[i] == queue[i + 1]);
    }
    assert forall|i: int, j: int| 0 <= i < j < rest.len() implies rank(paths[#[trigger] rest[i]])
        < rank(paths[#[trigger] rest[j]]) by {
        assert(rest[i] == queue[i + 1]);
        assert(rest[j] == queue[j + 1]);
    }
    assert forall|n: FallingPiece| #[trigger]
        paths.contains_key(n) && rank(paths[n]) > there implies rest.contains(n) by {
        assert(queue.contains(n));
        let i = choose|i: int| 0 <= i < queue.len() && queue[i] == n;
        assert(i > 0);
        assert(rest[i - 1] == n);
    }
}

/// All inputs have been given to `cur` and no piece waits: every piece that
/// can be reached has been found, and the target is not among them.
pub proof fn lemma_frontier_exhausted(
    field: Field,
    start: FallingPiece,
    target: FallingPiece,
    paths: Map<FallingPiece, Seq<DasPieceMovement>>,
    queue: Seq<FallingPiece>,
    cur: FallingPiece,
    t: Seq<DasPieceMovement>,
)
    requires
        frontier(field, start, target, paths, queue, cur, 7),
        queue.len() == 0,
    ensures
        paths.contains_key(replay(field, start, t)),
        !reaches(field, start, t, target),
    decreases t.len(),
{
    if t.len() > 0 {
        let u = t.drop_last();
        let mv = t.last();
        assert(t =~= u.push(mv));
        lemma_frontier_exhausted(field, start, target, paths, queue, cur, u);
        let w = replay(field, start, u);
        if rank(paths[w]) > rank(paths[cur]) {
            assert(queue.contains(w));
        }
        let v = paths[w].push(mv);
        lemma_rank_push(paths[w], mv);
        lemma_replay_push(field, start, paths[w], mv);
        lemma_replay_push(field, start, u, mv);
        assert(covered(field, start, paths, v));
    }
}

} // verus!
