//! Paths: sequences of inputs, the order in which the search prefers them,
//! and what it means for a path to be the best one.

use vstd::prelude::*;
use crate::board::Field;
use crate::falling::FallingPiece;
use crate::moves::{replay, DasPieceMovement};

verus! {

/// The place of a path in the order of preference. A shorter path comes
/// before a longer one; of two paths of one length, the one that has the
/// earlier input at the first place where they differ comes first (inputs
/// compared by `code`). The empty path has rank 0.
pub open spec fn rank(path: Seq<DasPieceMovement>) -> nat
    decreases path.len(),
{
    if path.len() == 0 {
        0
    } else {
        (7 * rank(path.drop_last()) + path.last().code() + 1) as nat
    }
}

/// The least rank of a path of `len` inputs.
pub open spec fn least_rank(len: nat) -> nat
    decreases len,
{
    if len == 0 {
        0
    } else {
        7 * least_rank((len - 1) as nat) + 1
    }
}

/// Whether the inputs `path` take `start` to `target`.
pub open spec fn reaches(
    field: Field,
    start: FallingPiece,
    path: Seq<DasPieceMovement>,
    target: FallingPiece,
) -> bool {
    replay(field, start, path) == target
}

/// Whether some sequence of inputs takes `start` to `target`.
pub open spec fn reachable(field: Field, start: FallingPiece, target: FallingPiece) -> bool {
    exists|path: Seq<DasPieceMovement>| reaches(field, start, path, target)
}

/// Whether `path` takes `start` to `target` and no path that does so comes
/// before it in the order of preference.
pub open spec fn is_best_path(
    field: Field,
    start: FallingPiece,
    target: FallingPiece,
    path: Seq<DasPieceMovement>,
) -> bool {
    &&& reaches(field, start, path, target)
    &&& forall|other: Seq<DasPieceMovement>| #[trigger]
        reaches(field, start, other, target) ==> rank(path) <= rank(other)
}

/// The best path from `start` to `target`, if `target` can be reached.
pub open spec fn best_path(field: Field, start: FallingPiece, target: FallingPiece) -> Option<
    Seq<DasPieceMovement>,
> {
    if exists|path: Seq<DasPieceMovement>| is_best_path(field, start, target, path) {
        Some(choose|path: Seq<DasPieceMovement>| is_best_path(field, start, target, path))
    } else {
        None
    }
}

/// The path without the drops at its end.
pub open spec fn trim_drops(path: Seq<DasPieceMovement>) -> Seq<DasPieceMovement>
    decreases path.len(),
{
    if path.len() > 0 && path.last() == DasPieceMovement::SonicDrop {
        trim_drops(path.drop_last())
    } else {
        path
    }
}

/// The number of drops at the end of the path.
pub open spec fn trailing_drops(path: Seq<DasPieceMovement>) -> nat
    decreases path.len(),
{
    if path.len() > 0 && path.last() == DasPieceMovement::SonicDrop {
        1 + trailing_drops(path.drop_last())
    } else {
        0
    }
}

/// The rank of a path with one more input at its end.
pub proof fn lemma_rank_push(path: Seq<DasPieceMovement>, mv: DasPieceMovement)
    ensures
        rank(path.push(mv)) == 7 * rank(path) + mv.code() + 1,
{
    assert(path.push(mv).drop_last() =~= path);
}

/// The piece after a path with one more input at its end.
pub proof fn lemma_replay_push(
    field: Field,
    start: FallingPiece,
    path: Seq<DasPieceMovement>,
    mv: DasPieceMovement,
)
    ensures
        replay(field, start, path.push(mv)) == mv.applied(replay(field, start, path), field),
{
    assert(path.push(mv).drop_last() =~= path);
}

/// Two different paths have different ranks.
pub proof fn lemma_rank_injective(a: Seq<DasPieceMovement>, b: Seq<DasPieceMovement>)
    requires
        rank(a) == rank(b),
    ensures
        a == b,
    decreases a.len(),
{
    if a.len() > 0 && b.len() > 0 {
        lemma_rank_injective(a.drop_last(), b.drop_last());
        assert(b =~= b.drop_last().push(b.last()));
    }
}

/// The ranks of the paths of one length lie between the least rank of that
/// length and the least rank of the next.
pub proof fn lemma_rank_bounds(path: Seq<DasPieceMovement>)
    ensures
        least_rank(path.len()) <= rank(path) < least_rank(path.len() + 1),
    decreases path.len(),
{
    if path.len() > 0 {
        lemma_rank_bounds(path.drop_last());
    }
}

/// A longer path has a greater least rank.
pub proof fn lemma_least_rank_monotonic(a: nat, b: nat)
    requires
        a <= b,
    ensures
        least_rank(a) <= least_rank(b),
    decreases b,
{
    if a < b {
        lemma_least_rank_monotonic(a, (b - 1) as nat);
    }
}

/// A shorter path comes before a longer one.
pub proof fn lemma_rank_respects_length(a: Seq<DasPieceMovement>, b: Seq<DasPieceMovement>)
    requires
        a.len() < b.len(),
    ensures
        rank(a) < rank(b),
{
    lemma_rank_bounds(a);
    lemma_rank_bounds(b);
    lemma_least_rank_monotonic(a.len() + 1, b.len());
}

/// Of two paths of one length, the one with the earlier input at the first
/// place where they differ comes first.
pub proof fn lemma_rank_first_difference(
    a: Seq<DasPieceMovement>,
    b: Seq<DasPieceMovement>,
    at: int,
)
    requires
        a.len() == b.len(),
        0 <= at < a.len(),
        a.take(at) == b.take(at),
        a[at].code() < b[at].code(),
    ensures
        rank(a) < rank(b),
    decreases a.len(),
{
    if at == a.len() - 1 {
    } else {
        assert(a.drop_last().take(at) =~= a.take(at));
        assert(b.drop_last().take(at) =~= b.take(at));
        lemma_rank_first_difference(a.drop_last(), b.drop_last(), at);
    }
}

/// A best path is one that reaches the target.
pub proof fn lemma_best_path_reaches(field: Field, start: FallingPiece, target: FallingPiece)
    requires
        best_path(field, start, target) is Some,
    ensures
        replay(field, start, best_path(field, start, target).unwrap()) == target,
{
}

/// No path that reaches the target is shorter than the best path.
pub proof fn lemma_best_path_shortest(
    field: Field,
    start: FallingPiece,
    target: FallingPiece,
    other: Seq<DasPieceMovement>,
)
    requires
        reaches(field, start, other, target),
    ensures
        best_path(field, start, target) matches Some(best) && best.len() <= other.len(),
{
    lemma_best_path_exists(field, start, target, other);
    let best = best_path(field, start, target).unwrap();
    if other.len() < best.len() {
        lemma_rank_respects_length(other, best);
    }
}

/// There is at most one best path: what the search returns is determined by
/// the playfield, the start and the target.
pub proof fn lemma_best_path_unique(
    field: Field,
    start: FallingPiece,
    target: FallingPiece,
    a: Seq<DasPieceMovement>,
    b: Seq<DasPieceMovement>,
)
    requires
        is_best_path(field, start, target, a),
        is_best_path(field, start, target, b),
    ensures
        a == b,
        best_path(field, start, target) == Some(a),
{
    lemma_rank_injective(a, b);
    let chosen = choose|path: Seq<DasPieceMovement>| is_best_path(field, start, target, path);
    lemma_rank_injective(a, chosen);
}

/// A target that some path reaches has a best path.
pub proof fn lemma_best_path_exists(
    field: Field,
    start: FallingPiece,
    target: FallingPiece,
    witness: Seq<DasPieceMovement>,
)
    requires
        reaches(field, start, witness, target),
    ensures
        best_path(field, start, target) is Some,
    decreases rank(witness),
{
    if !is_best_path(field, start, target, witness) {
        let better = choose|other: Seq<DasPieceMovement>|
            reaches(field, start, other, target) && rank(other) < rank(witness);
        lemma_best_path_exists(field, start, target, better);
    }
}

/// There is a best path exactly if the target can be reached.
pub proof fn lemma_best_path_iff_reachable(field: Field, start: FallingPiece, target: FallingPiece)
    ensures
        best_path(field, start, target) is Some <==> reachable(field, start, target),
{
    if reachable(field, start, target) {
        let witness = choose|path: Seq<DasPieceMovement>| reaches(field, start, path, target);
        lemma_best_path_exists(field, start, target, witness);
    }
}

/// A path is what is left of it without the drops at its end, followed by
/// as many drops as it has at its end; what is left does not end in a drop.
pub proof fn lemma_trim_drops(path: Seq<DasPieceMovement>)
    ensures
        trim_drops(path) == path.take(path.len() - trailing_drops(path)),
        trailing_drops(path) <= path.len(),
        forall|i: int|
            path.len() - trailing_drops(path) <= i < path.len() ==> path[i]
                == DasPieceMovement::SonicDrop,
        trim_drops(path).len() > 0 ==> trim_drops(path).last() != DasPieceMovement::SonicDrop,
    decreases path.len(),
{
    if path.len() > 0 && path.last() == DasPieceMovement::SonicDrop {
        lemma_trim_drops(path.drop_last());
        assert forall|i: int| path.len() - trailing_drops(path) <= i < path.len() implies path[i]
            == DasPieceMovement::SonicDrop by {
            if i < path.len() - 1 {
                assert(path[i] == path.drop_last()[i]);
            }
        }
    }
}

/// A run of drops at the end of a path does what one drop does.
pub proof fn lemma_trailing_drops_collapse(
    field: Field,
    start: FallingPiece,
    path: Seq<DasPieceMovement>,
)
    requires
        trailing_drops(path) > 0,
    ensures
        replay(field, start, path) == replay(
            field,
            start,
            trim_drops(path).push(DasPieceMovement::SonicDrop),
        ),
    decreases path.len(),
{
    let before = path.drop_last();
    assert(path =~= before.push(DasPieceMovement::SonicDrop));
    if trailing_drops(before) > 0 {
        lemma_trailing_drops_collapse(field, start, before);
        lemma_replay_push(field, start, trim_drops(before), DasPieceMovement::SonicDrop);
        crate::falling::lemma_slid(field, replay(field, start, trim_drops(before)), 0, -1);
    }
}

/// The path without the drops at its end, followed by one drop, takes the
/// piece where the whole path takes it, if the whole path ends in a drop or
/// ends at a piece that rests.
pub proof fn lemma_trimmed_path_then_drop(
    field: Field,
    start: FallingPiece,
    target: FallingPiece,
    path: Seq<DasPieceMovement>,
)
    requires
        reaches(field, start, path, target),
        trailing_drops(path) > 0 || DasPieceMovement::SonicDrop.applied(target, field) == target,
    ensures
        reaches(field, start, trim_drops(path).push(DasPieceMovement::SonicDrop), target),
{
    if trailing_drops(path) > 0 {
        lemma_trailing_drops_collapse(field, start, path);
    } else {
        lemma_replay_push(field, start, path, DasPieceMovement::SonicDrop);
    }
}

/// No input of a best path leaves the piece as it was.
pub proof fn lemma_best_path_has_no_idle_input(
    field: Field,
    start: FallingPiece,
    target: FallingPiece,
    path: Seq<DasPieceMovement>,
    at: int,
)
    requires
        is_best_path(field, start, target, path),
        0 <= at < path.len(),
    ensures
        replay(field, start, path.take(at + 1)) != replay(field, start, path.take(at)),
{
    if replay(field, start, path.take(at + 1)) == replay(field, start, path.take(at)) {
        let shorter = path.take(at) + path.skip(at + 1);
        lemma_replay_append(field, start, path.take(at + 1), path.skip(at + 1));
        lemma_replay_append(field, start, path.take(at), path.skip(at + 1));
        assert(path.take(at + 1) + path.skip(at + 1) =~= path);
        assert(reaches(field, start, shorter, target));
        lemma_rank_respects_length(shorter, path);
    }
}

/// Replaying two paths one after the other is replaying the second from
/// where the first ends.
pub proof fn lemma_replay_append(
    field: Field,
    start: FallingPiece,
    a: Seq<DasPieceMovement>,
    b: Seq<DasPieceMovement>,
)
    ensures
        replay(field, start, a + b) == replay(field, replay(field, start, a), b),
    decreases b.len(),
{
    if b.len() > 0 {
        lemma_replay_append(field, start, a, b.drop_last());
        assert((a + b).drop_last() =~= a + b.drop_last());
    }
}

} // verus!
