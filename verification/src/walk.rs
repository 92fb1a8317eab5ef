//! The greedy walk from one cell of the grid toward another.
//!
//! A walk moves one hex step at a time. From the current cell it scores each
//! neighbor the grid holds by its offset distance `|dx| + |dy|` to the
//! target, and moves to the neighbor with the lowest score, the first of them
//! in the order of the directions where several share it. It ends on the
//! target, or after `2R + 1` steps.

use crate::grid::{in_footprint, neighbors_of, neighbors_upto, HexGrid, MAX_RADIUS};
use crate::position::{gap, Position};
use vstd::prelude::*;

verus! {

/// The first of the first `count` candidates that no other of them beats by
/// its offset distance to `target`.
pub open spec fn closest_among(candidates: Seq<Position>, target: Position, count: int) -> Option<
    Position,
>
    decreases count,
{
    if count <= 0 {
        None
    } else {
        let last = candidates[count - 1];
        match closest_among(candidates, target, count - 1) {
            Some(best) => if last.offset_distance(target) < best.offset_distance(target) {
                Some(last)
            } else {
                Some(best)
            },
            None => Some(last),
        }
    }
}

/// The cell a walk at `cur` moves to; `None` where `cur` has no neighbor.
pub open spec fn next_step(radius: u32, cur: Position, target: Position) -> Option<Position> {
    let around = neighbors_of(radius, cur);
    closest_among(around, target, around.len() as int)
}

/// The most steps a walk takes.
pub open spec fn step_limit(radius: u32) -> nat {
    (2 * radius + 1) as nat
}

/// The cells a walk from `cur` steps onto, in order, with `fuel` steps left.
pub open spec fn walk(radius: u32, cur: Position, target: Position, fuel: nat) -> Seq<Position>
    decreases fuel,
{
    if fuel == 0 || cur == target {
        Seq::empty()
    } else {
        match next_step(radius, cur, target) {
            Some(next) => seq![next] + walk(radius, next, target, (fuel - 1) as nat),
            None => Seq::empty(),
        }
    }
}

/// The cells that the walk from `start` toward `target` steps onto, in order.
/// `start` itself is not among them; `target` is the last, where the walk
/// arrives.
pub open spec fn path_between(radius: u32, start: Position, target: Position) -> Seq<Position> {
    walk(radius, start, target, step_limit(radius))
}

/// What `closest_among` picks: one of the candidates, with the lowest score,
/// and before every other candidate of that score.
pub proof fn lemma_closest_is_first_minimum(
    candidates: Seq<Position>,
    target: Position,
    count: int,
)
    requires
        0 <= count <= candidates.len(),
    ensures
        closest_among(candidates, target, count) is Some <==> count > 0,
        closest_among(candidates, target, count) matches Some(best) ==> exists|at: int|
            0 <= at < count && candidates[at] == best && (forall|i: int|
                0 <= i < count ==> best.offset_distance(target) <= (
                #[trigger] candidates[i]).offset_distance(target)) && (forall|i: int|
                0 <= i < at ==> best.offset_distance(target) < (
                #[trigger] candidates[i]).offset_distance(target)),
    decreases count,
{
    if count > 0 {
        lemma_closest_is_first_minimum(candidates, target, count - 1);
        let last = candidates[count - 1];
        match closest_among(candidates, target, count - 1) {
            Some(before) => {
                let w = choose|at: int|
                    0 <= at < count - 1 && candidates[at] == before && (forall|i: int|
                        0 <= i < count - 1 ==> before.offset_distance(target) <= (
                        #[trigger] candidates[i]).offset_distance(target)) && (forall|i: int|
                        0 <= i < at ==> before.offset_distance(target) < (
                        #[trigger] candidates[i]).offset_distance(target));
                let best = closest_among(candidates, target, count)->0;
                let at = if last.offset_distance(target) < before.offset_distance(target) {
                    count - 1
                } else {
                    w
                };
                assert(0 <= at < count && candidates[at] == best && (forall|i: int|
                    0 <= i < count ==> best.offset_distance(target) <= (
                    #[trigger] candidates[i]).offset_distance(target)) && (forall|i: int|
                    0 <= i < at ==> best.offset_distance(target) < (
                    #[trigger] candidates[i]).offset_distance(target)));
            },
            None => {
                let best = last;
                let at = count - 1;
                assert(0 <= at < count && candidates[at] == best && (forall|i: int|
                    0 <= i < count ==> best.offset_distance(target) <= (
                    #[trigger] candidates[i]).offset_distance(target)) && (forall|i: int|
                    0 <= i < at ==> best.offset_distance(target) < (
                    #[trigger] candidates[i]).offset_distance(target)));
            },
        }
    }
}

/// The neighbors of a cell are the cells one step away that lie in the
/// hexagon, each of them.
pub proof fn lemma_neighbors_are_the_steps(radius: u32, pos: Position, dirs: int)
    requires
        0 <= dirs <= 6,
    ensures
        neighbors_upto(radius, pos, dirs).len() <= dirs,
        forall|i: int|
            0 <= i < neighbors_upto(radius, pos, dirs).len() ==> in_footprint(
                radius,
                #[trigger] neighbors_upto(radius, pos, dirs)[i],
            ) && exists|dir: int|
                0 <= dir < dirs && #[trigger] pos.stepped(dir) == Some(
                    neighbors_upto(radius, pos, dirs)[i],
                ),
        forall|dir: int|
            0 <= dir < dirs ==> (#[trigger] pos.stepped(dir) matches Some(next) ==> (in_footprint(
                radius,
                next,
            ) ==> neighbors_upto(radius, pos, dirs).contains(next))),
    decreases dirs,
{
    if dirs > 0 {
        lemma_neighbors_are_the_steps(radius, pos, dirs - 1);
        let before = neighbors_upto(radius, pos, dirs - 1);
        let now = neighbors_upto(radius, pos, dirs);
        assert forall|i: int| 0 <= i < now.len() implies in_footprint(radius, #[trigger] now[i])
            && exists|dir: int| 0 <= dir < dirs && #[trigger] pos.stepped(dir) == Some(now[i]) by {
            if i < before.len() {
                assert(now[i] == before[i]);
                let dir = choose|dir: int|
                    0 <= dir < dirs - 1 && #[trigger] pos.stepped(dir) == Some(before[i]);
                assert(pos.stepped(dir) == Some(now[i]));
            } else {
                assert(pos.stepped(dirs - 1) == Some(now[i]));
            }
        }
        assert forall|dir: int| 0 <= dir < dirs implies (#[trigger] pos.stepped(dir) matches Some(
            next,
        ) ==> (in_footprint(radius, next) ==> now.contains(next))) by {
            if let Some(next) = pos.stepped(dir) {
                if in_footprint(radius, next) {
                    if dir < dirs - 1 {
                        assert(before.contains(next));
                        let i = choose|i: int| 0 <= i < before.len() && before[i] == next;
                        assert(now[i] == next);
                    } else {
                        assert(now[now.len() - 1] == next);
                    }
                }
            }
        }
    }
}

/// The direction in which the first step of a walk from `cur` lies when
/// nothing is in the way.
pub open spec fn heading(cur: Position, target: Position) -> int {
    if target.x > cur.x {
        if target.y < cur.y {
            5
        } else {
            0
        }
    } else if target.x < cur.x {
        if target.y > cur.y {
            2
        } else {
            3
        }
    } else if target.y > cur.y {
        1
    } else {
        4
    }
}

/// Between two different cells of the hexagon, the cell in the heading lies
/// in the hexagon and is one hex step nearer to the target; and so is every
/// neighbor in the hexagon that scores no worse than it.
proof fn lemma_heading_leads_closer(radius: u32, cur: Position, target: Position)
    requires
        radius <= MAX_RADIUS,
        in_footprint(radius, cur),
        in_footprint(radius, target),
        cur != target,
    ensures
        cur.stepped(heading(cur, target)) matches Some(ahead) && in_footprint(radius, ahead)
            && ahead.hex_distance(target) == cur.hex_distance(target) - 1 && forall|dir: int|
            0 <= dir < 6 ==> (#[trigger] cur.stepped(dir) matches Some(other) ==> (in_footprint(
                radius,
                other,
            ) && other.offset_distance(target) <= ahead.offset_distance(target)
                ==> other.hex_distance(target) == cur.hex_distance(target) - 1)),
{
    let ahead = cur.stepped(heading(cur, target))->0;
    assert(cur.stepped(heading(cur, target)) is Some);
    assert(in_footprint(radius, ahead));
    assert(ahead.hex_distance(target) == cur.hex_distance(target) - 1);
    assert forall|dir: int| 0 <= dir < 6 implies (#[trigger] cur.stepped(dir) matches Some(
        other,
    ) ==> (in_footprint(radius, other) && other.offset_distance(target) <= ahead.offset_distance(
        target,
    ) ==> other.hex_distance(target) == cur.hex_distance(target) - 1)) by {
        if dir == 0 {
        } else if dir == 1 {
        } else if dir == 2 {
        } else if dir == 3 {
        } else if dir == 4 {
        } else {
        }
    }
}

/// Between two different cells of the hexagon a walk has a next step: a
/// neighbor in the hexagon, one hex step nearer to the target.
pub proof fn lemma_step_leads_closer(radius: u32, cur: Position, target: Position)
    requires
        radius <= MAX_RADIUS,
        in_footprint(radius, cur),
        in_footprint(radius, target),
        cur != target,
    ensures
        next_step(radius, cur, target) matches Some(next) && in_footprint(radius, next)
            && cur.adjacent(next) && next.hex_distance(target) == cur.hex_distance(target) - 1
            && next.offset_distance(target) <= cur.stepped(
            heading(cur, target),
        )->0.offset_distance(target),
{
    let around = neighbors_of(radius, cur);
    lemma_heading_leads_closer(radius, cur, target);
    lemma_neighbors_are_the_steps(radius, cur, 6);
    let ahead = cur.stepped(heading(cur, target))->0;
    assert(around.contains(ahead));
    lemma_closest_is_first_minimum(around, target, around.len() as int);
    let next = next_step(radius, cur, target)->0;
    let at = choose|at: int|
        0 <= at < around.len() && around[at] == next && (forall|i: int|
            0 <= i < around.len() ==> next.offset_distance(target) <= (
            #[trigger] around[i]).offset_distance(target)) && (forall|i: int|
            0 <= i < at ==> next.offset_distance(target) < (#[trigger] around[i]).offset_distance(
                target,
            ));
    let j = choose|j: int| 0 <= j < around.len() && around[j] == ahead;
    assert(next.offset_distance(target) <= around[j].offset_distance(target));
    assert(in_footprint(radius, around[at]));
    let dir = choose|dir: int| 0 <= dir < 6 && #[trigger] cur.stepped(dir) == Some(around[at]);
    assert(cur.stepped(dir) == Some(next));
}

/// Whether `mid` lies between `a` and `b`, the two included.
pub open spec fn between(a: int, mid: int, b: int) -> bool {
    (a <= mid <= b) || (b <= mid <= a)
}

/// Whether a walk from `start` to `target` is steep: `y` has at least as far
/// to go as `x`, and not in the same direction.
pub open spec fn steep(start: Position, target: Position) -> bool {
    &&& gap(target.x as int, start.x as int) <= gap(target.y as int, start.y as int)
    &&& (target.x >= start.x && target.y <= start.y) || (target.x <= start.x && target.y
        >= start.y)
}

/// Whether `pos` lies on the course of a walk from `start` to `target`:
/// between the two in `x` and in `y`; and, on a steep walk, no further from
/// `start` in `x` than in `y`, and no further from `target` in `x` than in
/// `y`.
pub open spec fn on_course(start: Position, target: Position, pos: Position) -> bool {
    &&& between(start.x as int, pos.x as int, target.x as int)
    &&& between(start.y as int, pos.y as int, target.y as int)
    &&& steep(start, target) ==> gap(pos.x as int, start.x as int) <= gap(
        pos.y as int,
        start.y as int,
    ) && gap(target.x as int, pos.x as int) <= gap(target.y as int, pos.y as int)
}

/// A step of a walk that is on the course of a walk from `start` stays on
/// that course.
pub proof fn lemma_step_stays_on_course(
    radius: u32,
    start: Position,
    cur: Position,
    target: Position,
)
    requires
        radius <= MAX_RADIUS,
        in_footprint(radius, cur),
        in_footprint(radius, target),
        cur != target,
        on_course(start, target, cur),
    ensures
        next_step(radius, cur, target) matches Some(next) && on_course(start, target, next),
{
    lemma_step_leads_closer(radius, cur, target);
    let next = next_step(radius, cur, target)->0;
    let dir = choose|dir: int| 0 <= dir < 6 && #[trigger] cur.stepped(dir) == Some(next);
    assert(cur.stepped(heading(cur, target)) is Some);
    if dir == 0 {
    } else if dir == 1 {
    } else if dir == 2 {
    } else if dir == 3 {
    } else if dir == 4 {
    } else {
    }
}

/// Every cell of a walk that sets out on the course of a walk from `start`
/// lies on that course, and nearer to the target than the cell the walk set
/// out from.
pub proof fn lemma_walk_stays_on_course(
    radius: u32,
    start: Position,
    cur: Position,
    target: Position,
    fuel: nat,
)
    requires
        radius <= MAX_RADIUS,
        in_footprint(radius, cur),
        in_footprint(radius, target),
        on_course(start, target, cur),
    ensures
        forall|i: int|
            0 <= i < walk(radius, cur, target, fuel).len() ==> on_course(
                start,
                target,
                #[trigger] walk(radius, cur, target, fuel)[i],
            ) && walk(radius, cur, target, fuel)[i].hex_distance(target) < cur.hex_distance(
                target,
            ) && in_footprint(radius, walk(radius, cur, target, fuel)[i]),
    decreases fuel,
{
    if fuel > 0 && cur != target {
        lemma_step_leads_closer(radius, cur, target);
        lemma_step_stays_on_course(radius, start, cur, target);
        let next = next_step(radius, cur, target)->0;
        lemma_walk_stays_on_course(radius, start, next, target, (fuel - 1) as nat);
        let rest = walk(radius, next, target, (fuel - 1) as nat);
        let all = walk(radius, cur, target, fuel);
        assert(all == seq![next] + rest);
        assert forall|i: int| 0 <= i < all.len() implies on_course(start, target, #[trigger] all[i])
            && all[i].hex_distance(target) < cur.hex_distance(target) && in_footprint(
            radius,
            all[i],
        ) by {
            if i > 0 {
                assert(all[i] == rest[i - 1]);
            }
        }
    }
}

/// Two cells of the hexagon are at most `2R` hex steps apart.
pub proof fn lemma_footprint_diameter(radius: u32, a: Position, b: Position)
    requires
        in_footprint(radius, a),
        in_footprint(radius, b),
    ensures
        0 <= a.hex_distance(b) <= 2 * radius,
        a.hex_distance(b) == 0 <==> a == b,
{
}

/// With enough steps left, a walk between two cells of the hexagon takes as
/// many steps as the cells are hex steps apart, stays in the hexagon, moves
/// between adjacent cells, and ends on the target.
pub proof fn lemma_walk_arrives(radius: u32, cur: Position, target: Position, fuel: nat)
    requires
        radius <= MAX_RADIUS,
        in_footprint(radius, cur),
        in_footprint(radius, target),
        cur.hex_distance(target) <= fuel,
    ensures
        walk(radius, cur, target, fuel).len() == cur.hex_distance(target),
        cur != target ==> walk(radius, cur, target, fuel).last() == target,
        forall|i: int|
            0 <= i < walk(radius, cur, target, fuel).len() ==> in_footprint(
                radius,
                #[trigger] walk(radius, cur, target, fuel)[i],
            ),
    decreases fuel,
{
    lemma_footprint_diameter(radius, cur, target);
    if cur != target {
        lemma_step_leads_closer(radius, cur, target);
        let next = next_step(radius, cur, target)->0;
        lemma_walk_arrives(radius, next, target, (fuel - 1) as nat);
        lemma_footprint_diameter(radius, next, target);
        let rest = walk(radius, next, target, (fuel - 1) as nat);
        let all = walk(radius, cur, target, fuel);
        assert(all == seq![next] + rest);
        assert forall|i: int| 0 <= i < all.len() implies in_footprint(radius, #[trigger] all[i]) by {
            if i > 0 {
                assert(all[i] == rest[i - 1]);
            }
        }
        if next != target {
            assert(all.last() == rest.last());
        }
    }
}

/// Every walk between two cells of the hexagon reaches its target within the
/// step limit of `2R + 1`: it takes as many steps as the two cells are hex
/// steps apart, which is at most `2R`, and at most `R` from the center.
pub proof fn walk_reaches_its_target(radius: u32, start: Position, target: Position)
    requires
        radius <= MAX_RADIUS,
        in_footprint(radius, start),
        in_footprint(radius, target),
    ensures
        path_between(radius, start, target).len() == start.hex_distance(target),
        path_between(radius, start, target).len() < step_limit(radius),
        start != target ==> path_between(radius, start, target).last() == target,
        forall|i: int|
            0 <= i < path_between(radius, start, target).len() ==> in_footprint(
                radius,
                #[trigger] path_between(radius, start, target)[i],
            ),
{
    lemma_footprint_diameter(radius, start, target);
    lemma_walk_arrives(radius, start, target, step_limit(radius));
}

/// The cell a walk at `cur` moves to next.
pub fn next_toward(grid: &HexGrid, cur: Position, target: Position) -> (next: Option<Position>)
    requires
        grid@.radius <= MAX_RADIUS,
    ensures
        next == next_step(grid@.radius, cur, target),
        next matches Some(cell) ==> grid@.contains(cell),
{
    let around: Vec<Position> = grid.neighbors(cur);
    let mut best: Option<Position> = None;
    let mut least: u64 = 0;
    let mut i: usize = 0;
    while i < around.len()
        invariant
            i <= around@.len(),
            best == closest_among(around@, target, i as int),
            best matches Some(cell) ==> least == cell.offset_distance(target) && grid@.contains(
                cell,
            ),
            forall|j: int| 0 <= j < around@.len() ==> grid@.contains(#[trigger] around@[j]),
        decreases around@.len() - i,
    {
        let candidate: Position = around[i];
        let score: u64 = candidate.offset_distance_to(&target);
        let better: bool = match best {
            Some(_) => score < least,
            None => true,
        };
        if better {
            best = Some(candidate);
            least = score;
        }
        i = i + 1;
    }
    best
}

/// Whether `path`, a walk from `start` toward `target`, has arrived: either
/// the walk had nowhere to go, or its last cell is the target.
pub open spec fn arrived(path: Seq<Position>, start: Position, target: Position) -> bool {
    if path.len() == 0 {
        start == target
    } else {
        path.last() == target
    }
}

/// Whether the walk along `path` from `start` has arrived at `target`. A
/// walk that was stopped by the step limit has not.
pub fn reached(path: &Vec<Position>, start: Position, target: Position) -> (yes: bool)
    ensures
        yes == arrived(path@, start, target),
{
    if path.len() == 0 {
        start == target
    } else {
        path[path.len() - 1] == target
    }
}

/// Walks from `start` toward `target` and returns the cells stepped onto, in
/// order.
///
/// Between two cells of the grid the walk arrives within the step limit: the
/// path has one cell for each hex step between the two, and `target` is the
/// last of them. A walk that does not arrive, which can happen only where
/// one of the two is no cell of the grid, stops at the step limit.
pub fn walk_path(grid: &HexGrid, start: Position, target: Position) -> (path: Vec<Position>)
    requires
        grid@.radius <= MAX_RADIUS,
    ensures
        path@ == path_between(grid@.radius, start, target),
        path@.len() <= step_limit(grid@.radius),
        forall|i: int| 0 <= i < path@.len() ==> grid@.contains(#[trigger] path@[i]),
        grid@.contains(start) && grid@.contains(target) ==> path@.len() == start.hex_distance(
            target,
        ) && path@.len() < step_limit(grid@.radius) && arrived(path@, start, target),
{
    let limit: u32 = 2 * grid.radius() + 1;
    let ghost radius = grid@.radius;
    let mut path: Vec<Position> = Vec::new();
    let mut cur: Position = start;
    let mut steps: u32 = 0;
    let mut moving: bool = true;
    while moving && steps < limit && cur != target
        invariant
            grid@.radius == radius,
            radius <= MAX_RADIUS,
            limit == step_limit(radius),
            steps <= limit,
            path@.len() == steps,
            moving ==> path@ + walk(radius, cur, target, (limit - steps) as nat) == path_between(
                radius,
                start,
                target,
            ),
            !moving ==> path@ == path_between(radius, start, target),
            forall|i: int| 0 <= i < path@.len() ==> grid@.contains(#[trigger] path@[i]),
        decreases limit - steps + (if moving { 1int } else { 0int }),
    {
        let ghost rest = walk(radius, cur, target, (limit - steps) as nat);
        match next_toward(grid, cur, target) {
            Some(next) => {
                proof {
                    let after = walk(radius, next, target, (limit - steps - 1) as nat);
                    assert(rest == seq![next] + after);
                    assert(path@.push(next) + after =~= path@ + rest);
                }
                path.push(next);
                cur = next;
                steps = steps + 1;
            },
            None => {
                proof {
                    assert(rest =~= Seq::empty());
                    assert(path@ + rest =~= path@);
                }
                moving = false;
            },
        }
    }
    proof {
        if moving {
            let rest = walk(radius, cur, target, (limit - steps) as nat);
            assert(rest =~= Seq::empty());
            assert(path@ + rest =~= path@);
        }
        if grid@.contains(start) && grid@.contains(target) {
            walk_reaches_its_target(radius, start, target);
        }
    }
    path
}

} // verus!
