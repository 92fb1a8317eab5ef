//! Carving the paths from the entrance to the four pillars.
//!
//! For each pillar, north, east, south and west in turn, a walk leaves the
//! entrance for the pillar. Every cell the walk steps onto before it arrives
//! is carved, unless an earlier step of any walk has carved it already: the
//! cell gets the carved color and a room whose content one draw decides. One
//! list of the carved cells spans all four walks.

use crate::domain::Collapsed;
use crate::grid::{center_of, in_footprint, CellState, GridView, HexGrid};
use crate::pillars::{PillarSites, Pillars, PlacementConfig};
use crate::position::Position;
use crate::rng::{ranged_draw, SeededRng};
use crate::room::{
    fresh_room, room_type_of_roll, RoomInfo, RoomInfoView, RoomType, ROLL_MAX, ROOM_RNG_SEED,
};
use crate::walk::{
    arrived, lemma_walk_stays_on_course, path_between, step_limit, walk_path,
};
use vstd::prelude::*;

verus! {

/// What carving works on: the grid, the cells carved so far in the order
/// they were carved, and the state of the stream.
pub struct CarveView {
    pub grid: GridView,
    pub seen: Seq<Position>,
    pub rng: u64,
}

/// The grid with the cell at `pos` carved: the carved color, and a fresh room
/// with the content that `roll` gives.
pub open spec fn carved(grid: GridView, pos: Position, roll: u32) -> GridView {
    grid.with_state(pos, CellState::Collapsed(Collapsed::Gray)).with_room(
        pos,
        fresh_room(room_type_of_roll(roll)),
    )
}

/// Carving after one more step of a walk toward `target` onto `pos`: nothing
/// changes where `pos` is the target or was carved before; otherwise the
/// cell is carved with the next roll of the stream and joins the list.
pub open spec fn carved_step(before: CarveView, pos: Position, target: Position) -> CarveView {
    if pos == target || before.seen.contains(pos) {
        before
    } else {
        let (roll, after) = ranged_draw(before.rng, 0, ROLL_MAX);
        CarveView { grid: carved(before.grid, pos, roll), seen: before.seen.push(pos), rng: after }
    }
}

/// Carving after the first `count` steps of a walk along `path`.
pub open spec fn carved_along(
    start: CarveView,
    path: Seq<Position>,
    target: Position,
    count: int,
) -> CarveView
    decreases count,
{
    if count <= 0 {
        start
    } else {
        carved_step(carved_along(start, path, target, count - 1), path[count - 1], target)
    }
}

/// Carving after the whole walk from `from` toward `target`.
pub open spec fn path_built(start: CarveView, from: Position, target: Position) -> CarveView {
    let path = path_between(start.grid.radius, from, target);
    carved_along(start, path, target, path.len() as int)
}

/// Carving after the four walks from the center to the pillars, starting
/// with no cell carved.
pub open spec fn paths_built(grid: GridView, sites: PillarSites, rng: u64) -> CarveView {
    let center = center_of(grid.radius);
    let start = CarveView { grid, seen: Seq::empty(), rng };
    let north = path_built(start, center, sites.north);
    let east = path_built(north, center, sites.east);
    let south = path_built(east, center, sites.south);
    path_built(south, center, sites.west)
}

/// Whether `room` is the room of a carved cell: not cleared, with the common
/// room seed, and neither the entrance nor a pillar.
pub open spec fn is_carved_room(room: RoomInfoView) -> bool {
    &&& !room.cleared
    &&& room.rng_seed == ROOM_RNG_SEED
    &&& !(room.r_type is Entrance)
    &&& !(room.r_type is Pillar)
}

/// What holds between the carving before and after any number of steps, with
/// `spared` the cells that no step carves.
///
/// The grid stays well formed with its radius, and no entropy rises. The
/// list only grows, and repeats nothing if it repeated nothing before. Each
/// cell that joined the list lies in the hexagon, is none of the spared
/// cells, and holds the carved color and a carved room. Every other position
/// has the state and the room it had: a cell on the list before is not
/// carved again.
pub open spec fn carving_extends(after: CarveView, before: CarveView, spared: Set<Position>) -> bool {
    &&& after.grid.wf()
    &&& after.grid.radius == before.grid.radius
    &&& after.grid.entropy_not_above(before.grid)
    &&& before.seen.len() <= after.seen.len()
    &&& forall|i: int| 0 <= i < before.seen.len() ==> #[trigger] after.seen[i] == before.seen[i]
    &&& before.seen.no_duplicates() ==> after.seen.no_duplicates()
    &&& forall|i: int|
        before.seen.len() <= i < after.seen.len() ==> {
            &&& in_footprint(before.grid.radius, #[trigger] after.seen[i])
            &&& !spared.contains(after.seen[i])
            &&& !before.seen.contains(after.seen[i])
            &&& after.grid.state(after.seen[i]) == Some(CellState::Collapsed(Collapsed::Gray))
            &&& after.grid.room(after.seen[i]) matches Some(room) && is_carved_room(room)
        }
    &&& forall|pos: Position|
        #![trigger after.grid.state(pos)]
        #![trigger after.grid.room(pos)]
        before.seen.contains(pos) || !after.seen.contains(pos) ==> after.grid.state(pos)
            == before.grid.state(pos) && after.grid.room(pos) == before.grid.room(pos)
}

/// Carving that has not moved extends itself.
pub proof fn lemma_carving_extends_itself(start: CarveView, spared: Set<Position>)
    requires
        start.grid.wf(),
    ensures
        carving_extends(start, start, spared),
{
}

/// One step of carving extends the carving before it, where the cell
/// stepped onto is the target or not spared.
pub proof fn lemma_carved_step_extends(
    before: CarveView,
    pos: Position,
    target: Position,
    spared: Set<Position>,
)
    requires
        before.grid.wf(),
        before.grid.contains(pos),
        pos != target ==> !spared.contains(pos),
    ensures
        carving_extends(carved_step(before, pos, target), before, spared),
{
    let after = carved_step(before, pos, target);
    if !(pos == target || before.seen.contains(pos)) {
        let roll = ranged_draw(before.rng, 0, ROLL_MAX).0;
        let gray = CellState::Collapsed(Collapsed::Gray);
        let room = fresh_room(room_type_of_roll(roll));
        let colored = before.grid.with_state(pos, gray);
        crate::grid::lemma_index_of_position(before.grid.radius, pos);
        before.grid.cells_fill_the_footprint(pos);
        assert(colored.wf());
        assert(after.grid.wf());
        assert(after.grid.entropy_not_above(before.grid));
        assert(is_carved_room(room));
        assert forall|at: Position|
            after.grid.state(at) == (if at == pos {
                Some(gray)
            } else {
                before.grid.state(at)
            }) && after.grid.room(at) == (if at == pos {
                Some(room)
            } else {
                before.grid.room(at)
            }) by {
            before.grid.with_state_changes_one_cell(pos, gray, at);
            colored.with_room_changes_one_room(pos, room, at);
        }
        assert(after.seen.last() == pos);
        assert forall|at: Position|
            before.seen.contains(at) || !after.seen.contains(at) implies after.grid.state(at)
            == before.grid.state(at) && after.grid.room(at) == before.grid.room(at) by {
            assert(after.seen[after.seen.len() - 1] == pos);
            assert(at != pos);
        }
        if before.seen.no_duplicates() {
            assert forall|i: int, j: int|
                0 <= i < after.seen.len() && 0 <= j < after.seen.len() && i != j implies after.seen[i]
                != after.seen[j] by {
                if i < before.seen.len() && j < before.seen.len() {
                } else if i < before.seen.len() {
                    assert(before.seen.contains(before.seen[i]));
                } else {
                    assert(before.seen.contains(before.seen[j]));
                }
            }
        }
    } else {
        assert(after.grid.entropy_not_above(before.grid));
    }
}

/// Carving extends across two stretches of steps as across each.
pub proof fn lemma_carving_extends_on(
    last: CarveView,
    middle: CarveView,
    first: CarveView,
    spared: Set<Position>,
)
    requires
        carving_extends(middle, first, spared),
        carving_extends(last, middle, spared),
    ensures
        carving_extends(last, first, spared),
{
    last.grid.entropy_not_above_chain(middle.grid, first.grid);
    assert forall|i: int| 0 <= i < first.seen.len() implies #[trigger] last.seen[i]
        == first.seen[i] by {
        assert(middle.seen[i] == first.seen[i]);
    }
    assert forall|pos: Position| first.seen.contains(pos) implies middle.seen.contains(pos) by {
        let i = choose|i: int| 0 <= i < first.seen.len() && first.seen[i] == pos;
        assert(middle.seen[i] == pos);
    }
    assert forall|pos: Position| middle.seen.contains(pos) implies last.seen.contains(pos) by {
        let i = choose|i: int| 0 <= i < middle.seen.len() && middle.seen[i] == pos;
        assert(last.seen[i] == pos);
    }
    assert forall|i: int| first.seen.len() <= i < last.seen.len() implies {
        &&& in_footprint(first.grid.radius, #[trigger] last.seen[i])
        &&& !spared.contains(last.seen[i])
        &&& !first.seen.contains(last.seen[i])
        &&& last.grid.state(last.seen[i]) == Some(CellState::Collapsed(Collapsed::Gray))
        &&& last.grid.room(last.seen[i]) matches Some(room) && is_carved_room(room)
    } by {
        let pos = last.seen[i];
        if i < middle.seen.len() {
            assert(middle.seen[i] == pos);
            assert(middle.seen.contains(pos));
            assert(last.grid.state(pos) == middle.grid.state(pos));
            assert(last.grid.room(pos) == middle.grid.room(pos));
        } else {
            assert(!middle.seen.contains(pos));
        }
    }
    assert forall|pos: Position|
        first.seen.contains(pos) || !last.seen.contains(pos) implies last.grid.state(pos)
        == first.grid.state(pos) && last.grid.room(pos) == first.grid.room(pos) by {
        assert(last.grid.state(pos) == middle.grid.state(pos));
        assert(last.grid.room(pos) == middle.grid.room(pos));
        assert(middle.grid.state(pos) == first.grid.state(pos));
        assert(middle.grid.room(pos) == first.grid.room(pos));
    }
}

/// Carving along a path through the hexagon extends the carving it started
/// from, where no cell of the path but the target is spared.
pub proof fn lemma_carved_along_extends(
    start: CarveView,
    path: Seq<Position>,
    target: Position,
    count: int,
    spared: Set<Position>,
)
    requires
        start.grid.wf(),
        0 <= count <= path.len(),
        forall|i: int| 0 <= i < path.len() ==> in_footprint(start.grid.radius, #[trigger] path[i]),
        forall|i: int|
            0 <= i < path.len() && #[trigger] path[i] != target ==> !spared.contains(path[i]),
    ensures
        carving_extends(carved_along(start, path, target, count), start, spared),
    decreases count,
{
    if count > 0 {
        let middle = carved_along(start, path, target, count - 1);
        lemma_carved_along_extends(start, path, target, count - 1, spared);
        lemma_carved_step_extends(middle, path[count - 1], target, spared);
        lemma_carving_extends_on(
            carved_step(middle, path[count - 1], target),
            middle,
            start,
            spared,
        );
    } else {
        lemma_carving_extends_itself(start, spared);
    }
}

/// The center of the grid and the four sites: the cells that the paths to
/// the pillars leave as they are.
pub open spec fn spared_cells(radius: u32, sites: PillarSites) -> Set<Position> {
    Set::new(|pos: Position| sites.marks(radius, pos))
}

/// The path from the center to one pillar carves neither the center nor any
/// of the four sites, where each site lies in its band.
pub proof fn lemma_path_spares_the_sites(
    start: CarveView,
    config: PlacementConfig,
    sites: PillarSites,
    which: Pillars,
)
    requires
        start.grid.wf(),
        config.wf(),
        start.grid.radius == config.radius,
        sites.within(config),
    ensures
        carving_extends(
            path_built(start, center_of(config.radius), sites.site(which)),
            start,
            spared_cells(config.radius, sites),
        ),
{
    let radius = config.radius;
    let center = center_of(radius);
    let target = sites.site(which);
    let path = path_between(radius, center, target);
    let spared = spared_cells(radius, sites);
    assert(config.band(which).holds(target));
    config.bands_lie_apart_in_the_footprint(which, which, target);
    lemma_walk_stays_on_course(radius, center, center, target, step_limit(radius));
    assert forall|i: int| 0 <= i < path.len() && #[trigger] path[i] != target implies !spared.contains(
        path[i],
    ) by {
        let pos = path[i];
        assert(pos.hex_distance(target) < center.hex_distance(target));
        assert(config.band(Pillars::North).holds(sites.site(Pillars::North)));
        assert(config.band(Pillars::East).holds(sites.site(Pillars::East)));
        assert(config.band(Pillars::South).holds(sites.site(Pillars::South)));
        assert(config.band(Pillars::West).holds(sites.site(Pillars::West)));
        if which != Pillars::North {
            config.course_misses_other_bands(which, Pillars::North, target, pos);
        }
        if which != Pillars::East {
            config.course_misses_other_bands(which, Pillars::East, target, pos);
        }
        if which != Pillars::South {
            config.course_misses_other_bands(which, Pillars::South, target, pos);
        }
        if which != Pillars::West {
            config.course_misses_other_bands(which, Pillars::West, target, pos);
        }
    }
    lemma_carved_along_extends(start, path, target, path.len() as int, spared);
}

/// The four paths carve no cell twice, and neither the entrance nor a
/// pillar: after them the center and the four sites are as they were, every
/// carved cell holds the carved color and a carved room, and every other
/// position is as it was.
pub proof fn paths_spare_the_sites(
    grid: GridView,
    config: PlacementConfig,
    sites: PillarSites,
    rng: u64,
)
    requires
        grid.wf(),
        config.wf(),
        grid.radius == config.radius,
        sites.within(config),
    ensures
        carving_extends(
            paths_built(grid, sites, rng),
            CarveView { grid, seen: Seq::empty(), rng },
            spared_cells(config.radius, sites),
        ),
        paths_built(grid, sites, rng).seen.no_duplicates(),
{
    let start = CarveView { grid, seen: Seq::<Position>::empty(), rng };
    let center = center_of(grid.radius);
    let spared = spared_cells(config.radius, sites);
    let north = path_built(start, center, sites.north);
    lemma_path_spares_the_sites(start, config, sites, Pillars::North);
    let east = path_built(north, center, sites.east);
    lemma_path_spares_the_sites(north, config, sites, Pillars::East);
    let south = path_built(east, center, sites.south);
    lemma_path_spares_the_sites(east, config, sites, Pillars::South);
    let west = path_built(south, center, sites.west);
    lemma_path_spares_the_sites(south, config, sites, Pillars::West);
    lemma_carving_extends_on(east, north, start, spared);
    lemma_carving_extends_on(south, east, start, spared);
    lemma_carving_extends_on(west, south, start, spared);
}

/// Whether the walk from `from` toward `target` on a grid of radius `radius`
/// arrives, with one step for each hex step between the two.
pub open spec fn walk_arrives(radius: u32, from: Position, target: Position) -> bool {
    &&& arrived(path_between(radius, from, target), from, target)
    &&& path_between(radius, from, target).len() == from.hex_distance(target)
}

/// Whether `pos` is among the cells carved so far.
pub fn seen_before(seen: &Vec<Position>, pos: Position) -> (yes: bool)
    ensures
        yes == seen@.contains(pos),
{
    let mut i: usize = 0;
    while i < seen.len()
        invariant
            i <= seen@.len(),
            forall|j: int| 0 <= j < i ==> seen@[j] != pos,
        decreases seen@.len() - i,
    {
        if seen[i] == pos {
            return true;
        }
        i = i + 1;
    }
    false
}

/// Carves the cells of `path`, a walk toward `target`: each cell other than
/// the target that is not in `seen` yet joins `seen`, gets the carved color,
/// and gets a room whose content the next draw decides.
pub fn carve_path(
    grid: &mut HexGrid,
    seen: &mut Vec<Position>,
    rng: &mut SeededRng,
    path: &Vec<Position>,
    target: Position,
)
    requires
        old(grid)@.wf(),
        forall|i: int| 0 <= i < path@.len() ==> old(grid)@.contains(#[trigger] path@[i]),
    ensures
        (CarveView { grid: final(grid)@, seen: final(seen)@, rng: final(rng)@ }) == carved_along(
            CarveView { grid: old(grid)@, seen: old(seen)@, rng: old(rng)@ },
            path@,
            target,
            path@.len() as int,
        ),
        carving_extends(
            CarveView { grid: final(grid)@, seen: final(seen)@, rng: final(rng)@ },
            CarveView { grid: old(grid)@, seen: old(seen)@, rng: old(rng)@ },
            Set::empty(),
        ),
{
    let ghost start = CarveView { grid: grid@, seen: seen@, rng: rng@ };
    let mut i: usize = 0;
    while i < path.len()
        invariant
            start.grid.wf(),
            i <= path@.len(),
            forall|j: int| 0 <= j < path@.len() ==> start.grid.contains(#[trigger] path@[j]),
            (CarveView { grid: grid@, seen: seen@, rng: rng@ }) == carved_along(
                start,
                path@,
                target,
                i as int,
            ),
            grid@.wf(),
            grid@.radius == start.grid.radius,
        decreases path@.len() - i,
    {
        let pos: Position = path[i];
        proof {
            lemma_carved_along_extends(start, path@, target, i as int + 1, Set::empty());
        }
        if pos != target && !seen_before(seen, pos) {
            seen.push(pos);
            let r_type: RoomType = RoomType::from_rng(rng);
            grid.assign(pos, Collapsed::Gray);
            grid.attach_room(pos, RoomInfo::from_type(r_type, ROOM_RNG_SEED));
        }
        i = i + 1;
    }
    proof {
        lemma_carved_along_extends(start, path@, target, path@.len() as int, Set::empty());
    }
}

/// Walks from `from` toward `target`, both cells of the grid, and carves the
/// cells on the way. The walk arrives: it takes one step for each hex step
/// between the two, and the target is where it ends.
pub fn build_path(
    grid: &mut HexGrid,
    seen: &mut Vec<Position>,
    rng: &mut SeededRng,
    from: Position,
    target: Position,
)
    requires
        old(grid)@.wf(),
        old(grid)@.contains(from),
        old(grid)@.contains(target),
    ensures
        (CarveView { grid: final(grid)@, seen: final(seen)@, rng: final(rng)@ }) == path_built(
            CarveView { grid: old(grid)@, seen: old(seen)@, rng: old(rng)@ },
            from,
            target,
        ),
        carving_extends(
            CarveView { grid: final(grid)@, seen: final(seen)@, rng: final(rng)@ },
            CarveView { grid: old(grid)@, seen: old(seen)@, rng: old(rng)@ },
            Set::empty(),
        ),
        walk_arrives(old(grid)@.radius, from, target),
{
    let path: Vec<Position> = walk_path(grid, from, target);
    carve_path(grid, seen, rng, &path, target);
}

/// Carves the four paths from the entrance to the pillars, each of them a
/// cell of the grid, and returns the carved cells in the order they were
/// carved. Each of the four walks arrives at its pillar. No cell is carved
/// twice; every carved cell lies in the hexagon and holds the carved color
/// and a carved room; every other position is as it was.
pub fn build_paths(grid: &mut HexGrid, sites: &PillarSites, rng: &mut SeededRng) -> (seen: Vec<
    Position,
>)
    requires
        old(grid)@.wf(),
        sites.lie_in(old(grid)@.radius),
    ensures
        (CarveView { grid: final(grid)@, seen: seen@, rng: final(rng)@ }) == paths_built(
            old(grid)@,
            *sites,
            old(rng)@,
        ),
        forall|which: Pillars|
            #[trigger] walk_arrives(
                old(grid)@.radius,
                center_of(old(grid)@.radius),
                sites.site(which),
            ),
        carving_extends(
            CarveView { grid: final(grid)@, seen: seen@, rng: final(rng)@ },
            CarveView { grid: old(grid)@, seen: Seq::empty(), rng: old(rng)@ },
            Set::empty(),
        ),
        seen@.no_duplicates(),
{
    let center: Position = grid.center();
    let mut seen: Vec<Position> = Vec::new();
    let ghost c0 = CarveView { grid: grid@, seen: seen@, rng: rng@ };
    assert(c0.seen =~= Seq::empty());
    build_path(grid, &mut seen, rng, center, sites.north);
    let ghost c1 = CarveView { grid: grid@, seen: seen@, rng: rng@ };
    build_path(grid, &mut seen, rng, center, sites.east);
    let ghost c2 = CarveView { grid: grid@, seen: seen@, rng: rng@ };
    build_path(grid, &mut seen, rng, center, sites.south);
    let ghost c3 = CarveView { grid: grid@, seen: seen@, rng: rng@ };
    build_path(grid, &mut seen, rng, center, sites.west);
    let ghost c4 = CarveView { grid: grid@, seen: seen@, rng: rng@ };
    proof {
        lemma_carving_extends_on(c2, c1, c0, Set::empty());
        lemma_carving_extends_on(c3, c2, c0, Set::empty());
        lemma_carving_extends_on(c4, c3, c0, Set::empty());
    }
    seen
}

} // verus!
