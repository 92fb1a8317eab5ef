//! The generation pipeline: from a seed to a finished map.
//!
//! The grid is created with every cell open; the collapse engine colors it;
//! the entrance and the four pillars are fixed; the four paths are carved.
//! One stream, started from the seed, serves all of it, so a seed and a
//! configuration decide the map.

use crate::collapse::{collapse_run, lemma_least_entropy, run_collapse};
use crate::domain::Collapsed;
use crate::grid::{center_of, CellState, GridView, HexGrid};
use crate::paths::{build_paths, is_carved_room, paths_built, paths_spare_the_sites, spared_cells};
use crate::pillars::{
    create_origin_and_pillars, with_origin_and_pillars, PillarSites, Pillars, PlacementConfig,
};
use crate::position::Position;
use crate::rng::SeededRng;
use crate::room::{fresh_room, RoomTypeView};
use crate::seed::expanded;
use vstd::prelude::*;

verus! {

/// What the caller chooses before a map is generated.
#[derive(Clone, Copy, Debug, PartialEq, Eq, Hash, Structural)]
pub struct GenerationSettings {
    pub seed: u64,
}

/// A finished map: the grid, the sites of the pillars, and the carved cells
/// in the order they were carved.
pub struct GeneratedMap {
    pub grid: HexGrid,
    pub pillars: PillarSites,
    pub carved: Vec<Position>,
}

/// A finished map as a mathematical value.
pub struct MapView {
    pub grid: GridView,
    pub pillars: PillarSites,
    pub carved: Seq<Position>,
}

impl View for GeneratedMap {
    type V = MapView;

    open spec fn view(&self) -> MapView {
        MapView { grid: self.grid@, pillars: self.pillars, carved: self.carved@ }
    }
}

/// The map that a seed and a configuration give: the stream starts in the
/// state the seed expands to.
pub open spec fn generated(seed: u64, config: PlacementConfig) -> MapView {
    let (colored, after_collapse) = collapse_run(GridView::fresh(config.radius), expanded(seed));
    let (sites, after_sites) = config.sampled_sites(after_collapse);
    let built = paths_built(with_origin_and_pillars(colored, sites), sites, after_sites);
    MapView { grid: built.grid, pillars: sites, carved: built.seen }
}

/// What a finished map holds, position by position.
///
/// The center holds the entrance and each site a pillar, all five in the
/// marker color. Each carved cell lies in the hexagon, is none of those
/// five, and holds the carved color and a carved room. No other position
/// has a room. So the map has one entrance and four pillars.
pub open spec fn finished(map: MapView) -> bool {
    let radius = map.grid.radius;
    let marker = Some(CellState::Collapsed(Collapsed::Red));
    &&& map.grid.state(center_of(radius)) == marker
    &&& map.grid.room(center_of(radius)) == Some(fresh_room(RoomTypeView::Entrance))
    &&& forall|which: Pillars|
        map.grid.state(#[trigger] map.pillars.site(which)) == marker && map.grid.room(
            map.pillars.site(which),
        ) == Some(fresh_room(RoomTypeView::Pillar))
    &&& forall|i: int|
        0 <= i < map.carved.len() ==> {
            &&& map.grid.contains(#[trigger] map.carved[i])
            &&& !map.pillars.marks(radius, map.carved[i])
            &&& map.grid.state(map.carved[i]) == Some(CellState::Collapsed(Collapsed::Gray))
            &&& map.grid.room(map.carved[i]) matches Some(room) && is_carved_room(room)
        }
    &&& forall|pos: Position|
        #![trigger map.grid.room(pos)]
        map.grid.room(pos) is Some ==> map.pillars.marks(radius, pos) || map.carved.contains(pos)
}

/// A finished map has exactly one entrance, at the center, and exactly four
/// pillars, at the four sites, which are four different cells.
pub proof fn one_entrance_and_four_pillars(map: MapView, config: PlacementConfig, pos: Position)
    requires
        finished(map),
        config.wf(),
        map.grid.radius == config.radius,
        map.pillars.within(config),
    ensures
        (map.grid.room(pos) matches Some(room) && room.r_type is Entrance) <==> pos == center_of(
            config.radius,
        ),
        (map.grid.room(pos) matches Some(room) && room.r_type is Pillar) <==> map.pillars.holds(
            pos,
        ),
        map.pillars.north != map.pillars.east && map.pillars.north != map.pillars.south
            && map.pillars.north != map.pillars.west && map.pillars.east != map.pillars.south
            && map.pillars.east != map.pillars.west && map.pillars.south != map.pillars.west,
        !map.pillars.holds(center_of(config.radius)),
{
    let sites = map.pillars;
    assert(config.band(Pillars::North).holds(sites.site(Pillars::North)));
    assert(config.band(Pillars::East).holds(sites.site(Pillars::East)));
    assert(config.band(Pillars::South).holds(sites.site(Pillars::South)));
    assert(config.band(Pillars::West).holds(sites.site(Pillars::West)));
    if map.carved.contains(pos) {
        let i = choose|i: int| 0 <= i < map.carved.len() && map.carved[i] == pos;
        assert(map.grid.contains(map.carved[i]));
    }
}

impl GenerationSettings {
    /// The stream that generation with these settings draws from.
    pub fn setup(&self) -> (rng: SeededRng)
        ensures
            rng@ == expanded(self.seed),
    {
        SeededRng::from_seed(self.seed)
    }
}

/// Generates the map of a seed and a configuration.
///
/// The result is the value `generated` gives for the two: the same seed and
/// configuration always give the same grid, the same pillars and the same
/// rooms. Every position that holds a cell lies in the hexagon of the
/// configured radius, no cell is left open and none has gained an admissible
/// color, each pillar stands in its band, no cell is carved twice, and the
/// rooms are the entrance, the four pillars and the carved cells.
pub fn generate_map(settings: &GenerationSettings, config: &PlacementConfig) -> (map: GeneratedMap)
    requires
        config.wf(),
    ensures
        map@ == generated(settings.seed, *config),
        map@.grid.wf(),
        map@.grid.radius == config.radius,
        map@.grid.entropy_not_above(GridView::fresh(config.radius)),
        forall|pos: Position|
            #![trigger map@.grid.state(pos)]
            map@.grid.state(pos) matches Some(state) ==> !(state is Open),
        map@.pillars.within(*config),
        map@.carved.no_duplicates(),
        finished(map@),
{
    let mut rng: SeededRng = settings.setup();
    let mut grid: HexGrid = HexGrid::create(config.radius);
    let ghost fresh = grid@;
    run_collapse(&mut grid, &mut rng);
    let ghost colored = grid@;
    let sites: PillarSites = create_origin_and_pillars(&mut grid, config, &mut rng);
    let ghost marked = grid@;
    let ghost after_sites = rng@;
    let carved: Vec<Position> = build_paths(&mut grid, &sites, &mut rng);
    proof {
        paths_spare_the_sites(marked, *config, sites, after_sites);
        let map = MapView { grid: grid@, pillars: sites, carved: carved@ };
        assert(colored.rooms == fresh.rooms);
        assert forall|pos: Position| #![trigger grid@.room(pos)] grid@.room(pos) is Some implies (
        sites.marks(config.radius, pos) || carved@.contains(pos)) by {
            if !sites.marks(config.radius, pos) && !carved@.contains(pos) {
                assert(grid@.room(pos) == marked.room(pos));
                assert(marked.room(pos) == colored.room(pos));
                if crate::grid::in_box(config.radius, pos) {
                    crate::grid::lemma_index_of_position(config.radius, pos);
                }
                assert(colored.room(pos) == fresh.room(pos));
                assert(fresh.room(pos) is None);
            }
        }
        assert forall|which: Pillars|
            grid@.state(#[trigger] sites.site(which)) == Some(
                CellState::Collapsed(Collapsed::Red),
            ) && grid@.room(sites.site(which)) == Some(fresh_room(RoomTypeView::Pillar)) by {
            let at = sites.site(which);
            assert(sites.marks(config.radius, at));
            if carved@.contains(at) {
                let i = choose|i: int| 0 <= i < carved@.len() && carved@[i] == at;
                assert(!spared_cells(config.radius, sites).contains(carved@[i]));
            }
            assert(grid@.state(at) == marked.state(at));
            assert(grid@.room(at) == marked.room(at));
        }
        assert(grid@.state(center_of(config.radius)) == marked.state(center_of(config.radius))
            && grid@.room(center_of(config.radius)) == marked.room(center_of(config.radius))) by {
            let at = center_of(config.radius);
            assert(sites.marks(config.radius, at));
            if carved@.contains(at) {
                let i = choose|i: int| 0 <= i < carved@.len() && carved@[i] == at;
                assert(!spared_cells(config.radius, sites).contains(carved@[i]));
            }
        }
        assert forall|i: int| 0 <= i < carved@.len() implies !sites.marks(
            config.radius,
            #[trigger] carved@[i],
        ) by {
            assert(!spared_cells(config.radius, sites).contains(carved@[i]));
        }
        assert(finished(map));
        lemma_least_entropy(colored, colored.cells.len() as int);
        marked.entropy_not_above_chain(colored, fresh);
        grid@.entropy_not_above_chain(marked, fresh);
        assert forall|pos: Position| #![trigger grid@.state(pos)] grid@.state(pos) is Some implies !(
        grid@.state(pos)->0 is Open) by {
            grid@.cells_fill_the_footprint(pos);
            crate::grid::lemma_index_of_position(grid@.radius, pos);
            let i = crate::grid::index_of(grid@.radius, pos);
            assert(marked.cells[i] is Some);
            assert(colored.cells[i] is Some);
            assert(!crate::collapse::open_at(colored, i));
        }
    }
    GeneratedMap { grid, pillars: sites, carved }
}

/// Two maps generated from the same seed and configuration are the same:
/// the same color and the same room at every position, the same pillars,
/// the same carved cells.
pub proof fn same_seed_same_map(first: MapView, second: MapView, seed: u64, config: PlacementConfig)
    requires
        first == generated(seed, config),
        second == generated(seed, config),
    ensures
        first == second,
        forall|pos: Position| first.grid.state(pos) == second.grid.state(pos),
        forall|pos: Position| first.grid.room(pos) == second.grid.room(pos),
{
}

} // verus!
