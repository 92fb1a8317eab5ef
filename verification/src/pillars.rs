//! Placing the entrance and the four pillars.
//!
//! Each pillar is sampled in a band of its own. With radius `R`, vertical
//! offset `V` and horizontal offsets `HX` and `HY` the bands are:
//!
//! | pillar | x                  | y                  |
//! |--------|--------------------|--------------------|
//! | north  | `R - V ..= R`      | `R + V ..= 2R`     |
//! | east   | `R - HX ..= R - V` | `R - HY ..= R + HY`|
//! | south  | `R ..= R + V`      | `0 ..= R - V`      |
//! | west   | `R + V ..= R + HX` | `R - HY ..= R + HY`|
//!
//! The pillars are sampled in that order, `x` before `y`, so a placement
//! takes eight draws.

use crate::domain::Collapsed;
use crate::grid::{center_of, in_footprint, CellState, GridView, HexGrid, MAX_RADIUS};
use crate::position::Position;
use crate::rng::{ranged_draw, SeededRng};
use crate::room::{fresh_room, RoomInfo, RoomType, RoomTypeView, ROOM_RNG_SEED};
use crate::walk::on_course;
use vstd::prelude::*;

verus! {

/// The radius of the standard map.
pub const MAP_RADIUS: u32 = 5;

/// The vertical offset of the standard map.
pub const PILLAR_OFFSET_VERT: u32 = 3;

/// The horizontal offset along `x` of the standard map.
pub const PILLAR_OFFSET_HORZ_X: u32 = 4;

/// The horizontal offset along `y` of the standard map.
pub const PILLAR_OFFSET_HORZ_Y: u32 = 1;

/// The four pillars, by the sector they stand in.
#[derive(Clone, Copy, Debug, PartialEq, Eq, Hash, Structural)]
pub enum Pillars {
    North,
    East,
    South,
    West,
}

/// The radius of a map and the three offsets that place its pillars.
#[derive(Clone, Copy, Debug, PartialEq, Eq, Hash, Structural)]
pub struct PlacementConfig {
    pub radius: u32,
    pub vert: u32,
    pub horz_x: u32,
    pub horz_y: u32,
}

/// A rectangle of positions: `x_low ..= x_high` by `y_low ..= y_high`.
#[derive(Clone, Copy, Debug, PartialEq, Eq, Hash, Structural)]
pub struct Band {
    pub x_low: u32,
    pub x_high: u32,
    pub y_low: u32,
    pub y_high: u32,
}

impl Band {
    pub open spec fn holds(self, pos: Position) -> bool {
        self.x_low <= pos.x <= self.x_high && self.y_low <= pos.y <= self.y_high
    }
}

/// Where the four pillars stand.
#[derive(Clone, Copy, Debug, PartialEq, Eq, Hash, Structural)]
pub struct PillarSites {
    pub north: Position,
    pub east: Position,
    pub south: Position,
    pub west: Position,
}

impl PillarSites {
    pub open spec fn site(self, which: Pillars) -> Position {
        match which {
            Pillars::North => self.north,
            Pillars::East => self.east,
            Pillars::South => self.south,
            Pillars::West => self.west,
        }
    }

    /// Whether `pos` is one of the four sites.
    pub open spec fn holds(self, pos: Position) -> bool {
        pos == self.north || pos == self.east || pos == self.south || pos == self.west
    }

    /// Whether `pos` is the center of a grid of radius `radius` or one of
    /// the four sites: the five cells that get the marker color.
    pub open spec fn marks(self, radius: u32, pos: Position) -> bool {
        pos == center_of(radius) || self.holds(pos)
    }

    /// Each site is a cell of a grid of radius `radius`.
    pub open spec fn lie_in(self, radius: u32) -> bool {
        &&& in_footprint(radius, self.north)
        &&& in_footprint(radius, self.east)
        &&& in_footprint(radius, self.south)
        &&& in_footprint(radius, self.west)
    }

    /// Each site lies in the band of its pillar.
    pub open spec fn within(self, config: PlacementConfig) -> bool {
        forall|which: Pillars| #[trigger] config.band(which).holds(self.site(which))
    }

    /// Whether each site is a cell of `grid`.
    pub fn all_in(&self, grid: &HexGrid) -> (yes: bool)
        requires
            grid@.radius <= MAX_RADIUS,
        ensures
            yes == self.lie_in(grid@.radius),
    {
        grid.contains(self.north) && grid.contains(self.east) && grid.contains(self.south)
            && grid.contains(self.west)
    }

    /// The site of one pillar.
    pub fn get(&self, which: Pillars) -> (pos: Position)
        ensures
            pos == self.site(which),
    {
        match which {
            Pillars::North => self.north,
            Pillars::East => self.east,
            Pillars::South => self.south,
            Pillars::West => self.west,
        }
    }
}

impl PlacementConfig {
    /// The offsets are valid for the radius: no band is empty, the bands are
    /// disjoint and miss the center, and every position of every band lies
    /// in the hexagon of the grid.
    pub open spec fn wf(self) -> bool {
        &&& self.radius <= MAX_RADIUS
        &&& 1 <= self.vert <= self.horz_x
        &&& self.horz_y < self.vert
        &&& self.horz_x + self.horz_y <= self.radius
    }

    /// The band in which a pillar is sampled.
    pub open spec fn band(self, which: Pillars) -> Band {
        let r = self.radius;
        match which {
            Pillars::North => Band {
                x_low: (r - self.vert) as u32,
                x_high: r,
                y_low: (r + self.vert) as u32,
                y_high: (r + r) as u32,
            },
            Pillars::East => Band {
                x_low: (r - self.horz_x) as u32,
                x_high: (r - self.vert) as u32,
                y_low: (r - self.horz_y) as u32,
                y_high: (r + self.horz_y) as u32,
            },
            Pillars::South => Band {
                x_low: r,
                x_high: (r + self.vert) as u32,
                y_low: 0,
                y_high: (r - self.vert) as u32,
            },
            Pillars::West => Band {
                x_low: (r + self.vert) as u32,
                x_high: (r + self.horz_x) as u32,
                y_low: (r - self.horz_y) as u32,
                y_high: (r + self.horz_y) as u32,
            },
        }
    }

    /// The position that two draws in a pillar's band give, and the state of
    /// the stream after them.
    pub open spec fn sampled_site(self, which: Pillars, state: u64) -> (Position, u64) {
        let band = self.band(which);
        let (x, after_x) = ranged_draw(state, band.x_low, band.x_high);
        let (y, after_y) = ranged_draw(after_x, band.y_low, band.y_high);
        (Position { x, y }, after_y)
    }

    /// The four sites that a stream in `state` gives, and the state of the
    /// stream after the eight draws.
    pub open spec fn sampled_sites(self, state: u64) -> (PillarSites, u64) {
        let (north, s1) = self.sampled_site(Pillars::North, state);
        let (east, s2) = self.sampled_site(Pillars::East, s1);
        let (south, s3) = self.sampled_site(Pillars::South, s2);
        let (west, s4) = self.sampled_site(Pillars::West, s3);
        (PillarSites { north, east, south, west }, s4)
    }

    /// The configuration of the standard map.
    pub fn standard() -> (config: PlacementConfig)
        ensures
            config == (PlacementConfig {
                radius: MAP_RADIUS,
                vert: PILLAR_OFFSET_VERT,
                horz_x: PILLAR_OFFSET_HORZ_X,
                horz_y: PILLAR_OFFSET_HORZ_Y,
            }),
            config.wf(),
    {
        PlacementConfig {
            radius: MAP_RADIUS,
            vert: PILLAR_OFFSET_VERT,
            horz_x: PILLAR_OFFSET_HORZ_X,
            horz_y: PILLAR_OFFSET_HORZ_Y,
        }
    }

    /// A configuration, where the offsets are valid for the radius.
    pub fn new(radius: u32, vert: u32, horz_x: u32, horz_y: u32) -> (config: Option<
        PlacementConfig,
    >)
        ensures
            config is Some <==> (PlacementConfig { radius, vert, horz_x, horz_y }).wf(),
            config matches Some(c) ==> c == (PlacementConfig { radius, vert, horz_x, horz_y }),
    {
        if radius <= MAX_RADIUS && 1 <= vert && vert <= horz_x && horz_y < vert && horz_x <= radius
            && horz_y <= radius - horz_x {
            Some(PlacementConfig { radius, vert, horz_x, horz_y })
        } else {
            None
        }
    }

    /// Whether the offsets are valid for the radius.
    pub fn is_valid(&self) -> (yes: bool)
        ensures
            yes == self.wf(),
    {
        self.radius <= MAX_RADIUS && 1 <= self.vert && self.vert <= self.horz_x && self.horz_y
            < self.vert && self.horz_x <= self.radius && self.horz_y <= self.radius - self.horz_x
    }

    /// The band in which a pillar is sampled.
    pub fn band_of(&self, which: Pillars) -> (band: Band)
        requires
            self.wf(),
        ensures
            band == self.band(which),
            band.x_low <= band.x_high,
            band.y_low <= band.y_high,
    {
        let r: u32 = self.radius;
        match which {
            Pillars::North => Band {
                x_low: r - self.vert,
                x_high: r,
                y_low: r + self.vert,
                y_high: r + r,
            },
            Pillars::East => Band {
                x_low: r - self.horz_x,
                x_high: r - self.vert,
                y_low: r - self.horz_y,
                y_high: r + self.horz_y,
            },
            Pillars::South => Band { x_low: r, x_high: r + self.vert, y_low: 0, y_high: r - self.vert },
            Pillars::West => Band {
                x_low: r + self.vert,
                x_high: r + self.horz_x,
                y_low: r - self.horz_y,
                y_high: r + self.horz_y,
            },
        }
    }

    /// A cell on the course of the walk from the center to a pillar lies in
    /// the band of no other pillar.
    pub proof fn course_misses_other_bands(
        self,
        which: Pillars,
        other: Pillars,
        target: Position,
        pos: Position,
    )
        requires
            self.wf(),
            self.band(which).holds(target),
            on_course(center_of(self.radius), target, pos),
            other != which,
        ensures
            !self.band(other).holds(pos),
    {
    }

    /// Under valid offsets every position of a band lies in the hexagon, off
    /// the center, and in no other band.
    pub proof fn bands_lie_apart_in_the_footprint(
        self,
        which: Pillars,
        other: Pillars,
        pos: Position,
    )
        requires
            self.wf(),
            self.band(which).holds(pos),
        ensures
            in_footprint(self.radius, pos),
            pos != center_of(self.radius),
            other != which ==> !self.band(other).holds(pos),
    {
    }
}

/// The grid with the marker color and a fresh room of type `r_type` at `pos`.
pub open spec fn marked(grid: GridView, pos: Position, r_type: RoomTypeView) -> GridView {
    grid.with_state(pos, CellState::Collapsed(Collapsed::Red)).with_room(pos, fresh_room(r_type))
}

/// The grid with the entrance at its center and the four pillars at `sites`.
pub open spec fn with_origin_and_pillars(grid: GridView, sites: PillarSites) -> GridView {
    let g0 = marked(grid, center_of(grid.radius), RoomTypeView::Entrance);
    let g1 = marked(g0, sites.north, RoomTypeView::Pillar);
    let g2 = marked(g1, sites.east, RoomTypeView::Pillar);
    let g3 = marked(g2, sites.south, RoomTypeView::Pillar);
    marked(g3, sites.west, RoomTypeView::Pillar)
}

/// Samples the site of one pillar: `x`, then `y`, each in its range.
pub fn sample_site(config: &PlacementConfig, which: Pillars, rng: &mut SeededRng) -> (pos: Position)
    requires
        config.wf(),
    ensures
        (pos, final(rng)@) == config.sampled_site(which, old(rng)@),
        config.band(which).holds(pos),
        in_footprint(config.radius, pos),
{
    let band: Band = config.band_of(which);
    let x: u32 = rng.draw(band.x_low, band.x_high);
    let y: u32 = rng.draw(band.y_low, band.y_high);
    let pos: Position = Position { x, y };
    proof {
        config.bands_lie_apart_in_the_footprint(which, which, pos);
    }
    pos
}

/// Samples the four sites, north, east, south and west in turn. The sites
/// lie in the hexagon, each in its band, so no two are the same and none is
/// the center.
pub fn place_pillars(config: &PlacementConfig, rng: &mut SeededRng) -> (sites: PillarSites)
    requires
        config.wf(),
    ensures
        (sites, final(rng)@) == config.sampled_sites(old(rng)@),
        sites.within(*config),
        sites.lie_in(config.radius),
        forall|which: Pillars| in_footprint(config.radius, #[trigger] sites.site(which)),
{
    let north: Position = sample_site(config, Pillars::North, rng);
    let east: Position = sample_site(config, Pillars::East, rng);
    let south: Position = sample_site(config, Pillars::South, rng);
    let west: Position = sample_site(config, Pillars::West, rng);
    PillarSites { north, east, south, west }
}

/// Writes the marker color and a fresh room of type `r_type` at `pos`.
pub fn mark(grid: &mut HexGrid, pos: Position, r_type: RoomType)
    requires
        old(grid)@.wf(),
        old(grid)@.contains(pos),
    ensures
        final(grid)@ == marked(old(grid)@, pos, r_type@),
        final(grid)@.wf(),
        final(grid)@.radius == old(grid)@.radius,
        final(grid)@.entropy_not_above(old(grid)@),
{
    grid.assign(pos, Collapsed::Red);
    grid.attach_room(pos, RoomInfo::from_type(r_type, ROOM_RNG_SEED));
}

/// Marking a cell changes the state and the room at that position and
/// nothing else.
pub proof fn marked_changes_one_cell(
    grid: GridView,
    pos: Position,
    r_type: RoomTypeView,
    at: Position,
)
    requires
        grid.wf(),
        grid.contains(pos),
    ensures
        marked(grid, pos, r_type).state(at) == if at == pos {
            Some(CellState::Collapsed(Collapsed::Red))
        } else {
            grid.state(at)
        },
        marked(grid, pos, r_type).room(at) == if at == pos {
            Some(fresh_room(r_type))
        } else {
            grid.room(at)
        },
{
    let colored = grid.with_state(pos, CellState::Collapsed(Collapsed::Red));
    grid.with_state_changes_one_cell(pos, CellState::Collapsed(Collapsed::Red), at);
    grid.with_state_changes_one_cell(pos, CellState::Collapsed(Collapsed::Red), pos);
    grid.cells_fill_the_footprint(pos);
    assert(colored.wf()) by {
        crate::grid::lemma_index_of_position(grid.radius, pos);
    }
    colored.with_room_changes_one_room(pos, fresh_room(r_type), at);
}

/// Samples the four pillars and fixes them and the entrance in the grid:
/// each of the five cells gets the marker color, whatever its state was, and
/// its room.
pub fn create_origin_and_pillars(
    grid: &mut HexGrid,
    config: &PlacementConfig,
    rng: &mut SeededRng,
) -> (sites: PillarSites)
    requires
        old(grid)@.wf(),
        config.wf(),
        old(grid)@.radius == config.radius,
    ensures
        (sites, final(rng)@) == config.sampled_sites(old(rng)@),
        final(grid)@ == with_origin_and_pillars(old(grid)@, sites),
        final(grid)@.wf(),
        final(grid)@.radius == old(grid)@.radius,
        final(grid)@.entropy_not_above(old(grid)@),
        sites.within(*config),
        sites.lie_in(config.radius),
        final(grid)@.room(center_of(config.radius)) == Some(fresh_room(RoomTypeView::Entrance)),
        forall|which: Pillars|
            final(grid)@.room(#[trigger] sites.site(which)) == Some(
                fresh_room(RoomTypeView::Pillar),
            ),
        final(grid)@.state(center_of(config.radius)) == Some(CellState::Collapsed(Collapsed::Red)),
        forall|which: Pillars|
            final(grid)@.state(#[trigger] sites.site(which)) == Some(
                CellState::Collapsed(Collapsed::Red),
            ),
        forall|pos: Position|
            #![trigger final(grid)@.state(pos)]
            #![trigger final(grid)@.room(pos)]
            !sites.marks(config.radius, pos) ==> final(grid)@.state(pos) == old(grid)@.state(pos)
                && final(grid)@.room(pos) == old(grid)@.room(pos),
{
    let sites: PillarSites = place_pillars(config, rng);
    let center: Position = grid.center();
    let ghost g = grid@;
    proof {
        assert(sites.site(Pillars::North) == sites.north);
        assert(sites.site(Pillars::East) == sites.east);
        assert(sites.site(Pillars::South) == sites.south);
        assert(sites.site(Pillars::West) == sites.west);
        assert(config.band(Pillars::North).holds(sites.site(Pillars::North)));
        assert(config.band(Pillars::East).holds(sites.site(Pillars::East)));
        assert(config.band(Pillars::South).holds(sites.site(Pillars::South)));
        assert(config.band(Pillars::West).holds(sites.site(Pillars::West)));
    }
    mark(grid, center, RoomType::Entrance);
    let ghost g0 = grid@;
    mark(grid, sites.north, RoomType::Pillar);
    let ghost g1 = grid@;
    mark(grid, sites.east, RoomType::Pillar);
    let ghost g2 = grid@;
    mark(grid, sites.south, RoomType::Pillar);
    let ghost g3 = grid@;
    mark(grid, sites.west, RoomType::Pillar);
    proof {
        assert forall|at: Position|
            at == center || at == sites.north || at == sites.east || at == sites.south || at
                == sites.west implies grid@.state(at) == Some(CellState::Collapsed(Collapsed::Red))
            && grid@.room(at) == Some(
            fresh_room(
                if at == center {
                    RoomTypeView::Entrance
                } else {
                    RoomTypeView::Pillar
                },
            ),
        ) by {
            marked_changes_one_cell(g, center, RoomTypeView::Entrance, at);
            marked_changes_one_cell(g0, sites.north, RoomTypeView::Pillar, at);
            marked_changes_one_cell(g1, sites.east, RoomTypeView::Pillar, at);
            marked_changes_one_cell(g2, sites.south, RoomTypeView::Pillar, at);
            marked_changes_one_cell(g3, sites.west, RoomTypeView::Pillar, at);
        }
        assert forall|at: Position| !sites.marks(config.radius, at) implies grid@.state(at)
            == g.state(at) && grid@.room(at) == g.room(at) by {
            marked_changes_one_cell(g, center, RoomTypeView::Entrance, at);
            marked_changes_one_cell(g0, sites.north, RoomTypeView::Pillar, at);
            marked_changes_one_cell(g1, sites.east, RoomTypeView::Pillar, at);
            marked_changes_one_cell(g2, sites.south, RoomTypeView::Pillar, at);
            marked_changes_one_cell(g3, sites.west, RoomTypeView::Pillar, at);
        }
        assert forall|which: Pillars|
            grid@.room(#[trigger] sites.site(which)) == Some(
                fresh_room(RoomTypeView::Pillar),
            ) && grid@.state(sites.site(which)) == Some(
                CellState::Collapsed(Collapsed::Red),
            ) by {
            assert(config.band(which).holds(sites.site(which)));
        }
    }
    sites
}

} // verus!
