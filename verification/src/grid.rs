//! The hexagonal grid: a flat arena of cells over a square bounding box.
//!
//! A grid of radius `R` covers the box of side `2R + 1`. The cell of position
//! `(x, y)` stands at index `y * (2R + 1) + x` of the arena. Only the
//! positions within hex distance `R` of the center `(R, R)` hold a cell; the
//! corners of the box outside that hexagon stay empty for good.

use crate::domain::{Collapsed, ConstraintDomain};
use crate::position::{gap, Position};
use crate::room::{room_view, RoomInfo, RoomInfoView};
use vstd::prelude::*;

verus! {

/// The largest radius a grid can have: with it the arena's length still fits
/// an index of 32 bits.
pub const MAX_RADIUS: u32 = 32767;

/// The texture index of a cell that has no color: the outline of a tile.
pub const OUTLINE_TILE: u32 = 14;

/// The state of one cell.
#[derive(Clone, Copy, Debug, PartialEq, Eq, Hash, Structural)]
pub enum CellState {
    /// Unresolved, with the colors still admissible.
    Open(ConstraintDomain),
    /// Resolved to one color.
    Collapsed(Collapsed),
    /// Every color was struck out before the cell was resolved.
    Exhausted,
}

impl CellState {
    /// The texture index a cell in this state is shown with: that of its
    /// color, or the outline where it has none.
    pub open spec fn shown(self) -> int {
        match self {
            CellState::Collapsed(color) => color.texture(),
            _ => OUTLINE_TILE as int,
        }
    }

    /// The entropy of a cell: the number of admissible colors while the cell
    /// is open, and 0 once it has no domain any more.
    pub open spec fn entropy(self) -> int {
        match self {
            CellState::Open(domain) => domain.count(),
            _ => 0,
        }
    }

    /// The color of the cell, if it has one.
    pub open spec fn color(self) -> Option<Collapsed> {
        match self {
            CellState::Collapsed(color) => Some(color),
            _ => None,
        }
    }

    /// An open cell has at least one admissible color.
    pub open spec fn valid(self) -> bool {
        self matches CellState::Open(domain) ==> domain.count() >= 1
    }

    /// The state after `color` is struck out of the cell's domain: an open
    /// cell loses the color, and becomes exhausted when it was its last one;
    /// a cell without a domain stays as it is.
    pub open spec fn excluding(self, color: Collapsed) -> CellState {
        match self {
            CellState::Open(domain) => if domain.excluding(color).count() == 0 {
                CellState::Exhausted
            } else {
                CellState::Open(domain.excluding(color))
            },
            _ => self,
        }
    }

    pub fn is_open(&self) -> (yes: bool)
        ensures
            yes == (*self is Open),
    {
        match self {
            CellState::Open(_) => true,
            _ => false,
        }
    }

    /// The state after `color` is struck out.
    pub fn exclude(&self, color: Collapsed) -> (next: CellState)
        ensures
            next == self.excluding(color),
            next.entropy() <= self.entropy(),
            self.valid() ==> next.valid(),
    {
        match self {
            CellState::Open(domain) => {
                let rest: ConstraintDomain = domain.without(color);
                if rest.entropy() == 0 {
                    CellState::Exhausted
                } else {
                    CellState::Open(rest)
                }
            },
            CellState::Collapsed(c) => CellState::Collapsed(*c),
            CellState::Exhausted => CellState::Exhausted,
        }
    }
}

/// The side of the bounding box of a grid of radius `radius`.
pub open spec fn side_of(radius: u32) -> int {
    2 * radius + 1
}

/// The number of arena slots of a grid of radius `radius`.
pub open spec fn slots_of(radius: u32) -> int {
    side_of(radius) * side_of(radius)
}

/// The center of a grid of radius `radius`: the entrance.
pub open spec fn center_of(radius: u32) -> Position {
    Position { x: radius, y: radius }
}

/// Whether `pos` lies in the bounding box.
pub open spec fn in_box(radius: u32, pos: Position) -> bool {
    pos.x <= 2 * radius && pos.y <= 2 * radius
}

/// Whether `pos` lies in the hexagon of cells.
pub open spec fn in_footprint(radius: u32, pos: Position) -> bool {
    in_box(radius, pos) && pos.hex_distance(center_of(radius)) <= radius
}

/// The arena index of a position of the box.
pub open spec fn index_of(radius: u32, pos: Position) -> int {
    pos.y * side_of(radius) + pos.x
}

/// The position that arena index `index` stands for.
pub open spec fn position_of(radius: u32, index: int) -> Position {
    Position { x: (index % side_of(radius)) as u32, y: (index / side_of(radius)) as u32 }
}

/// The neighbors of `pos` that lie in the hexagon, among the directions
/// below `dirs`, in the order of the directions.
pub open spec fn neighbors_upto(radius: u32, pos: Position, dirs: int) -> Seq<Position>
    decreases dirs,
{
    if dirs <= 0 {
        Seq::empty()
    } else {
        let before = neighbors_upto(radius, pos, dirs - 1);
        match pos.stepped(dirs - 1) {
            Some(next) => if in_footprint(radius, next) {
                before.push(next)
            } else {
                before
            },
            None => before,
        }
    }
}

/// The neighbors of `pos` that lie in the hexagon, in the order of the six
/// directions.
pub open spec fn neighbors_of(radius: u32, pos: Position) -> Seq<Position> {
    neighbors_upto(radius, pos, 6)
}

/// A position of the box has an index in the arena, and the index leads back
/// to the position.
pub proof fn lemma_index_of_position(radius: u32, pos: Position)
    requires
        in_box(radius, pos),
    ensures
        0 <= index_of(radius, pos) < slots_of(radius),
        radius <= MAX_RADIUS ==> slots_of(radius) <= 0xFFFF_FFFF,
        position_of(radius, index_of(radius, pos)) == pos,
{
    let side = side_of(radius);
    let x = pos.x as int;
    let y = pos.y as int;
    assert(0 <= y * side + x < side * side) by (nonlinear_arith)
        requires
            0 <= x < side,
            0 <= y < side,
    ;
    if radius <= MAX_RADIUS {
        assert(side * side <= 0xFFFF_FFFF) by (nonlinear_arith)
            requires
                0 < side <= 65535,
        ;
    }
    vstd::arithmetic::div_mod::lemma_fundamental_div_mod_converse(y * side + x, side, y, x);
}

/// The hexagon of a grid of radius `R`, written out: the positions of the
/// box whose distance from the center along each of the three cube axes,
/// `|x - R|`, `|y - R|` and `|x + y - 2R|`, is at most `R`.
pub proof fn footprint_is_the_hexagon(radius: u32, pos: Position)
    ensures
        in_footprint(radius, pos) <==> {
            &&& pos.x <= 2 * radius
            &&& pos.y <= 2 * radius
            &&& gap(pos.x as int, radius as int) <= radius
            &&& gap(pos.y as int, radius as int) <= radius
            &&& gap(pos.x + pos.y, 2 * radius) <= radius
        },
{
}

/// An index of the arena stands for a position of the box, and the position
/// leads back to the index.
pub proof fn lemma_position_of_index(radius: u32, index: int)
    requires
        radius <= MAX_RADIUS,
        0 <= index < slots_of(radius),
    ensures
        in_box(radius, position_of(radius, index)),
        index_of(radius, position_of(radius, index)) == index,
{
    let side = side_of(radius);
    vstd::arithmetic::div_mod::lemma_fundamental_div_mod(index, side);
    assert(0 <= index % side < side);
    assert(0 <= index / side < side) by (nonlinear_arith)
        requires
            0 <= index < side * side,
            0 < side,
            index == side * (index / side) + (index % side),
            0 <= index % side < side,
    ;
    assert(side * (index / side) == (index / side) * side) by (nonlinear_arith);
}

/// A grid as a mathematical value: the radius, and for every slot of the
/// arena the state of the cell and its room, where there is one.
pub struct GridView {
    pub radius: u32,
    pub cells: Seq<Option<CellState>>,
    pub rooms: Seq<Option<RoomInfoView>>,
}

impl GridView {
    /// The grid as it is created: every cell of the hexagon open to all six
    /// colors, no room anywhere.
    pub open spec fn fresh(radius: u32) -> GridView {
        GridView {
            radius,
            cells: Seq::new(
                slots_of(radius) as nat,
                |i: int|
                    if in_footprint(radius, position_of(radius, i)) {
                        Some(CellState::Open(ConstraintDomain::all()))
                    } else {
                        None
                    },
            ),
            rooms: Seq::new(slots_of(radius) as nat, |i: int| None),
        }
    }

    /// The invariant of a grid: the arena covers the box; a slot holds a cell
    /// exactly where its position lies in the hexagon; an open cell has an
    /// admissible color; a room stands on a cell.
    pub open spec fn wf(self) -> bool {
        &&& self.radius <= MAX_RADIUS
        &&& self.cells.len() == slots_of(self.radius)
        &&& self.rooms.len() == slots_of(self.radius)
        &&& forall|i: int|
            0 <= i < self.cells.len() ==> (#[trigger] self.cells[i] is Some <==> in_footprint(
                self.radius,
                position_of(self.radius, i),
            ))
        &&& forall|i: int|
            0 <= i < self.cells.len() ==> (#[trigger] self.cells[i] matches Some(state)
                ==> state.valid())
        &&& forall|i: int|
            0 <= i < self.rooms.len() ==> (#[trigger] self.rooms[i] is Some
                ==> self.cells[i] is Some)
    }

    /// Whether the grid holds a cell at `pos`.
    pub open spec fn contains(self, pos: Position) -> bool {
        in_footprint(self.radius, pos)
    }

    /// The state of the cell at `pos`; `None` where the grid has no cell.
    pub open spec fn state(self, pos: Position) -> Option<CellState> {
        if in_box(self.radius, pos) {
            self.cells[index_of(self.radius, pos)]
        } else {
            None
        }
    }

    /// The room at `pos`; `None` where there is no room.
    pub open spec fn room(self, pos: Position) -> Option<RoomInfoView> {
        if in_box(self.radius, pos) {
            self.rooms[index_of(self.radius, pos)]
        } else {
            None
        }
    }

    /// The grid with the state of the cell at `pos` replaced.
    pub open spec fn with_state(self, pos: Position, state: CellState) -> GridView {
        GridView { cells: self.cells.update(index_of(self.radius, pos), Some(state)), ..self }
    }

    /// The grid with the room at `pos` replaced.
    pub open spec fn with_room(self, pos: Position, room: RoomInfoView) -> GridView {
        GridView { rooms: self.rooms.update(index_of(self.radius, pos), Some(room)), ..self }
    }

    /// The grid with `color` struck out of the domain of the cell at `pos`.
    pub open spec fn excluding(self, pos: Position, color: Collapsed) -> GridView {
        match self.state(pos) {
            Some(state) => self.with_state(pos, state.excluding(color)),
            None => self,
        }
    }

    /// The neighbors of `pos` in the grid, in the order of the directions.
    pub open spec fn neighbors(self, pos: Position) -> Seq<Position> {
        neighbors_of(self.radius, pos)
    }

    /// No cell of `self` has a higher entropy than it has in `before`.
    pub open spec fn entropy_not_above(self, before: GridView) -> bool {
        &&& self.cells.len() == before.cells.len()
        &&& forall|i: int|
            0 <= i < self.cells.len() ==> (#[trigger] self.cells[i] matches Some(now)
                ==> before.cells[i] matches Some(then) && now.entropy() <= then.entropy())
    }

    /// A grid as it is created, of any radius: a position holds a cell
    /// exactly where it lies in the hexagon; each cell is open to all six
    /// colors, so its entropy is 6, the highest there is, and it has no
    /// color; no position holds a room. Up to the largest radius the grid is
    /// well formed.
    pub proof fn fresh_is_open_everywhere(radius: u32, pos: Position)
        ensures
            radius <= MAX_RADIUS ==> GridView::fresh(radius).wf(),
            GridView::fresh(radius).state(pos) is Some <==> in_footprint(radius, pos),
            GridView::fresh(radius).state(pos) == if in_footprint(radius, pos) {
                Some(CellState::Open(ConstraintDomain::all()))
            } else {
                None
            },
            GridView::fresh(radius).state(pos) matches Some(state) ==> state.entropy() == 6
                && state.color() is None && state.shown() == OUTLINE_TILE,
            GridView::fresh(radius).room(pos) is None,
    {
        lemma_index_of_position(radius, Position { x: 0, y: 0 });
        if in_box(radius, pos) {
            lemma_index_of_position(radius, pos);
        }
    }

    /// The entropy of a cell is never above 6, that of a cell as it is
    /// created.
    pub proof fn entropy_is_at_most_six(state: CellState)
        ensures
            0 <= state.entropy() <= 6,
    {
    }

    /// Striking a color out of one cell changes the state at that position
    /// and nothing else.
    pub proof fn excluding_changes_one_cell(self, pos: Position, color: Collapsed, at: Position)
        requires
            self.wf(),
        ensures
            self.excluding(pos, color).state(at) == if at == pos {
                match self.state(pos) {
                    Some(state) => Some(state.excluding(color)),
                    None => None,
                }
            } else {
                self.state(at)
            },
            self.excluding(pos, color).room(at) == self.room(at),
    {
        self.cells_fill_the_footprint(pos);
        if self.state(pos) is Some {
            self.with_state_changes_one_cell(pos, self.state(pos)->0.excluding(color), at);
        }
    }

    /// Marking the room of one cell as cleared changes the room at that
    /// position and nothing else.
    pub proof fn with_room_cleared_changes_one_room(self, pos: Position, at: Position)
        requires
            self.wf(),
        ensures
            self.with_room_cleared(pos).room(at) == if at == pos {
                match self.room(pos) {
                    Some(room) => Some(room.cleared()),
                    None => None,
                }
            } else {
                self.room(at)
            },
            self.with_room_cleared(pos).state(at) == self.state(at),
    {
        self.cells_fill_the_footprint(pos);
        if self.room(pos) is Some {
            self.with_room_changes_one_room(pos, self.room(pos)->0.cleared(), at);
        }
    }

    /// Replacing the state of one cell changes the state at that position
    /// and nothing else.
    pub proof fn with_state_changes_one_cell(self, pos: Position, state: CellState, at: Position)
        requires
            self.wf(),
            self.contains(pos),
        ensures
            self.with_state(pos, state).state(at) == if at == pos {
                Some(state)
            } else {
                self.state(at)
            },
            self.with_state(pos, state).room(at) == self.room(at),
            self.with_state(pos, state).radius == self.radius,
    {
        lemma_index_of_position(self.radius, pos);
        if in_box(self.radius, at) {
            lemma_index_of_position(self.radius, at);
        }
    }

    /// Replacing the room of one cell changes the room at that position and
    /// nothing else.
    pub proof fn with_room_changes_one_room(self, pos: Position, room: RoomInfoView, at: Position)
        requires
            self.wf(),
            self.contains(pos),
        ensures
            self.with_room(pos, room).room(at) == if at == pos {
                Some(room)
            } else {
                self.room(at)
            },
            self.with_room(pos, room).state(at) == self.state(at),
            self.with_room(pos, room).radius == self.radius,
    {
        lemma_index_of_position(self.radius, pos);
        if in_box(self.radius, at) {
            lemma_index_of_position(self.radius, at);
        }
    }

    /// Where no entropy rises from `first` to `middle` and none from `middle`
    /// to `self`, none rises from `first` to `self`.
    pub proof fn entropy_not_above_chain(self, middle: GridView, first: GridView)
        requires
            self.entropy_not_above(middle),
            middle.entropy_not_above(first),
        ensures
            self.entropy_not_above(first),
    {
        assert forall|i: int| 0 <= i < self.cells.len() implies (#[trigger] self.cells[i] matches Some(
            now,
        ) ==> first.cells[i] matches Some(then) && now.entropy() <= then.entropy()) by {
            if let Some(now) = self.cells[i] {
                assert(middle.cells[i] is Some);
            }
        }
    }

    /// In a well-formed grid a position holds a cell exactly where it lies in
    /// the hexagon, and a room only there.
    pub proof fn cells_fill_the_footprint(self, pos: Position)
        requires
            self.wf(),
        ensures
            self.state(pos) is Some <==> self.contains(pos),
            self.room(pos) is Some ==> self.contains(pos),
            self.state(pos) matches Some(state) ==> state.valid(),
    {
        if in_box(self.radius, pos) {
            lemma_index_of_position(self.radius, pos);
            let i = index_of(self.radius, pos);
            assert(self.cells[i] is Some <==> in_footprint(
                self.radius,
                position_of(self.radius, i),
            ));
        }
    }
}

/// The hexagonal grid of cells.
pub struct HexGrid {
    radius: u32,
    cells: Vec<Option<CellState>>,
    rooms: Vec<Option<RoomInfo>>,
}

impl View for HexGrid {
    type V = GridView;

    closed spec fn view(&self) -> GridView {
        GridView {
            radius: self.radius,
            cells: self.cells@,
            rooms: Seq::new(self.rooms@.len(), |i: int| room_view(self.rooms@[i])),
        }
    }
}

impl HexGrid {
    /// Creates the grid of radius `radius`: the hexagon of cells around the
    /// center, each open to all six colors.
    pub fn create(radius: u32) -> (grid: HexGrid)
        requires
            radius <= MAX_RADIUS,
        ensures
            grid@ == GridView::fresh(radius),
            grid@.wf(),
            forall|pos: Position|
                #![trigger grid@.state(pos)]
                grid@.state(pos) == if in_footprint(radius, pos) {
                    Some(CellState::Open(ConstraintDomain::all()))
                } else {
                    None
                },
            forall|pos: Position| #![trigger grid@.room(pos)] grid@.room(pos) is None,
    {
        let side: usize = 2 * (radius as usize) + 1;
        assert(side * side <= 0xFFFF_FFFF) by (nonlinear_arith)
            requires
                0 < side <= 65535,
        ;
        let slots: usize = side * side;
        let center: Position = Position { x: radius, y: radius };
        let mut cells: Vec<Option<CellState>> = Vec::new();
        let mut rooms: Vec<Option<RoomInfo>> = Vec::new();
        let mut i: usize = 0;
        while i < slots
            invariant
                radius <= MAX_RADIUS,
                side == side_of(radius),
                slots == slots_of(radius),
                center == center_of(radius),
                i <= slots,
                cells@.len() == i,
                rooms@.len() == i,
                forall|j: int| 0 <= j < i ==> #[trigger] cells@[j] == GridView::fresh(radius).cells[j],
                forall|j: int| 0 <= j < i ==> #[trigger] rooms@[j] is None,
            decreases slots - i,
        {
            proof {
                lemma_position_of_index(radius, i as int);
            }
            let pos: Position = Position { x: (i % side) as u32, y: (i / side) as u32 };
            if pos.hex_distance_to(&center) <= radius as u64 {
                cells.push(Some(CellState::Open(ConstraintDomain::full())));
            } else {
                cells.push(None);
            }
            rooms.push(None);
            i = i + 1;
        }
        let grid = HexGrid { radius, cells, rooms };
        assert(grid@.cells =~= GridView::fresh(radius).cells);
        assert(grid@.rooms =~= GridView::fresh(radius).rooms);
        proof {
            assert forall|pos: Position| #![trigger grid@.state(pos)]
                grid@.state(pos) == (if in_footprint(radius, pos) {
                    Some(CellState::Open(ConstraintDomain::all()))
                } else {
                    None
                }) by {
                GridView::fresh_is_open_everywhere(radius, pos);
            }
            assert forall|pos: Position| #![trigger grid@.room(pos)] grid@.room(pos) is None by {
                GridView::fresh_is_open_everywhere(radius, pos);
            }
        }
        grid
    }

    pub fn radius(&self) -> (radius: u32)
        ensures
            radius == self@.radius,
    {
        self.radius
    }

    /// The center of the grid, where the entrance is.
    pub fn center(&self) -> (pos: Position)
        ensures
            pos == center_of(self@.radius),
    {
        Position { x: self.radius, y: self.radius }
    }

    /// The number of slots of the arena.
    pub fn slots(&self) -> (n: usize)
        requires
            self@.wf(),
        ensures
            n == slots_of(self@.radius),
            n == self@.cells.len(),
            n <= 0xFFFF_FFFF,
    {
        proof {
            lemma_index_of_position(self.radius, Position { x: 0, y: 0 });
        }
        self.cells.len()
    }

    /// The position that slot `index` of the arena stands for.
    pub fn position_at(&self, index: usize) -> (pos: Position)
        requires
            self@.wf(),
            index < self@.cells.len(),
        ensures
            pos == position_of(self@.radius, index as int),
            in_box(self@.radius, pos),
            index_of(self@.radius, pos) == index,
    {
        proof {
            lemma_position_of_index(self.radius, index as int);
        }
        let side: usize = 2 * (self.radius as usize) + 1;
        Position { x: (index % side) as u32, y: (index / side) as u32 }
    }

    /// The state of the cell in slot `index` of the arena.
    pub fn cell(&self, index: usize) -> (state: Option<CellState>)
        requires
            index < self@.cells.len(),
        ensures
            state == self@.cells[index as int],
    {
        self.cells[index]
    }

    /// Whether the grid holds a cell at `pos`.
    pub fn contains(&self, pos: Position) -> (yes: bool)
        requires
            self@.radius <= MAX_RADIUS,
        ensures
            yes == self@.contains(pos),
    {
        let reach: u32 = 2 * self.radius;
        if pos.x > reach || pos.y > reach {
            return false;
        }
        let center: Position = Position { x: self.radius, y: self.radius };
        pos.hex_distance_to(&center) <= self.radius as u64
    }

    fn slot(&self, pos: Position) -> (index: usize)
        requires
            self@.wf(),
            in_box(self@.radius, pos),
        ensures
            index == index_of(self@.radius, pos),
            index < self@.cells.len(),
    {
        proof {
            lemma_index_of_position(self.radius, pos);
        }
        let side: usize = 2 * (self.radius as usize) + 1;
        (pos.y as usize) * side + (pos.x as usize)
    }

    /// The state of the cell at `pos`. A position at which the grid has no
    /// cell gives `None`.
    pub fn get(&self, pos: Position) -> (state: Option<CellState>)
        requires
            self@.wf(),
        ensures
            state == self@.state(pos),
            state is Some <==> self@.contains(pos),
    {
        proof {
            self@.cells_fill_the_footprint(pos);
        }
        let reach: u32 = 2 * self.radius;
        if pos.x > reach || pos.y > reach {
            return None;
        }
        let index: usize = self.slot(pos);
        self.cells[index]
    }

    /// The color of the cell at `pos`. A cell that is open or exhausted, and
    /// a position without a cell, give `None`.
    pub fn color_at(&self, pos: Position) -> (color: Option<Collapsed>)
        requires
            self@.wf(),
        ensures
            color == match self@.state(pos) {
                Some(state) => state.color(),
                None => None,
            },
    {
        match self.get(pos) {
            Some(CellState::Collapsed(color)) => Some(color),
            _ => None,
        }
    }

    /// The room at `pos`, if there is one.
    pub fn room_at(&self, pos: Position) -> (room: Option<&RoomInfo>)
        requires
            self@.wf(),
        ensures
            room_view_of(room) == self@.room(pos),
    {
        let reach: u32 = 2 * self.radius;
        if pos.x > reach || pos.y > reach {
            return None;
        }
        let index: usize = self.slot(pos);
        self.rooms[index].as_ref()
    }

    /// The texture index the cell at `pos` is shown with: that of its color,
    /// or the outline for a cell that is open or exhausted. `None` for a
    /// position without a cell.
    pub fn tile_texture(&self, pos: Position) -> (index: Option<u32>)
        requires
            self@.wf(),
        ensures
            index is Some <==> self@.contains(pos),
            index matches Some(t) ==> t == self@.state(pos)->0.shown(),
    {
        match self.get(pos) {
            Some(CellState::Collapsed(color)) => Some(color.to_texture()),
            Some(_) => Some(OUTLINE_TILE),
            None => None,
        }
    }

    /// The neighbors of `pos` that the grid holds, in the order of the six
    /// directions. There are at most six.
    pub fn neighbors(&self, pos: Position) -> (out: Vec<Position>)
        requires
            self@.radius <= MAX_RADIUS,
        ensures
            out@ == self@.neighbors(pos),
            out@.len() <= 6,
            forall|i: int| 0 <= i < out@.len() ==> self@.contains(#[trigger] out@[i]),
    {
        let mut out: Vec<Position> = Vec::new();
        let mut dir: u8 = 0;
        while dir < 6
            invariant
                self@.radius <= MAX_RADIUS,
                dir <= 6,
                out@ == neighbors_upto(self@.radius, pos, dir as int),
                out@.len() <= dir,
                forall|i: int| 0 <= i < out@.len() ==> self@.contains(#[trigger] out@[i]),
            decreases 6 - dir,
        {
            match pos.step(dir) {
                Some(next) => {
                    if self.contains(next) {
                        out.push(next);
                    }
                },
                None => {},
            }
            dir = dir + 1;
        }
        out
    }

    /// Strikes `color` out of the domain of the cell at `pos`. An open cell
    /// that loses its last color becomes exhausted; a cell without a domain,
    /// and a position without a cell, are left as they are.
    pub fn exclude(&mut self, pos: Position, color: Collapsed)
        requires
            old(self)@.wf(),
        ensures
            final(self)@ == old(self)@.excluding(pos, color),
            final(self)@.wf(),
            final(self)@.entropy_not_above(old(self)@),
            forall|at: Position|
                #![trigger final(self)@.state(at)]
                final(self)@.state(at) == if at == pos {
                    match old(self)@.state(pos) {
                        Some(state) => Some(state.excluding(color)),
                        None => None,
                    }
                } else {
                    old(self)@.state(at)
                },
            forall|at: Position|
                #![trigger final(self)@.room(at)]
                final(self)@.room(at) == old(self)@.room(at),
    {
        let ghost start = self@;
        match self.get(pos) {
            Some(state) => {
                let index: usize = self.slot(pos);
                let next: CellState = state.exclude(color);
                let ghost before = self@;
                self.cells.set(index, Some(next));
                assert(self@.cells =~= before.with_state(pos, next).cells);
                assert(self@.rooms =~= before.rooms);
            },
            None => {},
        }
        proof {
            assert(self@ == start.excluding(pos, color));
            assert forall|at: Position| #![trigger self@.state(at)]
                self@.state(at) == (if at == pos {
                    match start.state(pos) {
                        Some(state) => Some(state.excluding(color)),
                        None => None,
                    }
                } else {
                    start.state(at)
                }) by {
                start.excluding_changes_one_cell(pos, color, at);
            }
            assert forall|at: Position| #![trigger self@.room(at)]
                self@.room(at) == start.room(at) by {
                start.excluding_changes_one_cell(pos, color, at);
            }
        }
    }

    /// Writes `color` into the cell at `pos`, whatever its state was.
    pub fn assign(&mut self, pos: Position, color: Collapsed)
        requires
            old(self)@.wf(),
            old(self)@.contains(pos),
        ensures
            final(self)@ == old(self)@.with_state(pos, CellState::Collapsed(color)),
            final(self)@.wf(),
            final(self)@.entropy_not_above(old(self)@),
            forall|at: Position|
                #![trigger final(self)@.state(at)]
                final(self)@.state(at) == if at == pos {
                    Some(CellState::Collapsed(color))
                } else {
                    old(self)@.state(at)
                },
            forall|at: Position|
                #![trigger final(self)@.room(at)]
                final(self)@.room(at) == old(self)@.room(at),
    {
        let index: usize = self.slot(pos);
        let ghost before = self@;
        proof {
            before.cells_fill_the_footprint(pos);
        }
        self.cells.set(index, Some(CellState::Collapsed(color)));
        assert(self@.cells =~= before.with_state(pos, CellState::Collapsed(color)).cells);
        assert(self@.rooms =~= before.rooms);
        proof {
            assert forall|at: Position| #![trigger self@.state(at)]
                self@.state(at) == (if at == pos {
                    Some(CellState::Collapsed(color))
                } else {
                    before.state(at)
                }) by {
                before.with_state_changes_one_cell(pos, CellState::Collapsed(color), at);
            }
            assert forall|at: Position| #![trigger self@.room(at)]
                self@.room(at) == before.room(at) by {
                before.with_state_changes_one_cell(pos, CellState::Collapsed(color), at);
            }
        }
    }

    /// Attaches `info` to the cell at `pos`, in place of any room it had.
    pub fn attach_room(&mut self, pos: Position, info: RoomInfo)
        requires
            old(self)@.wf(),
            old(self)@.contains(pos),
        ensures
            final(self)@ == old(self)@.with_room(pos, info@),
            final(self)@.wf(),
            final(self)@.entropy_not_above(old(self)@),
            forall|at: Position|
                #![trigger final(self)@.room(at)]
                final(self)@.room(at) == if at == pos {
                    Some(info@)
                } else {
                    old(self)@.room(at)
                },
            forall|at: Position|
                #![trigger final(self)@.state(at)]
                final(self)@.state(at) == old(self)@.state(at),
    {
        let index: usize = self.slot(pos);
        let ghost before = self@;
        proof {
            before.cells_fill_the_footprint(pos);
        }
        let ghost room = info@;
        self.rooms.set(index, Some(info));
        assert(self@.rooms =~= before.with_room(pos, room).rooms);
        proof {
            assert forall|at: Position| #![trigger self@.room(at)]
                self@.room(at) == (if at == pos {
                    Some(room)
                } else {
                    before.room(at)
                }) by {
                before.with_room_changes_one_room(pos, room, at);
            }
            assert forall|at: Position| #![trigger self@.state(at)]
                self@.state(at) == before.state(at) by {
                before.with_room_changes_one_room(pos, room, at);
            }
        }
    }
}

impl GridView {
    /// The grid with the room at `pos` marked as cleared, where there is one.
    pub open spec fn with_room_cleared(self, pos: Position) -> GridView {
        match self.room(pos) {
            Some(room) => self.with_room(pos, room.cleared()),
            None => self,
        }
    }
}

impl HexGrid {
    /// Marks the room at `pos` as cleared. Nothing changes where there is
    /// no room.
    pub fn mark_room_cleared(&mut self, pos: Position)
        requires
            old(self)@.wf(),
        ensures
            final(self)@ == old(self)@.with_room_cleared(pos),
            final(self)@.wf(),
            final(self)@.cells == old(self)@.cells,
            forall|at: Position|
                #![trigger final(self)@.room(at)]
                final(self)@.room(at) == if at == pos {
                    match old(self)@.room(pos) {
                        Some(room) => Some(room.cleared()),
                        None => None,
                    }
                } else {
                    old(self)@.room(at)
                },
    {
        let ghost before = self@;
        let reach: u32 = 2 * self.radius;
        if pos.x <= reach && pos.y <= reach {
            let index: usize = self.slot(pos);
            let done: Option<RoomInfo> = match &self.rooms[index] {
                Some(info) => Some(info.to_cleared()),
                None => None,
            };
            match done {
                Some(info) => {
                    let ghost room = info@;
                    self.rooms.set(index, Some(info));
                    assert(self@.rooms =~= before.with_room(pos, room).rooms);
                },
                None => {},
            }
        }
        proof {
            assert(self@ == before.with_room_cleared(pos));
            assert forall|at: Position| #![trigger self@.room(at)]
                self@.room(at) == (if at == pos {
                    match before.room(pos) {
                        Some(room) => Some(room.cleared()),
                        None => None,
                    }
                } else {
                    before.room(at)
                }) by {
                before.with_room_cleared_changes_one_room(pos, at);
            }
        }
    }
}

/// The view of a borrowed room that may be absent.
pub open spec fn room_view_of(room: Option<&RoomInfo>) -> Option<RoomInfoView> {
    match room {
        Some(info) => Some(info@),
        None => None,
    }
}

} // verus!
