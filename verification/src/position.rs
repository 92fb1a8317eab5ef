//! Hexagonal coordinates: positions, distances and the six directions.
//!
//! A position is an axial hex coordinate stored as an unsigned pair: `x` is
//! the axial `q`, `y` the axial `r`. The six directions are numbered 0 to 5,
//! counter-clockwise starting from east.

use vstd::prelude::*;

verus! {

/// A cell coordinate on the map.
#[derive(Clone, Copy, Debug, PartialEq, Eq, Hash, Structural)]
pub struct Position {
    pub x: u32,
    pub y: u32,
}

/// The distance between two integers.
pub open spec fn gap(a: int, b: int) -> int {
    if a >= b {
        a - b
    } else {
        b - a
    }
}

/// The change of `x` that one step in direction `dir` makes.
pub open spec fn step_dx(dir: int) -> int {
    if dir == 0 || dir == 5 {
        1
    } else if dir == 2 || dir == 3 {
        -1
    } else {
        0
    }
}

/// The change of `y` that one step in direction `dir` makes.
pub open spec fn step_dy(dir: int) -> int {
    if dir == 1 || dir == 2 {
        1
    } else if dir == 4 || dir == 5 {
        -1
    } else {
        0
    }
}

/// The distance between two `u32` values.
pub fn gap_of(a: u32, b: u32) -> (d: u32)
    ensures
        d == gap(a as int, b as int),
{
    if a >= b {
        a - b
    } else {
        b - a
    }
}

impl Position {
    pub fn new(x: u32, y: u32) -> (pos: Position)
        ensures
            pos == (Position { x, y }),
    {
        Position { x, y }
    }

    /// The offset distance `|dx| + |dy|`, by which a path walk scores a cell.
    pub open spec fn offset_distance(self, other: Position) -> int {
        gap(self.x as int, other.x as int) + gap(self.y as int, other.y as int)
    }

    /// The number of hex steps between two positions.
    pub open spec fn hex_distance(self, other: Position) -> int {
        let dq = self.x as int - other.x as int;
        let dr = self.y as int - other.y as int;
        (gap(dq, 0) + gap(dq + dr, 0) + gap(dr, 0)) / 2
    }

    /// Whether `other` is one hex step away.
    pub open spec fn adjacent(self, other: Position) -> bool {
        exists|dir: int| 0 <= dir < 6 && #[trigger] self.stepped(dir) == Some(other)
    }

    /// The position one step away in direction `dir`, unless a coordinate
    /// would leave the range of `u32`.
    pub open spec fn stepped(self, dir: int) -> Option<Position> {
        let nx = self.x as int + step_dx(dir);
        let ny = self.y as int + step_dy(dir);
        if 0 <= dir < 6 && 0 <= nx <= u32::MAX && 0 <= ny <= u32::MAX {
            Some(Position { x: nx as u32, y: ny as u32 })
        } else {
            None
        }
    }

    /// The axial coordinates `(q, r)` of the position.
    pub open spec fn axial(self) -> (int, int) {
        (self.x as int, self.y as int)
    }

    /// The cube coordinates `(q, r, s)` of the position, which sum to 0.
    pub open spec fn cube(self) -> (int, int, int) {
        (self.x as int, self.y as int, -(self.x as int) - (self.y as int))
    }

    /// The hex distance is the largest of the three distances along the
    /// cube axes, and half their sum; the offset distance lies between the
    /// hex distance and twice it.
    pub proof fn hex_distance_in_cube_coordinates(self, other: Position)
        ensures
            self.hex_distance(other) == (gap(self.cube().0, other.cube().0) + gap(
                self.cube().1,
                other.cube().1,
            ) + gap(self.cube().2, other.cube().2)) / 2,
            self.hex_distance(other) >= gap(self.cube().0, other.cube().0),
            self.hex_distance(other) >= gap(self.cube().1, other.cube().1),
            self.hex_distance(other) >= gap(self.cube().2, other.cube().2),
            self.hex_distance(other) == gap(self.cube().0, other.cube().0) || self.hex_distance(
                other,
            ) == gap(self.cube().1, other.cube().1) || self.hex_distance(other) == gap(
                self.cube().2,
                other.cube().2,
            ),
            self.hex_distance(other) <= self.offset_distance(other) <= 2 * self.hex_distance(other),
            self.hex_distance(other) == other.hex_distance(self),
    {
    }

    /// The axial coordinates `(q, r)` of the position.
    pub fn to_axial(&self) -> (axial: (i64, i64))
        ensures
            axial.0 == self.axial().0,
            axial.1 == self.axial().1,
    {
        (self.x as i64, self.y as i64)
    }

    /// The position of the axial coordinates `(q, r)`; `None` where one of
    /// them is negative or beyond the range of `u32`.
    pub fn from_axial(q: i64, r: i64) -> (pos: Option<Position>)
        ensures
            pos is Some <==> 0 <= q <= u32::MAX && 0 <= r <= u32::MAX,
            pos matches Some(p) ==> p.axial() == (q as int, r as int),
    {
        if 0 <= q && q <= u32::MAX as i64 && 0 <= r && r <= u32::MAX as i64 {
            Some(Position { x: q as u32, y: r as u32 })
        } else {
            None
        }
    }

    pub fn offset_distance_to(&self, other: &Position) -> (d: u64)
        ensures
            d == self.offset_distance(*other),
    {
        let dx: u32 = gap_of(self.x, other.x);
        let dy: u32 = gap_of(self.y, other.y);
        dx as u64 + dy as u64
    }

    pub fn hex_distance_to(&self, other: &Position) -> (d: u64)
        ensures
            d == self.hex_distance(*other),
    {
        let dx: u64 = gap_of(self.x, other.x) as u64;
        let dy: u64 = gap_of(self.y, other.y) as u64;
        // the third cube axis moves by |dq + dr|
        let same_side: bool = (self.x >= other.x) == (self.y >= other.y);
        let ds: u64 = if same_side {
            dx + dy
        } else if dx >= dy {
            dx - dy
        } else {
            dy - dx
        };
        (dx + dy + ds) / 2
    }

    /// Steps once in direction `dir` (0 to 5).
    pub fn step(&self, dir: u8) -> (next: Option<Position>)
        ensures
            next == self.stepped(dir as int),
    {
        if dir >= 6 {
            return None;
        }
        let right: bool = dir == 0 || dir == 5;
        let left: bool = dir == 2 || dir == 3;
        let up: bool = dir == 1 || dir == 2;
        let down: bool = dir == 4 || dir == 5;
        if (right && self.x == u32::MAX) || (left && self.x == 0) {
            return None;
        }
        if (up && self.y == u32::MAX) || (down && self.y == 0) {
            return None;
        }
        let x: u32 = if right {
            self.x + 1
        } else if left {
            self.x - 1
        } else {
            self.x
        };
        let y: u32 = if up {
            self.y + 1
        } else if down {
            self.y - 1
        } else {
            self.y
        };
        Some(Position { x, y })
    }
}

} // verus!
