use hex_dungeon::domain::{Collapsed, ConstraintDomain};
use hex_dungeon::grid::{CellState, HexGrid};
use hex_dungeon::pillars::{Band, Pillars, PlacementConfig};
use hex_dungeon::position::{gap_of, Position};
use hex_dungeon::room::{ActorName, DamageRange, Item, RoomInfo, RoomType};
use hex_dungeon::walk::{next_toward, reached, walk_path};

fn members(grid: &HexGrid) -> Vec<Position> {
    let mut out = Vec::new();
    for i in 0..grid.slots() {
        if grid.cell(i).is_some() {
            out.push(grid.position_at(i));
        }
    }
    out
}

#[test]
fn distances_between_positions() {
    let a = Position::new(5, 5);
    assert_eq!(gap_of(3, 9), 6);
    assert_eq!(gap_of(9, 3), 6);
    assert_eq!(a.hex_distance_to(&a), 0);
    assert_eq!(a.offset_distance_to(&a), 0);
    assert_eq!(a.hex_distance_to(&Position::new(2, 8)), 3);
    assert_eq!(a.offset_distance_to(&Position::new(2, 8)), 6);
    assert_eq!(a.hex_distance_to(&Position::new(7, 8)), 5);
    assert_eq!(a.offset_distance_to(&Position::new(7, 8)), 5);
    assert_eq!(a.hex_distance_to(&Position::new(0, 5)), 5);
    assert_eq!(Position::new(0, 10).hex_distance_to(&Position::new(10, 0)), 10);
    assert_eq!(Position::new(0, 10).offset_distance_to(&Position::new(10, 0)), 20);
    assert_eq!(
        Position::new(0, 0).offset_distance_to(&Position::new(u32::MAX, u32::MAX)),
        2 * (u32::MAX as u64)
    );
}

#[test]
fn the_six_directions() {
    let a = Position::new(5, 5);
    assert_eq!(a.step(0), Some(Position::new(6, 5)));
    assert_eq!(a.step(1), Some(Position::new(5, 6)));
    assert_eq!(a.step(2), Some(Position::new(4, 6)));
    assert_eq!(a.step(3), Some(Position::new(4, 5)));
    assert_eq!(a.step(4), Some(Position::new(5, 4)));
    assert_eq!(a.step(5), Some(Position::new(6, 4)));
    assert_eq!(a.step(6), None);
    assert_eq!(Position::new(0, 0).step(3), None);
    assert_eq!(Position::new(0, 0).step(4), None);
    assert_eq!(Position::new(0, 0).step(2), None);
    assert_eq!(Position::new(u32::MAX, 0).step(0), None);
    for dir in 0..6u8 {
        let next = a.step(dir).unwrap();
        assert_eq!(a.hex_distance_to(&next), 1);
    }
}

#[test]
fn a_grid_is_a_hexagon_in_a_box() {
    for radius in 0..8u32 {
        let grid = HexGrid::create(radius);
        let side = (2 * radius + 1) as usize;
        assert_eq!(grid.radius(), radius);
        assert_eq!(grid.slots(), side * side);
        assert_eq!(grid.center(), Position::new(radius, radius));
        let cells = members(&grid);
        assert_eq!(cells.len() as u32, 1 + 3 * radius * (radius + 1));
        for i in 0..grid.slots() {
            let pos = grid.position_at(i);
            assert_eq!(pos, Position::new((i % side) as u32, (i / side) as u32));
            let inside = pos.hex_distance_to(&grid.center()) <= radius as u64;
            assert_eq!(grid.contains(pos), inside);
            assert_eq!(grid.cell(i).is_some(), inside);
            assert_eq!(grid.get(pos), grid.cell(i));
            if inside {
                assert_eq!(grid.get(pos), Some(CellState::Open(ConstraintDomain::full())));
                assert_eq!(grid.color_at(pos), None);
            }
            assert!(grid.room_at(pos).is_none());
        }
        assert!(!grid.contains(Position::new(2 * radius + 1, radius)));
        assert_eq!(grid.get(Position::new(radius, 2 * radius + 1)), None);
    }
}

#[test]
fn neighbors_come_in_direction_order() {
    let grid = HexGrid::create(5);
    assert_eq!(
        grid.neighbors(Position::new(5, 5)),
        vec![
            Position::new(6, 5),
            Position::new(5, 6),
            Position::new(4, 6),
            Position::new(4, 5),
            Position::new(5, 4),
            Position::new(6, 4),
        ]
    );
    // a corner of the hexagon: three neighbors are left
    assert_eq!(
        grid.neighbors(Position::new(0, 5)),
        vec![Position::new(1, 5), Position::new(0, 6), Position::new(1, 4)]
    );
    assert_eq!(
        grid.neighbors(Position::new(10, 0)),
        vec![Position::new(10, 1), Position::new(9, 1), Position::new(9, 0)]
    );
    // outside the hexagon, beside it
    assert_eq!(
        grid.neighbors(Position::new(0, 4)),
        vec![Position::new(1, 4), Position::new(0, 5)]
    );
    let lone = HexGrid::create(0);
    assert_eq!(lone.neighbors(Position::new(0, 0)), vec![]);
}

#[test]
fn grid_cells_change_one_at_a_time() {
    let mut grid = HexGrid::create(2);
    let pos = Position::new(2, 2);
    let other = Position::new(3, 2);
    grid.assign(pos, Collapsed::Yellow);
    assert_eq!(grid.get(pos), Some(CellState::Collapsed(Collapsed::Yellow)));
    assert_eq!(grid.color_at(pos), Some(Collapsed::Yellow));
    assert_eq!(grid.get(other), Some(CellState::Open(ConstraintDomain::full())));
    grid.exclude(pos, Collapsed::Yellow);
    assert_eq!(grid.color_at(pos), Some(Collapsed::Yellow));
    grid.exclude(other, Collapsed::Yellow);
    let expected = ConstraintDomain::full().without(Collapsed::Yellow);
    assert_eq!(grid.get(other), Some(CellState::Open(expected)));
    grid.exclude(Position::new(0, 0), Collapsed::Yellow);
    assert_eq!(grid.get(Position::new(0, 0)), None);
    grid.attach_room(other, RoomInfo::from_type(RoomType::Item(Item::VisionPotion), 9));
    let info = grid.room_at(other).unwrap();
    assert_eq!(info.r_type, RoomType::Item(Item::VisionPotion));
    assert_eq!(info.rng_seed, 9);
    assert!(!info.cleared);
    assert!(grid.room_at(pos).is_none());
    assert_eq!(grid.get(other), Some(CellState::Open(expected)));
}

#[test]
fn colors_and_textures() {
    let all = [
        Collapsed::Gray,
        Collapsed::Red,
        Collapsed::Yellow,
        Collapsed::Green,
        Collapsed::LBlue,
        Collapsed::DBlue,
    ];
    for (index, color) in all.iter().enumerate() {
        assert_eq!(color.to_texture(), index as u32);
        assert_eq!(Collapsed::from_texture(index as u32), Some(*color));
    }
    assert_eq!(Collapsed::from_texture(6), None);
    assert_eq!(Collapsed::from_texture(14), None);
}

#[test]
fn domains_lose_colors_and_never_gain() {
    let full = ConstraintDomain::full();
    assert_eq!(full.entropy(), 6);
    let d = full.without(Collapsed::Red);
    assert_eq!(d.entropy(), 5);
    assert!(!d.admits(Collapsed::Red));
    assert!(d.admits(Collapsed::Gray));
    assert_eq!(d.without(Collapsed::Red), d);
    assert_eq!(d.without(Collapsed::Red).entropy(), 5);
    let d = d.without(Collapsed::Gray).without(Collapsed::LBlue);
    assert_eq!(d.entropy(), 3);
    assert_eq!(d.pick(0), Collapsed::Yellow);
    assert_eq!(d.pick(1), Collapsed::Green);
    assert_eq!(d.pick(2), Collapsed::DBlue);
    assert_eq!(full.pick(0), Collapsed::Gray);
    assert_eq!(full.pick(5), Collapsed::DBlue);
    let none = d
        .without(Collapsed::Yellow)
        .without(Collapsed::Green)
        .without(Collapsed::DBlue);
    assert_eq!(none.entropy(), 0);

    let open = CellState::Open(d);
    assert!(open.is_open());
    assert_eq!(open.exclude(Collapsed::Red), open);
    let last = CellState::Open(
        ConstraintDomain::full()
            .without(Collapsed::Gray)
            .without(Collapsed::Red)
            .without(Collapsed::Yellow)
            .without(Collapsed::Green)
            .without(Collapsed::LBlue),
    );
    assert_eq!(last.exclude(Collapsed::DBlue), CellState::Exhausted);
    assert_eq!(CellState::Exhausted.exclude(Collapsed::Red), CellState::Exhausted);
    assert_eq!(
        CellState::Collapsed(Collapsed::Red).exclude(Collapsed::Red),
        CellState::Collapsed(Collapsed::Red)
    );
    assert!(!CellState::Exhausted.is_open());
}

#[test]
fn walks_reach_their_target_within_the_limit() {
    for radius in 0..7u32 {
        let grid = HexGrid::create(radius);
        let cells = members(&grid);
        for start in cells.iter() {
            for target in cells.iter() {
                let path = walk_path(&grid, *start, *target);
                assert!(path.len() as u32 <= 2 * radius + 1);
                assert_eq!(path.len() as u64, start.hex_distance_to(target));
                if start == target {
                    assert!(path.is_empty());
                } else {
                    assert_eq!(path.last(), Some(target));
                }
                let mut cur = *start;
                for next in path.iter() {
                    assert!(grid.contains(*next));
                    assert_eq!(cur.hex_distance_to(next), 1);
                    assert!(next.offset_distance_to(target) < cur.offset_distance_to(target));
                    cur = *next;
                }
            }
        }
    }
}

#[test]
fn a_walk_takes_the_first_closest_neighbor() {
    let grid = HexGrid::create(5);
    let center = Position::new(5, 5);
    assert_eq!(next_toward(&grid, center, center), Some(Position::new(6, 5)));
    assert_eq!(
        next_toward(&grid, center, Position::new(7, 7)),
        Some(Position::new(6, 5))
    );
    assert_eq!(
        next_toward(&grid, center, Position::new(3, 3)),
        Some(Position::new(4, 5))
    );
    assert_eq!(
        next_toward(&grid, center, Position::new(3, 8)),
        Some(Position::new(4, 6))
    );
    assert_eq!(
        walk_path(&grid, center, Position::new(3, 8)),
        vec![Position::new(4, 6), Position::new(3, 7), Position::new(3, 8)]
    );
    assert_eq!(
        walk_path(&grid, center, Position::new(7, 6)),
        vec![Position::new(6, 5), Position::new(7, 5), Position::new(7, 6)]
    );
    assert_eq!(
        walk_path(&grid, center, Position::new(8, 1)),
        vec![
            Position::new(6, 4),
            Position::new(7, 3),
            Position::new(8, 2),
            Position::new(8, 1)
        ]
    );
    let lone = HexGrid::create(0);
    assert_eq!(next_toward(&lone, Position::new(0, 0), Position::new(0, 0)), None);
    assert_eq!(walk_path(&lone, Position::new(0, 0), Position::new(3, 3)), vec![]);
}

#[test]
fn a_walk_off_the_grid_stops_at_the_limit() {
    let grid = HexGrid::create(1);
    let path = walk_path(&grid, Position::new(1, 1), Position::new(40, 1));
    assert_eq!(path.len(), 3);
    assert_eq!(path[0], Position::new(2, 1));
    assert!(!reached(&path, Position::new(1, 1), Position::new(40, 1)));
    let path = walk_path(&grid, Position::new(1, 1), Position::new(0, 2));
    assert!(reached(&path, Position::new(1, 1), Position::new(0, 2)));
    assert!(reached(&vec![], Position::new(1, 1), Position::new(1, 1)));
    assert!(!reached(&vec![], Position::new(1, 1), Position::new(1, 2)));
}

#[test]
fn bands_of_the_standard_map() {
    let config = PlacementConfig::standard();
    assert_eq!(config, PlacementConfig { radius: 5, vert: 3, horz_x: 4, horz_y: 1 });
    assert!(config.is_valid());
    assert_eq!(
        config.band_of(Pillars::North),
        Band { x_low: 2, x_high: 5, y_low: 8, y_high: 10 }
    );
    assert_eq!(
        config.band_of(Pillars::East),
        Band { x_low: 1, x_high: 2, y_low: 4, y_high: 6 }
    );
    assert_eq!(
        config.band_of(Pillars::South),
        Band { x_low: 5, x_high: 8, y_low: 0, y_high: 2 }
    );
    assert_eq!(
        config.band_of(Pillars::West),
        Band { x_low: 8, x_high: 9, y_low: 4, y_high: 6 }
    );
}

#[test]
fn offsets_must_fit_the_radius() {
    assert_eq!(
        PlacementConfig::new(5, 3, 4, 1),
        Some(PlacementConfig { radius: 5, vert: 3, horz_x: 4, horz_y: 1 })
    );
    assert_eq!(PlacementConfig::new(5, 3, 4, 2), None);
    assert_eq!(PlacementConfig::new(5, 0, 4, 0), None);
    assert_eq!(PlacementConfig::new(5, 3, 2, 1), None);
    assert_eq!(PlacementConfig::new(5, 2, 3, 2), None);
    assert_eq!(PlacementConfig::new(4, 3, 4, 1), None);
    assert_eq!(PlacementConfig::new(40000, 3, 4, 1), None);
    assert!(PlacementConfig::new(1, 1, 1, 0).is_some());
    assert!(!PlacementConfig { radius: 0, vert: 0, horz_x: 0, horz_y: 0 }.is_valid());
    assert!(PlacementConfig::new(u32::MAX, u32::MAX, u32::MAX, u32::MAX).is_none());
}

#[test]
fn the_content_table() {
    assert_eq!(RoomType::from_roll(0), RoomType::EmptyRoom);
    assert_eq!(RoomType::from_roll(39), RoomType::EmptyRoom);
    assert_eq!(RoomType::from_roll(40), RoomType::Combat(vec![ActorName::Goblin]));
    assert_eq!(
        RoomType::from_roll(41),
        RoomType::Combat(vec![ActorName::Goblin, ActorName::Ogre])
    );
    assert_eq!(
        RoomType::from_roll(42),
        RoomType::Combat(vec![ActorName::Goblin, ActorName::Ogre, ActorName::Skeleton])
    );
    assert_eq!(RoomType::from_roll(43), RoomType::Combat(vec![ActorName::Ogre]));
    assert_eq!(
        RoomType::from_roll(47),
        RoomType::Combat(vec![ActorName::Skeleton, ActorName::Goblin])
    );
    assert_eq!(
        RoomType::from_roll(69),
        RoomType::Combat(vec![ActorName::Goblin, ActorName::Ogre, ActorName::Skeleton])
    );
    assert_eq!(RoomType::from_roll(70), RoomType::Pit(DamageRange { start: 1, end: 2 }));
    assert_eq!(RoomType::from_roll(84), RoomType::Pit(DamageRange { start: 1, end: 16 }));
    assert_eq!(RoomType::from_roll(85), RoomType::Item(Item::HealingPotion));
    assert_eq!(RoomType::from_roll(86), RoomType::Item(Item::VisionPotion));
    assert_eq!(RoomType::from_roll(99), RoomType::Item(Item::HealingPotion));
    assert_eq!(RoomType::from_roll(u32::MAX), RoomType::Item(Item::HealingPotion));
    let info = RoomInfo::from_type(RoomType::Pillar, 0xDEADBEEF);
    assert_eq!(
        info,
        RoomInfo { cleared: false, r_type: RoomType::Pillar, rng_seed: 0xDEADBEEF }
    );
}

#[test]
fn axial_coordinates_round_trip() {
    let a = Position::new(7, 3);
    assert_eq!(a.to_axial(), (7, 3));
    assert_eq!(Position::from_axial(7, 3), Some(a));
    assert_eq!(Position::from_axial(-1, 3), None);
    assert_eq!(Position::from_axial(3, -1), None);
    assert_eq!(Position::from_axial(u32::MAX as i64 + 1, 0), None);
    assert_eq!(
        Position::from_axial(u32::MAX as i64, 0),
        Some(Position::new(u32::MAX, 0))
    );
    assert_eq!(Position::from_axial(i64::MIN, i64::MAX), None);
}

#[test]
fn textures_of_cells() {
    let mut grid = HexGrid::create(2);
    let pos = Position::new(2, 2);
    assert_eq!(grid.tile_texture(pos), Some(14));
    assert_eq!(grid.tile_texture(Position::new(0, 0)), None);
    grid.assign(Position::new(1, 2), Collapsed::DBlue);
    assert_eq!(grid.tile_texture(Position::new(1, 2)), Some(5));
    for color in [
        Collapsed::Gray,
        Collapsed::Red,
        Collapsed::Yellow,
        Collapsed::Green,
        Collapsed::LBlue,
        Collapsed::DBlue,
    ] {
        grid.exclude(Position::new(3, 2), color);
    }
    assert_eq!(grid.tile_texture(Position::new(3, 2)), Some(14));
    grid.assign(pos, Collapsed::LBlue);
    assert_eq!(grid.tile_texture(pos), Some(4));
    grid.assign(pos, Collapsed::Gray);
    assert_eq!(grid.tile_texture(pos), Some(0));
    assert_eq!(grid.color_at(Position::new(3, 2)), None);
    assert_eq!(grid.tile_texture(Position::new(9, 9)), None);
}

#[test]
fn a_room_is_cleared_in_place() {
    let mut grid = HexGrid::create(2);
    let pos = Position::new(1, 2);
    let monsters = vec![ActorName::Ogre, ActorName::Goblin];
    grid.attach_room(pos, RoomInfo::from_type(RoomType::Combat(monsters.clone()), 77));
    grid.mark_room_cleared(Position::new(2, 2));
    grid.mark_room_cleared(Position::new(0, 0));
    grid.mark_room_cleared(Position::new(50, 50));
    assert!(grid.room_at(Position::new(2, 2)).is_none());
    assert!(!grid.room_at(pos).unwrap().cleared);
    grid.mark_room_cleared(pos);
    assert_eq!(
        grid.room_at(pos),
        Some(&RoomInfo { cleared: true, r_type: RoomType::Combat(monsters.clone()), rng_seed: 77 })
    );
    let copy = RoomType::Combat(monsters).duplicate();
    assert_eq!(copy, RoomType::Combat(vec![ActorName::Ogre, ActorName::Goblin]));
    assert_eq!(RoomType::Pillar.duplicate(), RoomType::Pillar);
    let info = RoomInfo::from_type(RoomType::Pit(DamageRange { start: 1, end: 4 }), 5);
    assert_eq!(
        info.to_cleared(),
        RoomInfo { cleared: true, r_type: RoomType::Pit(DamageRange { start: 1, end: 4 }), rng_seed: 5 }
    );
}
