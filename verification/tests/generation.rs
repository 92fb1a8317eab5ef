use hex_dungeon::collapse::{collapse, collapse_step, least_open_entropy, run_collapse, tied_cells};
use hex_dungeon::domain::Collapsed;
use hex_dungeon::generate::{generate_map, GeneratedMap, GenerationSettings};
use hex_dungeon::grid::{CellState, HexGrid};
use hex_dungeon::pillars::{Pillars, PlacementConfig};
use hex_dungeon::position::Position;
use hex_dungeon::rng::SeededRng;
use hex_dungeon::room::{RoomInfo, RoomType};

fn cells_of(grid: &HexGrid) -> Vec<(Position, CellState)> {
    let mut out = Vec::new();
    for i in 0..grid.slots() {
        if let Some(state) = grid.cell(i) {
            out.push((grid.position_at(i), state));
        }
    }
    out
}

fn rooms_of(grid: &HexGrid) -> Vec<(Position, RoomInfo)> {
    let mut out = Vec::new();
    for i in 0..grid.slots() {
        let pos = grid.position_at(i);
        if let Some(info) = grid.room_at(pos) {
            out.push((pos, info.clone()));
        }
    }
    out
}

fn standard_map(seed: u64) -> GeneratedMap {
    generate_map(&GenerationSettings { seed }, &PlacementConfig::standard())
}

fn entropy_of(state: &CellState) -> u32 {
    match state {
        CellState::Open(domain) => domain.entropy(),
        _ => 0,
    }
}

#[test]
fn the_standard_map_has_one_entrance_and_four_pillars() {
    let map = standard_map(0xDEADBEEF);
    let center = Position { x: 5, y: 5 };
    assert_eq!(map.grid.center(), center);
    let entrance = map.grid.room_at(center).expect("the entrance has a room");
    assert_eq!(entrance.r_type, RoomType::Entrance);
    assert!(!entrance.cleared);
    assert_eq!(map.grid.color_at(center), Some(Collapsed::Red));

    let rooms = rooms_of(&map.grid);
    let pillars: Vec<Position> = rooms
        .iter()
        .filter(|(_, info)| info.r_type == RoomType::Pillar)
        .map(|(pos, _)| *pos)
        .collect();
    assert_eq!(pillars.len(), 4);
    let entrances = rooms.iter().filter(|(_, info)| info.r_type == RoomType::Entrance).count();
    assert_eq!(entrances, 1);
    for which in [Pillars::North, Pillars::East, Pillars::South, Pillars::West] {
        let site = map.pillars.get(which);
        assert!(pillars.contains(&site));
        assert_eq!(map.grid.color_at(site), Some(Collapsed::Red));
    }

    let again = standard_map(0xDEADBEEF);
    assert_eq!(again.pillars, map.pillars);
}

#[test]
fn different_seeds_give_different_maps() {
    let first = standard_map(1);
    let second = standard_map(2);
    let differs = cells_of(&first.grid) != cells_of(&second.grid)
        || rooms_of(&first.grid) != rooms_of(&second.grid);
    assert!(differs);
}

#[test]
fn an_exhausted_cell_never_gets_a_color() {
    let mut grid = HexGrid::create(2);
    let pos = Position { x: 3, y: 2 };
    for color in [
        Collapsed::Gray,
        Collapsed::Red,
        Collapsed::Yellow,
        Collapsed::Green,
        Collapsed::LBlue,
    ] {
        grid.exclude(pos, color);
        assert!(matches!(grid.get(pos), Some(CellState::Open(_))));
    }
    grid.exclude(pos, Collapsed::DBlue);
    assert_eq!(grid.get(pos), Some(CellState::Exhausted));
    assert_eq!(grid.color_at(pos), None);

    let mut rng = SeededRng::from_seed(7);
    run_collapse(&mut grid, &mut rng);
    assert_eq!(grid.get(pos), Some(CellState::Exhausted));
    assert_eq!(grid.color_at(pos), None);
    assert_eq!(least_open_entropy(&grid), 0);
}

#[test]
fn same_seed_gives_the_same_map() {
    for seed in [0u64, 1, 42, 0xDEADBEEF, u64::MAX] {
        let first = standard_map(seed);
        let second = standard_map(seed);
        assert_eq!(cells_of(&first.grid), cells_of(&second.grid));
        assert_eq!(rooms_of(&first.grid), rooms_of(&second.grid));
        assert_eq!(first.pillars, second.pillars);
        assert_eq!(first.carved, second.carved);
    }
}

#[test]
fn entropy_never_rises_during_collapse() {
    let mut grid = HexGrid::create(4);
    let mut rng = SeededRng::from_seed(99);
    let mut before: Vec<u32> = cells_of(&grid).iter().map(|(_, s)| entropy_of(s)).collect();
    assert!(before.iter().all(|e| *e == 6));
    let mut rounds = 0;
    while least_open_entropy(&grid) != 0 {
        collapse_step(&mut grid, &mut rng);
        let after: Vec<u32> = cells_of(&grid).iter().map(|(_, s)| entropy_of(s)).collect();
        assert_eq!(after.len(), before.len());
        for (now, then) in after.iter().zip(before.iter()) {
            assert!(now <= then);
        }
        before = after;
        rounds += 1;
    }
    assert!(rounds <= 61);
    assert!(before.iter().all(|e| *e == 0));
}

#[test]
fn collapse_picks_among_the_lowest_entropy() {
    let mut grid = HexGrid::create(2);
    grid.exclude(Position { x: 1, y: 2 }, Collapsed::Green);
    grid.exclude(Position { x: 3, y: 1 }, Collapsed::Green);
    grid.exclude(Position { x: 3, y: 1 }, Collapsed::Green);
    assert_eq!(least_open_entropy(&grid), 5);
    assert_eq!(
        tied_cells(&grid, 5),
        vec![Position { x: 3, y: 1 }, Position { x: 1, y: 2 }]
    );
    let mut rng = SeededRng::from_seed(3);
    collapse_step(&mut grid, &mut rng);
    let resolved: Vec<Position> = cells_of(&grid)
        .iter()
        .filter(|(_, s)| matches!(s, CellState::Collapsed(_)))
        .map(|(p, _)| *p)
        .collect();
    assert_eq!(resolved.len(), 1);
    assert!(resolved[0] == Position { x: 3, y: 1 } || resolved[0] == Position { x: 1, y: 2 });
    assert_ne!(grid.color_at(resolved[0]), Some(Collapsed::Green));
}

#[test]
fn collapse_leaves_neighbors_without_the_color() {
    let mut grid = HexGrid::create(3);
    let mut rng = SeededRng::from_seed(2024);
    collapse(&mut grid, &mut rng);
    let cells = cells_of(&grid);
    assert_eq!(cells.len(), 37);
    for (pos, state) in cells.iter() {
        assert!(!matches!(state, CellState::Open(_)));
        if let CellState::Collapsed(color) = state {
            for next in grid.neighbors(*pos) {
                assert_ne!(grid.color_at(next), Some(*color));
            }
        }
    }
}

#[test]
fn no_cell_is_carved_twice() {
    for seed in 0..40u64 {
        let map = standard_map(seed);
        for (i, first) in map.carved.iter().enumerate() {
            for second in map.carved.iter().skip(i + 1) {
                assert_ne!(first, second);
            }
        }
        for pos in map.carved.iter() {
            assert_eq!(map.grid.color_at(*pos), Some(Collapsed::Gray));
            let info = map.grid.room_at(*pos).expect("a carved cell has a room");
            assert!(!info.cleared);
            assert_eq!(info.rng_seed, 0xDEADBEEF);
            assert_ne!(info.r_type, RoomType::Entrance);
            assert_ne!(info.r_type, RoomType::Pillar);
        }
        assert_eq!(rooms_of(&map.grid).len(), map.carved.len() + 5);
    }
}

#[test]
fn every_cell_lies_in_the_footprint() {
    for seed in 0..10u64 {
        let map = standard_map(seed);
        let center = Position { x: 5, y: 5 };
        let cells = cells_of(&map.grid);
        assert_eq!(cells.len(), 91);
        for (pos, state) in cells.iter() {
            assert!(pos.hex_distance_to(&center) <= 5);
            assert!(!matches!(state, CellState::Open(_)));
        }
        for (pos, _) in rooms_of(&map.grid) {
            assert!(map.grid.contains(pos));
        }
        assert_eq!(map.grid.get(Position { x: 0, y: 0 }), None);
        assert_eq!(map.grid.get(Position { x: 10, y: 10 }), None);
        assert_eq!(map.grid.get(Position { x: 11, y: 5 }), None);
    }
}

#[test]
fn pillars_stand_in_their_bands() {
    for seed in 0..50u64 {
        let map = standard_map(seed);
        let n = map.pillars.north;
        let e = map.pillars.east;
        let s = map.pillars.south;
        let w = map.pillars.west;
        assert!((2..=5).contains(&n.x) && (8..=10).contains(&n.y));
        assert!((1..=2).contains(&e.x) && (4..=6).contains(&e.y));
        assert!((5..=8).contains(&s.x) && (0..=2).contains(&s.y));
        assert!((8..=9).contains(&w.x) && (4..=6).contains(&w.y));
    }
}
