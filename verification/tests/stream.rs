use hex_dungeon::generate::GenerationSettings;
use hex_dungeon::grid::HexGrid;
use hex_dungeon::paths::{build_path, build_paths, carve_path, seen_before};
use hex_dungeon::pillars::{create_origin_and_pillars, place_pillars, sample_site, Pillars, PlacementConfig};
use hex_dungeon::position::Position;
use hex_dungeon::rng::SeededRng;
use hex_dungeon::room::RoomType;
use hex_dungeon::seed::{expand_seed, pcg_output, pcg_step, rotate_right};
use rand::{Rng, SeedableRng};
use wyrand::WyRand;

#[test]
fn a_stream_repeats_for_its_seed() {
    let mut first = SeededRng::from_seed(0xDEADBEEF);
    let mut second = GenerationSettings { seed: 0xDEADBEEF }.setup();
    let mut other = SeededRng::from_seed(0xDEADBEF0);
    let mut same = true;
    for _ in 0..64 {
        let a = first.draw(0, 1_000_000);
        let b = second.draw(0, 1_000_000);
        let c = other.draw(0, 1_000_000);
        assert_eq!(a, b);
        same = same && a == c;
    }
    assert!(!same);
}

#[test]
fn a_draw_is_that_of_the_generator() {
    for state in [0u64, 1, 0xDEADBEEF, u64::MAX] {
        let mut stream = SeededRng::from_state(state);
        let mut source = WyRand::new(state);
        for (low, high) in [(0u32, 99u32), (2, 5), (8, 10), (7, 7), (0, u32::MAX), (0, 0)] {
            let expected: u32 = source.random_range(low..=high);
            assert_eq!(stream.draw(low, high), expected);
        }
    }
}

#[test]
fn a_seed_expands_as_the_generator_seeds_itself() {
    for seed in [0u64, 1, 2, 42, 0xDEADBEEF, 0x5eed_f0e_feee, u64::MAX - 1, u64::MAX] {
        assert!(WyRand::new(expand_seed(seed)) == WyRand::seed_from_u64(seed));
        let mut stream = SeededRng::from_seed(seed);
        let mut source = WyRand::seed_from_u64(seed);
        for (low, high) in [(0u32, 99u32), (2, 5), (0, u32::MAX), (0, 5), (8, 10)] {
            let expected: u32 = source.random_range(low..=high);
            assert_eq!(stream.draw(low, high), expected);
        }
    }
    assert_ne!(expand_seed(0), 0);
    assert_ne!(expand_seed(0), expand_seed(1));
}

#[test]
fn the_steps_of_the_expansion() {
    assert_eq!(pcg_step(0), 11634580027462260723);
    assert_eq!(
        pcg_step(1),
        6364136223846793005u64.wrapping_add(11634580027462260723)
    );
    assert_eq!(
        pcg_step(u64::MAX),
        11634580027462260723u64.wrapping_sub(6364136223846793005)
    );
    assert_eq!(rotate_right(0x8000_0001, 0), 0x8000_0001);
    assert_eq!(rotate_right(0x8000_0001, 1), 0xC000_0000);
    assert_eq!(rotate_right(0x0000_00F0, 4), 0x0000_000F);
    assert_eq!(rotate_right(0x0000_000F, 4), 0xF000_0000);
    assert_eq!(rotate_right(0x1234_5678, 32), 0x1234_5678);
    assert_eq!(rotate_right(0x1234_5678, 36), 0x8123_4567);
    for word in [0u32, 1, 0xDEADBEEF, u32::MAX] {
        for by in 0..40u32 {
            assert_eq!(rotate_right(word, by), word.rotate_right(by));
        }
    }
    for state in [0u64, 1, 0xDEADBEEF, u64::MAX, 11634580027462260723] {
        let mixed = (((state >> 18) ^ state) >> 27) as u32;
        assert_eq!(pcg_output(state), mixed.rotate_right((state >> 59) as u32));
        let first = pcg_step(state);
        let second = pcg_step(first);
        assert_eq!(
            expand_seed(state),
            (pcg_output(first) as u64) | ((pcg_output(second) as u64) << 32)
        );
    }
}

#[test]
fn draws_stay_in_range_and_vary() {
    let mut stream = SeededRng::from_seed(5);
    let mut hits = [0u32; 11];
    for _ in 0..2000 {
        let value = stream.draw(10, 20);
        assert!((10..=20).contains(&value));
        hits[(value - 10) as usize] += 1;
    }
    assert!(hits.iter().all(|n| *n > 0));
    assert_eq!(stream.draw(3, 3), 3);
}

#[test]
fn a_room_draw_takes_one_roll() {
    for seed in 0..30u64 {
        let mut stream = SeededRng::from_seed(seed);
        let mut source = WyRand::seed_from_u64(seed);
        for _ in 0..20 {
            let roll: u32 = source.random_range(0..=99u32);
            assert_eq!(RoomType::from_rng(&mut stream), RoomType::from_roll(roll));
        }
        let next: u32 = source.random_range(0..=5u32);
        assert_eq!(stream.draw(0, 5), next);
    }
}

#[test]
fn pillar_sampling_takes_x_then_y() {
    let config = PlacementConfig::standard();
    for seed in 0..30u64 {
        let mut stream = SeededRng::from_seed(seed);
        let mut source = WyRand::seed_from_u64(seed);
        let sites = place_pillars(&config, &mut stream);
        let mut draw = |low: u32, high: u32| -> u32 { source.random_range(low..=high) };
        assert_eq!(sites.north, Position { x: draw(2, 5), y: draw(8, 10) });
        assert_eq!(sites.east, Position { x: draw(1, 2), y: draw(4, 6) });
        assert_eq!(sites.south, Position { x: draw(5, 8), y: draw(0, 2) });
        assert_eq!(sites.west, Position { x: draw(8, 9), y: draw(4, 6) });
        assert_eq!(sites.get(Pillars::North), sites.north);
        assert_eq!(sites.get(Pillars::East), sites.east);
        assert_eq!(sites.get(Pillars::South), sites.south);
        assert_eq!(sites.get(Pillars::West), sites.west);

        let mut again = SeededRng::from_seed(seed);
        assert_eq!(sample_site(&config, Pillars::North, &mut again), sites.north);
    }
}

#[test]
fn origin_and_pillars_are_marked() {
    let config = PlacementConfig::standard();
    let mut grid = HexGrid::create(5);
    let mut stream = SeededRng::from_seed(11);
    let sites = create_origin_and_pillars(&mut grid, &config, &mut stream);
    let center = Position { x: 5, y: 5 };
    assert_eq!(grid.room_at(center).unwrap().r_type, RoomType::Entrance);
    for site in [sites.north, sites.east, sites.south, sites.west] {
        let info = grid.room_at(site).unwrap();
        assert_eq!(info.r_type, RoomType::Pillar);
        assert_eq!(info.rng_seed, 0xDEADBEEF);
        assert!(!info.cleared);
        assert_eq!(grid.color_at(site), Some(hex_dungeon::domain::Collapsed::Red));
    }
    let mut rooms = 0;
    for i in 0..grid.slots() {
        if grid.room_at(grid.position_at(i)).is_some() {
            rooms += 1;
        }
    }
    assert_eq!(rooms, 5);
}

#[test]
fn carving_skips_the_target_and_seen_cells() {
    let mut grid = HexGrid::create(5);
    let mut stream = SeededRng::from_seed(21);
    let mut source = WyRand::seed_from_u64(21);
    let mut seen: Vec<Position> = vec![Position { x: 4, y: 6 }];
    let target = Position { x: 3, y: 8 };
    let path = vec![Position { x: 4, y: 6 }, Position { x: 3, y: 7 }, target];
    carve_path(&mut grid, &mut seen, &mut stream, &path, target);
    assert_eq!(seen, vec![Position { x: 4, y: 6 }, Position { x: 3, y: 7 }]);
    assert!(seen_before(&seen, Position { x: 3, y: 7 }));
    assert!(!seen_before(&seen, target));
    assert!(grid.room_at(Position { x: 4, y: 6 }).is_none());
    assert!(grid.room_at(target).is_none());
    let roll: u32 = source.random_range(0..=99u32);
    assert_eq!(
        grid.room_at(Position { x: 3, y: 7 }).unwrap().r_type,
        RoomType::from_roll(roll)
    );
    assert_eq!(
        grid.color_at(Position { x: 3, y: 7 }),
        Some(hex_dungeon::domain::Collapsed::Gray)
    );
    let after: u32 = source.random_range(0..=99u32);
    assert_eq!(stream.draw(0, 99), after);
}

#[test]
fn paths_share_one_list_of_carved_cells() {
    let mut grid = HexGrid::create(5);
    let mut stream = SeededRng::from_seed(8);
    let mut seen: Vec<Position> = Vec::new();
    let center = Position { x: 5, y: 5 };
    build_path(&mut grid, &mut seen, &mut stream, center, Position { x: 5, y: 9 });
    assert_eq!(
        seen,
        vec![Position { x: 5, y: 6 }, Position { x: 5, y: 7 }, Position { x: 5, y: 8 }]
    );
    build_path(&mut grid, &mut seen, &mut stream, center, Position { x: 5, y: 10 });
    assert_eq!(
        seen,
        vec![
            Position { x: 5, y: 6 },
            Position { x: 5, y: 7 },
            Position { x: 5, y: 8 },
            Position { x: 5, y: 9 }
        ]
    );

    let config = PlacementConfig::standard();
    let mut grid = HexGrid::create(5);
    let mut stream = SeededRng::from_seed(8);
    let sites = create_origin_and_pillars(&mut grid, &config, &mut stream);
    let carved = build_paths(&mut grid, &sites, &mut stream);
    for site in [sites.north, sites.east, sites.south, sites.west] {
        assert!(!carved.contains(&site));
        assert_eq!(grid.room_at(site).unwrap().r_type, RoomType::Pillar);
    }
    assert!(!carved.contains(&center));
    let expected = (center.hex_distance_to(&sites.north) - 1)
        + (center.hex_distance_to(&sites.east) - 1)
        + (center.hex_distance_to(&sites.south) - 1)
        + (center.hex_distance_to(&sites.west) - 1);
    assert!(carved.len() as u64 <= expected);
    assert!(!carved.is_empty());
}

#[test]
fn the_pillars_tell_whether_they_are_cells() {
    let config = PlacementConfig::standard();
    let mut stream = SeededRng::from_seed(3);
    let sites = place_pillars(&config, &mut stream);
    assert!(sites.all_in(&HexGrid::create(5)));
    assert!(!sites.all_in(&HexGrid::create(1)));
    let mut off = sites;
    off.west = Position { x: 0, y: 0 };
    assert!(!off.all_in(&HexGrid::create(5)));
}
