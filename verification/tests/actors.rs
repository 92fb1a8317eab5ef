use hex_dungeon::actor::{Health, Team};
use hex_dungeon::animation::AnimationConfig;
use hex_dungeon::combat::{
    after_end_of_turn, after_turn_setup, next_in_turn, rotate_queue, teams_alive, AttackDamage,
    CombatState, Fighter, TeamAlive,
};
use hex_dungeon::database::{check_version, migration_steps, VersionCompatability};

fn health(current: u32, max: u32) -> Health {
    Health::new(current, max).unwrap()
}

#[test]
fn health_has_a_limit() {
    assert_eq!(Health::new(0, 0), None);
    assert_eq!(Health::new(5, 4), None);
    assert_eq!(Health::full(0), None);
    let h = health(3, 10);
    assert_eq!(h.current(), Some(3));
    assert_eq!(h.max(), 10);
    assert!(h.is_alive());
    let dead = health(0, 10);
    assert_eq!(dead.current(), None);
    assert!(!dead.is_alive());
    assert_eq!(Health::full(7).unwrap().current(), Some(7));
}

#[test]
fn healing_stops_at_the_limit() {
    let mut h = health(3, 10);
    h.heal(4);
    assert_eq!(h, health(7, 10));
    h.heal(0);
    assert_eq!(h, health(7, 10));
    h.heal(4);
    assert_eq!(h, health(10, 10));
    let mut top = health(u32::MAX - 1, u32::MAX);
    top.heal(u32::MAX);
    assert_eq!(top, health(u32::MAX, u32::MAX));
    let mut dead = health(0, 10);
    dead.heal(5);
    assert_eq!(dead, health(0, 10));
}

#[test]
fn reviving_needs_a_point() {
    let mut dead = health(0, 10);
    dead.heal_or_revive(0);
    assert_eq!(dead, health(0, 10));
    dead.heal_or_revive(4);
    assert_eq!(dead, health(4, 10));
    dead.heal_or_revive(3);
    assert_eq!(dead, health(7, 10));
    let mut gone = health(0, 10);
    gone.heal_or_revive(25);
    assert_eq!(gone, health(10, 10));
}

#[test]
fn damage_in_three_ways() {
    let mut h = health(5, 10);
    h.damage(0);
    assert_eq!(h, health(5, 10));
    h.damage(2);
    assert_eq!(h, health(3, 10));
    h.damage(3);
    assert_eq!(h, health(0, 10));
    h.damage(3);
    assert_eq!(h, health(0, 10));
    let mut over = health(5, 10);
    over.damage(u32::MAX);
    assert!(!over.is_alive());

    let mut h = health(5, 10);
    h.damage_no_kill(2);
    assert_eq!(h, health(3, 10));
    h.damage_no_kill(3);
    assert_eq!(h, health(1, 10));
    h.damage_no_kill(9);
    assert_eq!(h, health(1, 10));
    let mut dead = health(0, 10);
    dead.damage_no_kill(1);
    assert_eq!(dead, health(0, 10));

    let mut h = health(5, 10);
    h.damage_endurence(0);
    assert_eq!(h, health(5, 10));
    h.damage_endurence(9);
    assert_eq!(h, health(1, 10));
    h.damage_endurence(1);
    assert_eq!(h, health(0, 10));
    let mut h = health(5, 10);
    h.damage_endurence(2);
    assert_eq!(h, health(3, 10));

    let mut h = health(5, 10);
    h.kill();
    assert_eq!(h, health(0, 10));
}

#[test]
fn teams_found_alive() {
    assert_eq!(TeamAlive::Neither.found(&Team::Player), TeamAlive::Player);
    assert_eq!(TeamAlive::Neither.found(&Team::Enemy), TeamAlive::Enemy);
    assert_eq!(TeamAlive::Player.found(&Team::Player), TeamAlive::Player);
    assert_eq!(TeamAlive::Player.found(&Team::Enemy), TeamAlive::Both);
    assert_eq!(TeamAlive::Enemy.found(&Team::Player), TeamAlive::Both);
    assert_eq!(TeamAlive::Enemy.found(&Team::Enemy), TeamAlive::Enemy);
    assert_eq!(TeamAlive::Both.found(&Team::Player), TeamAlive::Both);
    assert_eq!(TeamAlive::Both.found(&Team::Enemy), TeamAlive::Both);

    let f = |team: Team, alive: bool| Fighter { team, alive };
    assert_eq!(teams_alive(&vec![]), TeamAlive::Neither);
    assert_eq!(teams_alive(&vec![f(Team::Player, false), f(Team::Enemy, false)]), TeamAlive::Neither);
    assert_eq!(teams_alive(&vec![f(Team::Player, true), f(Team::Enemy, false)]), TeamAlive::Player);
    assert_eq!(teams_alive(&vec![f(Team::Player, false), f(Team::Enemy, true)]), TeamAlive::Enemy);
    assert_eq!(
        teams_alive(&vec![f(Team::Enemy, true), f(Team::Player, false), f(Team::Player, true)]),
        TeamAlive::Both
    );
}

#[test]
fn the_turn_passes_to_the_next_living_actor() {
    assert_eq!(next_in_turn(&vec![]), None);
    assert_eq!(next_in_turn(&vec![true]), None);
    assert_eq!(next_in_turn(&vec![true, false, false]), None);
    assert_eq!(next_in_turn(&vec![true, true, false]), Some(1));
    assert_eq!(next_in_turn(&vec![false, false, true, true]), Some(2));
    let mut queue: Vec<u64> = vec![10, 11, 12, 13];
    rotate_queue(&mut queue, 2);
    assert_eq!(queue, vec![12, 13, 10, 11]);
    rotate_queue(&mut queue, 0);
    assert_eq!(queue, vec![12, 13, 10, 11]);
    rotate_queue(&mut queue, 4);
    assert_eq!(queue, vec![12, 13, 10, 11]);
    rotate_queue(&mut queue, 1);
    assert_eq!(queue, vec![13, 10, 11, 12]);
}

#[test]
fn animation_ticks_and_frames() {
    let mut config = AnimationConfig::new(2, 4, 2);
    assert!(config.should_progress());
    config.tick();
    assert!(!config.should_progress());
    config.tick();
    assert!(!config.should_progress());
    config.tick();
    assert!(config.should_progress());
    assert_eq!(config.next_frame(2), 3);
    assert_eq!(config.next_frame(3), 4);
    assert_eq!(config.next_frame(4), 2);
    assert_eq!(config.first_or_next(3), Some(4));
    assert_eq!(config.first_or_next(4), Some(2));
    assert_eq!(config.first_or_next(usize::MAX), None);
    assert_eq!(
        AnimationConfig::new(1, usize::MAX, 0).first_or_next(usize::MAX),
        Some(1)
    );
    let mut every = AnimationConfig::new(0, 0, 0);
    every.tick();
    assert!(every.should_progress());
    assert_eq!(every.next_frame(0), 0);
}

#[test]
fn database_versions() {
    assert_eq!(check_version(8), VersionCompatability::Same);
    assert_eq!(check_version(9), VersionCompatability::Future(9));
    assert_eq!(check_version(i64::MAX), VersionCompatability::Future(i64::MAX));
    assert_eq!(check_version(7), VersionCompatability::Migratable(7));
    assert_eq!(check_version(3), VersionCompatability::Migratable(3));
    assert_eq!(check_version(2), VersionCompatability::Incompatable(2));
    assert_eq!(check_version(-1), VersionCompatability::Incompatable(-1));
    assert_eq!(migration_steps(3), Some(vec![4, 5, 6, 7, 8]));
    assert_eq!(migration_steps(7), Some(vec![8]));
    assert_eq!(migration_steps(8), None);
    assert_eq!(migration_steps(2), None);
    assert_eq!(migration_steps(9), None);
}

#[test]
fn an_attack_without_damage_is_a_miss() {
    assert_eq!(AttackDamage::from_draws(true, 3), AttackDamage::Hit(3));
    assert_eq!(AttackDamage::from_draws(true, u32::MAX), AttackDamage::Hit(u32::MAX));
    assert_eq!(AttackDamage::from_draws(true, 0), AttackDamage::Miss);
    assert_eq!(AttackDamage::from_draws(false, 3), AttackDamage::Miss);
    assert_eq!(AttackDamage::from_draws(false, 0), AttackDamage::Miss);
}

#[test]
fn a_fight_goes_on_while_both_teams_stand() {
    assert_eq!(after_turn_setup(TeamAlive::Both), Some(CombatState::MoveToCenter));
    assert_eq!(after_end_of_turn(TeamAlive::Both), Some(CombatState::TurnSetup));
    for teams in [TeamAlive::Player, TeamAlive::Enemy, TeamAlive::Neither] {
        assert_eq!(after_turn_setup(teams), None);
        assert_eq!(after_end_of_turn(teams), None);
    }
}
