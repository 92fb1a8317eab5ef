//! Combat bookkeeping: which teams still stand, and whose turn comes next.

use crate::actor::Team;
use vstd::prelude::*;

verus! {

/// Which of the two teams have a living actor.
#[derive(Clone, Copy, Debug, PartialEq, Eq, Hash, Structural)]
pub enum TeamAlive {
    Both,
    Player,
    Enemy,
    Neither,
}

/// What an attack does to its target.
#[derive(Clone, Copy, Debug, PartialEq, Eq, Hash, Structural)]
pub enum AttackDamage {
    /// The attack hits for this much damage, which is at least 1.
    Hit(u32),
    /// The attack misses.
    Miss,
}

impl AttackDamage {
    /// The outcome of an attack that hits or not, for `dealt` points of
    /// damage: an attack that does no damage is a miss.
    pub open spec fn of(hits: bool, dealt: u32) -> AttackDamage {
        if hits && dealt > 0 {
            AttackDamage::Hit(dealt)
        } else {
            AttackDamage::Miss
        }
    }

    /// The outcome of an attack, from whether it hits and the damage drawn
    /// for it.
    pub fn from_draws(hits: bool, dealt: u32) -> (outcome: AttackDamage)
        ensures
            outcome == AttackDamage::of(hits, dealt),
            outcome matches AttackDamage::Hit(points) ==> points > 0,
    {
        if hits && dealt > 0 {
            AttackDamage::Hit(dealt)
        } else {
            AttackDamage::Miss
        }
    }
}

/// One actor of a fight, as the turn order sees it.
#[derive(Clone, Copy, Debug, PartialEq, Eq, Hash, Structural)]
pub struct Fighter {
    pub team: Team,
    pub alive: bool,
}

impl TeamAlive {
    /// Whether `team` has a living actor.
    pub open spec fn has(self, team: Team) -> bool {
        match (self, team) {
            (TeamAlive::Both, _) => true,
            (TeamAlive::Player, Team::Player) => true,
            (TeamAlive::Enemy, Team::Enemy) => true,
            _ => false,
        }
    }

    /// The value that says of each team whether it has a living actor.
    pub open spec fn of(player: bool, enemy: bool) -> TeamAlive {
        if player && enemy {
            TeamAlive::Both
        } else if player {
            TeamAlive::Player
        } else if enemy {
            TeamAlive::Enemy
        } else {
            TeamAlive::Neither
        }
    }

    /// The teams that stand once a living actor of `team` is found as well.
    pub fn found(&self, team: &Team) -> (next: TeamAlive)
        ensures
            next == TeamAlive::of(
                self.has(Team::Player) || *team == Team::Player,
                self.has(Team::Enemy) || *team == Team::Enemy,
            ),
    {
        match (team, self) {
            (_, TeamAlive::Both) => TeamAlive::Both,
            (Team::Player, TeamAlive::Player) => TeamAlive::Player,
            (Team::Enemy, TeamAlive::Enemy) => TeamAlive::Enemy,
            (Team::Enemy, TeamAlive::Player) => TeamAlive::Both,
            (Team::Player, TeamAlive::Enemy) => TeamAlive::Both,
            (Team::Player, TeamAlive::Neither) => TeamAlive::Player,
            (Team::Enemy, TeamAlive::Neither) => TeamAlive::Enemy,
        }
    }
}

/// The steps of one turn of a fight.
#[derive(Clone, Copy, Debug, PartialEq, Eq, Hash, Structural)]
pub enum CombatState {
    /// The actor whose turn it is gets chosen.
    TurnSetup,
    /// The actor moves to the center.
    MoveToCenter,
    /// The actor's action gets chosen.
    ChooseAction,
    /// The action takes place.
    PerformAction,
    /// The actor moves back to its place.
    MoveBack,
    /// The turn ends.
    EndOfTurn,
}

/// The step that follows `from` while both teams stand: the turn set up
/// goes on with the move to the center, and the end of a turn with the
/// setup of the next. With a team down, neither goes on.
pub open spec fn step_after(from: CombatState, teams: TeamAlive) -> Option<CombatState> {
    if teams != TeamAlive::Both {
        None
    } else if from == CombatState::TurnSetup {
        Some(CombatState::MoveToCenter)
    } else if from == CombatState::EndOfTurn {
        Some(CombatState::TurnSetup)
    } else {
        None
    }
}

/// The step a fight goes on with once a turn is set up: the move to the
/// center while both teams stand, none otherwise.
pub fn after_turn_setup(teams: TeamAlive) -> (next: Option<CombatState>)
    ensures
        next == step_after(CombatState::TurnSetup, teams),
{
    match teams {
        TeamAlive::Both => Some(CombatState::MoveToCenter),
        _ => None,
    }
}

/// The step a fight goes on with at the end of a turn: the setup of the
/// next turn while both teams stand, none otherwise.
pub fn after_end_of_turn(teams: TeamAlive) -> (next: Option<CombatState>)
    ensures
        next == step_after(CombatState::EndOfTurn, teams),
{
    match teams {
        TeamAlive::Both => Some(CombatState::TurnSetup),
        _ => None,
    }
}

/// Whether one of the first `count` fighters is a living actor of `team`.
pub open spec fn stands(fighters: Seq<Fighter>, team: Team, count: int) -> bool {
    exists|i: int| 0 <= i < count && (#[trigger] fighters[i]).alive && fighters[i].team == team
}

/// The teams that have a living actor among `fighters`.
pub fn teams_alive(fighters: &Vec<Fighter>) -> (teams: TeamAlive)
    ensures
        teams == TeamAlive::of(
            stands(fighters@, Team::Player, fighters@.len() as int),
            stands(fighters@, Team::Enemy, fighters@.len() as int),
        ),
{
    let mut teams: TeamAlive = TeamAlive::Neither;
    let mut i: usize = 0;
    while i < fighters.len()
        invariant
            i <= fighters@.len(),
            teams == TeamAlive::of(
                stands(fighters@, Team::Player, i as int),
                stands(fighters@, Team::Enemy, i as int),
            ),
        decreases fighters@.len() - i,
    {
        let fighter: Fighter = fighters[i];
        if fighter.alive {
            teams = teams.found(&fighter.team);
        }
        i = i + 1;
    }
    teams
}

/// The place in the queue of the actor whose turn comes next: the first
/// living actor behind the head of the queue, which has just had its turn.
/// `None` where no actor behind the head is alive.
pub fn next_in_turn(alive: &Vec<bool>) -> (place: Option<usize>)
    ensures
        place matches Some(at) ==> 1 <= at < alive@.len() && alive@[at as int] && forall|i: int|
            1 <= i < at ==> !alive@[i],
        place is None ==> forall|i: int| 1 <= i < alive@.len() ==> !alive@[i],
{
    let mut i: usize = 1;
    while i < alive.len()
        invariant
            1 <= i,
            forall|j: int| 1 <= j < i && j < alive@.len() ==> !alive@[j],
        decreases alive@.len() - i,
    {
        if alive[i] {
            return Some(i);
        }
        i = i + 1;
    }
    None
}

/// Moves the first `places` entries of the queue to its end, in their order.
pub fn rotate_queue(queue: &mut Vec<u64>, places: usize)
    requires
        places <= old(queue)@.len(),
    ensures
        final(queue)@ == old(queue)@.subrange(places as int, old(queue)@.len() as int) + old(
            queue,
        )@.subrange(0, places as int),
{
    let ghost start = queue@;
    let mut turned: Vec<u64> = Vec::new();
    let len: usize = queue.len();
    let mut i: usize = places;
    while i < len
        invariant
            places <= i <= len,
            len == start.len(),
            queue@ == start,
            turned@ == start.subrange(places as int, i as int),
        decreases len - i,
    {
        turned.push(queue[i]);
        assert(turned@ =~= start.subrange(places as int, i as int + 1));
        i = i + 1;
    }
    let mut j: usize = 0;
    while j < places
        invariant
            j <= places <= len,
            len == start.len(),
            queue@ == start,
            turned@ == start.subrange(places as int, len as int) + start.subrange(0, j as int),
        decreases places - j,
    {
        turned.push(queue[j]);
        assert(turned@ =~= start.subrange(places as int, len as int) + start.subrange(
            0,
            j as int + 1,
        ));
        j = j + 1;
    }
    *queue = turned;
}

} // verus!
