//! What a room of the map holds, and how a carved room's content is drawn.
//!
//! A carved room gets its content from one roll of the generator, a number
//! from 0 to `ROLL_MAX`. The table is fixed:
//!
//! | roll     | content                                    |
//! |----------|--------------------------------------------|
//! | 0 - 39   | an empty room                              |
//! | 40 - 69  | combat, against one to three monsters      |
//! | 70 - 84  | a pit                                      |
//! | 85 - 99  | an item                                    |

use crate::rng::{ranged_draw, SeededRng};
use vstd::prelude::*;

verus! {

/// The highest roll of the content table.
pub const ROLL_MAX: u32 = 99;

/// The first roll that gives combat.
pub const COMBAT_FROM: u32 = 40;

/// The first roll that gives a pit.
pub const PIT_FROM: u32 = 70;

/// The first roll that gives an item.
pub const ITEM_FROM: u32 = 85;

/// The seed every generated room starts its own events from.
pub const ROOM_RNG_SEED: u64 = 0xDEAD_BEEF;

/// The name of an actor, by which its kind and its sprite are known.
#[derive(Clone, Copy, Debug, PartialEq, Eq, Hash, Structural)]
pub enum ActorName {
    Warrior,
    Priestess,
    Theif,
    Goblin,
    Ogre,
    Skeleton,
    UnknownJim,
}

/// Something a room can grant.
#[derive(Clone, Copy, Debug, PartialEq, Eq, Hash, Structural)]
pub enum Item {
    HealingPotion,
    VisionPotion,
}

/// The damage a pit can do: from `start` up to, not including, `end`.
#[derive(Clone, Copy, Debug, PartialEq, Eq, Hash, Structural)]
pub struct DamageRange {
    pub start: u32,
    pub end: u32,
}

/// The gameplay content of a room.
#[derive(Clone, Debug, PartialEq, Eq, Hash)]
pub enum RoomType {
    /// Nothing of interest.
    EmptyRoom,
    /// Where the party starts, and leaves.
    Entrance,
    /// Monsters to fight, in the order they are placed.
    Combat(Vec<ActorName>),
    /// A pit that hurts on entry.
    Pit(DamageRange),
    /// An item granted on entry.
    Item(Item),
    /// One of the four destinations.
    Pillar,
}

/// A `RoomType` as a mathematical value.
pub enum RoomTypeView {
    EmptyRoom,
    Entrance,
    Combat(Seq<ActorName>),
    Pit(DamageRange),
    Item(Item),
    Pillar,
}

impl View for RoomType {
    type V = RoomTypeView;

    open spec fn view(&self) -> RoomTypeView {
        match *self {
            RoomType::EmptyRoom => RoomTypeView::EmptyRoom,
            RoomType::Entrance => RoomTypeView::Entrance,
            RoomType::Combat(monsters) => RoomTypeView::Combat(monsters@),
            RoomType::Pit(damage) => RoomTypeView::Pit(damage),
            RoomType::Item(item) => RoomTypeView::Item(item),
            RoomType::Pillar => RoomTypeView::Pillar,
        }
    }
}

/// The record attached to a cell of the map that is a room.
#[derive(Clone, Debug, PartialEq, Eq, Hash)]
pub struct RoomInfo {
    pub cleared: bool,
    pub r_type: RoomType,
    pub rng_seed: u64,
}

/// A `RoomInfo` as a mathematical value.
pub struct RoomInfoView {
    pub cleared: bool,
    pub r_type: RoomTypeView,
    pub rng_seed: u64,
}

impl View for RoomInfo {
    type V = RoomInfoView;

    open spec fn view(&self) -> RoomInfoView {
        RoomInfoView { cleared: self.cleared, r_type: self.r_type@, rng_seed: self.rng_seed }
    }
}

/// The view of a room that may be absent.
pub open spec fn room_view(room: Option<RoomInfo>) -> Option<RoomInfoView> {
    match room {
        Some(info) => Some(info@),
        None => None,
    }
}

/// The room a generated cell gets: not cleared, with the common room seed.
pub open spec fn fresh_room(r_type: RoomTypeView) -> RoomInfoView {
    RoomInfoView { cleared: false, r_type, rng_seed: ROOM_RNG_SEED }
}

/// The three kinds of monster, by number.
pub open spec fn monster(kind: int) -> ActorName {
    if kind == 0 {
        ActorName::Goblin
    } else if kind == 1 {
        ActorName::Ogre
    } else {
        ActorName::Skeleton
    }
}

/// The monsters of combat number `k`: `k % 3 + 1` of them, the kinds in
/// turn, starting with kind `k / 3 % 3`.
pub open spec fn monster_party(k: int) -> Seq<ActorName> {
    Seq::new((k % 3 + 1) as nat, |j: int| monster((k / 3 + j) % 3))
}

/// The content that a roll of the table gives.
pub open spec fn room_type_of_roll(roll: u32) -> RoomTypeView {
    if roll < COMBAT_FROM {
        RoomTypeView::EmptyRoom
    } else if roll < PIT_FROM {
        RoomTypeView::Combat(monster_party(roll - COMBAT_FROM))
    } else if roll < ITEM_FROM {
        RoomTypeView::Pit(DamageRange { start: 1, end: (roll - PIT_FROM + 2) as u32 })
    } else if (roll - ITEM_FROM) % 2 == 0 {
        RoomTypeView::Item(Item::HealingPotion)
    } else {
        RoomTypeView::Item(Item::VisionPotion)
    }
}

fn monster_of(kind: u32) -> (name: ActorName)
    ensures
        name == monster(kind as int),
{
    if kind == 0 {
        ActorName::Goblin
    } else if kind == 1 {
        ActorName::Ogre
    } else {
        ActorName::Skeleton
    }
}

fn party_of(k: u32) -> (party: Vec<ActorName>)
    requires
        k < 1000,
    ensures
        party@ == monster_party(k as int),
{
    let size: u32 = k % 3 + 1;
    let first: u32 = k / 3;
    let mut party: Vec<ActorName> = Vec::new();
    let mut j: u32 = 0;
    while j < size
        invariant
            j <= size,
            size == k % 3 + 1,
            first == k / 3,
            k < 1000,
            party@.len() == j,
            forall|i: int| 0 <= i < j ==> party@[i] == monster((k as int / 3 + i) % 3),
        decreases size - j,
    {
        party.push(monster_of((first + j) % 3));
        j = j + 1;
    }
    assert(party@ =~= monster_party(k as int));
    party
}

impl RoomType {
    /// The content that `roll` gives by the table; a roll above `ROLL_MAX`
    /// counts as one of the item rolls.
    pub fn from_roll(roll: u32) -> (r_type: RoomType)
        ensures
            r_type@ == room_type_of_roll(roll),
    {
        if roll < COMBAT_FROM {
            RoomType::EmptyRoom
        } else if roll < PIT_FROM {
            RoomType::Combat(party_of(roll - COMBAT_FROM))
        } else if roll < ITEM_FROM {
            RoomType::Pit(DamageRange { start: 1, end: roll - PIT_FROM + 2 })
        } else if (roll - ITEM_FROM) % 2 == 0 {
            RoomType::Item(Item::HealingPotion)
        } else {
            RoomType::Item(Item::VisionPotion)
        }
    }

    /// Draws the content of a carved room: one roll from 0 to `ROLL_MAX`,
    /// and the content the table gives for it. The stream advances by that
    /// one draw.
    pub fn from_rng(rng: &mut SeededRng) -> (r_type: RoomType)
        ensures
            r_type@ == room_type_of_roll(ranged_draw(old(rng)@, 0, ROLL_MAX).0),
            final(rng)@ == ranged_draw(old(rng)@, 0, ROLL_MAX).1,
            !(r_type@ is Entrance) && !(r_type@ is Pillar),
    {
        let roll: u32 = rng.draw(0, ROLL_MAX);
        RoomType::from_roll(roll)
    }
}

impl RoomType {
    /// A copy of the content.
    pub fn duplicate(&self) -> (copy: RoomType)
        ensures
            copy@ == self@,
    {
        match self {
            RoomType::EmptyRoom => RoomType::EmptyRoom,
            RoomType::Entrance => RoomType::Entrance,
            RoomType::Combat(monsters) => {
                let mut party: Vec<ActorName> = Vec::new();
                let mut i: usize = 0;
                while i < monsters.len()
                    invariant
                        i <= monsters@.len(),
                        party@ == monsters@.subrange(0, i as int),
                    decreases monsters@.len() - i,
                {
                    party.push(monsters[i]);
                    assert(party@ =~= monsters@.subrange(0, i as int + 1));
                    i = i + 1;
                }
                assert(party@ =~= monsters@);
                RoomType::Combat(party)
            },
            RoomType::Pit(damage) => RoomType::Pit(*damage),
            RoomType::Item(item) => RoomType::Item(*item),
            RoomType::Pillar => RoomType::Pillar,
        }
    }
}

impl RoomInfoView {
    /// The room once the party has finished it.
    pub open spec fn cleared(self) -> RoomInfoView {
        RoomInfoView { cleared: true, ..self }
    }
}

impl RoomInfo {
    /// The room once the party has finished it.
    pub fn to_cleared(&self) -> (info: RoomInfo)
        ensures
            info@ == self@.cleared(),
    {
        RoomInfo { cleared: true, r_type: self.r_type.duplicate(), rng_seed: self.rng_seed }
    }

    /// The record of a room that has not been cleared yet.
    pub fn from_type(r_type: RoomType, rng_seed: u64) -> (info: RoomInfo)
        ensures
            info.cleared == false,
            info.r_type == r_type,
            info.rng_seed == rng_seed,
            info@ == (RoomInfoView { cleared: false, r_type: r_type@, rng_seed }),
    {
        RoomInfo { cleared: false, r_type, rng_seed }
    }
}

} // verus!
