//! Actors: the side an actor fights on, and its health.

use vstd::prelude::*;

verus! {

/// The side an actor fights on.
#[derive(Clone, Copy, Debug, PartialEq, Eq, Hash, Structural)]
pub enum Team {
    /// The player decides what the actor does.
    Player,
    /// The game decides what the actor does.
    Enemy,
}

/// The health of an actor: the points it has left, 0 for a dead actor, and
/// the most it can have.
#[derive(Clone, Copy, Debug, PartialEq, Eq, Hash, Structural)]
pub struct Health {
    current: u32,
    max: u32,
}

/// The sum of two `u32` values, held at the top of the range.
pub open spec fn capped_sum(a: u32, b: u32) -> u32 {
    if a + b > u32::MAX {
        u32::MAX
    } else {
        (a + b) as u32
    }
}

/// The lower of two values.
pub open spec fn lower(a: u32, b: u32) -> u32 {
    if a <= b {
        a
    } else {
        b
    }
}

/// What is left of `points` after `amount` is taken, but not less than 1.
pub open spec fn worn_down(points: u32, amount: u32) -> u32 {
    if points > amount {
        (points - amount) as u32
    } else {
        1
    }
}

/// A `Health` as a mathematical value.
pub struct HealthView {
    /// The points left; 0 for a dead actor.
    pub points: u32,
    /// The most points the actor can have.
    pub limit: u32,
}

impl HealthView {
    /// The limit is at least 1, and the points are within it.
    pub open spec fn wf(self) -> bool {
        1 <= self.limit && self.points <= self.limit
    }

    pub open spec fn alive(self) -> bool {
        self.points > 0
    }

    /// The health with `points` points and the same limit.
    pub open spec fn with_points(self, points: u32) -> HealthView {
        HealthView { points, limit: self.limit }
    }

    /// The health after healing by `amount`: a living actor gains the points,
    /// up to its limit; a dead one stays dead.
    pub open spec fn healed(self, amount: u32) -> HealthView {
        if self.alive() && amount > 0 {
            self.with_points(lower(capped_sum(self.points, amount), self.limit))
        } else {
            self
        }
    }

    /// The health after healing by `amount`, which also brings a dead actor
    /// back, with `amount` points at most its limit. Nothing happens for an
    /// amount of 0.
    pub open spec fn revived(self, amount: u32) -> HealthView {
        if amount == 0 {
            self
        } else if self.alive() {
            self.healed(amount)
        } else {
            self.with_points(lower(amount, self.limit))
        }
    }

    /// The health after `amount` points of damage: the actor dies when no
    /// point is left.
    pub open spec fn damaged(self, amount: u32) -> HealthView {
        if self.points > amount {
            self.with_points((self.points - amount) as u32)
        } else {
            self.with_points(0)
        }
    }

    /// The health after `amount` points of damage that cannot kill: a living
    /// actor keeps one point at least.
    pub open spec fn spared(self, amount: u32) -> HealthView {
        if self.alive() && amount > 0 {
            self.with_points(worn_down(self.points, amount))
        } else {
            self
        }
    }

    /// The health after `amount` points of damage that kill only an actor
    /// already down to its last point.
    pub open spec fn endured(self, amount: u32) -> HealthView {
        if self.alive() && amount > 0 {
            if self.points > 1 {
                self.with_points(worn_down(self.points, amount))
            } else {
                self.with_points(0)
            }
        } else {
            self
        }
    }
}

impl View for Health {
    type V = HealthView;

    closed spec fn view(&self) -> HealthView {
        HealthView { points: self.current, limit: self.max }
    }
}

impl Health {
    /// The health of an actor with `current` points of at most `max`; `None`
    /// where `max` is 0 or `current` is above it.
    pub fn new(current: u32, max: u32) -> (health: Option<Health>)
        ensures
            health is Some <==> 1 <= max && current <= max,
            health matches Some(h) ==> h@ == (HealthView { points: current, limit: max }),
    {
        if 1 <= max && current <= max {
            Some(Health { current, max })
        } else {
            None
        }
    }

    /// The health of an actor at its limit of `max` points; `None` for 0.
    pub fn full(max: u32) -> (health: Option<Health>)
        ensures
            health is Some <==> 1 <= max,
            health matches Some(h) ==> h@ == (HealthView { points: max, limit: max }),
    {
        Health::new(max, max)
    }

    /// The points left; `None` for a dead actor.
    pub fn current(&self) -> (points: Option<u32>)
        ensures
            points == if self@.alive() {
                Some(self@.points)
            } else {
                None
            },
    {
        if self.current > 0 {
            Some(self.current)
        } else {
            None
        }
    }

    pub fn max(&self) -> (limit: u32)
        ensures
            limit == self@.limit,
    {
        self.max
    }

    pub fn is_alive(&self) -> (yes: bool)
        ensures
            yes == self@.alive(),
    {
        self.current > 0
    }

    /// Heals the actor if it is not dead.
    pub fn heal(&mut self, amount: u32)
        requires
            old(self)@.wf(),
        ensures
            final(self)@ == old(self)@.healed(amount),
            final(self)@.wf(),
            final(self)@.alive() == old(self)@.alive(),
            final(self)@.points >= old(self)@.points,
    {
        if amount == 0 || self.current == 0 {
            return;
        }
        let sum: u32 = self.current.saturating_add(amount);
        self.current = if sum <= self.max {
            sum
        } else {
            self.max
        };
    }

    /// Heals the actor, or revives it if it is dead. An amount of 0 does
    /// neither.
    pub fn heal_or_revive(&mut self, amount: u32)
        requires
            old(self)@.wf(),
        ensures
            final(self)@ == old(self)@.revived(amount),
            final(self)@.wf(),
            amount > 0 ==> final(self)@.alive(),
    {
        if amount == 0 {
            return;
        }
        if self.current > 0 {
            self.heal(amount);
        } else {
            self.current = if amount <= self.max {
                amount
            } else {
                self.max
            };
        }
    }

    /// Damages the actor, which dies if no point is left.
    pub fn damage(&mut self, amount: u32)
        requires
            old(self)@.wf(),
        ensures
            final(self)@ == old(self)@.damaged(amount),
            final(self)@.wf(),
            final(self)@.points <= old(self)@.points,
    {
        self.current = self.current.saturating_sub(amount);
    }

    /// Damages the actor without killing it.
    pub fn damage_no_kill(&mut self, amount: u32)
        requires
            old(self)@.wf(),
        ensures
            final(self)@ == old(self)@.spared(amount),
            final(self)@.wf(),
            final(self)@.alive() == old(self)@.alive(),
    {
        if self.current == 0 || amount == 0 {
            return;
        }
        self.current = if self.current > amount {
            self.current - amount
        } else {
            1
        };
    }

    /// Damages the actor, which dies only if it was down to its last point.
    pub fn damage_endurence(&mut self, amount: u32)
        requires
            old(self)@.wf(),
        ensures
            final(self)@ == old(self)@.endured(amount),
            final(self)@.wf(),
    {
        if self.current == 0 || amount == 0 {
            return;
        }
        if self.current > 1 {
            self.current = if self.current > amount {
                self.current - amount
            } else {
                1
            };
        } else {
            self.current = 0;
        }
    }

    /// Kills the actor.
    pub fn kill(&mut self)
        ensures
            final(self)@ == old(self)@.with_points(0),
    {
        self.current = 0;
    }
}

} // verus!
