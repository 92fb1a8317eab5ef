//! The frame counter of a sprite animation.

use vstd::prelude::*;

verus! {

/// The configuration of an animated sprite: the range of its frames, and the
/// ticks counted toward the next frame.
#[derive(Clone, Copy, Debug, PartialEq, Eq, Hash, Structural)]
pub struct AnimationConfig {
    first_sprite_index: usize,
    last_sprite_index: usize,
    tick_count: usize,
    ticks_per_frame: usize,
}

impl AnimationConfig {
    pub closed spec fn first(self) -> usize {
        self.first_sprite_index
    }

    pub closed spec fn last(self) -> usize {
        self.last_sprite_index
    }

    /// The ticks counted since the last frame.
    pub closed spec fn ticks(self) -> usize {
        self.tick_count
    }

    /// The ticks a frame is shown beyond its first.
    pub closed spec fn period(self) -> usize {
        self.ticks_per_frame
    }

    /// The count of ticks never passes the ticks of a frame.
    pub open spec fn wf(self) -> bool {
        self.ticks() <= self.period()
    }

    /// The frame that follows frame `index`: the first frame after the last
    /// one, else the next index.
    pub open spec fn frame_after(self, index: usize) -> usize {
        if index == self.last() {
            self.first()
        } else {
            (index + 1) as usize
        }
    }

    pub fn new(first: usize, last: usize, ticks_per_frame: usize) -> (config: AnimationConfig)
        ensures
            config.first() == first,
            config.last() == last,
            config.period() == ticks_per_frame,
            config.ticks() == 0,
            config.wf(),
    {
        AnimationConfig {
            first_sprite_index: first,
            last_sprite_index: last,
            tick_count: 0,
            ticks_per_frame,
        }
    }

    /// Counts one tick: the count starts over once it has reached the ticks
    /// of a frame.
    pub fn tick(&mut self)
        requires
            old(self).wf(),
        ensures
            final(self).wf(),
            final(self).first() == old(self).first(),
            final(self).last() == old(self).last(),
            final(self).period() == old(self).period(),
            final(self).ticks() == if old(self).ticks() == old(self).period() {
                0
            } else {
                old(self).ticks() + 1
            },
    {
        if self.tick_count == self.ticks_per_frame {
            self.tick_count = 0;
        } else {
            self.tick_count = self.tick_count + 1;
        }
    }

    /// Whether the animation moves to its next frame on this tick.
    pub fn should_progress(&self) -> (yes: bool)
        ensures
            yes == (self.ticks() == 0),
    {
        self.tick_count == 0
    }

    /// The frame that follows frame `index`; `None` where `index` is not the
    /// last frame and no index follows it.
    pub fn first_or_next(&self, index: usize) -> (next: Option<usize>)
        ensures
            next is Some <==> index == self.last() || index < usize::MAX,
            next matches Some(frame) ==> frame == self.frame_after(index),
    {
        if index == self.last_sprite_index || index < usize::MAX {
            Some(self.next_frame(index))
        } else {
            None
        }
    }

    /// The frame that follows frame `index`.
    pub fn next_frame(&self, index: usize) -> (next: usize)
        requires
            index == self.last() || index < usize::MAX,
        ensures
            next == self.frame_after(index),
    {
        if index == self.last_sprite_index {
            self.first_sprite_index
        } else {
            index + 1
        }
    }
}

} // verus!
