use vstd::prelude::*;

use crate::timer::{Timer, TimerMode};

verus! {

/// Nanoseconds in one second.
pub const NANOS_PER_SECOND: u64 = 1_000_000_000;

/// Which of the player's two animations is showing.
#[derive(Clone, Copy, Debug, PartialEq, Eq, Structural)]
pub enum SpriteState {
    Idle,
    Running,
}

impl Default for SpriteState {
    fn default() -> (r: SpriteState)
        ensures
            r == SpriteState::Idle,
    {
        SpriteState::Idle
    }
}

/// A run of sprite-sheet frames, `first_sprite_index..=last_sprite_index`,
/// shown one after another on a repeating timer.
#[derive(Clone, Copy, Debug)]
pub struct AnimationConfig {
    pub first_sprite_index: usize,
    pub last_sprite_index: usize,
    pub frame_timer: Timer,
    pub current_frame: usize,
}

/// The frame shown after `index`: one further, or back to `first` once
/// `last` has been reached.
pub open spec fn next_frame(index: int, first: int, last: int) -> int {
    if index >= last {
        first
    } else {
        index + 1
    }
}

/// Length in nanoseconds of one frame at `fps` frames per second.
pub open spec fn frame_nanos(fps: u8) -> u64 {
    (NANOS_PER_SECOND / fps as u64) as u64
}

impl AnimationConfig {
    pub open spec fn new_spec(first: usize, last: usize, fps: u8) -> AnimationConfig {
        AnimationConfig {
            first_sprite_index: first,
            last_sprite_index: last,
            frame_timer: Timer::new_spec(frame_nanos(fps), TimerMode::Repeating),
            current_frame: first,
        }
    }

    pub open spec fn wf(self) -> bool {
        self.frame_timer.wf()
    }

    /// An animation over frames `first..=last` at `fps` frames per second,
    /// starting on `first`.
    pub fn new(first: usize, last: usize, fps: u8) -> (r: AnimationConfig)
        requires
            fps > 0,
        ensures
            r == AnimationConfig::new_spec(first, last, fps),
            r.wf(),
    {
        AnimationConfig {
            first_sprite_index: first,
            last_sprite_index: last,
            frame_timer: Self::timer_from_fps(fps),
            current_frame: first,
        }
    }

    /// A repeating timer that finishes once per frame at `fps` frames per
    /// second.
    pub fn timer_from_fps(fps: u8) -> (r: Timer)
        requires
            fps > 0,
        ensures
            r == Timer::new_spec(frame_nanos(fps), TimerMode::Repeating),
            r.wf(),
    {
        let nanos: u64 = NANOS_PER_SECOND / fps as u64;
        assert(nanos > 0) by (nonlinear_arith)
            requires
                nanos == 1_000_000_000u64 / (fps as u64),
                0 < fps <= 255,
        ;
        Timer::new(nanos, TimerMode::Repeating)
    }
}

/// Advances an animation by `delta` nanoseconds. `atlas_index` is the frame
/// the sprite shows, if it has a sprite sheet; the result is the frame it
/// shows afterwards. Each time the frame timer finishes the sprite moves on
/// one frame, wrapping from the last frame to the first.
pub fn execute_animations(config: &mut AnimationConfig, delta: u64, atlas_index: Option<usize>) -> (r:
    Option<usize>)
    requires
        old(config).wf(),
    ensures
        final(config).wf(),
        final(config).frame_timer == old(config).frame_timer.ticked(delta as int),
        final(config).first_sprite_index == old(config).first_sprite_index,
        final(config).last_sprite_index == old(config).last_sprite_index,
        match atlas_index {
            Some(i) => if final(config).frame_timer.just_finished {
                r == Some(
                    next_frame(
                        i as int,
                        old(config).first_sprite_index as int,
                        old(config).last_sprite_index as int,
                    ) as usize,
                ) && final(config).current_frame == r->0
            } else {
                r == Some(i) && final(config).current_frame == old(config).current_frame
            },
            None => r is None && final(config).current_frame == old(config).current_frame,
        },
        forall|i: usize|
            atlas_index == Some(i) && old(config).first_sprite_index <= i
                <= old(config).last_sprite_index ==> (r matches Some(j)
                && old(config).first_sprite_index <= j <= old(config).last_sprite_index),
{
    config.frame_timer.tick(delta);
    if config.frame_timer.just_finished() {
        match atlas_index {
            Some(i) => {
                let next = if i >= config.last_sprite_index {
                    config.first_sprite_index
                } else {
                    i + 1
                };
                config.current_frame = next;
                Some(next)
            },
            None => None,
        }
    } else {
        atlas_index
    }
}

} // verus!
