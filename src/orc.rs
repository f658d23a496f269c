use vstd::prelude::*;

use crate::animation::AnimationConfig;
use crate::health::Health;
use crate::timer::{Timer, TimerMode};
use crate::{max_int, min_int};

verus! {

/// Orc walking speed in pixels per second.
pub const ORC_SPEED: u32 = 80;

/// Distance in pixels within which an orc stops to attack.
pub const ATTACK_RANGE: u32 = 80;

/// Length of the attack animation: 0.5 s.
pub const ATTACK_ANIM_DURATION: u64 = 500_000_000;

/// Rest after an attack: 1 s.
pub const ATTACK_COOLDOWN: u64 = 1_000_000_000;

/// Full attack cycle, animation then rest.
pub const ATTACK_CYCLE: u64 = ATTACK_ANIM_DURATION + ATTACK_COOLDOWN;

/// Cooldown timer of a freshly built orc: 1 s.
pub const INITIAL_COOLDOWN_TIMER: u64 = 1_000_000_000;

/// How long a dying orc lies before it is removed: 1.5 s.
pub const DEATH_TIMER_NANOS: u64 = 1_500_000_000;

/// How long a dead orc takes to fade out: 0.5 s.
pub const DEATH_FADE_NANOS: u64 = 500_000_000;

/// Full opacity, in thousandths.
pub const OPAQUE: u32 = 1000;

#[derive(Clone, Copy, Debug, PartialEq, Eq, Structural)]
pub enum OrcState {
    Idle,
    Walking,
    Attacking,
    Hurt,
    Dying,
}

/// An orc enemy. Its cooldown timer counts down, in nanoseconds, through the
/// attack animation and the rest that follows it.
#[derive(Clone, Copy, Debug, PartialEq, Eq, Structural)]
pub struct OrcEnemy {
    pub health: u32,
    pub damage: u32,
    pub state: OrcState,
    pub attack_cooldown: u64,
    pub attack_cooldown_timer: u64,
}

/// What an orc does with its body this frame.
#[derive(Clone, Copy, Debug, PartialEq, Eq, Structural)]
pub enum OrcMotion {
    /// Stays where it is.
    Stand,
    /// Moves toward the player at `ORC_SPEED`.
    Chase,
}

/// Starts the fade-out of a dead orc.
#[derive(Clone, Copy, Debug)]
pub struct DeathFade {
    pub fade_timer: Timer,
    /// Opacity at the start of the fade, in thousandths.
    pub initial_alpha: u32,
}

/// Runs while an orc lies dying.
#[derive(Clone, Copy, Debug)]
pub struct DeathTimer {
    pub timer: Timer,
}

/// The cooldown left after `dt` more nanoseconds, once the timer is held to
/// one attack cycle.
pub open spec fn cooldown_left(timer: int, dt: int) -> int {
    max_int(0, min_int(timer, ATTACK_CYCLE as int) - dt)
}

/// One frame of an orc's behaviour, `dt` nanoseconds long, with the player
/// `distance` pixels away. The cooldown timer is first held to one attack
/// cycle and counted down by `dt`. A dying orc stays dying and stands.
/// Otherwise, while the cooldown runs (the attack animation and the rest after
/// it) the orc stands attacking; once it has run out the orc starts a new
/// attack when the player is in range and walks toward it when not.
pub open spec fn orc_step(orc: OrcEnemy, distance: int, dt: int) -> (OrcEnemy, OrcMotion) {
    let left = cooldown_left(orc.attack_cooldown_timer as int, dt);
    if orc.state == OrcState::Dying {
        (OrcEnemy { attack_cooldown_timer: left as u64, ..orc }, OrcMotion::Stand)
    } else if left > 0 {
        (
            OrcEnemy { attack_cooldown_timer: left as u64, state: OrcState::Attacking, ..orc },
            OrcMotion::Stand,
        )
    } else if distance <= ATTACK_RANGE {
        (
            OrcEnemy { attack_cooldown_timer: ATTACK_CYCLE, state: OrcState::Attacking, ..orc },
            OrcMotion::Stand,
        )
    } else {
        (
            OrcEnemy { attack_cooldown_timer: 0, state: OrcState::Walking, ..orc },
            OrcMotion::Chase,
        )
    }
}

/// The sprite-sheet frames and speed of the animation for each orc state.
pub open spec fn orc_animation(state: OrcState) -> (usize, usize, u8) {
    match state {
        OrcState::Idle => (0, 5, 8),
        OrcState::Walking => (8, 15, 12),
        OrcState::Attacking => (16, 21, 10),
        OrcState::Hurt => (32, 35, 10),
        OrcState::Dying => (40, 43, 8),
    }
}

impl OrcEnemy {
    /// A new idle orc with the given health and damage.
    pub fn new(health: u32, damage: u32) -> (r: OrcEnemy)
        ensures
            r == (OrcEnemy {
                health,
                damage,
                state: OrcState::Idle,
                attack_cooldown: 0,
                attack_cooldown_timer: INITIAL_COOLDOWN_TIMER,
            }),
    {
        OrcEnemy {
            health,
            damage,
            state: OrcState::Idle,
            attack_cooldown: 0,
            attack_cooldown_timer: INITIAL_COOLDOWN_TIMER,
        }
    }
}

/// A freshly spawned orc starts idle, free to act at once.
pub fn orc_init_system(orc: &mut OrcEnemy)
    ensures
        *final(orc) == (OrcEnemy {
            state: OrcState::Idle,
            attack_cooldown_timer: 0,
            ..*old(orc)
        }),
{
    orc.state = OrcState::Idle;
    orc.attack_cooldown_timer = 0;
}

/// Runs one frame of an orc's behaviour; see `orc_step`. `distance` is the
/// distance to the player in pixels, rounded up, and `dt` the frame length
/// in nanoseconds.
pub fn orc_movement_system(orc: &mut OrcEnemy, distance: u32, dt: u64) -> (r: OrcMotion)
    ensures
        (*final(orc), r) == orc_step(*old(orc), distance as int, dt as int),
{
    let held = if orc.attack_cooldown_timer < ATTACK_CYCLE {
        orc.attack_cooldown_timer
    } else {
        ATTACK_CYCLE
    };
    let timer = held.saturating_sub(dt);
    orc.attack_cooldown_timer = timer;
    if orc.state == OrcState::Dying {
        OrcMotion::Stand
    } else if timer > 0 {
        orc.state = OrcState::Attacking;
        OrcMotion::Stand
    } else if distance <= ATTACK_RANGE {
        orc.attack_cooldown_timer = ATTACK_CYCLE;
        orc.state = OrcState::Attacking;
        OrcMotion::Stand
    } else {
        orc.state = OrcState::Walking;
        OrcMotion::Chase
    }
}

/// Switches the animation to the one for `state` when it shows another.
/// Returns the frame the sprite must jump to when it switched.
pub fn update_orc_animation(config: &mut AnimationConfig, state: OrcState) -> (r: Option<usize>)
    ensures
        ({
            let (first, last, fps) = orc_animation(state);
            if old(config).first_sprite_index != first {
                *final(config) == AnimationConfig::new_spec(first, last, fps) && r == Some(first)
            } else {
                *final(config) == *old(config) && r is None
            }
        }),
{
    let (first, last, fps): (usize, usize, u8) = match state {
        OrcState::Idle => (0, 5, 8),
        OrcState::Walking => (8, 15, 12),
        OrcState::Attacking => (16, 21, 10),
        OrcState::Hurt => (32, 35, 10),
        OrcState::Dying => (40, 43, 8),
    };
    if config.first_sprite_index != first {
        *config = AnimationConfig::new(first, last, fps);
        Some(first)
    } else {
        None
    }
}

/// A dying orc whose sprite has reached the last frame of its animation has
/// finished its death animation.
pub fn death_animation_complete(
    orc: &OrcEnemy,
    config: &AnimationConfig,
    atlas_index: Option<usize>,
) -> (r: bool)
    ensures
        r == (orc.state == OrcState::Dying && (atlas_index matches Some(i)
            && i >= config.last_sprite_index)),
{
    if orc.state == OrcState::Dying {
        match atlas_index {
            Some(i) => i >= config.last_sprite_index,
            None => false,
        }
    } else {
        false
    }
}

/// Takes `damage` off an orc's health. An orc left with no health starts
/// dying, one that survives is hurt; the result says whether it died.
pub fn strike_orc(orc: &mut OrcEnemy, health: &mut Health, damage: u32) -> (killed: bool)
    ensures
        final(health).health == max_int(0, old(health).health - damage),
        killed == (final(health).health == 0),
        killed ==> *final(orc) == (OrcEnemy { state: OrcState::Dying, ..*old(orc) }),
        !killed ==> *final(orc) == (OrcEnemy { state: OrcState::Hurt, ..*old(orc) }),
{
    health.health = health.health.saturating_sub(damage);
    if health.health == 0 {
        orc.state = OrcState::Dying;
        true
    } else {
        orc.state = OrcState::Hurt;
        false
    }
}

impl DeathTimer {
    pub fn new() -> (r: DeathTimer)
        ensures
            r.timer == Timer::new_spec(DEATH_TIMER_NANOS, TimerMode::Once),
    {
        DeathTimer { timer: Timer::new(DEATH_TIMER_NANOS, TimerMode::Once) }
    }

    /// Advances the timer; true once it has run out.
    pub fn tick(&mut self, delta: u64) -> (done: bool)
        requires
            old(self).timer.wf(),
        ensures
            final(self).timer == old(self).timer.ticked(delta as int),
            done == final(self).timer.finished,
    {
        self.timer.tick(delta);
        self.timer.finished()
    }
}

impl DeathFade {
    /// A fade from full opacity over half a second.
    pub fn new() -> (r: DeathFade)
        ensures
            r.fade_timer == Timer::new_spec(DEATH_FADE_NANOS, TimerMode::Once),
            r.initial_alpha == OPAQUE,
    {
        DeathFade {
            fade_timer: Timer::new(DEATH_FADE_NANOS, TimerMode::Once),
            initial_alpha: OPAQUE,
        }
    }

    pub open spec fn alpha_spec(self) -> int {
        if self.fade_timer.duration == 0 || self.fade_timer.elapsed >= self.fade_timer.duration {
            0
        } else {
            self.initial_alpha * (self.fade_timer.duration - self.fade_timer.elapsed)
                / (self.fade_timer.duration as int)
        }
    }

    /// Current opacity in thousandths: the initial opacity scaled by the
    /// share of the fade still to run.
    pub fn alpha(&self) -> (r: u32)
        requires
            self.initial_alpha <= OPAQUE,
        ensures
            r == self.alpha_spec(),
            r <= self.initial_alpha,
    {
        let duration = self.fade_timer.duration;
        let elapsed = self.fade_timer.elapsed;
        if duration == 0 || elapsed >= duration {
            0
        } else {
            let left: u128 = (duration - elapsed) as u128;
            let alpha0: u128 = self.initial_alpha as u128;
            assert(alpha0 * left <= 0xffff_ffff_ffff_ffff_ffff_ffff_ffff_ffff) by (nonlinear_arith)
                requires
                    alpha0 <= 1000,
                    left <= 0xffff_ffff_ffff_ffff,
            ;
            let scaled: u128 = self.initial_alpha as u128 * left;
            assert(scaled <= self.initial_alpha as u128 * duration as u128) by (nonlinear_arith)
                requires
                    scaled == self.initial_alpha as u128 * left,
                    left <= duration,
            ;
            let a: u128 = scaled / duration as u128;
            assert(a <= self.initial_alpha as u128) by (nonlinear_arith)
                requires
                    a == scaled / duration as u128,
                    scaled <= self.initial_alpha as u128 * duration as u128,
                    duration > 0,
            ;
            a as u32
        }
    }

    /// Advances the fade; true once it is over and the orc can be removed.
    pub fn tick(&mut self, delta: u64) -> (done: bool)
        requires
            old(self).fade_timer.wf(),
        ensures
            final(self).fade_timer == old(self).fade_timer.ticked(delta as int),
            final(self).initial_alpha == old(self).initial_alpha,
            done == final(self).fade_timer.finished,
    {
        self.fade_timer.tick(delta);
        self.fade_timer.finished()
    }
}

/// After any frame the cooldown timer is within one attack cycle, and a
/// dying orc stays dying and stands. An orc not dying walks exactly when its
/// cooldown has run out and the player is beyond attack range, and walking is
/// what makes it chase; on every other frame it stands attacking, through the
/// attack animation and the cooldown after it, or starting a new attack.
pub proof fn lemma_orc_walks_only_when_free(orc: OrcEnemy, distance: int, dt: int)
    requires
        distance >= 0,
        dt >= 0,
    ensures
        ({
            let (next, motion) = orc_step(orc, distance, dt);
            let left = cooldown_left(orc.attack_cooldown_timer as int, dt);
            &&& 0 <= next.attack_cooldown_timer <= ATTACK_CYCLE
            &&& orc.state == OrcState::Dying ==> next.state == OrcState::Dying && motion
                == OrcMotion::Stand
            &&& orc.state != OrcState::Dying ==> {
                &&& next.state == OrcState::Walking <==> (left == 0 && distance > ATTACK_RANGE)
                &&& motion == OrcMotion::Chase <==> next.state == OrcState::Walking
                &&& next.state != OrcState::Walking ==> next.state == OrcState::Attacking
            }
        }),
{
}

/// The states an orc passes through over frames given as (distance to the
/// player, frame length), starting with `orc` itself.
pub open spec fn orc_run(orc: OrcEnemy, frames: Seq<(u32, u64)>) -> Seq<OrcEnemy>
    decreases frames.len(),
{
    if frames.len() == 0 {
        seq![orc]
    } else {
        let before = orc_run(orc, frames.drop_last());
        before.push(orc_step(before.last(), frames.last().0 as int, frames.last().1 as int).0)
    }
}

/// Total length in nanoseconds of the given frames.
pub open spec fn frames_time(frames: Seq<(u32, u64)>) -> int
    decreases frames.len(),
{
    if frames.len() == 0 {
        0
    } else {
        frames_time(frames.drop_last()) + frames.last().1
    }
}

/// An orc that has just started an attack does not walk, wherever the player
/// goes, until the attack animation and the cooldown after it have run their
/// whole length; its timer counts down by exactly the time that passed.
pub proof fn lemma_orc_attack_runs_its_course(orc: OrcEnemy, frames: Seq<(u32, u64)>)
    requires
        orc.state != OrcState::Dying,
        orc.attack_cooldown_timer == ATTACK_CYCLE,
        frames_time(frames) < ATTACK_CYCLE,
    ensures
        orc_run(orc, frames).len() == frames.len() + 1,
        orc_run(orc, frames).last().attack_cooldown_timer == ATTACK_CYCLE - frames_time(frames),
        forall|i: int|
            0 <= i <= frames.len() ==> (#[trigger] orc_run(orc, frames)[i]).state
                != OrcState::Dying,
        forall|i: int|
            1 <= i <= frames.len() ==> (#[trigger] orc_run(orc, frames)[i]).state
                != OrcState::Walking,
    decreases frames.len(),
{
    if frames.len() > 0 {
        let prefix = frames.drop_last();
        assert(frames_time(frames) == frames_time(prefix) + frames.last().1);
        lemma_orc_attack_runs_its_course(orc, prefix);
        let before = orc_run(orc, prefix);
        let run = orc_run(orc, frames);
        let next = orc_step(before.last(), frames.last().0 as int, frames.last().1 as int).0;
        assert(run == before.push(next));
        assert(before.last() == before[prefix.len() as int]);
        assert forall|i: int| 0 <= i <= frames.len() implies (#[trigger] run[i]).state
            != OrcState::Dying by {
            if i < run.len() - 1 {
                assert(run[i] == before[i]);
            }
        }
        assert forall|i: int| 1 <= i <= frames.len() implies (#[trigger] run[i]).state
            != OrcState::Walking by {
            if i < run.len() - 1 {
                assert(run[i] == before[i]);
            }
        }
    }
}

/// The states of an orc's run after its first one are the steps of the
/// states before them.
pub proof fn lemma_orc_run_steps(orc: OrcEnemy, frames: Seq<(u32, u64)>)
    ensures
        orc_run(orc, frames).len() == frames.len() + 1,
        orc_run(orc, frames)[0] == orc,
        forall|i: int|
            0 <= i < frames.len() ==> #[trigger] orc_run(orc, frames)[i + 1] == orc_step(
                orc_run(orc, frames)[i],
                frames[i].0 as int,
                frames[i].1 as int,
            ).0,
    decreases frames.len(),
{
    if frames.len() > 0 {
        let prefix = frames.drop_last();
        lemma_orc_run_steps(orc, prefix);
        let before = orc_run(orc, prefix);
        let run = orc_run(orc, frames);
        assert forall|i: int| 0 <= i < frames.len() implies #[trigger] run[i + 1] == orc_step(
            run[i],
            frames[i].0 as int,
            frames[i].1 as int,
        ).0 by {
            assert(run[i] == before[i]);
            if i + 1 < frames.len() {
                assert(run[i + 1] == before[i + 1]);
                assert(frames[i] == prefix[i]);
            }
        }
    }
}

/// The cooldown an orc still has to sit out at frame `i` of frames lasting at
/// least `delta` nanoseconds, while the player stays out of range.
pub open spec fn cooldown_bound(i: int, delta: int) -> int {
    max_int(0, ATTACK_CYCLE - i * delta)
}

proof fn lemma_orc_free_upto(orc: OrcEnemy, frames: Seq<(u32, u64)>, delta: int, i: int)
    requires
        orc.state != OrcState::Dying,
        delta > 0,
        forall|j: int|
            0 <= j < frames.len() ==> (#[trigger] frames[j]).0 > ATTACK_RANGE && frames[j].1
                >= delta,
        0 <= i <= frames.len(),
    ensures
        orc_run(orc, frames)[i].state != OrcState::Dying,
        min_int(orc_run(orc, frames)[i].attack_cooldown_timer as int, ATTACK_CYCLE as int)
            <= cooldown_bound(i, delta),
        i >= 1 && orc_run(orc, frames)[i].attack_cooldown_timer == 0 ==> orc_run(
            orc,
            frames,
        )[i].state == OrcState::Walking,
    decreases i,
{
    lemma_orc_run_steps(orc, frames);
    if i > 0 {
        let j = i - 1;
        lemma_orc_free_upto(orc, frames, delta, j);
        let run = orc_run(orc, frames);
        assert(run[j + 1] == orc_step(run[j], frames[j].0 as int, frames[j].1 as int).0);
        assert(j + 1 == i);
        assert(i * delta == j * delta + delta) by (nonlinear_arith)
            requires
                i == j + 1,
        ;
    }
}

/// While the player stays out of attack range an orc that is not dying,
/// whatever its cooldown, walks toward it at every frame from the one at
/// which a full attack cycle of time has passed: the attack and its cooldown
/// always run out. With frames of at least `delta` nanoseconds, that is frame
/// `i` for any `i >= 1` with `i * delta >= ATTACK_CYCLE`.
pub proof fn lemma_orc_returns_to_walking(orc: OrcEnemy, frames: Seq<(u32, u64)>, delta: int)
    requires
        orc.state != OrcState::Dying,
        delta > 0,
        forall|j: int|
            0 <= j < frames.len() ==> (#[trigger] frames[j]).0 > ATTACK_RANGE && frames[j].1
                >= delta,
    ensures
        forall|i: int|
            1 <= i <= frames.len() && i * delta >= ATTACK_CYCLE ==> (#[trigger] orc_run(
                orc,
                frames,
            )[i]).state == OrcState::Walking,
{
    let run = orc_run(orc, frames);
    assert forall|i: int| 1 <= i <= frames.len() && i * delta >= ATTACK_CYCLE implies (
    #[trigger] run[i]).state == OrcState::Walking by {
        lemma_orc_free_upto(orc, frames, delta, i);
    }
}

} // verus!
