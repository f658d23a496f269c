use vstd::prelude::*;

use crate::animation::AnimationConfig;
use crate::health::Health;
use crate::orc::{strike_orc, OrcEnemy, OrcState};
use crate::player::{facing_spec, facing_vector, Direction};
use crate::timer::{Timer, TimerMode};
use crate::max_int;

verus! {

/// Fireball speed in pixels per second.
pub const FIREBALL_SPEED: u32 = 200;

/// How long a fireball flies before it vanishes: 5 s.
pub const FIREBALL_LIFETIME: u64 = 5_000_000_000;

pub const FIREBALL_DAMAGE: u32 = 10;

pub const FIREBALL_FIRST_INDEX: usize = 0;

pub const FIREBALL_LAST_INDEX: usize = 11;

pub const FIREBALL_FPS: u8 = 12;

/// How far in front of the player a fireball appears, in pixels.
pub const FIREBALL_SPAWN_OFFSET: i32 = 30;

/// A fireball in flight.
#[derive(Clone, Copy, Debug)]
pub struct Fireball {
    pub piercing: bool,
    pub disabled: bool,
    pub damage: u32,
    pub lifetime: Timer,
    pub direction: Direction,
    pub marked_for_despawn: bool,
}

/// What a cast of the fireball spell sets up.
#[derive(Clone, Copy, Debug)]
pub struct FireballCast {
    pub fireball: Fireball,
    pub animation: AnimationConfig,
    /// Horizontal offset of the spawn point from the player, in pixels.
    pub offset_x: i32,
    /// Whether the sprite is drawn mirrored.
    pub flip_x: bool,
}

/// How a fireball's collision with an orc's hurtbox turned out.
#[derive(Clone, Copy, Debug, PartialEq, Eq, Structural)]
pub enum FireballHit {
    /// The fireball was already spent; nothing happened.
    Ignored,
    /// The fireball was used up; an orc it hit survived.
    Spent,
    /// The orc took the damage and started dying.
    Killed,
}

impl Fireball {
    pub open spec fn default_spec() -> Fireball {
        Fireball {
            piercing: false,
            disabled: false,
            damage: FIREBALL_DAMAGE,
            lifetime: Timer::new_spec(FIREBALL_LIFETIME, TimerMode::Once),
            direction: Direction { x: 1, y: 0 },
            marked_for_despawn: false,
        }
    }

    pub open spec fn wf(self) -> bool {
        self.lifetime.wf()
    }

    /// A fireball that can still hit something.
    pub open spec fn live(self) -> bool {
        !self.disabled && !self.marked_for_despawn
    }

    /// A fireball flying in `direction` that deals `damage`.
    pub fn new(direction: Direction, damage: u32) -> (r: Fireball)
        ensures
            r == (Fireball { direction, damage, ..Fireball::default_spec() }),
            r.wf(),
    {
        Fireball { direction, damage, ..Fireball::default() }
    }

    /// Stops a fireball that does not pierce.
    pub fn disable(&mut self)
        ensures
            *final(self) == (Fireball {
                disabled: old(self).disabled || !old(self).piercing,
                ..*old(self)
            }),
    {
        if !self.piercing {
            self.disabled = true;
        }
    }

    pub fn is_disabled(&self) -> (r: bool)
        ensures
            r == self.disabled,
    {
        self.disabled
    }

    pub fn mark_for_despawn(&mut self)
        ensures
            *final(self) == (Fireball { marked_for_despawn: true, ..*old(self) }),
    {
        self.marked_for_despawn = true;
    }

    /// A fireball flies on while it is neither stopped nor about to vanish.
    pub fn is_moving(&self) -> (r: bool)
        ensures
            r == self.live(),
    {
        !self.disabled && !self.marked_for_despawn
    }

    /// Uses the fireball up: it will vanish and, unless it pierces, stop.
    pub fn spend(&mut self)
        ensures
            *final(self) == (Fireball {
                marked_for_despawn: true,
                disabled: old(self).disabled || !old(self).piercing,
                ..*old(self)
            }),
    {
        self.mark_for_despawn();
        self.disable();
    }

    /// Ages a fireball by `delta` nanoseconds. One already marked to vanish
    /// is left alone; one whose lifetime runs out is marked, and the result
    /// is true exactly then.
    pub fn despawn_expired(&mut self, delta: u64) -> (expired: bool)
        requires
            old(self).wf(),
        ensures
            final(self).wf(),
            old(self).marked_for_despawn ==> *final(self) == *old(self) && !expired,
            !old(self).marked_for_despawn ==> {
                let t = old(self).lifetime.ticked(delta as int);
                &&& expired == t.finished
                &&& *final(self) == (Fireball {
                    lifetime: t,
                    marked_for_despawn: t.finished,
                    ..*old(self)
                })
            },
    {
        if self.marked_for_despawn {
            return false;
        }
        self.lifetime.tick(delta);
        if self.lifetime.finished() {
            self.mark_for_despawn();
            true
        } else {
            false
        }
    }
}

impl Default for Fireball {
    fn default() -> (r: Fireball)
        ensures
            r == Fireball::default_spec(),
    {
        Fireball {
            piercing: false,
            disabled: false,
            damage: FIREBALL_DAMAGE,
            lifetime: Timer::new(FIREBALL_LIFETIME, TimerMode::Once),
            direction: Direction { x: 1, y: 0 },
            marked_for_despawn: false,
        }
    }
}

/// Sets up a fireball for a player facing right or left: it flies the way
/// the player faces, appears `FIREBALL_SPAWN_OFFSET` pixels ahead and is
/// mirrored when flying left.
pub fn handle_fireball_casting(facing_right: bool) -> (r: FireballCast)
    ensures
        r.fireball == (Fireball {
            direction: facing_spec(facing_right),
            ..Fireball::default_spec()
        }),
        r.animation == AnimationConfig::new_spec(
            FIREBALL_FIRST_INDEX,
            FIREBALL_LAST_INDEX,
            FIREBALL_FPS,
        ),
        r.offset_x == facing_spec(facing_right).x * FIREBALL_SPAWN_OFFSET,
        r.flip_x == !facing_right,
{
    let direction = facing_vector(facing_right);
    let offset_x: i32 = direction.x * FIREBALL_SPAWN_OFFSET;
    FireballCast {
        fireball: Fireball::new(direction, FIREBALL_DAMAGE),
        animation: AnimationConfig::new(FIREBALL_FIRST_INDEX, FIREBALL_LAST_INDEX, FIREBALL_FPS),
        offset_x,
        flip_x: !facing_right,
    }
}

/// A fireball reaching an orc's hurtbox. A spent fireball does nothing.
/// Otherwise the orc takes the fireball's damage, dying when no health is
/// left and hurt when some is, and the fireball is used up.
pub fn handle_fireball_collision(
    fireball: &mut Fireball,
    orc: &mut OrcEnemy,
    health: &mut Health,
) -> (r: FireballHit)
    ensures
        !old(fireball).live() ==> {
            &&& r == FireballHit::Ignored
            &&& *final(fireball) == *old(fireball)
            &&& *final(orc) == *old(orc)
            &&& *final(health) == *old(health)
        },
        old(fireball).live() ==> {
            let left = max_int(0, old(health).health - old(fireball).damage);
            &&& final(health).health == left
            &&& r == (if left == 0 {
                FireballHit::Killed
            } else {
                FireballHit::Spent
            })
            &&& *final(orc) == (if left == 0 {
                OrcEnemy { state: OrcState::Dying, ..*old(orc) }
            } else {
                OrcEnemy { state: OrcState::Hurt, ..*old(orc) }
            })
            &&& *final(fireball) == (Fireball {
                marked_for_despawn: true,
                disabled: !old(fireball).piercing,
                ..*old(fireball)
            })
        },
{
    if !fireball.is_moving() {
        return FireballHit::Ignored;
    }
    let killed = strike_orc(orc, health, fireball.damage);
    fireball.spend();
    if killed {
        FireballHit::Killed
    } else {
        FireballHit::Spent
    }
}

/// A fireball reaching a hurtbox whose orc is already gone. A live fireball
/// is used up all the same; a spent one does nothing.
pub fn handle_fireball_hit_without_orc(fireball: &mut Fireball) -> (r: FireballHit)
    ensures
        !old(fireball).live() ==> r == FireballHit::Ignored && *final(fireball) == *old(fireball),
        old(fireball).live() ==> r == FireballHit::Spent && *final(fireball) == (Fireball {
            marked_for_despawn: true,
            disabled: !old(fireball).piercing,
            ..*old(fireball)
        }),
{
    if !fireball.is_moving() {
        return FireballHit::Ignored;
    }
    fireball.spend();
    FireballHit::Spent
}

} // verus!
