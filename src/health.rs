use vstd::prelude::*;

use crate::timer::{Timer, TimerMode};
use crate::{max_int, min_int};

verus! {

/// How long the player stays invulnerable after a hit: 1.5 s.
pub const INVULNERABILITY_NANOS: u64 = 1_500_000_000;

/// Bar limits used when no player exists at start-up.
pub const FALLBACK_BAR_LIMIT: u32 = 20;

/// Hit points of a combat-capable entity; never below zero.
#[derive(Clone, Copy, Debug, PartialEq, Eq, Structural)]
pub struct Health {
    pub health: u32,
}

/// Shield points, absorbed before health and never above it.
#[derive(Clone, Copy, Debug, PartialEq, Eq, Structural)]
pub struct Shield {
    pub shield: u32,
    pub max_shield: u32,
}

#[derive(Clone, Copy, Debug, PartialEq, Eq, Structural)]
pub enum ShieldEvent {
    Activated,
    Depleted,
}

/// Damage dealt to the player through the shield-first pipeline.
#[derive(Clone, Copy, Debug, PartialEq, Eq, Structural)]
pub struct DamageEvent {
    pub amount: u32,
}

/// Damage dealt to the player by an orc's attack.
#[derive(Clone, Copy, Debug, PartialEq, Eq, Structural)]
pub struct PlayerDamageEvent {
    pub damage: u32,
}

/// Marks the player as immune to attacks until its timer runs out.
#[derive(Clone, Copy, Debug)]
pub struct Invulnerable {
    pub timer: Timer,
}

/// Health left after `damage` hits `health` behind `shield`: the part of the
/// damage the shield does not cover, floored at zero.
pub open spec fn health_after(health: int, shield: int, damage: int) -> int {
    max_int(0, health - max_int(0, damage - shield))
}

/// Shield left after the same hit, capped at the health that remains.
pub open spec fn shield_after(health: int, shield: int, damage: int) -> int {
    min_int(max_int(0, shield - damage), health_after(health, shield, damage))
}

/// Width of a bar, in whole percent, showing `value` out of `max`.
pub open spec fn bar_percent(value: int, max: int) -> int {
    if max > 0 {
        min_int(100, value * 100 / max)
    } else if value > 0 {
        100
    } else {
        0
    }
}

impl Health {
    pub fn new(initial_health: u32) -> (r: Health)
        ensures
            r.health == initial_health,
    {
        Health { health: initial_health }
    }
}

impl Shield {
    pub fn new(amount: u32) -> (r: Shield)
        ensures
            r.shield == amount,
            r.max_shield == amount,
    {
        Shield { shield: amount, max_shield: amount }
    }
}

impl Invulnerable {
    pub fn new() -> (r: Invulnerable)
        ensures
            r.timer == Timer::new_spec(INVULNERABILITY_NANOS, TimerMode::Once),
    {
        Invulnerable { timer: Timer::new(INVULNERABILITY_NANOS, TimerMode::Once) }
    }

    /// Advances the immunity period; true once it has run out.
    pub fn tick(&mut self, delta: u64) -> (ended: bool)
        requires
            old(self).timer.wf(),
        ensures
            final(self).timer == old(self).timer.ticked(delta as int),
            ended == final(self).timer.finished,
    {
        self.timer.tick(delta);
        self.timer.finished()
    }
}

/// Takes `amount` off the shield first and the rest off health, then caps the
/// shield at the remaining health. Reports `Depleted` when a shield was hit.
pub fn process_damage(health: &mut Health, shield: &mut Shield, amount: u32) -> (r: Option<
    ShieldEvent,
>)
    ensures
        final(health).health == health_after(
            old(health).health as int,
            old(shield).shield as int,
            amount as int,
        ),
        final(shield).shield == shield_after(
            old(health).health as int,
            old(shield).shield as int,
            amount as int,
        ),
        final(shield).max_shield == old(shield).max_shield,
        final(shield).shield <= final(health).health,
        r == (if old(shield).shield > 0 {
            Some(ShieldEvent::Depleted)
        } else {
            None
        }),
{
    let mut event: Option<ShieldEvent> = None;
    if shield.shield > 0 {
        let absorbed = if amount < shield.shield {
            amount
        } else {
            shield.shield
        };
        shield.shield = shield.shield - absorbed;
        let remaining = amount - absorbed;
        if remaining > 0 {
            health.health = health.health.saturating_sub(remaining);
        }
        event = Some(ShieldEvent::Depleted);
    } else {
        health.health = health.health.saturating_sub(amount);
    }
    if shield.shield > health.health {
        shield.shield = health.health;
    }
    event
}

/// Converts one health point into a shield point while the shield is below
/// health. Reports `Activated` when it did.
pub fn handle_shield_spell(shield: &mut Shield, health: &Health) -> (r: Option<ShieldEvent>)
    ensures
        old(shield).shield < health.health ==> final(shield).shield == old(shield).shield + 1
            && r == Some(ShieldEvent::Activated),
        old(shield).shield >= health.health ==> *final(shield) == *old(shield) && r is None,
        final(shield).max_shield == old(shield).max_shield,
        old(shield).shield <= health.health ==> final(shield).shield <= health.health,
{
    if shield.shield < health.health {
        shield.shield = shield.shield + 1;
        Some(ShieldEvent::Activated)
    } else {
        None
    }
}

/// An orc's hit on the player. While the player is invulnerable nothing
/// happens; otherwise the damage goes through the shield and the player
/// becomes invulnerable, which the returned marker starts.
pub fn handle_player_damage(
    health: &mut Health,
    shield: &mut Shield,
    invulnerable: bool,
    event: PlayerDamageEvent,
) -> (r: Option<Invulnerable>)
    ensures
        invulnerable ==> *final(health) == *old(health) && *final(shield) == *old(shield)
            && r is None,
        !invulnerable ==> final(health).health == health_after(
            old(health).health as int,
            old(shield).shield as int,
            event.damage as int,
        ) && final(shield).shield == shield_after(
            old(health).health as int,
            old(shield).shield as int,
            event.damage as int,
        ) && final(shield).max_shield == old(shield).max_shield && r == Some(
            Invulnerable { timer: Timer::new_spec(INVULNERABILITY_NANOS, TimerMode::Once) },
        ),
{
    if invulnerable {
        None
    } else {
        let _ = process_damage(health, shield, event.damage);
        Some(Invulnerable::new())
    }
}

/// Width in whole percent of a health or shield bar: `value / max`, clamped
/// to 0..=100. An empty limit shows a full bar for any positive value.
pub fn bar_fill_percent(value: u32, max: u32) -> (r: u32)
    ensures
        r == bar_percent(value as int, max as int),
        r <= 100,
{
    if max > 0 {
        let scaled: u64 = value as u64 * 100;
        let p: u64 = scaled / max as u64;
        if p > 100 {
            100
        } else {
            p as u32
        }
    } else if value > 0 {
        100
    } else {
        0
    }
}

/// Bar limits taken from the player's starting health and shield (zero when
/// it has no shield); 20 and 20 when there is no player.
pub fn setup_max_values(player: Option<(u32, Option<u32>)>) -> (r: (u32, u32))
    ensures
        player matches Some((h, s)) ==> r.0 == h && r.1 == (match s {
            Some(v) => v,
            None => 0,
        }),
        player is None ==> r == (FALLBACK_BAR_LIMIT, FALLBACK_BAR_LIMIT),
{
    match player {
        Some((h, s)) => {
            let max_shield = match s {
                Some(v) => v,
                None => 0,
            };
            (h, max_shield)
        },
        None => (FALLBACK_BAR_LIMIT, FALLBACK_BAR_LIMIT),
    }
}

/// Damage resolution keeps the shield within the health that remains, takes
/// health down only by the part of the damage the shield did not cover, and
/// leaves a shield that was within health simply reduced by the damage.
pub proof fn lemma_damage_resolution(health: int, shield: int, damage: int)
    requires
        health >= 0,
        shield >= 0,
        damage >= 0,
    ensures
        0 <= shield_after(health, shield, damage) <= health_after(health, shield, damage),
        health_after(health, shield, damage) == max_int(0, health - max_int(0, damage - shield)),
        shield_after(health, shield, damage) == min_int(
            max_int(0, min_int(shield - damage, shield)),
            health_after(health, shield, damage),
        ),
        shield <= health ==> shield_after(health, shield, damage) == max_int(0, shield - damage),
{
}

} // verus!
