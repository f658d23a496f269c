use vstd::prelude::*;

use crate::health::{DamageEvent, PlayerDamageEvent};

verus! {

/// Damage an orc deals by running into the player.
pub const ORC_CONTACT_DAMAGE: u32 = 5;

/// Damage an orc's attack deals to the player.
pub const ORC_ATTACK_DAMAGE: u32 = 1;

/// A hitbox entity and the entity it belongs to.
#[derive(Clone, Copy, Debug, PartialEq, Eq, Structural)]
pub struct Hitbox {
    pub entity: u64,
    pub owner: u64,
}

/// The entities of the hitboxes in `boxes` that belong to `owner`, in order.
pub open spec fn owned_by(boxes: Seq<Hitbox>, owner: u64) -> Seq<u64>
    decreases boxes.len(),
{
    if boxes.len() == 0 {
        Seq::empty()
    } else if boxes.last().owner == owner {
        owned_by(boxes.drop_last(), owner).push(boxes.last().entity)
    } else {
        owned_by(boxes.drop_last(), owner)
    }
}

/// The other party of a collision between `e1` and `e2` that involves
/// `player`.
pub open spec fn other_party(player: u64, e1: u64, e2: u64) -> Option<u64> {
    if e1 == player {
        Some(e2)
    } else if e2 == player {
        Some(e1)
    } else {
        None
    }
}

/// Whether `e` is among `ids`.
pub fn contains_entity(ids: &Vec<u64>, e: u64) -> (r: bool)
    ensures
        r == ids@.contains(e),
{
    let mut i: usize = 0;
    while i < ids.len()
        invariant
            i <= ids@.len(),
            forall|j: int| 0 <= j < i ==> ids@[j] != e,
        decreases ids@.len() - i,
    {
        if ids[i] == e {
            assert(ids@[i as int] == e);
            return true;
        }
        i = i + 1;
    }
    false
}

/// A collision between `e1` and `e2` in which either is an orc hurts the
/// player by `ORC_CONTACT_DAMAGE`.
pub fn orc_player_collision(orcs: &Vec<u64>, e1: u64, e2: u64) -> (r: Option<DamageEvent>)
    ensures
        r == (if orcs@.contains(e1) || orcs@.contains(e2) {
            Some(DamageEvent { amount: ORC_CONTACT_DAMAGE })
        } else {
            None
        }),
{
    if contains_entity(orcs, e1) || contains_entity(orcs, e2) {
        Some(DamageEvent { amount: ORC_CONTACT_DAMAGE })
    } else {
        None
    }
}

/// A collision between `e1` and `e2` in which the player meets an orc's
/// attack hitbox hurts the player by `ORC_ATTACK_DAMAGE`.
pub fn check_orc_attack_collision(
    player: u64,
    attack_hitboxes: &Vec<u64>,
    e1: u64,
    e2: u64,
) -> (r: Option<PlayerDamageEvent>)
    ensures
        r == (match other_party(player, e1, e2) {
            Some(other) => if attack_hitboxes@.contains(other) {
                Some(PlayerDamageEvent { damage: ORC_ATTACK_DAMAGE })
            } else {
                None
            },
            None => None,
        }),
{
    let other = if e1 == player {
        Some(e2)
    } else if e2 == player {
        Some(e1)
    } else {
        None
    };
    match other {
        Some(o) => if contains_entity(attack_hitboxes, o) {
            Some(PlayerDamageEvent { damage: ORC_ATTACK_DAMAGE })
        } else {
            None
        },
        None => None,
    }
}

/// Orders a collision as (fireball, other entity) when one of the two is a
/// fireball, preferring `e1`.
pub fn fireball_collision_pair(fireballs: &Vec<u64>, e1: u64, e2: u64) -> (r: Option<(u64, u64)>)
    ensures
        r == (if fireballs@.contains(e1) {
            Some((e1, e2))
        } else if fireballs@.contains(e2) {
            Some((e2, e1))
        } else {
            None
        }),
{
    if contains_entity(fireballs, e1) {
        Some((e1, e2))
    } else if contains_entity(fireballs, e2) {
        Some((e2, e1))
    } else {
        None
    }
}

/// The hitboxes that belong to `owner`, to be removed with it.
pub fn hitboxes_owned_by(boxes: &Vec<Hitbox>, owner: u64) -> (r: Vec<u64>)
    ensures
        r@ == owned_by(boxes@, owner),
{
    let mut r: Vec<u64> = Vec::new();
    let mut i: usize = 0;
    while i < boxes.len()
        invariant
            i <= boxes@.len(),
            r@ == owned_by(boxes@.take(i as int), owner),
        decreases boxes@.len() - i,
    {
        let b = boxes[i];
        assert(boxes@.take(i as int + 1).drop_last() == boxes@.take(i as int));
        assert(boxes@.take(i as int + 1).last() == b);
        if b.owner == owner {
            r.push(b.entity);
        }
        i = i + 1;
    }
    assert(boxes@.take(boxes@.len() as int) == boxes@);
    r
}

} // verus!
