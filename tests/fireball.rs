use misspelled::fireball::{
    handle_fireball_casting, handle_fireball_collision, handle_fireball_hit_without_orc, Fireball, FireballHit, FIREBALL_DAMAGE,
    FIREBALL_LIFETIME,
};
use misspelled::health::Health;
use misspelled::orc::{OrcEnemy, OrcState};
use misspelled::player::Direction;

#[test]
fn default_fireball() {
    let f = Fireball::default();
    assert!(!f.piercing);
    assert!(!f.is_disabled());
    assert!(!f.marked_for_despawn);
    assert_eq!(f.damage, FIREBALL_DAMAGE);
    assert_eq!(f.direction, Direction { x: 1, y: 0 });
    assert_eq!(f.lifetime.duration, FIREBALL_LIFETIME);
    assert!(f.is_moving());
}

#[test]
fn fireball_cast_left() {
    let c = handle_fireball_casting(false);
    assert_eq!(c.fireball.direction, Direction { x: -1, y: 0 });
    assert_eq!(c.offset_x, -30);
    assert!(c.flip_x);
    assert_eq!((c.animation.first_sprite_index, c.animation.last_sprite_index), (0, 11));
    let r = handle_fireball_casting(true);
    assert_eq!(r.offset_x, 30);
    assert!(!r.flip_x);
}

#[test]
fn disable_respects_piercing() {
    let mut f = Fireball::new(Direction { x: 1, y: 0 }, 3);
    f.disable();
    assert!(f.is_disabled());
    let mut p = Fireball::new(Direction { x: 1, y: 0 }, 3);
    p.piercing = true;
    p.disable();
    assert!(!p.is_disabled());
}

#[test]
fn fireball_hit_damages_then_is_spent() {
    let mut f = Fireball::default();
    let mut o = OrcEnemy::new(10, 1);
    let mut h = Health::new(25);
    assert_eq!(handle_fireball_collision(&mut f, &mut o, &mut h), FireballHit::Spent);
    assert_eq!(h.health, 15);
    assert_eq!(o.state, OrcState::Hurt);
    assert!(f.marked_for_despawn && f.is_disabled());
    assert!(!f.is_moving());
    assert_eq!(handle_fireball_collision(&mut f, &mut o, &mut h), FireballHit::Ignored);
    assert_eq!(h.health, 15);
}

#[test]
fn fireball_kills_orc() {
    let mut f = Fireball::default();
    let mut o = OrcEnemy::new(10, 1);
    let mut h = Health::new(10);
    assert_eq!(handle_fireball_collision(&mut f, &mut o, &mut h), FireballHit::Killed);
    assert_eq!(h.health, 0);
    assert_eq!(o.state, OrcState::Dying);
}

#[test]
fn fireball_expires_after_lifetime() {
    let mut f = Fireball::default();
    assert!(!f.despawn_expired(4_999_999_999));
    assert!(!f.marked_for_despawn);
    assert!(f.despawn_expired(1));
    assert!(f.marked_for_despawn);
    // already marked: not reported again
    assert!(!f.despawn_expired(1));
}

#[test]
fn fireball_used_up_on_orphan_hurtbox() {
    let mut f = Fireball::default();
    assert_eq!(handle_fireball_hit_without_orc(&mut f), FireballHit::Spent);
    assert!(f.marked_for_despawn && f.is_disabled());
    assert_eq!(handle_fireball_hit_without_orc(&mut f), FireballHit::Ignored);
}
