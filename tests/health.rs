use misspelled::health::{
    bar_fill_percent, handle_player_damage, handle_shield_spell, process_damage,
    setup_max_values, Health, Invulnerable, PlayerDamageEvent, Shield, ShieldEvent,
    INVULNERABILITY_NANOS,
};

fn hit(health: u32, shield: u32, damage: u32) -> (u32, u32, Option<ShieldEvent>) {
    let mut h = Health::new(health);
    let mut s = Shield::new(shield);
    let e = process_damage(&mut h, &mut s, damage);
    (h.health, s.shield, e)
}

#[test]
fn damage_partly_absorbed_by_shield() {
    assert_eq!(hit(10, 3, 5), (8, 0, Some(ShieldEvent::Depleted)));
}

#[test]
fn damage_fully_absorbed_by_shield() {
    assert_eq!(hit(10, 4, 3), (10, 1, Some(ShieldEvent::Depleted)));
}

#[test]
fn damage_without_shield_hits_health() {
    assert_eq!(hit(10, 0, 4), (6, 0, None));
}

#[test]
fn health_never_below_zero() {
    assert_eq!(hit(3, 0, 50), (0, 0, None));
    assert_eq!(hit(3, 2, 50), (0, 0, Some(ShieldEvent::Depleted)));
}

#[test]
fn shield_capped_at_remaining_health() {
    // A shield above health is brought down to the health left.
    assert_eq!(hit(4, 6, 1), (4, 4, Some(ShieldEvent::Depleted)));
    assert_eq!(hit(2, 9, 0), (2, 2, Some(ShieldEvent::Depleted)));
}

#[test]
fn damage_resolution_formula_on_a_grid() {
    for h in 0..12u32 {
        for s in 0..=h {
            for d in 0..15u32 {
                let (h2, s2, _) = hit(h, s, d);
                let expect_h = h.saturating_sub(d.saturating_sub(s));
                let expect_s = s.saturating_sub(d).min(expect_h);
                assert_eq!((h2, s2), (expect_h, expect_s), "h={} s={} d={}", h, s, d);
                assert!(s2 <= h2);
            }
        }
    }
}

#[test]
fn zero_damage_changes_nothing() {
    assert_eq!(hit(7, 2, 0), (7, 2, Some(ShieldEvent::Depleted)));
    assert_eq!(hit(7, 0, 0), (7, 0, None));
}

#[test]
fn shield_spell_adds_one_point() {
    let h = Health::new(10);
    let mut s = Shield::new(0);
    assert_eq!(handle_shield_spell(&mut s, &h), Some(ShieldEvent::Activated));
    assert_eq!(s.shield, 1);
    assert_eq!(s.max_shield, 0);
}

#[test]
fn shield_spell_refused_at_health() {
    let h = Health::new(2);
    let mut s = Shield::new(2);
    assert_eq!(handle_shield_spell(&mut s, &h), None);
    assert_eq!(s.shield, 2);
}

#[test]
fn player_damage_starts_invulnerability() {
    let mut h = Health::new(10);
    let mut s = Shield::new(1);
    let r = handle_player_damage(&mut h, &mut s, false, PlayerDamageEvent { damage: 3 });
    assert_eq!((h.health, s.shield), (8, 0));
    let inv = r.expect("a hit makes the player invulnerable");
    assert_eq!(inv.timer.duration, INVULNERABILITY_NANOS);
    assert_eq!(inv.timer.elapsed, 0);
}

#[test]
fn invulnerable_player_takes_no_damage() {
    let mut h = Health::new(10);
    let mut s = Shield::new(1);
    let r = handle_player_damage(&mut h, &mut s, true, PlayerDamageEvent { damage: 3 });
    assert!(r.is_none());
    assert_eq!((h.health, s.shield), (10, 1));
}

#[test]
fn invulnerability_runs_out() {
    let mut inv = Invulnerable::new();
    assert!(!inv.tick(1_000_000_000));
    assert!(inv.tick(500_000_000));
}

#[test]
fn bar_percent_values() {
    assert_eq!(bar_fill_percent(7, 10), 70);
    assert_eq!(bar_fill_percent(1, 3), 33);
    assert_eq!(bar_fill_percent(0, 10), 0);
    assert_eq!(bar_fill_percent(30, 10), 100);
    assert_eq!(bar_fill_percent(u32::MAX, 1), 100);
    assert_eq!(bar_fill_percent(5, 0), 100);
    assert_eq!(bar_fill_percent(0, 0), 0);
}

#[test]
fn bar_limits_from_player() {
    assert_eq!(setup_max_values(Some((10, Some(3)))), (10, 3));
    assert_eq!(setup_max_values(Some((10, None))), (10, 0));
    assert_eq!(setup_max_values(None), (20, 20));
}
