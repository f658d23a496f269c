use misspelled::animation::AnimationConfig;
use misspelled::health::Health;
use misspelled::orc::{
    death_animation_complete, orc_init_system, orc_movement_system, strike_orc,
    update_orc_animation, DeathFade, DeathTimer, OrcEnemy, OrcMotion, OrcState, ATTACK_CYCLE,
};

const FRAME: u64 = 16_000_000;

fn free_orc() -> OrcEnemy {
    let mut o = OrcEnemy::new(10, 1);
    orc_init_system(&mut o);
    o
}

#[test]
fn new_orc_fields() {
    let o = OrcEnemy::new(10, 1);
    assert_eq!(o.health, 10);
    assert_eq!(o.damage, 1);
    assert_eq!(o.state, OrcState::Idle);
    assert_eq!(o.attack_cooldown, 0);
    assert_eq!(o.attack_cooldown_timer, 1_000_000_000);
}

#[test]
fn spawned_orc_is_free() {
    let o = free_orc();
    assert_eq!(o.state, OrcState::Idle);
    assert_eq!(o.attack_cooldown_timer, 0);
}

#[test]
fn orc_walks_toward_distant_player() {
    let mut o = free_orc();
    assert_eq!(orc_movement_system(&mut o, 200, FRAME), OrcMotion::Chase);
    assert_eq!(o.state, OrcState::Walking);
    assert_eq!(o.attack_cooldown_timer, 0);
}

#[test]
fn orc_attacks_within_range() {
    let mut o = free_orc();
    assert_eq!(orc_movement_system(&mut o, 80, FRAME), OrcMotion::Stand);
    assert_eq!(o.state, OrcState::Attacking);
    assert_eq!(o.attack_cooldown_timer, ATTACK_CYCLE);
}

#[test]
fn orc_just_beyond_range_walks() {
    let mut o = free_orc();
    assert_eq!(orc_movement_system(&mut o, 81, FRAME), OrcMotion::Chase);
}

#[test]
fn attack_cycle_then_cooldown_then_free() {
    let mut o = free_orc();
    orc_movement_system(&mut o, 10, FRAME);
    // still in the attack animation, even with the player far away
    assert_eq!(orc_movement_system(&mut o, 500, 400_000_000), OrcMotion::Stand);
    assert_eq!(o.state, OrcState::Attacking);
    assert_eq!(o.attack_cooldown_timer, 1_100_000_000);
    // cooldown: still attacking, not walking
    assert_eq!(orc_movement_system(&mut o, 500, 200_000_000), OrcMotion::Stand);
    assert_eq!(o.state, OrcState::Attacking);
    assert_eq!(o.attack_cooldown_timer, 900_000_000);
    // cooldown over: free to chase
    assert_eq!(orc_movement_system(&mut o, 500, 900_000_000), OrcMotion::Chase);
    assert_eq!(o.state, OrcState::Walking);
}

#[test]
fn oversized_timer_held_to_one_cycle() {
    let mut o = free_orc();
    o.attack_cooldown_timer = 10_000_000_000;
    orc_movement_system(&mut o, 500, 0);
    assert_eq!(o.attack_cooldown_timer, ATTACK_CYCLE);
    assert_eq!(o.state, OrcState::Attacking);
}

#[test]
fn dying_orc_stays_dying() {
    let mut o = free_orc();
    o.state = OrcState::Dying;
    assert_eq!(orc_movement_system(&mut o, 10, FRAME), OrcMotion::Stand);
    assert_eq!(o.state, OrcState::Dying);
    assert_eq!(orc_movement_system(&mut o, 500, FRAME), OrcMotion::Stand);
    assert_eq!(o.state, OrcState::Dying);
}

#[test]
fn dying_orc_timer_held_to_one_cycle() {
    let mut o = free_orc();
    o.state = OrcState::Dying;
    o.attack_cooldown_timer = 2_000_000_000;
    orc_movement_system(&mut o, 500, 0);
    assert_eq!(o.attack_cooldown_timer, ATTACK_CYCLE);
    assert_eq!(o.state, OrcState::Dying);
}

#[test]
fn orc_in_cooldown_with_player_close_keeps_attacking() {
    let mut o = free_orc();
    o.attack_cooldown_timer = 1_000_000_000;
    assert_eq!(orc_movement_system(&mut o, 0, 0), OrcMotion::Stand);
    assert_eq!(o.state, OrcState::Attacking);
    assert_eq!(o.attack_cooldown_timer, 1_000_000_000);
}

#[test]
fn orc_walks_again_once_a_cycle_has_passed() {
    let mut o = free_orc();
    orc_movement_system(&mut o, 10, FRAME);
    let mut frames = 0;
    while o.state != OrcState::Walking {
        orc_movement_system(&mut o, 500, FRAME);
        frames += 1;
        assert!(frames <= 1_500_000_000 / FRAME + 1);
    }
    assert_eq!(orc_movement_system(&mut o, 500, FRAME), OrcMotion::Chase);
}

#[test]
fn orc_animation_switches_with_state() {
    let mut c = AnimationConfig::new(0, 7, 10);
    assert_eq!(update_orc_animation(&mut c, OrcState::Idle), None);
    assert_eq!(c.last_sprite_index, 7);
    assert_eq!(update_orc_animation(&mut c, OrcState::Walking), Some(8));
    assert_eq!((c.first_sprite_index, c.last_sprite_index, c.current_frame), (8, 15, 8));
    assert_eq!(c.frame_timer.duration, 1_000_000_000 / 12);
    assert_eq!(update_orc_animation(&mut c, OrcState::Attacking), Some(16));
    assert_eq!(c.last_sprite_index, 21);
    assert_eq!(update_orc_animation(&mut c, OrcState::Hurt), Some(32));
    assert_eq!(c.last_sprite_index, 35);
    assert_eq!(update_orc_animation(&mut c, OrcState::Dying), Some(40));
    assert_eq!(c.last_sprite_index, 43);
    assert_eq!(update_orc_animation(&mut c, OrcState::Idle), Some(0));
    assert_eq!(c.last_sprite_index, 5);
}

#[test]
fn death_animation_completion() {
    let mut o = OrcEnemy::new(10, 1);
    let c = AnimationConfig::new(40, 43, 8);
    assert!(!death_animation_complete(&o, &c, Some(43)));
    o.state = OrcState::Dying;
    assert!(!death_animation_complete(&o, &c, Some(42)));
    assert!(death_animation_complete(&o, &c, Some(43)));
    assert!(!death_animation_complete(&o, &c, None));
}

#[test]
fn strike_kills_at_zero_health() {
    let mut o = OrcEnemy::new(10, 1);
    let mut h = Health::new(15);
    assert!(!strike_orc(&mut o, &mut h, 10));
    assert_eq!(h.health, 5);
    assert_eq!(o.state, OrcState::Hurt);
    assert!(strike_orc(&mut o, &mut h, 10));
    assert_eq!(h.health, 0);
    assert_eq!(o.state, OrcState::Dying);
}

#[test]
fn death_fade_alpha_and_end() {
    let mut f = DeathFade::new();
    assert_eq!(f.alpha(), 1000);
    assert!(!f.tick(125_000_000));
    assert_eq!(f.alpha(), 750);
    assert!(!f.tick(250_000_000));
    assert_eq!(f.alpha(), 250);
    assert!(f.tick(200_000_000));
    assert_eq!(f.alpha(), 0);
}

#[test]
fn death_timer_runs_out() {
    let mut t = DeathTimer::new();
    assert!(!t.tick(1_000_000_000));
    assert!(t.tick(500_000_000));
}
