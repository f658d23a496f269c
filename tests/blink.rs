use misspelled::blink::{
    handle_blink_casting, update_blink_animation, BlinkAction, BlinkPhase, BlinkingEffect,
    BLINK_PHASE_DURATION,
};

#[test]
fn blink_cast_faces_the_player_direction() {
    let right = handle_blink_casting(true);
    assert_eq!(right.offset_x, 150);
    assert_eq!(right.effect.phase, BlinkPhase::Disappearing);
    assert_eq!(right.effect.timer.duration, BLINK_PHASE_DURATION);
    assert_eq!((right.animation.first_sprite_index, right.animation.last_sprite_index), (0, 5));
    assert_eq!(right.animation.frame_timer.duration, 1_000_000_000 / 15);
    assert_eq!(handle_blink_casting(false).offset_x, -150);
}

#[test]
fn blink_visits_every_phase_in_order() {
    let mut e = BlinkingEffect::new();
    let mut seen = vec![e.phase];
    let mut actions = Vec::new();
    for _ in 0..100 {
        let a = update_blink_animation(&mut e, 50_000_000);
        actions.push(a);
        if *seen.last().unwrap() != e.phase {
            seen.push(e.phase);
        }
        if a == BlinkAction::Restore {
            break;
        }
    }
    assert_eq!(
        seen,
        vec![
            BlinkPhase::Disappearing,
            BlinkPhase::Moving,
            BlinkPhase::Reappearing,
            BlinkPhase::Complete
        ]
    );
    assert_eq!(actions.iter().filter(|a| **a == BlinkAction::Teleport).count(), 1);
}

#[test]
fn blink_phase_changes_exactly_at_duration() {
    let mut e = BlinkingEffect::new();
    assert_eq!(update_blink_animation(&mut e, 299_999_999), BlinkAction::Wait);
    assert_eq!(e.phase, BlinkPhase::Disappearing);
    assert_eq!(update_blink_animation(&mut e, 1), BlinkAction::Wait);
    assert_eq!(e.phase, BlinkPhase::Moving);
    assert_eq!(e.timer.elapsed, 0);
    assert_eq!(update_blink_animation(&mut e, 5), BlinkAction::Teleport);
    assert_eq!(e.phase, BlinkPhase::Reappearing);
    assert_eq!(e.timer.elapsed, 0);
    assert_eq!(update_blink_animation(&mut e, 300_000_000), BlinkAction::Wait);
    assert_eq!(e.phase, BlinkPhase::Complete);
    assert_eq!(update_blink_animation(&mut e, 1), BlinkAction::Restore);
}

#[test]
fn long_frame_skips_no_phase() {
    let mut e = BlinkingEffect::new();
    update_blink_animation(&mut e, 10_000_000_000);
    assert_eq!(e.phase, BlinkPhase::Moving);
    update_blink_animation(&mut e, 10_000_000_000);
    assert_eq!(e.phase, BlinkPhase::Reappearing);
    update_blink_animation(&mut e, 10_000_000_000);
    assert_eq!(e.phase, BlinkPhase::Complete);
}
