use dicethulhu::health::{CombatState, Combatant, DamageOutcome, Invuln, Opacity};

const MS: u64 = 1_000;

#[test]
fn hit_takes_one_point_and_opens_window() {
    let mut p = Combatant::player();
    assert_eq!(p.health.health, 5);
    assert!(p.register_hit());
    assert_eq!(p.apply_damage(), DamageOutcome::Wounded);
    assert_eq!(p.health.health, 4);
    assert!(p.is_invulnerable());
    assert!(!p.damaged);
}

#[test]
fn hits_during_window_are_ignored() {
    let mut p = Combatant::player();
    p.register_hit();
    p.apply_damage();
    assert!(!p.register_hit());
    assert_eq!(p.apply_damage(), DamageOutcome::Unhurt);
    assert_eq!(p.health.health, 4);
    p.advance_invuln(999 * MS);
    assert!(!p.register_hit());
    p.advance_invuln(1 * MS);
    assert!(p.is_healthy());
    assert!(p.register_hit());
    assert_eq!(p.apply_damage(), DamageOutcome::Wounded);
    assert_eq!(p.health.health, 3);
}

#[test]
fn marking_twice_before_the_pass_damages_once() {
    let mut e = Combatant::enemy_one();
    assert!(e.register_hit());
    assert!(e.register_hit());
    assert_eq!(e.apply_damage(), DamageOutcome::Wounded);
    assert_eq!(e.apply_damage(), DamageOutcome::Unhurt);
    assert_eq!(e.health.health, 4);
}

#[test]
fn health_never_rises_over_a_run() {
    let mut p = Combatant::player();
    let mut last = p.health.health;
    for step in 0..40u64 {
        if step % 3 == 0 {
            p.register_hit();
            p.apply_damage();
        } else {
            p.advance_invuln(250 * MS);
        }
        assert!(p.health.health <= last);
        last = p.health.health;
    }
    assert!(p.is_destroyed());
    assert_eq!(p.health.health, 0);
}

#[test]
fn last_point_destroys_in_the_same_pass() {
    let mut e = Combatant::new(1, Invuln::brief());
    assert!(e.register_hit());
    assert_eq!(e.apply_damage(), DamageOutcome::Destroyed);
    assert_eq!(e.health.health, 0);
    assert_eq!(e.state, CombatState::Destroyed);
    assert!(!e.register_hit());
    assert_eq!(e.apply_damage(), DamageOutcome::Unhurt);
    assert_eq!(e.health.health, 0);
}

#[test]
fn zero_health_starts_destroyed() {
    let c = Combatant::new(0, Invuln::default());
    assert!(c.is_destroyed());
}

#[test]
fn player_flashes_and_ends_opaque() {
    let mut p = Combatant::player();
    p.register_hit();
    p.apply_damage();
    assert_eq!(p.opacity, Opacity::Opaque);
    p.advance_invuln(200 * MS);
    assert_eq!(p.opacity, Opacity::Faint);
    p.advance_invuln(200 * MS);
    assert_eq!(p.opacity, Opacity::Hidden);
    p.advance_invuln(200 * MS);
    assert_eq!(p.opacity, Opacity::Faint);
    p.advance_invuln(200 * MS);
    assert_eq!(p.opacity, Opacity::Hidden);
    p.advance_invuln(200 * MS);
    assert_eq!(p.opacity, Opacity::Opaque);
    assert!(p.is_healthy());
}

#[test]
fn window_ends_opaque_in_the_middle_of_a_flash() {
    let mut p = Combatant::player();
    p.register_hit();
    p.apply_damage();
    p.advance_invuln(300 * MS);
    assert_eq!(p.opacity, Opacity::Faint);
    p.advance_invuln(5_000 * MS);
    assert!(p.is_healthy());
    assert_eq!(p.opacity, Opacity::Opaque);
}

#[test]
fn enemy_window_flashes_on_every_period() {
    let mut e = Combatant::enemy_one();
    e.register_hit();
    e.apply_damage();
    e.advance_invuln(40 * MS);
    assert_eq!(e.opacity, Opacity::Faint);
    e.advance_invuln(40 * MS);
    assert_eq!(e.opacity, Opacity::Hidden);
    e.advance_invuln(40 * MS);
    assert_eq!(e.opacity, Opacity::Faint);
    e.advance_invuln(40 * MS);
    assert_eq!(e.opacity, Opacity::Hidden);
    assert!(e.is_invulnerable());
    e.advance_invuln(40 * MS);
    assert!(e.is_healthy());
    assert_eq!(e.opacity, Opacity::Opaque);
}

#[test]
fn several_flash_periods_in_one_tick_flash_once() {
    let mut e = Combatant::enemy_one();
    e.register_hit();
    e.apply_damage();
    e.advance_invuln(90 * MS);
    assert_eq!(e.opacity, Opacity::Faint);
    assert!(e.is_invulnerable());
}

#[test]
fn opacity_levels() {
    assert_eq!(Opacity::Opaque.alpha_percent(), 100);
    assert_eq!(Opacity::Faint.alpha_percent(), 10);
    assert_eq!(Opacity::Hidden.alpha_percent(), 0);
    assert_eq!(Opacity::Opaque.next_flash(), Opacity::Faint);
    assert_eq!(Opacity::Faint.next_flash(), Opacity::Hidden);
    assert_eq!(Opacity::Hidden.next_flash(), Opacity::Faint);
}

#[test]
fn window_timers_match_their_kind() {
    let w = Invuln::default();
    assert_eq!(w.duration.duration, 1_000_000);
    assert!(w.flash_period.repeating);
    let b = Invuln::brief();
    assert_eq!(b.duration.duration, 200_000);
    assert_eq!(b.flash_period.duration, 40_000);
    assert!(b.flash_period.repeating);
    assert!(!b.duration.repeating);
}

#[test]
fn window_ends_on_the_first_tick_that_reaches_its_length() {
    let mut p = Combatant::player();
    p.register_hit();
    p.apply_damage();
    for _ in 0..3 {
        p.advance_invuln(300 * MS);
        assert!(p.is_invulnerable());
    }
    p.advance_invuln(99 * MS);
    assert!(p.is_invulnerable());
    p.advance_invuln(1 * MS);
    assert!(p.is_healthy());
    assert_eq!(p.opacity, Opacity::Opaque);
}
