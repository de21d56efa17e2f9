use dicethulhu::enemy::{
    animation_frame, dicethulhu_frame, face_toward, laser_victim, spawn_position, Beam, EnemyOne,
    EnemyOneState, Facing, Participant, BEAM_OFFSET_X, BEAM_OFFSET_Y, BOB_FALL, BOB_RISE,
    SPAWN_HALF_HEIGHT, SPAWN_HALF_WIDTH,
};
use dicethulhu::units::UNIT;

const MS: u64 = 1_000;

#[test]
fn idle_enemy_attacks_on_cycle_start_once_cooled_down() {
    let mut e = EnemyOne::with_jitter(0);
    assert_eq!(e.state, EnemyOneState::Idle);
    let f = e.animate_with(3, 4_000 * MS, Facing::Right, 0);
    assert_eq!(e.state, EnemyOneState::Idle);
    assert_eq!(f.sprite_index, 4);
    assert_eq!(f.bob, -BOB_FALL);
    let f = e.animate_with(0, 16 * MS, Facing::Right, 0);
    assert_eq!(e.state, EnemyOneState::Attack);
    assert_eq!(f.sprite_index, 7);
    assert_eq!(f.bob, 0);
    assert_eq!(f.beam, None);
}

#[test]
fn no_attack_before_cooldown() {
    let mut e = EnemyOne::with_jitter(-1_000_000);
    let f = e.animate_with(0, 2_999 * MS, Facing::Left, 0);
    assert_eq!(e.state, EnemyOneState::Idle);
    assert_eq!(f.sprite_index, 1);
    assert_eq!(f.bob, BOB_RISE);
    e.animate_with(0, 1 * MS, Facing::Left, 0);
    assert_eq!(e.state, EnemyOneState::Attack);
}

#[test]
fn attack_fires_beam_toward_facing_then_moves() {
    let mut e = EnemyOne::with_jitter(0);
    e.animate_with(0, 4_000 * MS, Facing::Right, 0);
    assert_eq!(e.state, EnemyOneState::Attack);
    let f = e.animate_with(3, 16 * MS, Facing::Right, 0);
    assert_eq!(f.sprite_index, 10);
    let beam = f.beam.unwrap();
    assert_eq!(beam.offset_x, BEAM_OFFSET_X);
    assert_eq!(beam.offset_x, 175 * UNIT);
    assert_eq!(beam.offset_y, BEAM_OFFSET_Y);
    assert!(e.beam_fired);
    let f = e.animate_with(3, 16 * MS, Facing::Left, 0);
    assert_eq!(f.sprite_index, 10);
    assert_eq!(f.beam, None);
    let f = e.animate_with(5, 16 * MS, Facing::Left, 0);
    assert_eq!(f.sprite_index, 11);
    assert_eq!(f.beam, None);
    let f = e.animate_with(6, 16 * MS, Facing::Left, 500_000);
    assert_eq!(e.state, EnemyOneState::Move);
    assert_eq!(e.attack_cooldown.duration, 4_500_000);
    assert_eq!(e.attack_cooldown.elapsed, 16 * MS);
    assert_eq!(f.sprite_index, 0);
    assert_eq!(f.bob, BOB_RISE);
}

#[test]
fn moving_enemy_never_attacks_directly() {
    let mut e = EnemyOne::with_jitter(0);
    e.animate_with(0, 4_000 * MS, Facing::Right, 0);
    e.animate_with(6, 16 * MS, Facing::Right, 0);
    assert_eq!(e.state, EnemyOneState::Move);
    e.animate_with(0, 10_000 * MS, Facing::Right, 0);
    assert_eq!(e.state, EnemyOneState::Move);
}

#[test]
fn enemy_state_sequence_follows_the_cycle() {
    let mut e = EnemyOne::with_jitter(0);
    let mut seen = vec![e.state];
    let mut y = 0i64;
    for tick in 0..400u64 {
        let frame = animation_frame(tick * 100 * MS);
        e.animate_with(frame, 100 * MS, Facing::Right, 0);
        seen.push(e.state);
        y = e.track_player(y, 7 * UNIT, 100 * MS);
        seen.push(e.state);
    }
    let mut attacks = 0;
    for w in seen.windows(2) {
        let ok = w[0] == w[1]
            || (w[0] == EnemyOneState::Idle && w[1] == EnemyOneState::Attack)
            || (w[0] == EnemyOneState::Attack && w[1] == EnemyOneState::Move)
            || (w[0] == EnemyOneState::Move && w[1] == EnemyOneState::Idle);
        assert!(ok, "{:?} then {:?}", w[0], w[1]);
        if w[0] != EnemyOneState::Attack && w[1] == EnemyOneState::Attack {
            attacks += 1;
        }
    }
    assert!(attacks >= 2);
}

#[test]
fn tracking_moves_toward_player_and_stops_when_aligned() {
    let mut e = EnemyOne::with_jitter(0);
    e.state = EnemyOneState::Move;
    let y = e.track_player(0, 50 * UNIT, 100 * MS);
    assert_eq!(y, 7 * UNIT);
    assert_eq!(e.state, EnemyOneState::Move);
    let y = e.track_player(y, -50 * UNIT, 100 * MS);
    assert_eq!(y, 0);
    let y = e.track_player(0, UNIT / 2, 100 * MS);
    assert_eq!(y, 7 * UNIT);
    assert_eq!(e.state, EnemyOneState::Idle);
    let y = e.track_player(y, 50 * UNIT, 100 * MS);
    assert_eq!(y, 7 * UNIT);
}

#[test]
fn aligned_enemy_stays_put() {
    let mut e = EnemyOne::with_jitter(0);
    e.state = EnemyOneState::Move;
    let y = e.track_player(4 * UNIT, 4 * UNIT, 100 * MS);
    assert_eq!(y, 4 * UNIT);
    assert_eq!(e.state, EnemyOneState::Idle);
}

#[test]
fn facing_follows_player_side() {
    assert_eq!(face_toward(10, 5, Facing::Left), Facing::Right);
    assert_eq!(face_toward(-10, 5, Facing::Right), Facing::Left);
    assert_eq!(face_toward(5, 5, Facing::Left), Facing::Left);
    assert_eq!(face_toward(5, 5, Facing::Right), Facing::Right);
}

#[test]
fn animation_clocks() {
    assert_eq!(animation_frame(0), 0);
    assert_eq!(animation_frame(99_999), 0);
    assert_eq!(animation_frame(100_000), 1);
    assert_eq!(animation_frame(650_000), 6);
    assert_eq!(animation_frame(700_000), 0);
    assert_eq!(dicethulhu_frame(0), 0);
    assert_eq!(dicethulhu_frame(3_000_000), 15);
    assert_eq!(dicethulhu_frame(3_200_000), 0);
}

#[test]
fn laser_hits_either_side() {
    let enemy = Participant { id: 7, dies_to_laser: true, is_laser: false };
    let laser = Participant { id: 9, dies_to_laser: false, is_laser: true };
    let wall = Participant { id: 3, dies_to_laser: false, is_laser: false };
    assert_eq!(laser_victim(enemy, laser), Some(7));
    assert_eq!(laser_victim(laser, enemy), Some(7));
    assert_eq!(laser_victim(wall, laser), None);
    assert_eq!(laser_victim(enemy, wall), None);
}

#[test]
fn beam_lives_six_tenths_of_a_second() {
    let mut b = Beam::default();
    assert!(!b.tick(300 * MS));
    assert!(!b.tick(299 * MS));
    assert!(b.tick(1 * MS));
    assert!(!b.tick(1 * MS));
}

#[test]
fn spawns_stay_in_their_ranges() {
    let mut xs = Vec::new();
    for _ in 0..200 {
        let (x, y) = spawn_position();
        assert!(-SPAWN_HALF_WIDTH <= x && x <= SPAWN_HALF_WIDTH);
        assert!(-SPAWN_HALF_HEIGHT <= y && y <= SPAWN_HALF_HEIGHT);
        xs.push(x);
        let e = EnemyOne::spawn();
        assert_eq!(e.state, EnemyOneState::Idle);
        let d = e.attack_cooldown.duration;
        assert!((3_000_000..=5_000_000).contains(&d));
    }
    assert!(xs.iter().any(|x| *x != xs[0]));
    assert!(xs.iter().any(|x| *x != -SPAWN_HALF_WIDTH));
}

#[test]
fn random_rearm_keeps_cooldown_in_range() {
    let mut e = EnemyOne::with_jitter(0);
    e.animate(0, 4_000 * MS, Facing::Right);
    assert_eq!(e.state, EnemyOneState::Attack);
    e.animate(6, 0, Facing::Right);
    assert_eq!(e.state, EnemyOneState::Move);
    let d = e.attack_cooldown.duration;
    assert!((3_000_000..=5_000_000).contains(&d));
}

#[test]
fn each_attack_fires_one_beam_toward_its_facing() {
    let mut e = EnemyOne::with_jitter(-1_000_000);
    let mut beams = Vec::new();
    for tick in 0..2_000u64 {
        let frame = animation_frame(tick * 20 * MS);
        let facing = if tick < 1_000 { Facing::Right } else { Facing::Left };
        let f = e.animate_with(frame, 20 * MS, facing, 0);
        if let Some(b) = f.beam {
            beams.push((tick, b.offset_x));
        }
        e.track_player(0, 0, 20 * MS);
    }
    assert!(beams.len() >= 4);
    for pair in beams.windows(2) {
        assert!(pair[1].0 - pair[0].0 > 100);
    }
    assert!(beams.iter().any(|b| b.1 == 175 * UNIT));
    assert!(beams.iter().any(|b| b.1 == -175 * UNIT));
}
