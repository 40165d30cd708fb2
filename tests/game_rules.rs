use rust_arcade_game::input::{binding, steer, Controls, InputID, Key, KeyEvent, KeyState, Steer};
use rust_arcade_game::lanes::{lane_of_sector, rotate_lane, spawn_lane, LANE_COUNT};
use rust_arcade_game::pattern::{spawn_all, Pattern, PatternCycle, Placement};
use rust_arcade_game::state::GameState;
use rust_arcade_game::track::Track;

const SPAWN_DISTANCE: f32 = 20.0;

#[test]
fn lane_of_sector_wraps_negative_sectors() {
    assert_eq!(lane_of_sector(0), 0);
    assert_eq!(lane_of_sector(5), 5);
    assert_eq!(lane_of_sector(6), 0);
    assert_eq!(lane_of_sector(13), 1);
    assert_eq!(lane_of_sector(-1), 5);
    assert_eq!(lane_of_sector(-6), 0);
    assert_eq!(lane_of_sector(-7), 5);
    assert_eq!(lane_of_sector(i32::MIN), 4);
    assert_eq!(lane_of_sector(i32::MAX), 1);
}

#[test]
fn lane_of_sector_is_periodic_and_total() {
    for k in -40..40 {
        let lane = lane_of_sector(k);
        assert!(lane < LANE_COUNT);
        assert_eq!(lane_of_sector(k + 6), lane);
        assert_eq!(lane_of_sector(k - 6), lane);
    }
}

#[test]
fn lane_of_sector_from_angles() {
    // The sector of an angle is floor(angle / 2pi * 6 - 1).
    let sector = |angle: f32| (angle / (2.0 * std::f32::consts::PI) * 6.0 - 1.0).floor() as i32;
    let turn = 2.0 * std::f32::consts::PI;
    assert_eq!(lane_of_sector(sector(0.0)), 5);
    assert_eq!(lane_of_sector(sector(0.1)), 5);
    assert_eq!(lane_of_sector(sector(turn / 6.0 + 0.01)), 0);
    assert_eq!(lane_of_sector(sector(-0.15)), 4);
    for i in 0..6 {
        let a = turn * (i as f32 + 0.5) / 6.0;
        assert_eq!(lane_of_sector(sector(a)), lane_of_sector(sector(a + turn)));
        assert_eq!(lane_of_sector(sector(a)), lane_of_sector(sector(a - turn)));
    }
}

#[test]
fn spawn_and_rotate_lanes() {
    assert_eq!(spawn_lane(0), 0);
    assert_eq!(spawn_lane(11), 5);
    assert_eq!(spawn_lane(12), 0);
    assert_eq!(rotate_lane(4, 4), 2);
    assert_eq!(rotate_lane(0, -1), 5);
    assert_eq!(rotate_lane(3, -9), 0);
    assert_eq!(rotate_lane(usize::MAX, 1), 4);
}

#[test]
fn track_spawns_in_order_and_expires_front() {
    let mut track: Track<u32> = Track::new();
    for l in 0..LANE_COUNT {
        assert!(track.lane(l).is_empty());
    }
    track.spawn(2, 10);
    track.spawn(8, 11);
    track.spawn(3, 12);
    track.spawn(2, 13);
    assert_eq!(track.lane(2), &vec![10, 11, 13]);
    assert_eq!(track.lane(3), &vec![12]);
    track.expire_front(2, 2);
    assert_eq!(track.lane(2), &vec![13]);
    assert_eq!(track.lane(3), &vec![12]);
    track.expire_front(3, 0);
    assert_eq!(track.lane(3), &vec![12]);
    track.expire_front(3, 1);
    assert!(track.lane(3).is_empty());
}

#[test]
fn all_obstacles_go_lane_by_lane() {
    let mut track: Track<u32> = Track::new();
    assert!(track.all_obstacles().is_empty());
    track.spawn(5, 1);
    track.spawn(0, 2);
    track.spawn(5, 3);
    track.spawn(1, 4);
    assert_eq!(track.all_obstacles(), vec![2, 4, 1, 3]);
}

#[test]
fn pattern_rotation_keeps_spans() {
    let mut p: Pattern<(f32, f32)> = Pattern::new();
    for i in 0..5 {
        p.add(i, (0.0, 2.0));
    }
    p.rotate(4);
    for i in 0..5 {
        p.add(i, (8.0, 10.0));
    }
    p.rotate(4);
    let lanes: Vec<usize> = p.placements().iter().map(|pl| pl.lane).collect();
    assert_eq!(lanes, vec![2, 3, 4, 5, 0, 4, 5, 0, 1, 2]);
    assert_eq!(p.placements()[0].span, (0.0, 2.0));
    assert_eq!(p.placements()[9].span, (8.0, 10.0));
}

#[test]
fn pattern_cycle_wraps() {
    let mut c = PatternCycle::new(3);
    assert_eq!(c.current(), 0);
    assert_eq!(c.count(), 3);
    assert_eq!(c.advance(), 1);
    assert_eq!(c.advance(), 2);
    assert_eq!(c.advance(), 0);
    assert_eq!(c.current(), 0);
    let mut one = PatternCycle::new(1);
    assert_eq!(one.advance(), 0);
}

#[test]
fn pattern_cycle_period_is_pattern_count() {
    for count in 1..8usize {
        let mut c = PatternCycle::new(count);
        for start in 0..count {
            assert_eq!(c.current(), start);
            for _ in 0..count {
                c.advance();
            }
            assert_eq!(c.current(), start);
            c.advance();
        }
    }
}

#[test]
fn first_switch_spawns_second_pattern() {
    // Two patterns; the timer starts far past any duration, so the first
    // update switches from pattern 0 to pattern 1 and spawns pattern 1.
    let mut first: Pattern<(f32, f32)> = Pattern::new();
    first.add(0, (0.0, 4.0));
    let mut second: Pattern<(f32, f32)> = Pattern::new();
    second.add(1, (0.0, 2.0));
    second.add(7, (3.0, 5.0));
    second.add(4, (6.0, 8.0));
    let patterns = vec![first, second];
    let durations = [8.0f32, 8.0f32];
    let mut cycle = PatternCycle::new(patterns.len());
    let mut time: f32 = 1e20;
    let mut track: Track<(f32, f32)> = Track::new();

    time += 0.016;
    if time > durations[cycle.current()] {
        time = 0.0;
        let idx = cycle.advance();
        let shifted: Vec<Placement<(f32, f32)>> = patterns[idx]
            .placements()
            .iter()
            .map(|p| Placement {
                lane: p.lane,
                span: (SPAWN_DISTANCE + p.span.0, SPAWN_DISTANCE + p.span.1),
            })
            .collect();
        spawn_all(&mut track, &shifted);
    }
    assert_eq!(time, 0.0);
    assert_eq!(cycle.current(), 1);
    assert_eq!(track.lane(1), &vec![(20.0, 22.0), (23.0, 25.0)]);
    assert_eq!(track.lane(4), &vec![(26.0, 28.0)]);
    assert!(track.lane(0).is_empty());
    assert!(track.lane(2).is_empty());
}

#[test]
fn spawn_all_appends_after_existing() {
    let mut track: Track<u8> = Track::new();
    track.spawn(3, 1);
    let ps = vec![
        Placement { lane: 9, span: 2 },
        Placement { lane: 0, span: 3 },
        Placement { lane: 3, span: 4 },
    ];
    spawn_all(&mut track, &ps);
    assert_eq!(track.lane(3), &vec![1, 2, 4]);
    assert_eq!(track.lane(0), &vec![3]);
}

#[test]
fn key_state_transitions() {
    let mut s = KeyState::new();
    assert_eq!(s, KeyState { pressed: false, just_pressed: false, just_released: false });
    s.apply(true);
    assert_eq!(s, KeyState { pressed: true, just_pressed: true, just_released: false });
    s.apply(true);
    assert_eq!(s, KeyState { pressed: true, just_pressed: false, just_released: false });
    s.apply(false);
    assert_eq!(s, KeyState { pressed: false, just_pressed: false, just_released: true });
    s.apply(false);
    assert_eq!(s, KeyState { pressed: false, just_pressed: false, just_released: false });
}

#[test]
fn key_bindings() {
    assert_eq!(binding(Key::Space), InputID::Confirm);
    assert_eq!(binding(Key::Enter), InputID::Confirm);
    assert_eq!(binding(Key::KeyQ), InputID::Cancel);
    assert_eq!(binding(Key::ArrowUp), InputID::Up);
    assert_eq!(binding(Key::KeyS), InputID::Down);
    assert_eq!(binding(Key::KeyA), InputID::Left);
    assert_eq!(binding(Key::ArrowRight), InputID::Right);
}

#[test]
fn controls_follow_events_in_order() {
    let mut c = Controls::new();
    c.update(&vec![
        KeyEvent { key: Key::KeyA, pressed: true },
        KeyEvent { key: Key::ArrowRight, pressed: true },
        KeyEvent { key: Key::ArrowRight, pressed: false },
    ]);
    assert_eq!(*c.get_key_state(InputID::Left), KeyState { pressed: true, just_pressed: true, just_released: false });
    assert_eq!(*c.get_key_state(InputID::Right), KeyState { pressed: false, just_pressed: false, just_released: true });
    assert_eq!(*c.get_key_state(InputID::Up), KeyState::new());
    c.apply(KeyEvent { key: Key::ArrowLeft, pressed: false });
    assert_eq!(*c.get_key_state(InputID::Left), KeyState { pressed: false, just_pressed: false, just_released: true });
    c.update(&vec![]);
    assert_eq!(*c.get_key_state(InputID::Left), KeyState { pressed: false, just_pressed: false, just_released: true });
}

#[test]
fn steering_cancels_on_both() {
    assert_eq!(steer(true, true), Steer::Idle);
    assert_eq!(steer(false, false), Steer::Idle);
    assert_eq!(steer(true, false), Steer::Left);
    assert_eq!(steer(false, true), Steer::Right);
}

#[test]
fn both_directions_leave_angle_unchanged() {
    let mut c = Controls::new();
    c.update(&vec![
        KeyEvent { key: Key::KeyA, pressed: true },
        KeyEvent { key: Key::KeyD, pressed: true },
    ]);
    let left = c.get_key_state(InputID::Left).pressed;
    let right = c.get_key_state(InputID::Right).pressed;
    let mut angle: f32 = 1.25;
    let dt: f32 = 0.016;
    match steer(left, right) {
        Steer::Left => angle -= 4.0 * dt,
        Steer::Right => angle += 4.0 * dt,
        Steer::Idle => {}
    }
    assert_eq!(angle, 1.25);
}

#[test]
fn collision_ends_the_game() {
    assert_eq!(GameState::Playing.after_collision_check(true, false), GameState::GameOver);
    assert_eq!(GameState::Playing.after_collision_check(false, true), GameState::GameOver);
    assert_eq!(GameState::Playing.after_collision_check(false, false), GameState::Playing);
    assert_eq!(GameState::GameOver.after_collision_check(false, false), GameState::GameOver);
    assert!(GameState::Playing.gameplay_active());
    assert!(!GameState::GameOver.gameplay_active());
    assert!(!GameState::NewGame.gameplay_active());
}
