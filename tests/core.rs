use tanks::action::{Action, ActionSnapshot};
use tanks::cooldown::ShotCooldown;
use tanks::input::{aim_with_cursor, primary_camera, CameraTarget};
use tanks::tanks::{handle_tank_movement, BarrelStep, Tank};

const SECOND: u64 = 1_000_000_000;

#[test]
fn new_snapshot_holds_nothing() {
    let s: ActionSnapshot<(f32, f32)> = ActionSnapshot::new();
    for a in [Action::Move, Action::Shoot, Action::Aim] {
        assert!(!s.is_pressed(a));
        assert!(s.axis(a).is_none());
    }
}

#[test]
fn snapshot_is_keyed_by_action() {
    let mut s: ActionSnapshot<(f32, f32)> = ActionSnapshot::new();
    s.set_axis(Action::Move, (1.0, 0.0));
    s.press(Action::Shoot);
    assert_eq!(s.axis(Action::Move), Some(&(1.0, 0.0)));
    assert!(s.axis(Action::Aim).is_none());
    assert!(!s.is_pressed(Action::Move));
    assert!(s.is_pressed(Action::Shoot));
    s.release(Action::Shoot);
    assert!(!s.is_pressed(Action::Shoot));
    s.clear_axis(Action::Move);
    assert!(s.axis(Action::Move).is_none());
}

#[test]
fn zero_move_input_does_not_drive() {
    let mut s: ActionSnapshot<(f32, f32)> = ActionSnapshot::new();
    s.set_axis(Action::Move, (0.5, 0.5));
    let u = handle_tank_movement(&s, true);
    assert!(u.drive.is_none());
}

#[test]
fn held_move_drives_by_its_axis() {
    let mut s: ActionSnapshot<(f32, f32)> = ActionSnapshot::new();
    s.set_axis(Action::Move, (1.0, 0.0));
    s.press(Action::Move);
    let u = handle_tank_movement(&s, true);
    assert_eq!(u.drive, Some((1.0, 0.0)));
    assert!(matches!(u.barrel, BarrelStep::Place { aim: None }));
}

#[test]
fn held_move_without_axis_keeps_body() {
    let mut s: ActionSnapshot<(f32, f32)> = ActionSnapshot::new();
    s.press(Action::Move);
    let u = handle_tank_movement(&s, true);
    assert!(u.drive.is_none());
}

#[test]
fn missing_barrel_is_reported_and_body_still_moves() {
    let mut s: ActionSnapshot<(f32, f32)> = ActionSnapshot::new();
    s.set_axis(Action::Move, (0.0, 1.0));
    s.press(Action::Move);
    s.set_axis(Action::Aim, (1.0, 0.0));
    let u = handle_tank_movement(&s, false);
    assert_eq!(u.drive, Some((0.0, 1.0)));
    assert!(matches!(u.barrel, BarrelStep::Missing));
}

#[test]
fn pointer_aim_overrides_stick_aim() {
    let mut s: ActionSnapshot<(f32, f32)> = ActionSnapshot::new();
    s.set_axis(Action::Aim, (-1.0, 0.0));
    aim_with_cursor(&mut s, Some((0.0, 1.0)));
    assert!(s.is_pressed(Action::Aim));
    assert_eq!(s.axis(Action::Aim), Some(&(0.0, 1.0)));
    let u = handle_tank_movement(&s, true);
    match u.barrel {
        BarrelStep::Place { aim } => assert_eq!(aim, Some((0.0, 1.0))),
        BarrelStep::Missing => panic!("the barrel was found"),
    }
}

#[test]
fn no_pointer_keeps_previous_aim() {
    let mut s: ActionSnapshot<(f32, f32)> = ActionSnapshot::new();
    aim_with_cursor(&mut s, Some((1.0, 0.0)));
    aim_with_cursor(&mut s, None);
    assert!(s.is_pressed(Action::Aim));
    assert_eq!(s.axis(Action::Aim), Some(&(1.0, 0.0)));
    assert!(s.axis(Action::Move).is_none());
}

#[test]
fn first_primary_camera_is_chosen() {
    let targets = vec![
        CameraTarget::Offscreen,
        CameraTarget::PrimaryWindow,
        CameraTarget::OtherWindow,
        CameraTarget::PrimaryWindow,
    ];
    assert_eq!(primary_camera(&targets), Some(1));
}

#[test]
fn no_primary_camera() {
    assert_eq!(primary_camera(&vec![]), None);
    let targets = vec![CameraTarget::OtherWindow, CameraTarget::Offscreen];
    assert_eq!(primary_camera(&targets), None);
}

#[test]
fn spawned_tank_may_fire_at_once() {
    let cooldown = ShotCooldown(5 * SECOND);
    let t = Tank::new(42, (2.0f32, 0.0f32), 300.0f32, 0, cooldown);
    assert_eq!(t.last_shot, -5 * SECOND as i64);
    assert_eq!(t.barrel_id, 42);
    assert_eq!(t.pivot_offset, (2.0, 0.0));
    assert_eq!(t.speed, 300.0);
    assert!(t.can_fire(0, &cooldown));
}

#[test]
fn fire_blocks_until_cooldown_passes() {
    let cooldown = ShotCooldown(5 * SECOND);
    let mut t = Tank::new(1, (2.0f32, 0.0f32), 300.0f32, 10 * SECOND as i64, cooldown);
    t.record_fire(10 * SECOND as i64);
    assert_eq!(t.last_shot, 10 * SECOND as i64);
    assert!(!t.can_fire(10 * SECOND as i64, &cooldown));
    assert!(!t.can_fire(15 * SECOND as i64 - 1, &cooldown));
    assert!(t.can_fire(15 * SECOND as i64, &cooldown));
    assert!(t.can_fire(20 * SECOND as i64, &cooldown));
}

#[test]
fn zero_cooldown_never_blocks() {
    let cooldown = ShotCooldown(0);
    let mut t = Tank::new(1, 0u8, 0u8, 7, cooldown);
    t.record_fire(7);
    assert!(t.can_fire(7, &cooldown));
}

#[test]
fn clock_before_last_shot_blocks_fire() {
    let cooldown = ShotCooldown(1);
    let mut t = Tank::new(1, 0u8, 0u8, 100, cooldown);
    t.record_fire(100);
    assert!(!t.can_fire(50, &cooldown));
}

#[test]
fn cooldown_elapsed_at_extremes() {
    let cooldown = ShotCooldown(u64::MAX);
    assert!(cooldown.has_elapsed(i64::MIN, i64::MAX));
    assert!(!cooldown.has_elapsed(i64::MIN + 1, i64::MAX));
}
