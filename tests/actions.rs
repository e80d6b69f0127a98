use game_plugin::actions::{
    paired_axis, set_movement_actions, Actions, GameControl, Key, KeyState, Keyboard,
};

const UP: KeyState = KeyState { pressed: false, just_pressed: false, just_released: false };
const DOWN: KeyState = KeyState { pressed: true, just_pressed: true, just_released: false };
const HELD: KeyState = KeyState { pressed: true, just_pressed: false, just_released: false };
const RELEASED: KeyState = KeyState { pressed: false, just_pressed: false, just_released: true };

fn keyboard() -> Keyboard {
    Keyboard { right: UP, left: UP, a: UP, d: UP, space: UP, r: UP }
}

#[test]
fn controls_are_bound_to_keys() {
    assert_eq!(GameControl::BalanceForward.key(), Key::Right);
    assert_eq!(GameControl::BalanceBackward.key(), Key::Left);
    assert_eq!(GameControl::PaddleBackward.key(), Key::A);
    assert_eq!(GameControl::PaddleForward.key(), Key::D);
    assert_eq!(GameControl::Jump.key(), Key::Space);
    assert_eq!(GameControl::Restart.key(), Key::R);
    let kb = Keyboard { d: DOWN, a: RELEASED, ..keyboard() };
    assert!(GameControl::PaddleForward.pressed(&kb));
    assert!(GameControl::PaddleForward.just_pressed(&kb));
    assert!(GameControl::PaddleBackward.just_released(&kb));
    assert!(!GameControl::PaddleBackward.pressed(&kb));
    assert_eq!(kb.state(Key::D), DOWN);
}

#[test]
fn axis_is_none_without_its_keys() {
    assert_eq!(paired_axis(Some(1), UP, UP), None);
    assert_eq!(paired_axis(None, UP, UP), None);
}

#[test]
fn press_resolves_to_direction() {
    assert_eq!(paired_axis(None, DOWN, UP), Some(1));
    assert_eq!(paired_axis(None, UP, DOWN), Some(-1));
}

#[test]
fn held_key_keeps_previous_value() {
    assert_eq!(paired_axis(Some(-1), HELD, UP), Some(-1));
    assert_eq!(paired_axis(None, HELD, UP), Some(0));
}

#[test]
fn release_resolves_to_held_key_or_neutral() {
    assert_eq!(paired_axis(Some(-1), HELD, RELEASED), Some(1));
    assert_eq!(paired_axis(Some(1), RELEASED, HELD), Some(-1));
    assert_eq!(paired_axis(Some(1), RELEASED, UP), Some(0));
}

#[test]
fn actions_follow_keyboard_frames() {
    let mut actions = Actions::default();
    assert_eq!(actions, Actions { jump: false, paddling: None, head_balance: None, restart: false });
    set_movement_actions(&mut actions, &Keyboard { d: DOWN, space: DOWN, ..keyboard() });
    assert_eq!(actions.paddling, Some(1));
    assert_eq!(actions.head_balance, None);
    assert!(actions.jump);
    assert!(!actions.restart);
    set_movement_actions(&mut actions, &Keyboard { d: HELD, space: HELD, right: DOWN, ..keyboard() });
    assert_eq!(actions.paddling, Some(1));
    assert_eq!(actions.head_balance, Some(1));
    assert!(!actions.jump);
    set_movement_actions(&mut actions, &Keyboard { d: RELEASED, left: DOWN, right: RELEASED, r: DOWN, ..keyboard() });
    assert_eq!(actions.paddling, Some(0));
    assert_eq!(actions.head_balance, Some(-1));
    assert!(actions.restart);
    set_movement_actions(&mut actions, &keyboard());
    assert_eq!(actions.paddling, None);
    assert_eq!(actions.head_balance, None);
}

#[test]
fn axis_values_stay_in_range_over_many_frames() {
    let states = [UP, DOWN, HELD, RELEASED];
    let mut actions = Actions::default();
    let mut seed: u32 = 7;
    for _ in 0..2000 {
        seed = seed.wrapping_mul(1103515245).wrapping_add(12345);
        let f = states[(seed >> 16) as usize % 4];
        let b = states[(seed >> 20) as usize % 4];
        let kb = Keyboard { d: f, a: b, ..keyboard() };
        set_movement_actions(&mut actions, &kb);
        let involved = f.pressed || f.just_released || b.pressed || b.just_released;
        assert_eq!(actions.paddling.is_some(), involved);
        if let Some(v) = actions.paddling {
            assert!((-1..=1).contains(&v));
        }
    }
}
