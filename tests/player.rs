use game_plugin::actions::{set_movement_actions, Actions, KeyState, Keyboard};
use game_plugin::audio::{
    clip_for, play_sound_effect, play_sound_effects, start_background, AudioClip, PlaySoundEffect,
};
use game_plugin::level::{Level, Point};
use game_plugin::player::{
    isqrt, jump, landing, move_head, paddle_wheel, prepare_player_and_platforms, reset_level,
    spawn_body, spawn_head, spawn_wheel, BallJoint, JumpBlock, LandBlock, RigPart, RigidBody, Shape,
    Velocity, JUMP_IMPULSE, PADDLE_SPEED,
};
use game_plugin::scenery::Texture;

fn still(x: i64, y: i64) -> RigidBody {
    let p = Point { x, y };
    RigidBody { position: p, next_position: p, linvel: Velocity { x: 0, y: 0 }, angvel: 0 }
}

fn idle() -> Actions {
    Actions { jump: false, paddling: None, head_balance: None, restart: false }
}

#[test]
fn reset_puts_rig_at_start_at_rest() {
    let mut wheel = RigidBody {
        position: Point { x: 5000, y: -77 },
        next_position: Point { x: 5100, y: -70 },
        linvel: Velocity { x: 123, y: -456 },
        angvel: -999,
    };
    let mut body = wheel;
    let mut head = wheel;
    reset_level(&Level::Second, &mut wheel, &mut body, &mut head);
    assert_eq!(wheel, still(0, 480));
    assert_eq!(body, still(0, 1120));
    assert_eq!(head, still(0, 1600));
}

#[test]
fn paddling_changes_spin() {
    let mut wheel = still(0, 480);
    let actions = Actions { paddling: Some(1), ..idle() };
    paddle_wheel(&actions, 16_000, &mut wheel);
    assert_eq!(wheel.angvel, -20 * 16_000);
    let backward = Actions { paddling: Some(-1), ..idle() };
    paddle_wheel(&backward, 1_000, &mut wheel);
    assert_eq!(wheel.angvel, -320_000 + 20_000);
}

#[test]
fn paddling_is_skipped_on_restart_or_without_action() {
    let mut wheel = still(0, 480);
    paddle_wheel(&Actions { paddling: Some(1), restart: true, ..idle() }, 16_000, &mut wheel);
    paddle_wheel(&idle(), 16_000, &mut wheel);
    assert_eq!(wheel, still(0, 480));
}

#[test]
fn paddle_forward_for_n_frames() {
    let mut wheel = still(0, 480);
    let actions = Actions { paddling: Some(1), ..idle() };
    let dt: u32 = 16_667;
    let n: i64 = 120;
    for _ in 0..n {
        paddle_wheel(&actions, dt, &mut wheel);
    }
    assert_eq!(wheel.angvel, -n * PADDLE_SPEED * dt as i64);
    assert_eq!(wheel.position, Point { x: 0, y: 480 });
}

#[test]
fn balancing_pushes_head_sideways() {
    let mut head = still(0, 1600);
    move_head(&Actions { head_balance: Some(-1), ..idle() }, 10_000, &mut head);
    assert_eq!(head.linvel, Velocity { x: -200_000, y: 0 });
    move_head(&Actions { head_balance: Some(1), restart: true, ..idle() }, 10_000, &mut head);
    assert_eq!(head.linvel, Velocity { x: -200_000, y: 0 });
}

#[test]
fn integer_square_root() {
    assert_eq!(isqrt(0), 0);
    assert_eq!(isqrt(1), 1);
    assert_eq!(isqrt(15), 3);
    assert_eq!(isqrt(16), 4);
    assert_eq!(isqrt(640 * 640), 640);
    let big: u128 = (1u128 << 126) + 12345;
    let r = isqrt(big);
    assert!(r * r <= big && big < (r + 1) * (r + 1));
}

#[test]
fn jump_pushes_wheel_toward_body() {
    let mut block = JumpBlock::NotBlocked;
    let mut wheel = still(0, 480);
    let actions = Actions { jump: true, ..idle() };
    let r = jump(&actions, &mut block, &mut wheel, Point { x: 0, y: 1120 }, true);
    assert_eq!(r, Some(PlaySoundEffect::Jump));
    assert_eq!(block, JumpBlock::Blocked);
    assert_eq!(wheel.linvel, Velocity { x: 0, y: JUMP_IMPULSE });
}

#[test]
fn jump_along_a_slanted_rig() {
    let mut block = JumpBlock::NotBlocked;
    let mut wheel = still(100, 100);
    let actions = Actions { jump: true, ..idle() };
    // direction (-300, 400), length 500
    jump(&actions, &mut block, &mut wheel, Point { x: -200, y: 500 }, true);
    assert_eq!(wheel.linvel, Velocity { x: -90_000, y: 120_000 });
}

#[test]
fn jump_needs_contact_and_request() {
    let mut block = JumpBlock::NotBlocked;
    let mut wheel = still(0, 480);
    let body = Point { x: 0, y: 1120 };
    assert_eq!(jump(&Actions { jump: true, ..idle() }, &mut block, &mut wheel, body, false), None);
    assert_eq!(jump(&idle(), &mut block, &mut wheel, body, true), None);
    assert_eq!(
        jump(&Actions { jump: true, restart: true, ..idle() }, &mut block, &mut wheel, body, true),
        None
    );
    assert_eq!(block, JumpBlock::NotBlocked);
    assert_eq!(wheel, still(0, 480));
}

#[test]
fn jump_debounces_one_frame() {
    let mut block = JumpBlock::NotBlocked;
    let mut wheel = still(0, 480);
    let body = Point { x: 0, y: 1120 };
    let actions = Actions { jump: true, ..idle() };
    assert!(jump(&actions, &mut block, &mut wheel, body, true).is_some());
    let after_first = wheel;
    assert!(jump(&actions, &mut block, &mut wheel, body, true).is_none());
    assert_eq!(wheel, after_first);
    assert_eq!(block, JumpBlock::NotBlocked);
    assert!(jump(&actions, &mut block, &mut wheel, body, true).is_some());
    assert_eq!(wheel.linvel.y, 2 * JUMP_IMPULSE);
}

#[test]
fn landing_sound_once_per_onset() {
    let mut block = LandBlock::NotBlocked;
    assert_eq!(landing(false, &mut block), None);
    assert_eq!(landing(true, &mut block), Some(PlaySoundEffect::Land));
    assert_eq!(block, LandBlock::Blocked);
    assert_eq!(landing(true, &mut block), None);
    assert_eq!(block, LandBlock::NotBlocked);
    assert_eq!(landing(true, &mut block), Some(PlaySoundEffect::Land));
}

#[test]
fn rig_parts_and_joints() {
    let scene = prepare_player_and_platforms(&Level::Tutorial);
    assert_eq!(scene.wheel, spawn_wheel(Point { x: 0, y: 480 }));
    assert_eq!(scene.wheel.shape, Shape::Ball { radius: 320 });
    assert!(scene.wheel.contact_events);
    assert_eq!(scene.wheel.angular_damping_percent, 20);
    assert_eq!(scene.body, spawn_body(Point { x: 0, y: 1120 }));
    assert_eq!(scene.body.shape, Shape::Capsule { half_length: 160, radius: 160 });
    assert_eq!(scene.body.gravity_scale_percent, 30);
    assert_eq!(scene.head, spawn_head(Point { x: 0, y: 1600 }));
    assert_eq!(scene.head.texture, Texture::Head);
    assert_eq!(
        scene.wheel_body_joint,
        BallJoint {
            part1: RigPart::Wheel,
            part2: RigPart::Body,
            anchor1: Point { x: 0, y: 0 },
            anchor2: Point { x: 0, y: -672 },
        }
    );
    assert_eq!(
        scene.body_head_joint,
        BallJoint {
            part1: RigPart::Body,
            part2: RigPart::Head,
            anchor1: Point { x: 0, y: 320 },
            anchor2: Point { x: 0, y: -80 },
        }
    );
    assert_eq!(scene.ground.platforms.len(), 2);
}

#[test]
fn clips_for_effects() {
    assert_eq!(clip_for(PlaySoundEffect::Jump, 0), AudioClip::Jump1);
    assert_eq!(clip_for(PlaySoundEffect::Jump, 1), AudioClip::Jump2);
    assert_eq!(clip_for(PlaySoundEffect::Loose, 0), AudioClip::Loose1);
    assert_eq!(clip_for(PlaySoundEffect::Loose, 1), AudioClip::Loose2);
    assert_eq!(clip_for(PlaySoundEffect::Land, 1), AudioClip::Land1);
    assert_eq!(clip_for(PlaySoundEffect::Fall, 0), AudioClip::Fall);
    assert_eq!(clip_for(PlaySoundEffect::Won, 0), AudioClip::Won);
    assert_eq!(start_background(), AudioClip::Background);
}

#[test]
fn random_takes_cover_both_recordings() {
    let mut first = false;
    let mut second = false;
    for _ in 0..200 {
        match play_sound_effect(PlaySoundEffect::Jump) {
            AudioClip::Jump1 => first = true,
            AudioClip::Jump2 => second = true,
            other => panic!("unexpected clip {:?}", other),
        }
    }
    assert!(first && second);
    let clips = play_sound_effects(&vec![PlaySoundEffect::Won, PlaySoundEffect::Land]);
    assert_eq!(clips, vec![AudioClip::Won, AudioClip::Land1]);
}

#[test]
fn holding_paddle_forward_from_tutorial_start() {
    let up = KeyState { pressed: false, just_pressed: false, just_released: false };
    let down = KeyState { pressed: true, just_pressed: true, just_released: false };
    let held = KeyState { pressed: true, just_pressed: false, just_released: false };
    let mut wheel = still(0, 0);
    let mut body = wheel;
    let mut head = wheel;
    reset_level(&Level::Tutorial, &mut wheel, &mut body, &mut head);
    let mut actions = Actions::default();
    let dt: u32 = 16_000;
    let frames: i64 = 60;
    for frame in 0..frames {
        let d = if frame == 0 { down } else { held };
        let keys = Keyboard { right: up, left: up, a: up, d, space: up, r: up };
        set_movement_actions(&mut actions, &keys);
        paddle_wheel(&actions, dt, &mut wheel);
    }
    assert_eq!(wheel.angvel, -frames * 20 * dt as i64);
    assert_eq!(wheel.position, Point { x: 0, y: 480 });
    assert_eq!(wheel.linvel, Velocity { x: 0, y: 0 });
}
