use game_plugin::actions::Actions;
use game_plugin::audio::PlaySoundEffect;
use game_plugin::flow::{
    cross_finish_line, fall, next_level, prepare_level, restart, show_finished_button,
    start_game, start_level, ButtonResponse, Interaction,
};
use game_plugin::level::{Level, Point};
use game_plugin::lost::{lost, restart as restart_after_loss, show_restart_button};
use game_plugin::player::{RigidBody, Velocity};
use game_plugin::state::{GameState, StateError, StateStack, Transition};

fn moving() -> RigidBody {
    RigidBody {
        position: Point { x: 9000, y: 300 },
        next_position: Point { x: 9010, y: 300 },
        linvel: Velocity { x: 5, y: 6 },
        angvel: 7,
    }
}

fn at(x: i64, y: i64) -> RigidBody {
    let p = Point { x, y };
    RigidBody { position: p, next_position: p, linvel: Velocity { x: 0, y: 0 }, angvel: 0 }
}

fn in_level() -> StateStack {
    let mut states = StateStack::new(GameState::PrepareLevel);
    start_level(&mut states).unwrap();
    states.apply();
    assert_eq!(states.current(), GameState::InLevel);
    assert_eq!(states.depth(), 1);
    states
}

#[test]
fn startup_sequence() {
    let mut states = StateStack::new(GameState::Menu);
    assert_eq!(start_game(&mut states), Ok(()));
    assert_eq!(states.scheduled(), Some(Transition::Change(GameState::Prepare)));
    states.apply();
    assert_eq!(states.current(), GameState::Prepare);
    prepare_level(&mut states).unwrap();
    states.apply();
    assert_eq!(states.current(), GameState::PrepareLevel);
    start_level(&mut states).unwrap();
    states.apply();
    assert_eq!(states.current(), GameState::InLevel);
    assert_eq!(states.depth(), 1);
}

#[test]
fn state_errors() {
    let mut states = StateStack::new(GameState::InLevel);
    assert_eq!(states.set(GameState::InLevel), Err(StateError::AlreadyInState));
    assert_eq!(states.pop(), Err(StateError::StackEmpty));
    assert_eq!(states.push(GameState::Lost), Ok(()));
    assert_eq!(states.push(GameState::Finished), Err(StateError::StateAlreadyQueued));
    assert_eq!(states.overwrite_push(GameState::Finished), Ok(()));
    states.apply();
    assert_eq!(states.current(), GameState::Finished);
    assert_eq!(states.depth(), 2);
    assert_eq!(states.push(GameState::Lost), Err(StateError::StackFull));
    assert_eq!(states.pop(), Ok(()));
    states.apply();
    assert_eq!(states.current(), GameState::InLevel);
}

#[test]
fn overwrite_and_replace() {
    let mut states = StateStack::new(GameState::Loading);
    states.set(GameState::Menu).unwrap();
    assert_eq!(states.overwrite_set(GameState::Prepare), Ok(()));
    states.apply();
    assert_eq!(states.current(), GameState::Prepare);
    states.set(GameState::InLevel).unwrap();
    states.apply();
    states.push(GameState::Lost).unwrap();
    states.apply();
    assert_eq!(states.replace(GameState::PrepareLevel), Ok(()));
    assert_eq!(states.overwrite_replace(GameState::Menu), Ok(()));
    states.apply();
    assert_eq!(states.current(), GameState::Menu);
    assert_eq!(states.depth(), 1);
    assert_eq!(states.overwrite_pop(), Err(StateError::StackEmpty));
}

#[test]
fn crossing_finish_line_pushes_finished() {
    let mut states = in_level();
    assert_eq!(cross_finish_line(24000, &Level::First, &mut states), None);
    assert_eq!(cross_finish_line(24001, &Level::First, &mut states), Some(PlaySoundEffect::Won));
    states.apply();
    assert_eq!(states.current(), GameState::Finished);
    assert_eq!(states.depth(), 2);
}

#[test]
fn falling_pushes_lost() {
    let mut states = in_level();
    assert_eq!(fall(320, &mut states), None);
    assert_eq!(fall(319, &mut states), Some(PlaySoundEffect::Fall));
    states.apply();
    assert_eq!(states.current(), GameState::Lost);
    assert_eq!(states.depth(), 2);
}

#[test]
fn head_contact_pushes_lost() {
    let mut states = in_level();
    assert_eq!(lost(false, &mut states), None);
    assert_eq!(lost(true, &mut states), Some(PlaySoundEffect::Loose));
    states.apply();
    assert_eq!(states.current(), GameState::Lost);
}

#[test]
fn win_and_loss_in_one_frame_end_as_a_win() {
    let mut states = in_level();
    assert_eq!(cross_finish_line(30000, &Level::Third, &mut states), Some(PlaySoundEffect::Won));
    assert_eq!(fall(-5000, &mut states), None);
    assert_eq!(lost(true, &mut states), None);
    states.apply();
    assert_eq!(states.current(), GameState::Finished);
    assert_eq!(states.depth(), 2);

    let mut states = in_level();
    assert_eq!(lost(true, &mut states), Some(PlaySoundEffect::Loose));
    assert_eq!(fall(-5000, &mut states), None);
    assert_eq!(cross_finish_line(30000, &Level::Third, &mut states), Some(PlaySoundEffect::Won));
    states.apply();
    assert_eq!(states.current(), GameState::Finished);
    assert_eq!(states.depth(), 2);
}

#[test]
fn restart_key_resets_rig_in_level() {
    let (mut w, mut b, mut h) = (moving(), moving(), moving());
    assert!(!restart(&Actions::default(), &Level::First, &mut w, &mut b, &mut h));
    assert_eq!(w, moving());
    let actions = Actions { restart: true, ..Actions::default() };
    assert!(restart(&actions, &Level::First, &mut w, &mut b, &mut h));
    assert_eq!((w, b, h), (at(0, 480), at(0, 1120), at(0, 1600)));
}

fn finished() -> StateStack {
    let mut states = in_level();
    states.push(GameState::Finished).unwrap();
    states.apply();
    states
}

#[test]
fn next_level_on_click() {
    let mut states = finished();
    let mut level = Level::Second;
    let (mut w, mut b, mut h) = (moving(), moving(), moving());
    let r = next_level(false, Interaction::Clicked, &mut level, &mut states, &mut w, &mut b, &mut h);
    assert_eq!(r, Ok(ButtonResponse::Advanced));
    assert_eq!(level, Level::Third);
    assert_eq!(w, at(0, 480));
    states.apply();
    assert_eq!(states.current(), GameState::PrepareLevel);
    assert_eq!(states.depth(), 1);
}

#[test]
fn next_level_wraps_after_last() {
    let mut states = finished();
    let mut level = Level::Third;
    assert_eq!(show_finished_button(&level), "Restart");
    assert_eq!(show_finished_button(&Level::Tutorial), "Next!");
    let (mut w, mut b, mut h) = (moving(), moving(), moving());
    let r = next_level(false, Interaction::Clicked, &mut level, &mut states, &mut w, &mut b, &mut h);
    assert_eq!(r, Ok(ButtonResponse::Advanced));
    assert_eq!(level, Level::Tutorial);
}

#[test]
fn restart_key_on_finished_keeps_level() {
    let mut states = finished();
    let mut level = Level::First;
    let (mut w, mut b, mut h) = (moving(), moving(), moving());
    let r = next_level(true, Interaction::Clicked, &mut level, &mut states, &mut w, &mut b, &mut h);
    assert_eq!(r, Ok(ButtonResponse::Restarted));
    assert_eq!(level, Level::First);
    assert_eq!(h, at(0, 1600));
    states.apply();
    assert_eq!(states.current(), GameState::PrepareLevel);
}

#[test]
fn hovering_only_restyles() {
    let mut states = finished();
    let mut level = Level::First;
    let (mut w, mut b, mut h) = (moving(), moving(), moving());
    let r = next_level(false, Interaction::Hovered, &mut level, &mut states, &mut w, &mut b, &mut h);
    assert_eq!(r, Ok(ButtonResponse::Highlighted));
    let r = next_level(false, Interaction::Idle, &mut level, &mut states, &mut w, &mut b, &mut h);
    assert_eq!(r, Ok(ButtonResponse::Plain));
    assert_eq!(level, Level::First);
    assert_eq!(w, moving());
    assert_eq!(states.scheduled(), None);
}

#[test]
fn refused_replace_changes_nothing() {
    let mut states = finished();
    states.pop().unwrap();
    let mut level = Level::First;
    let (mut w, mut b, mut h) = (moving(), moving(), moving());
    let r = next_level(false, Interaction::Clicked, &mut level, &mut states, &mut w, &mut b, &mut h);
    assert_eq!(r, Err(StateError::StateAlreadyQueued));
    assert_eq!(level, Level::First);
    assert_eq!(w, moving());
}

#[test]
fn loss_screen_restart() {
    assert_eq!(show_restart_button(), "Again!");
    let mut states = in_level();
    states.push(GameState::Lost).unwrap();
    states.apply();
    let (mut w, mut b, mut h) = (moving(), moving(), moving());
    let r = restart_after_loss(false, Interaction::Hovered, &Level::First, &mut states, &mut w, &mut b, &mut h);
    assert_eq!(r, Ok(ButtonResponse::Highlighted));
    assert_eq!(w, moving());
    let r = restart_after_loss(true, Interaction::Idle, &Level::First, &mut states, &mut w, &mut b, &mut h);
    assert_eq!(r, Ok(ButtonResponse::Restarted));
    assert_eq!(b, at(0, 1120));
    states.apply();
    assert_eq!(states.current(), GameState::PrepareLevel);
    assert_eq!(states.depth(), 1);
}
