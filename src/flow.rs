use vstd::prelude::*;
use crate::actions::Actions;
use crate::audio::PlaySoundEffect;
use crate::level::{BOULDER_HEIGHT, Level};
use crate::player::{RigidBody, at_rest, reset_level};
use crate::state::{
    GameState, StackView, StateError, StateStack, Transition, apply_spec, current_of,
    request_result, schedule_spec, stack_wf,
};

verus! {

/// How the player is acting on a button this frame.
#[derive(Clone, Copy, Debug, PartialEq, Eq, Structural)]
pub enum Interaction {
    Clicked,
    Hovered,
    Idle,
}

/// What became of a button's frame.
#[derive(Clone, Copy, Debug, PartialEq, Eq, Structural)]
pub enum ButtonResponse {
    /// The level starts over: the button goes and the rig is back at the start.
    Restarted,
    /// The next level is set up: the button goes and the rig is back at the start.
    Advanced,
    /// The button is drawn highlighted.
    Highlighted,
    /// The button is drawn plain.
    Plain,
}

/// Queues `op` (over anything queued when `overwrite` holds) and reports
/// `sound` if the stack accepts it.
pub open spec fn trigger_spec(
    v: StackView,
    triggered: bool,
    op: Transition,
    overwrite: bool,
    sound: PlaySoundEffect,
) -> (StackView, Option<PlaySoundEffect>) {
    if triggered {
        match schedule_spec(v, op, overwrite) {
            Ok(w) => (w, Some(sound)),
            Err(_) => (v, None),
        }
    } else {
        (v, None)
    }
}

/// Crossing the finish line pushes `Finished` over anything already queued
/// this frame, so that a win and a loss in one frame end as a win.
pub open spec fn cross_spec(v: StackView, body_x: int, finish_line: int) -> (StackView, Option<PlaySoundEffect>) {
    trigger_spec(v, body_x > finish_line, Transition::Push(GameState::Finished), true, PlaySoundEffect::Won)
}

pub open spec fn fall_spec(v: StackView, body_y: int) -> (StackView, Option<PlaySoundEffect>) {
    trigger_spec(v, body_y < BOULDER_HEIGHT, Transition::Push(GameState::Lost), false, PlaySoundEffect::Fall)
}

pub open spec fn lost_spec(v: StackView, head_on_platform: bool) -> (StackView, Option<PlaySoundEffect>) {
    trigger_spec(v, head_on_platform, Transition::Push(GameState::Lost), false, PlaySoundEffect::Loose)
}

/// Leaves the menu for the preparation of the game.
pub fn start_game(states: &mut StateStack) -> (r: Result<(), StateError>)
    requires
        stack_wf(old(states)@),
    ensures
        request_result(old(states)@, final(states)@, r, Transition::Change(GameState::Prepare), false),
        stack_wf(final(states)@),
{
    states.set(GameState::Prepare)
}

pub fn prepare_level(states: &mut StateStack) -> (r: Result<(), StateError>)
    requires
        stack_wf(old(states)@),
    ensures
        request_result(old(states)@, final(states)@, r, Transition::Change(GameState::PrepareLevel), false),
        stack_wf(final(states)@),
{
    states.set(GameState::PrepareLevel)
}

pub fn start_level(states: &mut StateStack) -> (r: Result<(), StateError>)
    requires
        stack_wf(old(states)@),
    ensures
        request_result(old(states)@, final(states)@, r, Transition::Change(GameState::InLevel), false),
        stack_wf(final(states)@),
{
    states.set(GameState::InLevel)
}

/// Finishes the level when the body is past the finish line.
pub fn cross_finish_line(body_x: i64, level: &Level, states: &mut StateStack) -> (r: Option<PlaySoundEffect>)
    requires
        stack_wf(old(states)@),
    ensures
        (final(states)@, r) == cross_spec(old(states)@, body_x as int, level.finish_line_spec()),
        stack_wf(final(states)@),
{
    if body_x > level.finish_line() {
        match states.overwrite_push(GameState::Finished) {
            Ok(()) => Some(PlaySoundEffect::Won),
            Err(_) => None,
        }
    } else {
        None
    }
}

/// Loses the level when the body drops below the ground.
pub fn fall(body_y: i64, states: &mut StateStack) -> (r: Option<PlaySoundEffect>)
    requires
        stack_wf(old(states)@),
    ensures
        (final(states)@, r) == fall_spec(old(states)@, body_y as int),
        stack_wf(final(states)@),
{
    if body_y < BOULDER_HEIGHT {
        match states.push(GameState::Lost) {
            Ok(()) => Some(PlaySoundEffect::Fall),
            Err(_) => None,
        }
    } else {
        None
    }
}

/// Puts the rig back at the start in place when a restart is asked for.
pub fn restart(
    actions: &Actions,
    level: &Level,
    wheel: &mut RigidBody,
    body: &mut RigidBody,
    head: &mut RigidBody,
) -> (r: bool)
    ensures
        r == actions.restart,
        r ==> *final(wheel) == at_rest(level.starting_points_spec().wheel) && *final(body) == at_rest(
            level.starting_points_spec().body,
        ) && *final(head) == at_rest(level.starting_points_spec().head),
        !r ==> *final(wheel) == *old(wheel) && *final(body) == *old(body) && *final(head) == *old(
            head,
        ),
{
    if actions.restart {
        reset_level(level, wheel, body, head);
        true
    } else {
        false
    }
}

pub open spec fn rig_reset(level: Level, wheel: RigidBody, body: RigidBody, head: RigidBody) -> bool {
    &&& wheel == at_rest(level.starting_points_spec().wheel)
    &&& body == at_rest(level.starting_points_spec().body)
    &&& head == at_rest(level.starting_points_spec().head)
}

/// The finished screen's button: the restart key starts the same level over,
/// a click sets up the next one (the tutorial after the last). Either way
/// the stack is replaced by `PrepareLevel`; when the stack refuses, nothing
/// changes and its error is returned.
pub fn next_level(
    restart_pressed: bool,
    interaction: Interaction,
    level: &mut Level,
    states: &mut StateStack,
    wheel: &mut RigidBody,
    body: &mut RigidBody,
    head: &mut RigidBody,
) -> (r: Result<ButtonResponse, StateError>)
    requires
        stack_wf(old(states)@),
    ensures
        stack_wf(final(states)@),
        ({
            let leaves = restart_pressed || interaction == Interaction::Clicked;
            let op = Transition::Replace(GameState::PrepareLevel);
            &&& leaves ==> match schedule_spec(old(states)@, op, false) {
                Ok(v) => {
                    &&& final(states)@ == v
                    &&& *final(level) == if restart_pressed {
                        *old(level)
                    } else {
                        old(level).next_spec()
                    }
                    &&& rig_reset(*final(level), *final(wheel), *final(body), *final(head))
                    &&& r == Ok::<ButtonResponse, StateError>(
                        if restart_pressed {
                            ButtonResponse::Restarted
                        } else {
                            ButtonResponse::Advanced
                        },
                    )
                },
                Err(e) => {
                    &&& r == Err::<ButtonResponse, StateError>(e)
                    &&& final(states)@ == old(states)@
                    &&& *final(level) == *old(level)
                    &&& *final(wheel) == *old(wheel) && *final(body) == *old(body) && *final(head)
                        == *old(head)
                },
            }
            &&& !leaves ==> {
                &&& final(states)@ == old(states)@
                &&& *final(level) == *old(level)
                &&& *final(wheel) == *old(wheel) && *final(body) == *old(body) && *final(head)
                    == *old(head)
                &&& r == Ok::<ButtonResponse, StateError>(
                    if interaction == Interaction::Hovered {
                        ButtonResponse::Highlighted
                    } else {
                        ButtonResponse::Plain
                    },
                )
            }
        }),
{
    if restart_pressed {
        match states.replace(GameState::PrepareLevel) {
            Ok(()) => {},
            Err(e) => {
                return Err(e);
            },
        }
        reset_level(level, wheel, body, head);
        return Ok(ButtonResponse::Restarted);
    }
    match interaction {
        Interaction::Clicked => {
            match states.replace(GameState::PrepareLevel) {
                Ok(()) => {},
                Err(e) => {
                    return Err(e);
                },
            }
            let next_level = level.next();
            *level = next_level;
            reset_level(level, wheel, body, head);
            Ok(ButtonResponse::Advanced)
        },
        Interaction::Hovered => Ok(ButtonResponse::Highlighted),
        Interaction::Idle => Ok(ButtonResponse::Plain),
    }
}

/// The label of the finished screen's button.
pub fn show_finished_button(level: &Level) -> (r: &'static str)
    ensures
        r@ == (if *level == Level::last_spec() {
            "Restart"@
        } else {
            "Next!"@
        }),
{
    if *level == Level::last() {
        "Restart"
    } else {
        "Next!"
    }
}

/// One frame of the in-level checks, finish line first: the stack after the
/// frame's change is made.
pub open spec fn in_level_frame(
    v: StackView,
    finish_line: int,
    body_x: int,
    body_y: int,
    head_on_platform: bool,
) -> StackView {
    let v1 = cross_spec(v, body_x, finish_line).0;
    let v2 = fall_spec(v1, body_y).0;
    let v3 = lost_spec(v2, head_on_platform).0;
    apply_spec(v3)
}

/// From a level in play with nothing queued, one frame's checks suspend the
/// level under at most one overlay: `Finished` when the body crossed the
/// finish line, else `Lost` when it fell below the ground or the head touched
/// a platform, else nothing. The stack never grows by two.
pub proof fn lemma_in_level_transitions(
    v: StackView,
    finish_line: int,
    body_x: int,
    body_y: int,
    head_on_platform: bool,
)
    requires
        stack_wf(v),
        v.stack.len() == 1,
        current_of(v) == GameState::InLevel,
        v.scheduled is None,
    ensures
        ({
            let w = in_level_frame(v, finish_line, body_x, body_y, head_on_platform);
            &&& stack_wf(w)
            &&& w.stack.len() <= v.stack.len() + 1
            &&& body_x > finish_line ==> w.stack == v.stack.push(GameState::Finished)
            &&& body_x <= finish_line && (body_y < BOULDER_HEIGHT || head_on_platform) ==> w.stack
                == v.stack.push(GameState::Lost)
            &&& body_x <= finish_line && body_y >= BOULDER_HEIGHT && !head_on_platform ==> w.stack
                == v.stack
        }),
{
}

} // verus!
