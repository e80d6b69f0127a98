use vstd::prelude::*;
use crate::audio::PlaySoundEffect;
use crate::flow::{ButtonResponse, Interaction, lost_spec, rig_reset};
use crate::level::Level;
use crate::player::{RigidBody, reset_level};
use crate::state::{GameState, StateError, StateStack, Transition, schedule_spec, stack_wf};

verus! {

/// Loses the level when the head touches a platform.
pub fn lost(head_on_platform: bool, states: &mut StateStack) -> (r: Option<PlaySoundEffect>)
    requires
        stack_wf(old(states)@),
    ensures
        (final(states)@, r) == lost_spec(old(states)@, head_on_platform),
        stack_wf(final(states)@),
{
    if head_on_platform {
        match states.push(GameState::Lost) {
            Ok(()) => Some(PlaySoundEffect::Loose),
            Err(_) => None,
        }
    } else {
        None
    }
}

/// The loss screen's button: a click or the restart key starts the level
/// over, replacing the stack by `PrepareLevel`; when the stack refuses,
/// nothing changes and its error is returned.
pub fn restart(
    restart_pressed: bool,
    interaction: Interaction,
    level: &Level,
    states: &mut StateStack,
    wheel: &mut RigidBody,
    body: &mut RigidBody,
    head: &mut RigidBody,
) -> (r: Result<ButtonResponse, StateError>)
    requires
        stack_wf(old(states)@),
    ensures
        stack_wf(final(states)@),
        ({
            let leaves = restart_pressed || interaction == Interaction::Clicked;
            &&& leaves ==> match schedule_spec(
                old(states)@,
                Transition::Replace(GameState::PrepareLevel),
                false,
            ) {
                Ok(v) => {
                    &&& final(states)@ == v
                    &&& rig_reset(*level, *final(wheel), *final(body), *final(head))
                    &&& r == Ok::<ButtonResponse, StateError>(ButtonResponse::Restarted)
                },
                Err(e) => {
                    &&& r == Err::<ButtonResponse, StateError>(e)
                    &&& final(states)@ == old(states)@
                    &&& *final(wheel) == *old(wheel) && *final(body) == *old(body) && *final(head)
                        == *old(head)
                },
            }
            &&& !leaves ==> {
                &&& final(states)@ == old(states)@
                &&& *final(wheel) == *old(wheel) && *final(body) == *old(body) && *final(head)
                    == *old(head)
                &&& r == Ok::<ButtonResponse, StateError>(
                    if interaction == Interaction::Hovered {
                        ButtonResponse::Highlighted
                    } else {
                        ButtonResponse::Plain
                    },
                )
            }
        }),
{
    match interaction {
        Interaction::Hovered if !restart_pressed => Ok(ButtonResponse::Highlighted),
        Interaction::Idle if !restart_pressed => Ok(ButtonResponse::Plain),
        _ => {
            match states.replace(GameState::PrepareLevel) {
                Ok(()) => {},
                Err(e) => {
                    return Err(e);
                },
            }
            reset_level(level, wheel, body, head);
            Ok(ButtonResponse::Restarted)
        },
    }
}

/// The label of the loss screen's button.
pub fn show_restart_button() -> (r: &'static str)
    ensures
        r@ == "Again!"@,
{
    "Again!"
}

} // verus!
