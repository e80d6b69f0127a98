use vstd::prelude::*;
use rand::Rng;

verus! {

/// A sound the game asks to be played.
#[derive(Clone, Copy, Debug, PartialEq, Eq, Structural)]
pub enum PlaySoundEffect {
    Jump,
    Land,
    Loose,
    Fall,
    Won,
}

/// The recorded clips.
#[derive(Clone, Copy, Debug, PartialEq, Eq, Structural)]
pub enum AudioClip {
    Jump1,
    Jump2,
    Land1,
    Loose1,
    Loose2,
    Won,
    Fall,
    Background,
}

/// Relies on rand's `thread_rng().gen_range(0..n)`: a number in `0..n`. It
/// panics on an empty range, which `requires` leaves out.
#[verifier::external_body]
pub(crate) fn random_below(n: u32) -> (r: u32)
    requires
        n > 0,
    ensures
        r < n,
{
    rand::thread_rng().gen_range(0..n)
}

/// The clip for an effect; effects recorded twice pick the first take on a
/// roll of 0 and the second otherwise.
pub open spec fn clip_spec(effect: PlaySoundEffect, roll: u32) -> AudioClip {
    match effect {
        PlaySoundEffect::Jump => if roll == 0 { AudioClip::Jump1 } else { AudioClip::Jump2 },
        PlaySoundEffect::Land => AudioClip::Land1,
        PlaySoundEffect::Fall => AudioClip::Fall,
        PlaySoundEffect::Won => AudioClip::Won,
        PlaySoundEffect::Loose => if roll == 0 { AudioClip::Loose1 } else { AudioClip::Loose2 },
    }
}

/// `clip` is one of the takes recorded for `effect`.
pub open spec fn is_take_of(clip: AudioClip, effect: PlaySoundEffect) -> bool {
    exists|roll: u32| roll < 2 && clip == clip_spec(effect, roll)
}

pub fn clip_for(effect: PlaySoundEffect, roll: u32) -> (r: AudioClip)
    ensures
        r == clip_spec(effect, roll),
{
    match effect {
        PlaySoundEffect::Jump => if roll == 0 {
            AudioClip::Jump1
        } else {
            AudioClip::Jump2
        },
        PlaySoundEffect::Land => AudioClip::Land1,
        PlaySoundEffect::Fall => AudioClip::Fall,
        PlaySoundEffect::Won => AudioClip::Won,
        PlaySoundEffect::Loose => if roll == 0 {
            AudioClip::Loose1
        } else {
            AudioClip::Loose2
        },
    }
}

/// The clip to play for an effect, the take chosen at random.
pub fn play_sound_effect(effect: PlaySoundEffect) -> (r: AudioClip)
    ensures
        is_take_of(r, effect),
{
    let roll = random_below(2);
    clip_for(effect, roll)
}

/// The clips for a frame's effects, in order.
pub fn play_sound_effects(effects: &Vec<PlaySoundEffect>) -> (r: Vec<AudioClip>)
    ensures
        r@.len() == effects@.len(),
        forall|i: int|
            0 <= i < r@.len() ==> is_take_of(#[trigger] r@[i], effects@[i]),
{
    let mut clips: Vec<AudioClip> = Vec::new();
    let mut i: usize = 0;
    while i < effects.len()
        invariant
            i <= effects@.len(),
            clips@.len() == i,
            forall|j: int|
                0 <= j < i ==> is_take_of(#[trigger] clips@[j], effects@[j]),
        decreases effects.len() - i,
    {
        let clip = play_sound_effect(effects[i]);
        clips.push(clip);
        i = i + 1;
    }
    clips
}

/// The clip looped behind the game.
pub fn start_background() -> (r: AudioClip)
    ensures
        r == AudioClip::Background,
{
    AudioClip::Background
}

} // verus!
