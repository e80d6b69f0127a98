use vstd::prelude::*;

verus! {

/// The state of one key in the current frame.
#[derive(Clone, Copy, Debug, PartialEq, Eq, Structural)]
pub struct KeyState {
    /// Held down this frame.
    pub pressed: bool,
    /// Went down this frame.
    pub just_pressed: bool,
    /// Went up this frame.
    pub just_released: bool,
}

/// The keys the game reads.
#[derive(Clone, Copy, Debug, PartialEq, Eq, Structural)]
pub enum Key {
    Right,
    Left,
    A,
    D,
    Space,
    R,
}

/// A snapshot of the keys the game reads, taken once per frame.
#[derive(Clone, Copy, Debug, PartialEq, Eq, Structural)]
pub struct Keyboard {
    pub right: KeyState,
    pub left: KeyState,
    pub a: KeyState,
    pub d: KeyState,
    pub space: KeyState,
    pub r: KeyState,
}

/// The semantic controls, each bound to one key.
#[derive(Clone, Copy, Debug, PartialEq, Eq, Structural)]
pub enum GameControl {
    BalanceForward,
    BalanceBackward,
    PaddleBackward,
    PaddleForward,
    Restart,
    Jump,
}

/// What the player asks for in the current frame. An axis is `None` when
/// neither of its keys is involved this frame, and otherwise one of -1, 0, 1
/// (backward, neutral, forward).
#[derive(Clone, Copy, Debug, PartialEq, Eq, Structural)]
pub struct Actions {
    pub jump: bool,
    pub paddling: Option<i8>,
    pub head_balance: Option<i8>,
    pub restart: bool,
}

impl Keyboard {
    pub open spec fn state_spec(self, key: Key) -> KeyState {
        match key {
            Key::Right => self.right,
            Key::Left => self.left,
            Key::A => self.a,
            Key::D => self.d,
            Key::Space => self.space,
            Key::R => self.r,
        }
    }

    pub fn state(&self, key: Key) -> (r: KeyState)
        ensures
            r == self.state_spec(key),
    {
        match key {
            Key::Right => self.right,
            Key::Left => self.left,
            Key::A => self.a,
            Key::D => self.d,
            Key::Space => self.space,
            Key::R => self.r,
        }
    }
}

impl GameControl {
    pub open spec fn key_spec(self) -> Key {
        match self {
            GameControl::BalanceForward => Key::Right,
            GameControl::BalanceBackward => Key::Left,
            GameControl::PaddleBackward => Key::A,
            GameControl::PaddleForward => Key::D,
            GameControl::Jump => Key::Space,
            GameControl::Restart => Key::R,
        }
    }

    /// The key bound to this control.
    pub fn key(&self) -> (r: Key)
        ensures
            r == self.key_spec(),
    {
        match self {
            GameControl::BalanceForward => Key::Right,
            GameControl::BalanceBackward => Key::Left,
            GameControl::PaddleBackward => Key::A,
            GameControl::PaddleForward => Key::D,
            GameControl::Jump => Key::Space,
            GameControl::Restart => Key::R,
        }
    }

    pub open spec fn state_spec(self, keyboard: Keyboard) -> KeyState {
        keyboard.state_spec(self.key_spec())
    }

    pub fn just_released(&self, keyboard: &Keyboard) -> (r: bool)
        ensures
            r == self.state_spec(*keyboard).just_released,
    {
        keyboard.state(self.key()).just_released
    }

    pub fn pressed(&self, keyboard: &Keyboard) -> (r: bool)
        ensures
            r == self.state_spec(*keyboard).pressed,
    {
        keyboard.state(self.key()).pressed
    }

    pub fn just_pressed(&self, keyboard: &Keyboard) -> (r: bool)
        ensures
            r == self.state_spec(*keyboard).just_pressed,
    {
        keyboard.state(self.key()).just_pressed
    }
}

/// A key takes part in an axis this frame when it is held or just released.
pub open spec fn involved(key: KeyState) -> bool {
    key.pressed || key.just_released
}

/// The value of a paired axis, given its value in the previous frame.
pub open spec fn axis_spec(previous: Option<i8>, forward: KeyState, backward: KeyState) -> Option<i8> {
    if involved(forward) || involved(backward) {
        if forward.just_released || backward.just_released {
            if forward.pressed {
                Some(1i8)
            } else if backward.pressed {
                Some(-1i8)
            } else {
                Some(0i8)
            }
        } else if forward.just_pressed {
            Some(1i8)
        } else if backward.just_pressed {
            Some(-1i8)
        } else {
            Some(
                match previous {
                    Some(v) => v,
                    None => 0i8,
                },
            )
        }
    } else {
        None
    }
}

/// The actions of a frame, given those of the frame before.
pub open spec fn actions_step(previous: Actions, keyboard: Keyboard) -> Actions {
    Actions {
        jump: GameControl::Jump.state_spec(keyboard).just_pressed,
        paddling: axis_spec(
            previous.paddling,
            GameControl::PaddleForward.state_spec(keyboard),
            GameControl::PaddleBackward.state_spec(keyboard),
        ),
        head_balance: axis_spec(
            previous.head_balance,
            GameControl::BalanceForward.state_spec(keyboard),
            GameControl::BalanceBackward.state_spec(keyboard),
        ),
        restart: GameControl::Restart.state_spec(keyboard).just_pressed,
    }
}

/// The actions before any frame: nothing asked for.
pub open spec fn idle_actions() -> Actions {
    Actions { jump: false, paddling: None, head_balance: None, restart: false }
}

impl Default for Actions {
    fn default() -> (r: Actions)
        ensures
            r == idle_actions(),
    {
        Actions { jump: false, paddling: None, head_balance: None, restart: false }
    }
}

/// The value of a paired axis this frame. A press resolves to the pressed
/// direction; a release resolves to the key still held, or to neutral; with
/// neither, the previous value carries over.
pub fn paired_axis(previous: Option<i8>, forward: KeyState, backward: KeyState) -> (r: Option<i8>)
    ensures
        r == axis_spec(previous, forward, backward),
{
    if backward.just_released || backward.pressed || forward.just_released || forward.pressed {
        let mut value: i8 = match previous {
            Some(v) => v,
            None => 0,
        };
        if forward.just_released || backward.just_released {
            if forward.pressed {
                value = 1;
            } else if backward.pressed {
                value = -1;
            } else {
                value = 0;
            }
        } else if forward.just_pressed {
            value = 1;
        } else if backward.just_pressed {
            value = -1;
        }
        Some(value)
    } else {
        None
    }
}

/// Recomputes the actions from this frame's keys.
pub fn set_movement_actions(actions: &mut Actions, keyboard: &Keyboard)
    ensures
        *final(actions) == actions_step(*old(actions), *keyboard),
{
    let paddle_forward = keyboard.state(GameControl::PaddleForward.key());
    let paddle_backward = keyboard.state(GameControl::PaddleBackward.key());
    actions.paddling = paired_axis(actions.paddling, paddle_forward, paddle_backward);
    let balance_forward = keyboard.state(GameControl::BalanceForward.key());
    let balance_backward = keyboard.state(GameControl::BalanceBackward.key());
    actions.head_balance = paired_axis(actions.head_balance, balance_forward, balance_backward);
    actions.jump = GameControl::Jump.just_pressed(keyboard);
    actions.restart = GameControl::Restart.just_pressed(keyboard);
}

/// The actions after a run of frames.
pub open spec fn actions_after(start: Actions, frames: Seq<Keyboard>) -> Actions
    decreases frames.len(),
{
    if frames.len() == 0 {
        start
    } else {
        actions_step(actions_after(start, frames.drop_last()), frames.last())
    }
}

/// An axis value is absent or one of -1, 0, 1.
pub open spec fn axis_in_range(value: Option<i8>) -> bool {
    match value {
        Some(v) => -1 <= v <= 1,
        None => true,
    }
}

/// Whatever keys are pressed and released, frame after frame, each axis stays
/// absent or one of -1, 0, 1; and after any frame it is absent exactly when
/// neither of its keys was held or just released in that frame.
pub proof fn lemma_axes_stay_in_range(start: Actions, frames: Seq<Keyboard>)
    requires
        axis_in_range(start.paddling),
        axis_in_range(start.head_balance),
    ensures
        axis_in_range(actions_after(start, frames).paddling),
        axis_in_range(actions_after(start, frames).head_balance),
        frames.len() > 0 ==> ((actions_after(start, frames).paddling is None) <==> !(involved(
            frames.last().d,
        ) || involved(frames.last().a))),
        frames.len() > 0 ==> ((actions_after(start, frames).head_balance is None) <==> !(involved(
            frames.last().right,
        ) || involved(frames.last().left))),
    decreases frames.len(),
{
    if frames.len() > 0 {
        lemma_axes_stay_in_range(start, frames.drop_last());
    }
}

} // verus!
