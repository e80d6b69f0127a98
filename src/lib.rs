//! Verified core of a small physics platformer: the input mapper, the level
//! descriptors and ground generation, the player rig rules, the contact
//! debounce logic and the game-state stack.
//!
//! Lengths are integers in tenths of a pixel (one physics unit is 32 pixels,
//! so 320 length units); velocities are integers in millionths of a physics
//! unit (or radian) per second, and frame times are in microseconds.

pub mod actions;
pub mod audio;
pub mod flow;
pub mod ground;
pub mod level;
pub mod lost;
pub mod player;
pub mod scenery;
pub mod state;
