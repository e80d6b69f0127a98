use vstd::prelude::*;
use crate::audio::random_below;
use crate::level::{Level, PIXEL};

verus! {

/// The images the game draws.
#[derive(Clone, Copy, Debug, PartialEq, Eq, Structural)]
pub enum Texture {
    Wheel,
    Head,
    Body,
    Background1,
    Background2,
    Background3,
    Tutorial,
    TutorialJump,
    TutorialFalling,
    TutorialRestart,
    Finish,
}

/// A sprite with no body: its image, where its centre is (length units),
/// and its scale in thousandths.
#[derive(Clone, Copy, Debug, PartialEq, Eq, Structural)]
pub struct Decor {
    pub texture: Texture,
    pub x: i64,
    pub y: i64,
    pub scale_permille: i64,
}

/// Number of background tiles, each 800 pixels wide.
pub const BACKGROUND_SLOTS: usize = 5;

pub open spec fn background_texture_spec(roll: u32) -> Texture {
    if roll == 0 {
        Texture::Background1
    } else if roll == 1 {
        Texture::Background2
    } else {
        Texture::Background3
    }
}

pub open spec fn decor(texture: Texture, x: int, y: int, scale_permille: int) -> Decor {
    Decor { texture, x: x as i64, y: y as i64, scale_permille: scale_permille as i64 }
}

/// The scenery of a level: the background tiles with the images the rolls
/// pick, the finish marker, and on the tutorial the four help panels.
pub open spec fn background_spec(level: Level, rolls: Seq<u32>) -> Seq<Decor> {
    let tiles = Seq::new(
        BACKGROUND_SLOTS as nat,
        |slot: int| decor(background_texture_spec(rolls[slot]), slot * 800 * PIXEL, 300 * PIXEL, 1000),
    );
    let finish = level.finish_line_spec();
    let marker = seq![decor(Texture::Finish, finish, 250 * PIXEL, 500)];
    let help = if level == Level::Tutorial {
        seq![
            decor(Texture::Tutorial, -180 * PIXEL, 250 * PIXEL, 500),
            decor(Texture::TutorialJump, 620 * PIXEL, 250 * PIXEL, 500),
            decor(Texture::TutorialFalling, 1600 * PIXEL, 250 * PIXEL, 500),
            decor(Texture::TutorialRestart, finish + 200 * PIXEL, 170 * PIXEL, 500),
        ]
    } else {
        Seq::empty()
    };
    tiles + marker + help
}

/// The background image for a roll in `0..3`.
pub fn background_texture(roll: u32) -> (r: Texture)
    ensures
        r == background_texture_spec(roll),
{
    if roll == 0 {
        Texture::Background1
    } else if roll == 1 {
        Texture::Background2
    } else {
        Texture::Background3
    }
}

/// The scenery of a level, the background images given by `rolls`.
pub fn layout_background(level: &Level, rolls: &Vec<u32>) -> (r: Vec<Decor>)
    requires
        rolls@.len() == BACKGROUND_SLOTS,
    ensures
        r@ == background_spec(*level, rolls@),
{
    let mut sprites: Vec<Decor> = Vec::new();
    let mut slot: usize = 0;
    while slot < BACKGROUND_SLOTS
        invariant
            slot <= BACKGROUND_SLOTS,
            rolls@.len() == BACKGROUND_SLOTS,
            sprites@ == background_spec(*level, rolls@).subrange(0, slot as int),
        decreases BACKGROUND_SLOTS - slot,
    {
        let texture = background_texture(rolls[slot]);
        sprites.push(
            Decor { texture, x: slot as i64 * 800 * PIXEL, y: 300 * PIXEL, scale_permille: 1000 },
        );
        slot = slot + 1;
        assert(sprites@ =~= background_spec(*level, rolls@).subrange(0, slot as int));
    }
    let finish = level.finish_line();
    sprites.push(Decor { texture: Texture::Finish, x: finish, y: 250 * PIXEL, scale_permille: 500 });
    if *level == Level::Tutorial {
        sprites.push(
            Decor { texture: Texture::Tutorial, x: -180 * PIXEL, y: 250 * PIXEL, scale_permille: 500 },
        );
        sprites.push(
            Decor { texture: Texture::TutorialJump, x: 620 * PIXEL, y: 250 * PIXEL, scale_permille: 500 },
        );
        sprites.push(
            Decor {
                texture: Texture::TutorialFalling,
                x: 1600 * PIXEL,
                y: 250 * PIXEL,
                scale_permille: 500,
            },
        );
        sprites.push(
            Decor {
                texture: Texture::TutorialRestart,
                x: finish + 200 * PIXEL,
                y: 170 * PIXEL,
                scale_permille: 500,
            },
        );
    }
    assert(sprites@ =~= background_spec(*level, rolls@));
    sprites
}

/// The scenery of a level, each background image picked at random.
pub fn draw_background(level: &Level) -> (r: Vec<Decor>)
    ensures
        exists|rolls: Seq<u32>|
            rolls.len() == BACKGROUND_SLOTS && (forall|i: int| 0 <= i < rolls.len() ==> rolls[i] < 3)
                && r@ == #[trigger] background_spec(*level, rolls),
{
    let mut rolls: Vec<u32> = Vec::new();
    let mut slot: usize = 0;
    while slot < BACKGROUND_SLOTS
        invariant
            slot <= BACKGROUND_SLOTS,
            rolls@.len() == slot,
            forall|i: int| 0 <= i < rolls@.len() ==> rolls@[i] < 3,
        decreases BACKGROUND_SLOTS - slot,
    {
        rolls.push(random_below(3));
        slot = slot + 1;
    }
    layout_background(level, &rolls)
}

} // verus!
