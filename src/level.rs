use vstd::prelude::*;

verus! {

/// Length units per pixel.
pub const PIXEL: i64 = 10;

/// Pixels per physics unit.
pub const PHYSICS_SCALE: i64 = 32;

/// Length units per physics unit.
pub const UNIT: i64 = PIXEL * PHYSICS_SCALE;

pub const WHEEL_RADIUS: i64 = UNIT;

pub const HEAD_RADIUS: i64 = 160;

pub const BODY_RADIUS: i64 = 160;

pub const BODY_LENGTH: i64 = UNIT;

/// Height of the ground slabs; the ground's top surface is at half of it.
pub const BOULDER_HEIGHT: i64 = UNIT;

/// A point (or a vector) in length units.
#[derive(Clone, Copy, Debug, PartialEq, Eq, Structural)]
pub struct Point {
    pub x: i64,
    pub y: i64,
}

/// Where the three parts of the rig are placed when a level starts.
#[derive(Clone, Copy, Debug, PartialEq, Eq, Structural)]
pub struct StartingPoint {
    pub wheel: Point,
    pub body: Point,
    pub head: Point,
}

/// Marker for everything whose lifetime is the current level.
pub struct ForLevel;

#[derive(Clone, Copy, Debug, PartialEq, Eq, Structural, Hash)]
pub enum Level {
    Tutorial,
    First,
    Second,
    Third,
}

/// A static box: the axis-aligned rectangle `[left, right] x [bottom, top]`,
/// turned about its centre by `rotation` eighths of a full turn (multiples of
/// a quarter pi, counter-clockwise).
#[derive(Clone, Copy, Debug, PartialEq, Eq, Structural)]
pub struct BoxCollider {
    pub left: i64,
    pub bottom: i64,
    pub right: i64,
    pub top: i64,
    pub rotation: i64,
}

pub open spec fn wheel_start_height() -> int {
    BOULDER_HEIGHT / 2 + WHEEL_RADIUS
}

pub open spec fn body_start_height() -> int {
    BOULDER_HEIGHT / 2 + 2 * WHEEL_RADIUS + BODY_LENGTH / 2 + BODY_RADIUS
}

pub open spec fn head_start_height() -> int {
    BOULDER_HEIGHT / 2 + 2 * WHEEL_RADIUS + BODY_LENGTH + 2 * BODY_RADIUS + HEAD_RADIUS
}

/// A box given by its centre and half extents, as physics engines take it.
pub open spec fn box_around(cx: int, cy: int, hw: int, hh: int, rotation: int) -> BoxCollider {
    BoxCollider {
        left: (cx - hw) as i64,
        bottom: (cy - hh) as i64,
        right: (cx + hw) as i64,
        top: (cy + hh) as i64,
        rotation: rotation as i64,
    }
}

impl Level {
    pub open spec fn next_spec(self) -> Level {
        match self {
            Level::Tutorial => Level::First,
            Level::First => Level::Second,
            Level::Second => Level::Third,
            Level::Third => Level::Tutorial,
        }
    }

    pub open spec fn starting_points_spec(self) -> StartingPoint {
        StartingPoint {
            wheel: Point { x: 0, y: wheel_start_height() as i64 },
            body: Point { x: 0, y: body_start_height() as i64 },
            head: Point { x: 0, y: head_start_height() as i64 },
        }
    }

    /// Every level ends 2400 pixels after the start.
    pub open spec fn finish_line_spec(self) -> int {
        2400 * PIXEL
    }

    pub open spec fn holes_spec(self) -> Seq<(i64, i64)> {
        match self {
            Level::Tutorial => seq![(16000i64, 18000i64)],
            Level::First => seq![(8640i64, 10000i64)],
            Level::Second => seq![(8000i64, 12500i64)],
            Level::Third => seq![(2500i64, 4500i64), (8000i64, 12500i64)],
        }
    }

    pub open spec fn colliders_spec(self) -> Seq<BoxCollider> {
        match self {
            Level::Tutorial => seq![box_around(800 * PIXEL, 2 * UNIT, 2 * UNIT, UNIT as int, 0)],
            Level::First => seq![
                box_around(800 * PIXEL, 2 * UNIT, 2 * UNIT, UNIT as int, 0),
                box_around(1440 * PIXEL, 2 * UNIT, 2 * UNIT, UNIT as int, 0),
            ],
            Level::Second => seq![box_around(800 * PIXEL, 2 * UNIT, 4 * UNIT, UNIT as int, 1)],
            Level::Third => seq![
                box_around(800 * PIXEL, 2 * UNIT, 4 * UNIT, UNIT as int, 1),
                box_around(1250 * PIXEL, 2 * UNIT, 4 * UNIT, UNIT as int, -1),
            ],
        }
    }

    pub open spec fn last_spec() -> Level {
        Level::Third
    }

    /// The level after which the progression starts over.
    pub fn last() -> (r: Level)
        ensures
            r == Level::last_spec(),
    {
        Level::Third
    }

    pub fn get_starting_points(&self) -> (r: StartingPoint)
        ensures
            r == self.starting_points_spec(),
    {
        StartingPoint {
            wheel: Point { x: 0, y: BOULDER_HEIGHT / 2 + WHEEL_RADIUS },
            body: Point {
                x: 0,
                y: BOULDER_HEIGHT / 2 + 2 * WHEEL_RADIUS + BODY_LENGTH / 2 + BODY_RADIUS,
            },
            head: Point {
                x: 0,
                y: BOULDER_HEIGHT / 2 + 2 * WHEEL_RADIUS + BODY_LENGTH + 2 * BODY_RADIUS
                    + HEAD_RADIUS,
            },
        }
    }

    pub fn finish_line(&self) -> (r: i64)
        ensures
            r == self.finish_line_spec(),
    {
        match self {
            Level::Tutorial => 2400 * PIXEL,
            Level::First => 2400 * PIXEL,
            Level::Second => 2400 * PIXEL,
            Level::Third => 2400 * PIXEL,
        }
    }

    /// The stretches without ground, as `(start, end)` in length units.
    pub fn holes(&self) -> (r: Vec<(i64, i64)>)
        ensures
            r@ == self.holes_spec(),
    {
        let r = match self {
            Level::Tutorial => vec![(1600 * PIXEL, 1800 * PIXEL)],
            Level::First => vec![(864 * PIXEL, 1000 * PIXEL)],
            Level::Second => vec![(800 * PIXEL, 1250 * PIXEL)],
            Level::Third => vec![(250 * PIXEL, 450 * PIXEL), (800 * PIXEL, 1250 * PIXEL)],
        };
        assert(r@ =~= self.holes_spec());
        r
    }

    /// The level that follows, wrapping to the tutorial after the last one.
    pub fn next(&self) -> (r: Level)
        ensures
            r == self.next_spec(),
    {
        match self {
            Level::Tutorial => Level::First,
            Level::First => Level::Second,
            Level::Second => Level::Third,
            Level::Third => Level::Tutorial,
        }
    }

    /// The obstacles placed on the level's ground.
    pub fn colliders(&self) -> (r: Vec<BoxCollider>)
        ensures
            r@ == self.colliders_spec(),
    {
        let mut colliders: Vec<BoxCollider> = Vec::new();
        match self {
            Level::Tutorial => {
                colliders.push(build_collider(800 * PIXEL, 2 * UNIT, 2 * UNIT, UNIT, 0));
            },
            Level::First => {
                colliders.push(build_collider(800 * PIXEL, 2 * UNIT, 2 * UNIT, UNIT, 0));
                colliders.push(build_collider(1440 * PIXEL, 2 * UNIT, 2 * UNIT, UNIT, 0));
            },
            Level::Second => {
                colliders.push(build_collider(800 * PIXEL, 2 * UNIT, 4 * UNIT, UNIT, 1));
            },
            Level::Third => {
                colliders.push(build_collider(800 * PIXEL, 2 * UNIT, 4 * UNIT, UNIT, 1));
                colliders.push(build_collider(1250 * PIXEL, 2 * UNIT, 4 * UNIT, UNIT, -1));
            },
        }
        assert(colliders@ =~= self.colliders_spec());
        colliders
    }
}

/// The level reached from `level` after `k` calls of `next`.
pub open spec fn advance(level: Level, k: nat) -> Level
    decreases k,
{
    if k == 0 {
        level
    } else {
        advance(level, (k - 1) as nat).next_spec()
    }
}

/// The levels in their order of play.
pub open spec fn level_at(i: int) -> Level {
    if i == 0 {
        Level::Tutorial
    } else if i == 1 {
        Level::First
    } else if i == 2 {
        Level::Second
    } else {
        Level::Third
    }
}

/// `next` walks the four levels in order and wraps around: `k` steps from
/// the tutorial reach the level at position `k mod 4`, so four steps lead
/// back to the tutorial.
pub proof fn lemma_next_cycles(k: nat)
    ensures
        advance(Level::Tutorial, k) == level_at(k as int % 4),
        advance(Level::Tutorial, 4) == Level::Tutorial,
    decreases k,
{
    if k > 0 {
        lemma_next_cycles((k - 1) as nat);
    }
    assert(advance(Level::Tutorial, 4) == Level::Tutorial) by {
        reveal_with_fuel(advance, 5);
    }
}

/// Four calls of `next` bring any level back to itself.
pub proof fn lemma_next_four_times(level: Level)
    ensures
        advance(level, 4) == level,
{
    reveal_with_fuel(advance, 5);
}

/// A box centred on `(cx, cy)` with half extents `hw` and `hh`.
pub fn build_collider(cx: i64, cy: i64, hw: i64, hh: i64, rotation: i64) -> (r: BoxCollider)
    requires
        0 <= hw <= 0x1000_0000_0000,
        0 <= hh <= 0x1000_0000_0000,
        -0x1000_0000_0000 <= cx <= 0x1000_0000_0000,
        -0x1000_0000_0000 <= cy <= 0x1000_0000_0000,
    ensures
        r == box_around(cx as int, cy as int, hw as int, hh as int, rotation as int),
{
    BoxCollider { left: cx - hw, bottom: cy - hh, right: cx + hw, top: cy + hh, rotation }
}

} // verus!
