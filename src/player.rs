use vstd::prelude::*;
use crate::actions::{Actions, Keyboard, actions_step, idle_actions, involved};
use crate::audio::PlaySoundEffect;
use crate::ground::{Ground, floor_spec, ground_segments_spec, platform_box, spawn_ground, track_end, track_start, wall_spec};
use crate::level::{
    BODY_LENGTH, BODY_RADIUS, HEAD_RADIUS, Level, Point, StartingPoint, UNIT, WHEEL_RADIUS,
};
use crate::scenery::Texture;

verus! {

/// Marker for the rig's wheel.
pub struct Wheel;

/// Marker for the rig's head.
pub struct Head;

/// Marker for the rig's body.
pub struct Body;

/// Marker for the camera that follows the head.
pub struct Camera;

/// Marker for the platforms the rig stands on.
pub struct Platform;

/// Acceleration from paddling and balancing: 20 units (or radians) per second
/// squared, which is 20 millionths per second gained each microsecond.
pub const PADDLE_SPEED: i64 = 20;

/// Speed a jump adds to the wheel, in millionths of a unit per second.
pub const JUMP_IMPULSE: i64 = 150_000;

/// A linear velocity in millionths of a unit per second.
#[derive(Clone, Copy, Debug, PartialEq, Eq, Structural)]
pub struct Velocity {
    pub x: i64,
    pub y: i64,
}

/// The state of a moving body: where it is, where the physics step will put
/// it next, its linear velocity and its angular velocity (millionths of a
/// radian per second).
#[derive(Clone, Copy, Debug, PartialEq, Eq, Structural)]
pub struct RigidBody {
    pub position: Point,
    pub next_position: Point,
    pub linvel: Velocity,
    pub angvel: i64,
}

/// The three parts of the rig.
#[derive(Clone, Copy, Debug, PartialEq, Eq, Structural)]
pub enum RigPart {
    Wheel,
    Body,
    Head,
}

/// A collision shape, in length units.
#[derive(Clone, Copy, Debug, PartialEq, Eq, Structural)]
pub enum Shape {
    Ball { radius: i64 },
    /// A vertical segment of the given half length, swept by a ball.
    Capsule { half_length: i64, radius: i64 },
}

/// How to create one part of the rig.
#[derive(Clone, Copy, Debug, PartialEq, Eq, Structural)]
pub struct BodySpec {
    pub part: RigPart,
    pub position: Point,
    pub shape: Shape,
    /// Gravity scale in hundredths.
    pub gravity_scale_percent: i64,
    /// Angular damping in hundredths.
    pub angular_damping_percent: i64,
    /// Whether contacts of this body are reported as events.
    pub contact_events: bool,
    pub texture: Texture,
    pub sprite_scale_permille: i64,
}

/// A ball joint with its spring motor disabled, joining `anchor1` on `part1`
/// to `anchor2` on `part2` (both in the parts' own frames).
#[derive(Clone, Copy, Debug, PartialEq, Eq, Structural)]
pub struct BallJoint {
    pub part1: RigPart,
    pub part2: RigPart,
    pub anchor1: Point,
    pub anchor2: Point,
}

/// Everything a level is built from when it starts.
pub struct LevelScene {
    pub ground: Ground,
    pub head: BodySpec,
    pub body: BodySpec,
    pub wheel: BodySpec,
    pub wheel_body_joint: BallJoint,
    pub body_head_joint: BallJoint,
}

/// The one-frame latch after a jump.
#[derive(Clone, Copy, Debug, PartialEq, Eq, Structural)]
pub enum JumpBlock {
    Blocked,
    NotBlocked,
}

/// The one-frame latch after a landing sound.
#[derive(Clone, Copy, Debug, PartialEq, Eq, Structural)]
pub enum LandBlock {
    Blocked,
    NotBlocked,
}

pub open spec fn at_rest(p: Point) -> RigidBody {
    RigidBody { position: p, next_position: p, linvel: Velocity { x: 0, y: 0 }, angvel: 0 }
}

pub open spec fn wheel_spec(position: Point) -> BodySpec {
    BodySpec {
        part: RigPart::Wheel,
        position,
        shape: Shape::Ball { radius: WHEEL_RADIUS },
        gravity_scale_percent: 100,
        angular_damping_percent: 20,
        contact_events: true,
        texture: Texture::Wheel,
        sprite_scale_permille: 250,
    }
}

pub open spec fn body_spec(position: Point) -> BodySpec {
    BodySpec {
        part: RigPart::Body,
        position,
        shape: Shape::Capsule { half_length: (BODY_LENGTH / 2) as i64, radius: BODY_RADIUS },
        gravity_scale_percent: 30,
        angular_damping_percent: 0,
        contact_events: false,
        texture: Texture::Body,
        sprite_scale_permille: 125,
    }
}

pub open spec fn head_spec(position: Point) -> BodySpec {
    BodySpec {
        part: RigPart::Head,
        position,
        shape: Shape::Ball { radius: HEAD_RADIUS },
        gravity_scale_percent: 100,
        angular_damping_percent: 0,
        contact_events: false,
        texture: Texture::Head,
        sprite_scale_permille: 125,
    }
}

/// The wheel hangs below the body's lower end with a gap of a tenth of a unit.
pub open spec fn wheel_body_joint_spec() -> BallJoint {
    BallJoint {
        part1: RigPart::Wheel,
        part2: RigPart::Body,
        anchor1: Point { x: 0, y: 0 },
        anchor2: Point {
            x: 0,
            y: (-(BODY_LENGTH / 2 + BODY_RADIUS + WHEEL_RADIUS + UNIT / 10)) as i64,
        },
    }
}

pub open spec fn body_head_joint_spec() -> BallJoint {
    BallJoint {
        part1: RigPart::Body,
        part2: RigPart::Head,
        anchor1: Point { x: 0, y: (BODY_LENGTH / 2 + BODY_RADIUS) as i64 },
        anchor2: Point { x: 0, y: (-(HEAD_RADIUS / 2)) as i64 },
    }
}

pub fn spawn_wheel(position: Point) -> (r: BodySpec)
    ensures
        r == wheel_spec(position),
{
    BodySpec {
        part: RigPart::Wheel,
        position,
        shape: Shape::Ball { radius: WHEEL_RADIUS },
        gravity_scale_percent: 100,
        angular_damping_percent: 20,
        contact_events: true,
        texture: Texture::Wheel,
        sprite_scale_permille: 250,
    }
}

pub fn spawn_body(position: Point) -> (r: BodySpec)
    ensures
        r == body_spec(position),
{
    BodySpec {
        part: RigPart::Body,
        position,
        shape: Shape::Capsule { half_length: BODY_LENGTH / 2, radius: BODY_RADIUS },
        gravity_scale_percent: 30,
        angular_damping_percent: 0,
        contact_events: false,
        texture: Texture::Body,
        sprite_scale_permille: 125,
    }
}

pub fn spawn_head(position: Point) -> (r: BodySpec)
    ensures
        r == head_spec(position),
{
    BodySpec {
        part: RigPart::Head,
        position,
        shape: Shape::Ball { radius: HEAD_RADIUS },
        gravity_scale_percent: 100,
        angular_damping_percent: 0,
        contact_events: false,
        texture: Texture::Head,
        sprite_scale_permille: 125,
    }
}

/// The ground of the level, and the rig at the level's starting points with
/// its two joints.
pub fn prepare_player_and_platforms(level: &Level) -> (r: LevelScene)
    ensures
        r.ground.platforms@ == ground_segments_spec(level.holes_spec(), level.finish_line_spec()).map_values(
            |s: (i64, i64)| platform_box(s),
        ),
        r.ground.floor == floor_spec(),
        r.ground.left_wall == wall_spec(track_start()),
        r.ground.right_wall == wall_spec(track_end(level.finish_line_spec())),
        r.head == head_spec(level.starting_points_spec().head),
        r.body == body_spec(level.starting_points_spec().body),
        r.wheel == wheel_spec(level.starting_points_spec().wheel),
        r.wheel_body_joint == wheel_body_joint_spec(),
        r.body_head_joint == body_head_joint_spec(),
{
    let ground = spawn_ground(level);
    let start: StartingPoint = level.get_starting_points();
    let head = spawn_head(start.head);
    let body = spawn_body(start.body);
    let wheel = spawn_wheel(start.wheel);
    let wheel_body_joint = BallJoint {
        part1: RigPart::Wheel,
        part2: RigPart::Body,
        anchor1: Point { x: 0, y: 0 },
        anchor2: Point { x: 0, y: -(BODY_LENGTH / 2 + BODY_RADIUS + WHEEL_RADIUS + UNIT / 10) },
    };
    let body_head_joint = BallJoint {
        part1: RigPart::Body,
        part2: RigPart::Head,
        anchor1: Point { x: 0, y: BODY_LENGTH / 2 + BODY_RADIUS },
        anchor2: Point { x: 0, y: -(HEAD_RADIUS / 2) },
    };
    LevelScene { ground, head, body, wheel, wheel_body_joint, body_head_joint }
}

/// Puts the three parts back at the level's starting points, at rest, without
/// rebuilding the rig.
pub fn reset_level(level: &Level, wheel: &mut RigidBody, body: &mut RigidBody, head: &mut RigidBody)
    ensures
        *final(wheel) == at_rest(level.starting_points_spec().wheel),
        *final(body) == at_rest(level.starting_points_spec().body),
        *final(head) == at_rest(level.starting_points_spec().head),
{
    let starting_points = level.get_starting_points();
    wheel.linvel = Velocity { x: 0, y: 0 };
    wheel.angvel = 0;
    wheel.position = starting_points.wheel;
    wheel.next_position = starting_points.wheel;
    body.linvel = Velocity { x: 0, y: 0 };
    body.angvel = 0;
    body.position = starting_points.body;
    body.next_position = starting_points.body;
    head.linvel = Velocity { x: 0, y: 0 };
    head.angvel = 0;
    head.position = starting_points.head;
    head.next_position = starting_points.head;
}

/// The speed an axis adds over a frame of `dt` microseconds.
pub open spec fn push_of(action: i8, dt: u32) -> int {
    action * PADDLE_SPEED * dt
}

/// An axis acts this frame when it has a value and no restart is asked for.
pub open spec fn axis_acts(axis: Option<i8>, restart: bool) -> bool {
    axis is Some && !restart
}

/// Paddling turns the wheel backward for a forward action (clockwise, so it
/// rolls forward).
pub open spec fn paddle_spec(wheel: RigidBody, actions: Actions, dt: u32) -> RigidBody {
    if axis_acts(actions.paddling, actions.restart) {
        RigidBody {
            angvel: (wheel.angvel - push_of(actions.paddling.unwrap(), dt)) as i64,
            ..wheel
        }
    } else {
        wheel
    }
}

pub open spec fn balance_spec(head: RigidBody, actions: Actions, dt: u32) -> RigidBody {
    if axis_acts(actions.head_balance, actions.restart) {
        RigidBody {
            linvel: Velocity {
                x: (head.linvel.x + push_of(actions.head_balance.unwrap(), dt)) as i64,
                ..head.linvel
            },
            ..head
        }
    } else {
        head
    }
}

pub open spec fn fits_i64(v: int) -> bool {
    i64::MIN <= v <= i64::MAX
}

/// `action * PADDLE_SPEED * dt`, which always fits.
fn scaled_push(action: i8, dt: u32) -> (r: i64)
    ensures
        r == push_of(action, dt),
{
    let step: i64 = PADDLE_SPEED * dt as i64;
    let a: i64 = action as i64;
    assert(-128 * 0x20_0000_0000 <= a * step <= 128 * 0x20_0000_0000) by (nonlinear_arith)
        requires
            -128 <= a <= 127,
            0 <= step <= 0x20_0000_0000,
    ;
    assert(a * step == push_of(action, dt)) by (nonlinear_arith)
        requires
            step == PADDLE_SPEED * dt,
            a == action,
    ;
    a * step
}

/// Changes the wheel's spin by the paddle action over a frame of `dt`
/// microseconds.
pub fn paddle_wheel(actions: &Actions, dt: u32, wheel: &mut RigidBody)
    requires
        axis_acts(actions.paddling, actions.restart) ==> fits_i64(
            old(wheel).angvel - push_of(actions.paddling.unwrap(), dt),
        ),
    ensures
        *final(wheel) == paddle_spec(*old(wheel), *actions, dt),
{
    if actions.restart {
        return ;
    }
    match actions.paddling {
        Some(action) => {
            let movement: i64 = scaled_push(action, dt);
            wheel.angvel = wheel.angvel - movement;
        },
        None => {},
    }
}

/// Pushes the head sideways by the balance action over a frame of `dt`
/// microseconds.
pub fn move_head(actions: &Actions, dt: u32, head: &mut RigidBody)
    requires
        axis_acts(actions.head_balance, actions.restart) ==> fits_i64(
            old(head).linvel.x + push_of(actions.head_balance.unwrap(), dt),
        ),
    ensures
        *final(head) == balance_spec(*old(head), *actions, dt),
{
    if actions.restart {
        return ;
    }
    match actions.head_balance {
        Some(action) => {
            let movement: i64 = scaled_push(action, dt);
            head.linvel.x = head.linvel.x + movement;
        },
        None => {},
    }
}

/// `r` is the square root of `n`, rounded down.
pub open spec fn is_floor_sqrt(n: int, r: int) -> bool {
    0 <= r && r * r <= n < (r + 1) * (r + 1)
}

pub open spec fn floor_sqrt(n: int) -> int {
    choose|r: int| is_floor_sqrt(n, r)
}

proof fn lemma_floor_sqrt_unique(n: int, r: int)
    requires
        is_floor_sqrt(n, r),
    ensures
        floor_sqrt(n) == r,
{
    let s = floor_sqrt(n);
    assert(is_floor_sqrt(n, s));
    if s < r {
        assert((s + 1) * (s + 1) <= r * r) by (nonlinear_arith)
            requires
                0 <= s < r,
        ;
    } else if r < s {
        assert((r + 1) * (r + 1) <= s * s) by (nonlinear_arith)
            requires
                0 <= r < s,
        ;
    }
}

/// The square root of `n`, rounded down, by bisection.
pub fn isqrt(n: u128) -> (r: u128)
    requires
        n < 0x8000_0000_0000_0000_0000_0000_0000_0000,
    ensures
        is_floor_sqrt(n as int, r as int),
        r == floor_sqrt(n as int),
{
    let mut lo: u128 = 0;
    let mut hi: u128 = 0x1_0000_0000_0000_0000;
    assert(n < hi * hi) by (nonlinear_arith)
        requires
            n < 0x8000_0000_0000_0000_0000_0000_0000_0000,
            hi == 0x1_0000_0000_0000_0000,
    ;
    while hi - lo > 1
        invariant
            lo < hi <= 0x1_0000_0000_0000_0000,
            lo * lo <= n,
            n < hi * hi,
        decreases hi - lo,
    {
        let mid: u128 = lo + (hi - lo) / 2;
        assert(mid * mid <= 0xffff_ffff_ffff_ffff * 0xffff_ffff_ffff_ffff) by (nonlinear_arith)
            requires
                mid < 0x1_0000_0000_0000_0000,
        ;
        if mid * mid <= n {
            lo = mid;
        } else {
            hi = mid;
        }
    }
    assert(hi == lo + 1);
    proof {
        lemma_floor_sqrt_unique(n as int, lo as int);
    }
    lo
}

/// `JUMP_IMPULSE * d / len`, rounded toward zero.
pub open spec fn impulse_part(d: int, len: int) -> int {
    if d >= 0 {
        JUMP_IMPULSE * d / len
    } else {
        -(JUMP_IMPULSE * (-d) / len)
    }
}

/// A push of `JUMP_IMPULSE` along the direction from the wheel's centre to the
/// body's, the length of that vector taken as its square root rounded down;
/// none when the two centres coincide.
pub open spec fn jump_impulse(wheel: Point, body: Point) -> Velocity {
    let dx = body.x - wheel.x;
    let dy = body.y - wheel.y;
    let len = floor_sqrt(dx * dx + dy * dy);
    if len == 0 {
        Velocity { x: 0, y: 0 }
    } else {
        Velocity { x: impulse_part(dx, len) as i64, y: impulse_part(dy, len) as i64 }
    }
}

pub open spec fn pushed(body: RigidBody, impulse: Velocity) -> RigidBody {
    RigidBody {
        linvel: Velocity {
            x: (body.linvel.x + impulse.x) as i64,
            y: (body.linvel.y + impulse.y) as i64,
        },
        ..body
    }
}

/// One frame of the jump rule: the latch state after the frame, and whether
/// the jump fired.
pub open spec fn jump_step(block: JumpBlock, actions: Actions, wheel_on_platform: bool) -> (JumpBlock, bool) {
    match block {
        JumpBlock::Blocked => (JumpBlock::NotBlocked, false),
        JumpBlock::NotBlocked => if actions.jump && !actions.restart && wheel_on_platform {
            (JumpBlock::Blocked, true)
        } else {
            (JumpBlock::NotBlocked, false)
        },
    }
}

/// One frame of the landing rule: the latch state after the frame, and
/// whether the landing sound plays.
pub open spec fn land_step(block: LandBlock, contact_started: bool) -> (LandBlock, bool) {
    match block {
        LandBlock::Blocked => (LandBlock::NotBlocked, false),
        LandBlock::NotBlocked => if contact_started {
            (LandBlock::Blocked, true)
        } else {
            (LandBlock::NotBlocked, false)
        },
    }
}

/// One signed component of the impulse, for `|d| <= i64::MAX`.
fn impulse_component(d: i128, len: u128) -> (r: i64)
    requires
        -0x7fff_ffff_ffff_ffff <= d <= 0x7fff_ffff_ffff_ffff,
        len > 0,
        d * d < (len + 1) * (len + 1),
    ensures
        r == impulse_part(d as int, len as int),
        -JUMP_IMPULSE <= r <= JUMP_IMPULSE,
{
    let magnitude: u128 = if d >= 0 {
        d as u128
    } else {
        (-d) as u128
    };
    assert(magnitude * magnitude == d * d) by (nonlinear_arith)
        requires
            magnitude == d || magnitude == -d,
    ;
    assert(magnitude <= len) by (nonlinear_arith)
        requires
            magnitude * magnitude == d * d,
            d * d < (len + 1) * (len + 1),
            0 <= magnitude,
            0 < len,
    ;
    let q: u128 = (JUMP_IMPULSE as u128 * magnitude) / len;
    assert(q <= JUMP_IMPULSE) by (nonlinear_arith)
        requires
            q == (JUMP_IMPULSE * magnitude) / (len as int),
            magnitude <= len,
            0 < len,
    ;
    if d >= 0 {
        q as i64
    } else {
        -(q as i64)
    }
}

/// Lets the wheel jump off a platform it touches, when a jump is asked for
/// and no restart: adds the jump impulse to the wheel and latches for one
/// frame, during which no jump fires and the latch opens again.
pub fn jump(
    actions: &Actions,
    jump_block: &mut JumpBlock,
    wheel: &mut RigidBody,
    body_position: Point,
    wheel_on_platform: bool,
) -> (r: Option<PlaySoundEffect>)
    requires
        -0x7fff_ffff_ffff_ffff <= body_position.x - old(wheel).position.x <= 0x7fff_ffff_ffff_ffff,
        -0x7fff_ffff_ffff_ffff <= body_position.y - old(wheel).position.y <= 0x7fff_ffff_ffff_ffff,
        i64::MIN + JUMP_IMPULSE <= old(wheel).linvel.x <= i64::MAX - JUMP_IMPULSE,
        i64::MIN + JUMP_IMPULSE <= old(wheel).linvel.y <= i64::MAX - JUMP_IMPULSE,
    ensures
        (*final(jump_block), r is Some) == jump_step(*old(jump_block), *actions, wheel_on_platform),
        r is Some ==> r == Some(PlaySoundEffect::Jump) && *final(wheel) == pushed(
            *old(wheel),
            jump_impulse(old(wheel).position, body_position),
        ),
        r is None ==> *final(wheel) == *old(wheel),
{
    // give it a frame until allowing the next jump
    match jump_block {
        JumpBlock::Blocked => {
            *jump_block = JumpBlock::NotBlocked;
            return None;
        },
        JumpBlock::NotBlocked => {},
    }
    if !actions.jump || actions.restart || !wheel_on_platform {
        return None;
    }
    *jump_block = JumpBlock::Blocked;
    let dx: i128 = body_position.x as i128 - wheel.position.x as i128;
    let dy: i128 = body_position.y as i128 - wheel.position.y as i128;
    let ax: u128 = if dx >= 0 {
        dx as u128
    } else {
        (-dx) as u128
    };
    let ay: u128 = if dy >= 0 {
        dy as u128
    } else {
        (-dy) as u128
    };
    assert(ax * ax == dx * dx && ay * ay == dy * dy) by (nonlinear_arith)
        requires
            ax == dx || ax == -dx,
            ay == dy || ay == -dy,
    ;
    assert(ax * ax + ay * ay < 0x8000_0000_0000_0000_0000_0000_0000_0000) by (nonlinear_arith)
        requires
            ax <= 0x7fff_ffff_ffff_ffff,
            ay <= 0x7fff_ffff_ffff_ffff,
    ;
    let n: u128 = ax * ax + ay * ay;
    assert(n == dx * dx + dy * dy) by (nonlinear_arith)
        requires
            n == ax * ax + ay * ay,
            ax * ax == dx * dx,
            ay * ay == dy * dy,
    ;
    let len = isqrt(n);
    if len == 0 {
        return Some(PlaySoundEffect::Jump);
    }
    assert(dx * dx < (len + 1) * (len + 1) && dy * dy < (len + 1) * (len + 1)) by (nonlinear_arith)
        requires
            n == dx * dx + dy * dy,
            n < (len + 1) * (len + 1),
    ;
    let ix = impulse_component(dx, len);
    let iy = impulse_component(dy, len);
    wheel.linvel.x = wheel.linvel.x + ix;
    wheel.linvel.y = wheel.linvel.y + iy;
    Some(PlaySoundEffect::Jump)
}

/// Plays the landing sound when a contact starts, at most once per onset:
/// after it plays, the next frame stays silent and opens the latch again.
pub fn landing(contact_started: bool, land_block: &mut LandBlock) -> (r: Option<PlaySoundEffect>)
    ensures
        (*final(land_block), r is Some) == land_step(*old(land_block), contact_started),
        r is Some ==> r == Some(PlaySoundEffect::Land),
{
    // give it a frame until playing the next sound
    match land_block {
        LandBlock::Blocked => {
            *land_block = LandBlock::NotBlocked;
            return None;
        },
        LandBlock::NotBlocked => {},
    }
    if contact_started {
        *land_block = LandBlock::Blocked;
        Some(PlaySoundEffect::Land)
    } else {
        None
    }
}

/// A jump fires only with the wheel on a platform, a jump asked for, no
/// restart and the latch open. After it fires, the next frame fires nothing
/// whatever its input, and the frame after that behaves as with an open
/// latch.
pub proof fn lemma_jump_debounce(
    block: JumpBlock,
    first: Actions,
    first_contact: bool,
    second: Actions,
    second_contact: bool,
    third: Actions,
    third_contact: bool,
)
    ensures
        jump_step(block, first, first_contact).1 ==> block == JumpBlock::NotBlocked && first_contact
            && first.jump && !first.restart,
        ({
            let (b1, fired1) = jump_step(block, first, first_contact);
            let (b2, fired2) = jump_step(b1, second, second_contact);
            fired1 ==> !fired2 && b2 == JumpBlock::NotBlocked && jump_step(b2, third, third_contact)
                == jump_step(JumpBlock::NotBlocked, third, third_contact)
                && (jump_step(b2, third, third_contact).1 <==> (third_contact && third.jump
                && !third.restart))
        }),
{
}

/// Paddle-forward stays held this frame: its key is down and was not let go,
/// paddle-backward is untouched and no restart is pressed.
pub open spec fn forward_held(k: Keyboard) -> bool {
    &&& k.d.pressed
    &&& !k.d.just_released
    &&& !involved(k.a)
    &&& !k.a.just_pressed
    &&& !k.r.just_pressed
}

/// Frames of play: each frame's keys update the actions, which then paddle
/// the wheel over `dt` microseconds.
pub open spec fn drive(actions: Actions, wheel: RigidBody, frames: Seq<Keyboard>, dt: u32) -> (Actions, RigidBody)
    decreases frames.len(),
{
    if frames.len() == 0 {
        (actions, wheel)
    } else {
        let (a, w) = drive(actions, wheel, frames.drop_last(), dt);
        let next = actions_step(a, frames.last());
        (next, paddle_spec(w, next, dt))
    }
}

/// Pressing paddle-forward and holding it for `n` frames of `dt`
/// microseconds, from no action, changes the wheel's spin by exactly
/// `-n * PADDLE_SPEED * dt` and leaves the rest of the wheel as it was.
pub proof fn lemma_paddle_forward_end_to_end(wheel: RigidBody, frames: Seq<Keyboard>, dt: u32)
    requires
        frames.len() > 0,
        frames[0].d.just_pressed,
        forall|i: int| 0 <= i < frames.len() ==> forward_held(#[trigger] frames[i]),
        fits_i64(wheel.angvel - frames.len() * PADDLE_SPEED * dt),
    ensures
        drive(idle_actions(), wheel, frames, dt).0.paddling == Some(1i8),
        !drive(idle_actions(), wheel, frames, dt).0.restart,
        drive(idle_actions(), wheel, frames, dt).1 == (RigidBody {
            angvel: (wheel.angvel - frames.len() * PADDLE_SPEED * dt) as i64,
            ..wheel
        }),
    decreases frames.len(),
{
    let n = frames.len();
    let last = frames.last();
    assert(forward_held(frames[n - 1]));
    if n == 1 {
        assert(drive(idle_actions(), wheel, frames.drop_last(), dt) == (idle_actions(), wheel));
        assert(n * PADDLE_SPEED * dt == PADDLE_SPEED * dt) by (nonlinear_arith)
            requires
                n == 1,
        ;
    } else {
        let prefix = frames.drop_last();
        assert forall|i: int| 0 <= i < prefix.len() implies forward_held(#[trigger] prefix[i]) by {
            assert(prefix[i] == frames[i]);
        }
        assert(prefix[0] == frames[0]);
        assert(0 <= (n - 1) * PADDLE_SPEED * dt <= n * PADDLE_SPEED * dt) by (nonlinear_arith)
            requires
                n >= 1,
                dt >= 0,
        ;
        lemma_paddle_forward_end_to_end(wheel, prefix, dt);
        assert(n * PADDLE_SPEED * dt == (n - 1) * PADDLE_SPEED * dt + PADDLE_SPEED * dt)
            by (nonlinear_arith);
    }
    assert(push_of(1i8, dt) == PADDLE_SPEED * dt);
}

} // verus!
