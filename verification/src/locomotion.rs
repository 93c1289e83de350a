use vstd::prelude::*;

use crate::motion_tables::{fall_velocity_milli, jump_velocity_milli, spec_fall_curve, spec_jump_curve, FALL_CURVE_LEN, JUMP_CURVE_LEN};

verus! {

/// Which way a character faces.
#[derive(Debug, PartialEq, Eq, Clone, Copy, Hash, Structural)]
pub enum Facing {
    Left,
    Right,
}

/// The wall the player is sliding on.
#[derive(Debug, PartialEq, Eq, Clone, Copy, Hash, Structural)]
pub enum WallSide {
    Left,
    Right,
}

/// A horizontal input direction: the sign of the move axis, or whether it is pushed
/// past a dead zone, depending on where it is used.
#[derive(Debug, PartialEq, Eq, Clone, Copy, Hash, Structural)]
pub enum MoveDir {
    Left,
    Neutral,
    Right,
}

/// What a locomotion step does with horizontal velocity.
#[derive(Debug, PartialEq, Eq, Clone, Copy, Hash, Structural)]
pub enum HorizontalControl {
    /// Leave horizontal velocity as it is.
    Keep,
    /// Set horizontal velocity to zero.
    Zero,
    /// Drive horizontally in the input direction at the player's move speed.
    Drive,
}

/// The jump ascent state.
#[derive(Debug, PartialEq, Eq, Clone, Copy, Structural)]
pub struct Jumping {
    pub tick: u32,
    pub release_tick: Option<u32>,
    /// Which jump this is: 1 for the first jump, 2 for a double jump, and so on.
    pub jump_count: u8,
}

/// The falling state.
#[derive(Debug, PartialEq, Eq, Clone, Copy, Structural)]
pub struct Falling {
    pub coyote_ticks: u32,
    /// True when the player walked off the ground (coyote time applies), false after a jump.
    pub from_ground: bool,
    /// Jumps used so far in this airborne sequence.
    pub jump_count: u8,
    /// Some while sliding down a wall.
    pub wall_slide: Option<WallSide>,
    /// Ticks spent falling, used to index the fall curve.
    pub fall_ticks: u32,
}

/// Where a locomotion step sends the player.
#[derive(Debug, PartialEq, Eq, Clone, Copy, Structural)]
pub enum LocomotionTarget {
    Idle,
    Running,
    Jumping(Jumping),
    Falling(Falling),
}

/// Coyote window in ticks: a walk-off jump is still allowed within it.
pub const COYOTE_TIME_TICKS: u32 = 10;

/// Highest fall-curve index used while wall sliding.
pub const WALL_SLIDE_MAX_INDEX: u32 = 13;

/// Ticks during which a wall kick pushes the player away.
pub const WALL_PUSHBACK_TICKS: u32 = 24;

/// Ticks of charge before an auto-dodge roll starts.
pub const AUTO_DODGE_CHARGE_TICKS: u32 = 16;

/// Ticks an auto-dodge roll lasts.
pub const AUTO_DODGE_ROLL_TICKS: u32 = 32;

pub open spec fn spec_jumping_new() -> Jumping {
    Jumping { tick: 0, release_tick: None, jump_count: 1 }
}

pub open spec fn spec_jumping_with_count(jump_count: u8) -> Jumping {
    Jumping { tick: 0, release_tick: None, jump_count }
}

pub open spec fn spec_falling_new() -> Falling {
    Falling { coyote_ticks: 0, from_ground: true, jump_count: 0, wall_slide: None, fall_ticks: 0 }
}

pub open spec fn spec_falling_from_jump(jump_count: u8) -> Falling {
    Falling { coyote_ticks: 0, from_ground: false, jump_count, wall_slide: None, fall_ticks: 0 }
}

impl Jumping {
    /// A first jump.
    pub fn new() -> (j: Jumping)
        ensures
            j == spec_jumping_new(),
    {
        Jumping { tick: 0, release_tick: None, jump_count: 1 }
    }

    /// The `jump_count`-th jump of an airborne sequence.
    pub fn with_count(jump_count: u8) -> (j: Jumping)
        ensures
            j == spec_jumping_with_count(jump_count),
    {
        Jumping { tick: 0, release_tick: None, jump_count }
    }

    /// Same as `new`.
    pub fn default() -> (j: Jumping)
        ensures
            j == spec_jumping_new(),
    {
        Jumping::new()
    }
}

impl Falling {
    /// Falling after walking off the ground: coyote time applies and no jump is used yet.
    pub fn new() -> (f: Falling)
        ensures
            f == spec_falling_new(),
    {
        Falling { coyote_ticks: 0, from_ground: true, jump_count: 0, wall_slide: None, fall_ticks: 0 }
    }

    /// Falling at the end of a jump, keeping the jump count for extra mid-air jumps.
    pub fn from_jump(jump_count: u8) -> (f: Falling)
        ensures
            f == spec_falling_from_jump(jump_count),
    {
        Falling { coyote_ticks: 0, from_ground: false, jump_count, wall_slide: None, fall_ticks: 0 }
    }

    /// Same as `new`.
    pub fn default() -> (f: Falling)
        ensures
            f == spec_falling_new(),
    {
        Falling::new()
    }
}

/// Facing after horizontal input, unless bow auto-aim owns the facing.
pub open spec fn spec_facing_after_input(facing: Facing, sign: MoveDir, locked: bool) -> Facing {
    if locked {
        facing
    } else {
        match sign {
            MoveDir::Left => Facing::Left,
            MoveDir::Right => Facing::Right,
            MoveDir::Neutral => facing,
        }
    }
}

/// Facing after horizontal input, unless bow auto-aim owns the facing.
pub fn facing_after_input(facing: Facing, sign: MoveDir, locked: bool) -> (f: Facing)
    ensures
        f == spec_facing_after_input(facing, sign, locked),
{
    if locked {
        facing
    } else {
        match sign {
            MoveDir::Left => Facing::Left,
            MoveDir::Right => Facing::Right,
            MoveDir::Neutral => facing,
        }
    }
}

/// The facing that points away from a wall.
pub open spec fn spec_away_from(side: WallSide) -> Facing {
    match side {
        WallSide::Left => Facing::Right,
        WallSide::Right => Facing::Left,
    }
}

fn away_from(side: WallSide) -> (f: Facing)
    ensures
        f == spec_away_from(side),
{
    match side {
        WallSide::Left => Facing::Right,
        WallSide::Right => Facing::Left,
    }
}

/// The animation a fall plays as it starts (or as a dash ends mid-fall): the wall slide,
/// facing the wall, or the plain fall.
pub fn falling_enter_animation(wall_slide: Option<WallSide>) -> (a: (&'static str, Option<Facing>))
    ensures
        match wall_slide {
            Some(side) => a.0@ == "anim.player.WallSlide"@ && a.1 == Some(
                match side {
                    WallSide::Left => Facing::Left,
                    WallSide::Right => Facing::Right,
                },
            ),
            None => a.0@ == "anim.player.Fall"@ && a.1 is None,
        },
{
    match wall_slide {
        Some(WallSide::Left) => ("anim.player.WallSlide", Some(Facing::Left)),
        Some(WallSide::Right) => ("anim.player.WallSlide", Some(Facing::Right)),
        None => ("anim.player.Fall", None),
    }
}

// ---------------------------------------------------------------------------
// Idle and Running
// ---------------------------------------------------------------------------

/// Inputs of one grounded locomotion tick.
#[derive(Debug, PartialEq, Eq, Clone, Copy, Structural)]
pub struct GroundedInput {
    pub overrides_locomotion: bool,
    pub grounded: bool,
    /// Sign of the clamped move axis.
    pub move_sign: MoveDir,
    /// A jump was just pressed or is buffered.
    pub jump_requested: bool,
    pub dashing: bool,
    /// A dash strike owns horizontal control.
    pub dash_striking: bool,
    pub left_wall_contact: bool,
    pub right_wall_contact: bool,
    pub facing: Facing,
    /// Bow auto-aim owns the facing.
    pub facing_locked: bool,
}

/// Result of one grounded locomotion tick.
#[derive(Debug, PartialEq, Eq, Clone, Copy, Structural)]
pub struct GroundedStep {
    pub next: Option<LocomotionTarget>,
    pub consume_jump: bool,
    pub horizontal: HorizontalControl,
    pub zero_vertical: bool,
    pub facing: Facing,
}

pub open spec fn spec_grounded_noop(facing: Facing) -> GroundedStep {
    GroundedStep {
        next: None,
        consume_jump: false,
        horizontal: HorizontalControl::Keep,
        zero_vertical: false,
        facing,
    }
}

/// One tick of the Idle state.
pub open spec fn spec_idle_step(i: GroundedInput) -> GroundedStep {
    if i.overrides_locomotion {
        spec_grounded_noop(i.facing)
    } else if !i.grounded {
        GroundedStep { next: Some(LocomotionTarget::Falling(spec_falling_new())), ..spec_grounded_noop(i.facing) }
    } else if i.move_sign != MoveDir::Neutral {
        GroundedStep {
            next: Some(LocomotionTarget::Running),
            facing: spec_facing_after_input(i.facing, i.move_sign, i.facing_locked),
            ..spec_grounded_noop(i.facing)
        }
    } else if i.jump_requested {
        GroundedStep {
            next: Some(LocomotionTarget::Jumping(spec_jumping_new())),
            consume_jump: true,
            ..spec_grounded_noop(i.facing)
        }
    } else if !i.dashing {
        GroundedStep {
            horizontal: HorizontalControl::Zero,
            zero_vertical: true,
            ..spec_grounded_noop(i.facing)
        }
    } else {
        spec_grounded_noop(i.facing)
    }
}

/// One tick of the Idle state: fall when unsupported, run on input, jump on request,
/// otherwise stand still (unless a dash owns the motion).
pub fn idle_step(i: GroundedInput) -> (s: GroundedStep)
    ensures
        s == spec_idle_step(i),
{
    let noop = GroundedStep {
        next: None,
        consume_jump: false,
        horizontal: HorizontalControl::Keep,
        zero_vertical: false,
        facing: i.facing,
    };
    if i.overrides_locomotion {
        return noop;
    }
    if !i.grounded {
        return GroundedStep { next: Some(LocomotionTarget::Falling(Falling::default())), ..noop };
    }
    if i.move_sign != MoveDir::Neutral {
        return GroundedStep {
            next: Some(LocomotionTarget::Running),
            facing: facing_after_input(i.facing, i.move_sign, i.facing_locked),
            ..noop
        };
    }
    if i.jump_requested {
        return GroundedStep {
            next: Some(LocomotionTarget::Jumping(Jumping::new())),
            consume_jump: true,
            ..noop
        };
    }
    if !i.dashing {
        GroundedStep { horizontal: HorizontalControl::Zero, zero_vertical: true, ..noop }
    } else {
        noop
    }
}

/// Whether running in the input direction pushes into a wall.
pub open spec fn spec_hitting_wall(i: GroundedInput) -> bool {
    (i.move_sign == MoveDir::Left && i.left_wall_contact) || (i.move_sign == MoveDir::Right
        && i.right_wall_contact)
}

/// One tick of the Running state.
pub open spec fn spec_running_step(i: GroundedInput) -> GroundedStep {
    let controllable = !i.dash_striking;
    if i.overrides_locomotion {
        spec_grounded_noop(i.facing)
    } else if !i.grounded {
        GroundedStep { next: Some(LocomotionTarget::Falling(spec_falling_new())), ..spec_grounded_noop(i.facing) }
    } else if i.move_sign == MoveDir::Neutral && controllable {
        GroundedStep { next: Some(LocomotionTarget::Idle), ..spec_grounded_noop(i.facing) }
    } else if i.jump_requested {
        GroundedStep {
            next: Some(LocomotionTarget::Jumping(spec_jumping_new())),
            consume_jump: true,
            ..spec_grounded_noop(i.facing)
        }
    } else {
        let moving = i.move_sign != MoveDir::Neutral && controllable && !i.dashing;
        GroundedStep {
            next: None,
            consume_jump: false,
            horizontal: if !moving {
                HorizontalControl::Keep
            } else if spec_hitting_wall(i) {
                HorizontalControl::Zero
            } else {
                HorizontalControl::Drive
            },
            zero_vertical: !i.dashing,
            facing: if moving {
                spec_facing_after_input(i.facing, i.move_sign, i.facing_locked)
            } else {
                i.facing
            },
        }
    }
}

/// One tick of the Running state: fall when unsupported, stop on released input,
/// jump on request, otherwise run (stopping against walls) and stay on the ground.
pub fn running_step(i: GroundedInput) -> (s: GroundedStep)
    ensures
        s == spec_running_step(i),
{
    let noop = GroundedStep {
        next: None,
        consume_jump: false,
        horizontal: HorizontalControl::Keep,
        zero_vertical: false,
        facing: i.facing,
    };
    if i.overrides_locomotion {
        return noop;
    }
    if !i.grounded {
        return GroundedStep { next: Some(LocomotionTarget::Falling(Falling::default())), ..noop };
    }
    let controllable = !i.dash_striking;
    if i.move_sign == MoveDir::Neutral && controllable {
        return GroundedStep { next: Some(LocomotionTarget::Idle), ..noop };
    }
    if i.jump_requested {
        return GroundedStep {
            next: Some(LocomotionTarget::Jumping(Jumping::new())),
            consume_jump: true,
            ..noop
        };
    }
    let mut horizontal = HorizontalControl::Keep;
    let mut facing = i.facing;
    if i.move_sign != MoveDir::Neutral && controllable && !i.dashing {
        let hitting_wall = (i.move_sign == MoveDir::Left && i.left_wall_contact) || (i.move_sign
            == MoveDir::Right && i.right_wall_contact);
        horizontal = if hitting_wall {
            HorizontalControl::Zero
        } else {
            HorizontalControl::Drive
        };
        facing = facing_after_input(i.facing, i.move_sign, i.facing_locked);
    }
    GroundedStep { next: None, consume_jump: false, horizontal, zero_vertical: !i.dashing, facing }
}


// ---------------------------------------------------------------------------
// Jumping
// ---------------------------------------------------------------------------

/// Inputs of one Jumping tick.
#[derive(Debug, PartialEq, Eq, Clone, Copy, Structural)]
pub struct JumpingInput {
    pub overrides_locomotion: bool,
    pub has_pogo: bool,
    pub touching_ceiling: bool,
    pub jump_released: bool,
    /// The player still carries the grounded marker.
    pub grounded_marker: bool,
    /// Within reach of a wall on the left (collider half-width plus tolerance).
    pub near_left_wall: bool,
    /// Within reach of a wall on the right.
    pub near_right_wall: bool,
    /// Move axis pushed past the dead zone.
    pub move_deadzone: MoveDir,
    /// Sign of the clamped move axis.
    pub move_sign: MoveDir,
    pub knockback_active: bool,
    pub facing: Facing,
    pub facing_locked: bool,
}

/// Result of one Jumping tick.
#[derive(Debug, PartialEq, Eq, Clone, Copy, Structural)]
pub struct JumpingStep {
    /// A skill or a pogo owns the motion: nothing changes.
    pub skipped: bool,
    /// Hand-over to Falling.
    pub next: Option<Falling>,
    /// The jump state after this tick.
    pub jumping: Jumping,
    /// Vertical displacement for this tick, in thousandths of a unit.
    pub vertical_milli: Option<i32>,
    /// A wall kick off the given wall starts this tick.
    pub wall_kick: Option<WallSide>,
    pub horizontal: HorizontalControl,
    pub facing: Facing,
    pub remove_grounded: bool,
}

/// The wall kick that starts a jump pressed next to exactly one wall, toward it.
pub open spec fn spec_jump_wall_kick(j: Jumping, i: JumpingInput) -> Option<WallSide> {
    if j.tick == 0 && !i.grounded_marker && (i.near_left_wall != i.near_right_wall)
        && !i.knockback_active && ((i.near_left_wall && i.move_deadzone == MoveDir::Left) || (
    i.near_right_wall && i.move_deadzone == MoveDir::Right)) {
        Some(
            if i.near_left_wall {
                WallSide::Left
            } else {
                WallSide::Right
            },
        )
    } else {
        None
    }
}

pub open spec fn spec_jumping_step(j: Jumping, i: JumpingInput) -> JumpingStep {
    let idle = JumpingStep {
        skipped: false,
        next: None,
        jumping: j,
        vertical_milli: None,
        wall_kick: None,
        horizontal: HorizontalControl::Keep,
        facing: i.facing,
        remove_grounded: false,
    };
    if i.overrides_locomotion || i.has_pogo {
        JumpingStep { skipped: true, ..idle }
    } else if i.touching_ceiling || i.jump_released || j.tick >= JUMP_CURVE_LEN {
        JumpingStep { next: Some(spec_falling_from_jump(j.jump_count)), ..idle }
    } else {
        let kick = spec_jump_wall_kick(j, i);
        let kicked_facing = match kick {
            Some(side) => spec_away_from(side),
            None => i.facing,
        };
        JumpingStep {
            skipped: false,
            next: None,
            jumping: Jumping { tick: (j.tick + 1) as u32, ..j },
            vertical_milli: Some(spec_jump_curve()[j.tick as int] as i32),
            wall_kick: kick,
            horizontal: if i.knockback_active {
                HorizontalControl::Keep
            } else if i.move_sign != MoveDir::Neutral {
                HorizontalControl::Drive
            } else {
                HorizontalControl::Zero
            },
            facing: if !i.knockback_active {
                spec_facing_after_input(kicked_facing, i.move_sign, i.facing_locked)
            } else {
                kicked_facing
            },
            remove_grounded: true,
        }
    }
}

/// Air control while a jump continues: without knockback, holding a direction drives
/// horizontal motion and only a neutral stick stops it; knockback leaves the velocity to
/// the knockback.
pub proof fn lemma_jump_air_control(j: Jumping, i: JumpingInput)
    requires
        !i.overrides_locomotion,
        !i.has_pogo,
        !i.touching_ceiling,
        !i.jump_released,
        j.tick < JUMP_CURVE_LEN,
    ensures
        ({
            let s = spec_jumping_step(j, i);
            &&& s.next is None
            &&& !i.knockback_active ==> (s.horizontal == HorizontalControl::Drive <==> i.move_sign
                != MoveDir::Neutral)
            &&& !i.knockback_active ==> (s.horizontal == HorizontalControl::Zero <==> i.move_sign
                == MoveDir::Neutral)
            &&& i.knockback_active ==> s.horizontal == HorizontalControl::Keep
        }),
{
}

/// One tick of the Jumping state: hand over to Falling on ceiling contact, on release
/// of the jump button or at the end of the ascent curve; otherwise follow the curve,
/// kick off a wall on the first tick, steer in the air and advance the tick.
pub fn jumping_step(j: Jumping, i: JumpingInput) -> (s: JumpingStep)
    ensures
        s == spec_jumping_step(j, i),
{
    let idle = JumpingStep {
        skipped: false,
        next: None,
        jumping: j,
        vertical_milli: None,
        wall_kick: None,
        horizontal: HorizontalControl::Keep,
        facing: i.facing,
        remove_grounded: false,
    };
    if i.overrides_locomotion || i.has_pogo {
        return JumpingStep { skipped: true, ..idle };
    }
    if i.touching_ceiling || i.jump_released || j.tick >= JUMP_CURVE_LEN as u32 {
        return JumpingStep { next: Some(Falling::from_jump(j.jump_count)), ..idle };
    }
    let vertical = jump_velocity_milli(j.tick);
    let mut kick: Option<WallSide> = None;
    let mut facing = i.facing;
    if j.tick == 0 && !i.grounded_marker {
        let pressing_left = i.move_deadzone == MoveDir::Left;
        let pressing_right = i.move_deadzone == MoveDir::Right;
        if (i.near_left_wall != i.near_right_wall) && !i.knockback_active && ((i.near_left_wall
            && pressing_left) || (i.near_right_wall && pressing_right)) {
            let side = if i.near_left_wall {
                WallSide::Left
            } else {
                WallSide::Right
            };
            kick = Some(side);
            facing = away_from(side);
        }
    }
    let mut horizontal = HorizontalControl::Keep;
    if !i.knockback_active {
        if i.move_sign != MoveDir::Neutral {
            horizontal = HorizontalControl::Drive;
            facing = facing_after_input(facing, i.move_sign, i.facing_locked);
        } else {
            horizontal = HorizontalControl::Zero;
        }
    }
    JumpingStep {
        skipped: false,
        next: None,
        jumping: Jumping { tick: j.tick + 1, ..j },
        vertical_milli: Some(vertical),
        wall_kick: kick,
        horizontal,
        facing,
        remove_grounded: true,
    }
}

// ---------------------------------------------------------------------------
// Falling
// ---------------------------------------------------------------------------

/// Inputs of one Falling tick.
#[derive(Debug, PartialEq, Eq, Clone, Copy, Structural)]
pub struct FallingInput {
    pub has_pogo: bool,
    pub overrides_locomotion: bool,
    /// Vertical velocity is negative.
    pub moving_down: bool,
    /// Move axis pushed past the dead zone.
    pub move_deadzone: MoveDir,
    /// Sign of the clamped move axis.
    pub move_sign: MoveDir,
    pub left_wall_contact: bool,
    pub right_wall_contact: bool,
    /// The ground is reached this tick.
    pub grounded: bool,
    /// A jump was just pressed or is buffered.
    pub jump_requested: bool,
    /// Bonus mid-air jumps granted by stat modifiers.
    pub extra_jumps: u8,
    pub dashing: bool,
    pub facing: Facing,
    pub facing_locked: bool,
}

/// Result of one Falling tick.
#[derive(Debug, PartialEq, Eq, Clone, Copy, Structural)]
pub struct FallingStep {
    /// A skill or a pogo owns the motion: nothing changes.
    pub skipped: bool,
    /// The fall state after this tick.
    pub falling: Falling,
    /// A wall slide on the given wall started this tick.
    pub wall_slide_started: Option<WallSide>,
    /// The wall slide ended this tick.
    pub wall_slide_ended: bool,
    pub next: Option<LocomotionTarget>,
    pub consume_jump: bool,
    /// A wall jump kicks off the given wall.
    pub wall_kick: Option<WallSide>,
    /// Vertical displacement for this tick, in thousandths of a unit.
    pub vertical_milli: Option<i32>,
    pub horizontal: HorizontalControl,
    pub facing: Facing,
}

/// Whether the player slides down a wall this tick.
pub open spec fn spec_should_wall_slide(i: FallingInput) -> bool {
    i.moving_down && ((i.move_deadzone == MoveDir::Left && i.left_wall_contact) || (
    i.move_deadzone == MoveDir::Right && i.right_wall_contact))
}

/// Number of jumps allowed in one airborne sequence: the initial jump, one mid-air
/// jump, and the bonus jumps.
pub open spec fn spec_allowed_jumps(extra_jumps: u8) -> int {
    2 + extra_jumps
}

/// The fall state after the wall-slide check of a tick.
pub open spec fn spec_falling_after_slide_check(f: Falling, i: FallingInput) -> Falling {
    if spec_should_wall_slide(i) && f.wall_slide is None {
        Falling {
            wall_slide: Some(
                if i.move_deadzone == MoveDir::Left && i.left_wall_contact {
                    WallSide::Left
                } else {
                    WallSide::Right
                },
            ),
            fall_ticks: if f.fall_ticks > WALL_SLIDE_MAX_INDEX {
                WALL_SLIDE_MAX_INDEX
            } else {
                f.fall_ticks
            },
            ..f
        }
    } else if !spec_should_wall_slide(i) && f.wall_slide is Some {
        Falling { wall_slide: None, ..f }
    } else {
        f
    }
}

/// The jump a Falling tick starts, if any (with the jump requested).
pub open spec fn spec_falling_jump(f: Falling, i: FallingInput) -> Option<Jumping> {
    if !i.jump_requested {
        None
    } else if f.wall_slide is Some {
        Some(spec_jumping_new())
    } else if f.from_ground && f.coyote_ticks < COYOTE_TIME_TICKS {
        Some(spec_jumping_new())
    } else if !f.from_ground && f.jump_count < spec_allowed_jumps(i.extra_jumps) {
        Some(spec_jumping_with_count((f.jump_count + 1) as u8))
    } else {
        None
    }
}

/// Whether a Falling tick counts the jumps allowed in the air (a jump requested in
/// mid-air after a jump, with no landing and no wall slide).
pub open spec fn spec_counts_mid_air_jump(f0: Falling, i: FallingInput) -> bool {
    let f = spec_falling_after_slide_check(f0, i);
    !i.has_pogo && !i.overrides_locomotion && !i.grounded && i.jump_requested && f.wall_slide is None
        && !f.from_ground
}

pub open spec fn spec_falling_step(f0: Falling, i: FallingInput) -> FallingStep {
    let idle = FallingStep {
        skipped: false,
        falling: f0,
        wall_slide_started: None,
        wall_slide_ended: false,
        next: None,
        consume_jump: false,
        wall_kick: None,
        vertical_milli: None,
        horizontal: HorizontalControl::Keep,
        facing: i.facing,
    };
    if i.has_pogo || i.overrides_locomotion {
        FallingStep { skipped: true, ..idle }
    } else {
        let f = spec_falling_after_slide_check(f0, i);
        let started = if f0.wall_slide is None && f.wall_slide is Some {
            f.wall_slide
        } else {
            None
        };
        let ended = f0.wall_slide is Some && f.wall_slide is None;
        let base = FallingStep {
            falling: f,
            wall_slide_started: started,
            wall_slide_ended: ended,
            ..idle
        };
        if i.grounded {
            FallingStep {
                next: Some(
                    if i.move_deadzone != MoveDir::Neutral {
                        LocomotionTarget::Running
                    } else {
                        LocomotionTarget::Idle
                    },
                ),
                ..base
            }
        } else if spec_falling_jump(f, i) is Some {
            let kick = match f.wall_slide {
                Some(side) => if (side == WallSide::Left && i.move_deadzone == MoveDir::Left) || (
                side == WallSide::Right && i.move_deadzone == MoveDir::Right) {
                    Some(side)
                } else {
                    None
                },
                None => None,
            };
            FallingStep {
                next: Some(LocomotionTarget::Jumping(spec_falling_jump(f, i).unwrap())),
                consume_jump: true,
                wall_kick: kick,
                facing: match kick {
                    Some(side) => spec_away_from(side),
                    None => i.facing,
                },
                ..base
            }
        } else {
            let sliding = f.wall_slide is Some;
            let index = if sliding {
                if f.fall_ticks < WALL_SLIDE_MAX_INDEX {
                    f.fall_ticks
                } else {
                    WALL_SLIDE_MAX_INDEX
                }
            } else if f.fall_ticks < FALL_CURVE_LEN - 1 {
                f.fall_ticks
            } else {
                (FALL_CURVE_LEN - 1) as u32
            };
            let limit = if sliding {
                WALL_SLIDE_MAX_INDEX
            } else {
                (FALL_CURVE_LEN - 1) as u32
            };
            FallingStep {
                falling: Falling {
                    coyote_ticks: (f.coyote_ticks + 1) as u32,
                    fall_ticks: if f.fall_ticks < limit {
                        (f.fall_ticks + 1) as u32
                    } else {
                        f.fall_ticks
                    },
                    ..f
                },
                vertical_milli: Some(spec_fall_curve()[index as int] as i32),
                horizontal: if sliding {
                    HorizontalControl::Zero
                } else if i.move_sign != MoveDir::Neutral {
                    HorizontalControl::Drive
                } else if !i.dashing {
                    HorizontalControl::Zero
                } else {
                    HorizontalControl::Keep
                },
                facing: match f.wall_slide {
                    Some(side) => spec_away_from(side),
                    None => spec_facing_after_input(i.facing, i.move_sign, i.facing_locked),
                },
                ..base
            }
        }
    }
}

/// One tick of the Falling state: enter or leave a wall slide, land (running or idle by
/// input), jump (wall jump, coyote jump, or an allowed mid-air jump), or keep falling
/// along the fall curve (the early part of it while wall sliding) with air control.
pub fn falling_step(f0: Falling, i: FallingInput) -> (s: FallingStep)
    requires
        f0.coyote_ticks < u32::MAX,
        spec_counts_mid_air_jump(f0, i) ==> i.extra_jumps <= 253,
    ensures
        s == spec_falling_step(f0, i),
{
    let idle = FallingStep {
        skipped: false,
        falling: f0,
        wall_slide_started: None,
        wall_slide_ended: false,
        next: None,
        consume_jump: false,
        wall_kick: None,
        vertical_milli: None,
        horizontal: HorizontalControl::Keep,
        facing: i.facing,
    };
    if i.has_pogo || i.overrides_locomotion {
        return FallingStep { skipped: true, ..idle };
    }
    let mut f = f0;
    let should_wall_slide = i.moving_down && ((i.move_deadzone == MoveDir::Left
        && i.left_wall_contact) || (i.move_deadzone == MoveDir::Right && i.right_wall_contact));
    let mut started: Option<WallSide> = None;
    let mut ended = false;
    if should_wall_slide && f.wall_slide.is_none() {
        let side = if i.move_deadzone == MoveDir::Left && i.left_wall_contact {
            WallSide::Left
        } else {
            WallSide::Right
        };
        f.wall_slide = Some(side);
        if f.fall_ticks > WALL_SLIDE_MAX_INDEX {
            f.fall_ticks = WALL_SLIDE_MAX_INDEX;
        }
        started = Some(side);
    } else if !should_wall_slide && f.wall_slide.is_some() {
        f.wall_slide = None;
        ended = true;
    }
    assert(f == spec_falling_after_slide_check(f0, i));
    let base = FallingStep {
        falling: f,
        wall_slide_started: started,
        wall_slide_ended: ended,
        ..idle
    };
    if i.grounded {
        let target = if i.move_deadzone != MoveDir::Neutral {
            LocomotionTarget::Running
        } else {
            LocomotionTarget::Idle
        };
        return FallingStep { next: Some(target), ..base };
    }
    if i.jump_requested {
        match f.wall_slide {
            Some(side) => {
                let pressing_into_wall = match side {
                    WallSide::Left => i.move_deadzone == MoveDir::Left,
                    WallSide::Right => i.move_deadzone == MoveDir::Right,
                };
                let (kick, facing) = if pressing_into_wall {
                    (Some(side), away_from(side))
                } else {
                    (None, i.facing)
                };
                return FallingStep {
                    next: Some(LocomotionTarget::Jumping(Jumping::new())),
                    consume_jump: true,
                    wall_kick: kick,
                    facing,
                    ..base
                };
            },
            None => {
                if f.from_ground && f.coyote_ticks < COYOTE_TIME_TICKS {
                    return FallingStep {
                        next: Some(LocomotionTarget::Jumping(Jumping::new())),
                        consume_jump: true,
                        ..base
                    };
                } else if !f.from_ground {
                    let allowed: u8 = 2 + i.extra_jumps;
                    if f.jump_count < allowed {
                        let next_count: u8 = f.jump_count + 1;
                        return FallingStep {
                            next: Some(LocomotionTarget::Jumping(Jumping::with_count(next_count))),
                            consume_jump: true,
                            ..base
                        };
                    }
                }
            },
        }
    }
    let sliding = f.wall_slide.is_some();
    let max_index: u32 = (FALL_CURVE_LEN - 1) as u32;
    let index = if sliding {
        if f.fall_ticks < WALL_SLIDE_MAX_INDEX {
            f.fall_ticks
        } else {
            WALL_SLIDE_MAX_INDEX
        }
    } else if f.fall_ticks < max_index {
        f.fall_ticks
    } else {
        max_index
    };
    let vertical = fall_velocity_milli(index);
    let horizontal;
    let facing;
    match f.wall_slide {
        Some(side) => {
            horizontal = HorizontalControl::Zero;
            facing = away_from(side);
        },
        None => {
            horizontal = if i.move_sign != MoveDir::Neutral {
                HorizontalControl::Drive
            } else if !i.dashing {
                HorizontalControl::Zero
            } else {
                HorizontalControl::Keep
            };
            facing = facing_after_input(i.facing, i.move_sign, i.facing_locked);
        },
    }
    let limit = if sliding {
        WALL_SLIDE_MAX_INDEX
    } else {
        max_index
    };
    let next_fall_ticks = if f.fall_ticks < limit {
        f.fall_ticks + 1
    } else {
        f.fall_ticks
    };
    FallingStep {
        falling: Falling { coyote_ticks: f.coyote_ticks + 1, fall_ticks: next_fall_ticks, ..f },
        vertical_milli: Some(vertical),
        horizontal,
        facing,
        ..base
    }
}


// ---------------------------------------------------------------------------
// Laws
// ---------------------------------------------------------------------------

/// The fall-curve bounds of the Falling state: the tick index stays within the curve,
/// and within its early part while wall sliding.
pub open spec fn spec_falling_in_bounds(f: Falling) -> bool {
    &&& f.fall_ticks < FALL_CURVE_LEN
    &&& f.wall_slide is Some ==> f.fall_ticks <= WALL_SLIDE_MAX_INDEX
}

/// Every Falling tick keeps the fall-curve bounds; the fall counter never goes back
/// except when a wall slide starts, which clamps it to the slide's last index; and a tick
/// that keeps falling along a wall stops horizontal motion and faces away from the wall.
pub proof fn lemma_falling_keeps_curve_bounds(f0: Falling, i: FallingInput)
    requires
        spec_falling_in_bounds(f0),
    ensures
        spec_falling_in_bounds(spec_falling_step(f0, i).falling),
        ({
            let s = spec_falling_step(f0, i);
            s.falling.fall_ticks >= f0.fall_ticks || (s.wall_slide_started is Some
                && s.falling.fall_ticks == WALL_SLIDE_MAX_INDEX)
        }),
        ({
            let s = spec_falling_step(f0, i);
            !i.has_pogo && !i.overrides_locomotion && s.next is None ==> match s.falling.wall_slide {
                Some(side) => s.horizontal == HorizontalControl::Zero && s.facing == spec_away_from(
                    side,
                ),
                None => true,
            }
        }),
{
}

/// Air control while falling freely (no landing, no jump, no wall slide): holding a
/// direction drives horizontal motion; a neutral stick stops it, unless a dash is
/// carrying the player, which keeps its velocity.
pub proof fn lemma_falling_air_control(f0: Falling, i: FallingInput)
    requires
        !i.has_pogo,
        !i.overrides_locomotion,
        !i.grounded,
    ensures
        ({
            let s = spec_falling_step(f0, i);
            s.next is None && s.falling.wall_slide is None ==> {
                &&& (s.horizontal == HorizontalControl::Drive <==> i.move_sign != MoveDir::Neutral)
                &&& (s.horizontal == HorizontalControl::Zero <==> i.move_sign == MoveDir::Neutral
                    && !i.dashing)
                &&& (s.horizontal == HorizontalControl::Keep <==> i.move_sign == MoveDir::Neutral
                    && i.dashing)
            }
        }),
{
}

/// A mid-air jump never exceeds the jump allowance (the initial jump, one mid-air
/// jump and the bonus jumps), and a walk-off jump is only granted inside the coyote
/// window or from a wall slide.
pub proof fn lemma_air_jump_budget(f0: Falling, i: FallingInput)
    ensures
        ({
            let f = spec_falling_after_slide_check(f0, i);
            match spec_falling_jump(f, i) {
                Some(j) => {
                    &&& f.wall_slide is None && !f.from_ground ==> j.jump_count <= spec_allowed_jumps(
                        i.extra_jumps,
                    )
                    &&& f.wall_slide is None && f.from_ground ==> f.coyote_ticks < COYOTE_TIME_TICKS
                    &&& f.wall_slide is Some || f.from_ground ==> j == spec_jumping_new()
                },
                None => true,
            }
        }),
{
}

/// A jump never lasts past its ascent curve: from the curve's end on (or on ceiling
/// contact or release) the next tick hands over to Falling with the jump count kept.
pub proof fn lemma_jump_hands_over(j: Jumping, i: JumpingInput)
    requires
        !i.overrides_locomotion && !i.has_pogo,
        j.tick >= JUMP_CURVE_LEN || i.touching_ceiling || i.jump_released,
    ensures
        spec_jumping_step(j, i).next == Some(spec_falling_from_jump(j.jump_count)),
{
}

/// While a jump continues, its tick advances by exactly one and the count is kept.
pub proof fn lemma_jump_tick_advances(j: Jumping, i: JumpingInput)
    requires
        !i.overrides_locomotion && !i.has_pogo,
        !i.touching_ceiling && !i.jump_released,
        j.tick < JUMP_CURVE_LEN,
    ensures
        spec_jumping_step(j, i).next is None,
        spec_jumping_step(j, i).jumping.tick == j.tick + 1,
        spec_jumping_step(j, i).jumping.jump_count == j.jump_count,
{
}

/// Landing always leaves Falling for Running or Idle, by whether the stick is pushed.
pub proof fn lemma_landing(f0: Falling, i: FallingInput)
    requires
        !i.has_pogo && !i.overrides_locomotion,
        i.grounded,
    ensures
        spec_falling_step(f0, i).next == Some(
            if i.move_deadzone != MoveDir::Neutral {
                LocomotionTarget::Running
            } else {
                LocomotionTarget::Idle
            },
        ),
        !spec_falling_step(f0, i).consume_jump,
{
}


// ---------------------------------------------------------------------------
// Auto-dodge while running
// ---------------------------------------------------------------------------

/// A running sub-state: a short roll that lets the player pass through enemies.
#[derive(Debug, PartialEq, Eq, Clone, Copy, Structural)]
pub struct AutoDodgeRolling {
    pub tick: u32,
}

/// Charge toward an auto-dodge roll.
#[derive(Debug, PartialEq, Eq, Clone, Copy, Structural)]
pub struct AutoDodgeCharge {
    pub ticks: u32,
}

impl AutoDodgeRolling {
    pub fn default() -> (r: AutoDodgeRolling)
        ensures
            r.tick == 0,
    {
        AutoDodgeRolling { tick: 0 }
    }
}

impl AutoDodgeCharge {
    pub fn default() -> (c: AutoDodgeCharge)
        ensures
            c.ticks == 0,
    {
        AutoDodgeCharge { ticks: 0 }
    }
}

/// The auto-dodge components present on a running player.
#[derive(Debug, PartialEq, Eq, Clone, Copy, Structural)]
pub struct AutoDodge {
    pub charge: Option<AutoDodgeCharge>,
    pub rolling: Option<AutoDodgeRolling>,
}

/// Inputs of one auto-dodge tick.
#[derive(Debug, PartialEq, Eq, Clone, Copy, Structural)]
pub struct AutoDodgeInput {
    pub overrides_locomotion: bool,
    /// The move axis is not at rest.
    pub moving: bool,
    pub grounded: bool,
    /// The player is in the Ready action state.
    pub ready: bool,
    /// An enemy blocks the way ahead.
    pub blocking_enemy_ahead: bool,
}

pub open spec fn spec_sat_inc(x: u32) -> u32 {
    if x == u32::MAX {
        x
    } else {
        (x + 1) as u32
    }
}

pub open spec fn spec_auto_dodge_step(d: AutoDodge, i: AutoDodgeInput) -> AutoDodge {
    if i.overrides_locomotion {
        AutoDodge { charge: None, rolling: None }
    } else if d.rolling is Some {
        let t = spec_sat_inc(d.rolling.unwrap().tick);
        AutoDodge {
            charge: d.charge,
            rolling: if !i.moving || !i.grounded || t >= AUTO_DODGE_ROLL_TICKS {
                None
            } else {
                Some(AutoDodgeRolling { tick: t })
            },
        }
    } else if i.ready && i.moving && i.grounded && i.blocking_enemy_ahead {
        let ticks = match d.charge {
            Some(c) => spec_sat_inc(c.ticks),
            None => 1,
        };
        if ticks >= AUTO_DODGE_CHARGE_TICKS {
            AutoDodge { charge: None, rolling: Some(AutoDodgeRolling { tick: 0 }) }
        } else {
            AutoDodge { charge: Some(AutoDodgeCharge { ticks }), rolling: None }
        }
    } else {
        AutoDodge { charge: None, rolling: None }
    }
}

/// One tick of the auto-dodge lifecycle: a roll runs while moving on the ground for
/// up to its length; otherwise charge builds while an enemy blocks the way in the Ready
/// state and turns into a roll when full; anything else clears the charge.
pub fn auto_dodge_step(d: AutoDodge, i: AutoDodgeInput) -> (n: AutoDodge)
    ensures
        n == spec_auto_dodge_step(d, i),
{
    if i.overrides_locomotion {
        return AutoDodge { charge: None, rolling: None };
    }
    match d.rolling {
        Some(roll) => {
            let rolling = if !i.moving || !i.grounded {
                None
            } else {
                let t = roll.tick.saturating_add(1);
                if t >= AUTO_DODGE_ROLL_TICKS {
                    None
                } else {
                    Some(AutoDodgeRolling { tick: t })
                }
            };
            AutoDodge { charge: d.charge, rolling }
        },
        None => {
            if i.ready && i.moving && i.grounded && i.blocking_enemy_ahead {
                let ticks = match d.charge {
                    Some(c) => c.ticks.saturating_add(1),
                    None => 1,
                };
                if ticks >= AUTO_DODGE_CHARGE_TICKS {
                    AutoDodge { charge: None, rolling: Some(AutoDodgeRolling::default()) }
                } else {
                    AutoDodge { charge: Some(AutoDodgeCharge { ticks }), rolling: None }
                }
            } else {
                AutoDodge { charge: None, rolling: None }
            }
        },
    }
}

/// A roll ends within its length: its tick stays below the roll length, and a player
/// that is not rolling never charges and rolls at once.
pub proof fn lemma_auto_dodge_bounds(d: AutoDodge, i: AutoDodgeInput)
    requires
        d.rolling is Some ==> d.rolling.unwrap().tick < AUTO_DODGE_ROLL_TICKS,
        !(d.charge is Some && d.rolling is Some),
    ensures
        ({
            let n = spec_auto_dodge_step(d, i);
            &&& n.rolling is Some ==> n.rolling.unwrap().tick < AUTO_DODGE_ROLL_TICKS
            &&& !(n.charge is Some && n.rolling is Some)
            &&& n.charge is Some ==> n.charge.unwrap().ticks < AUTO_DODGE_CHARGE_TICKS
        }),
{
}

/// A charge started from nothing turns into a roll on the sixteenth blocked tick in a row.
pub proof fn lemma_auto_dodge_charge_length(c: u32, i: AutoDodgeInput)
    requires
        !i.overrides_locomotion && i.ready && i.moving && i.grounded && i.blocking_enemy_ahead,
        1 <= c < AUTO_DODGE_CHARGE_TICKS,
    ensures
        spec_auto_dodge_step(
            AutoDodge { charge: Some(AutoDodgeCharge { ticks: c }), rolling: None },
            i,
        ).rolling is Some <==> c == AUTO_DODGE_CHARGE_TICKS - 1,
        spec_auto_dodge_step(AutoDodge { charge: None, rolling: None }, i).charge == Some(
            AutoDodgeCharge { ticks: 1 },
        ),
{
}

} // verus!
