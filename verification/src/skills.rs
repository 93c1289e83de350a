use vstd::prelude::*;

use crate::locomotion::{
    spec_falling_from_jump, Facing, Falling, HorizontalControl, MoveDir, facing_after_input,
    spec_facing_after_input,
};
use crate::motion_tables::{pogo_velocity_milli, spec_pogo_curve, POGO_CURVE_LEN};
use crate::weapon::{PlayerMeleeWeapon, PlayerRangedWeapon, PushbackValues};

verus! {

/// The weapon an action state uses.
#[derive(Debug, PartialEq, Eq, Clone, Copy, Hash, Structural)]
pub enum WeaponType {
    Sword,
    Hammer,
    Bow,
}

/// The weapon kind that skill tables are keyed by.
#[derive(Debug, PartialEq, Eq, Clone, Copy, Hash, Structural)]
pub enum SkillWeaponKind {
    Sword,
    Hammer,
    Bow,
}

/// Direction of a melee attack.
#[derive(Debug, PartialEq, Eq, Clone, Copy, Hash, Structural)]
pub enum AttackVariant {
    Forward,
    Up,
    Down,
}

/// Direction variant of a skill (used by the dash strike).
#[derive(Debug, PartialEq, Eq, Clone, Copy, Hash, Structural)]
pub enum SkillVariant {
    Forward,
    Up,
    Down,
}

impl WeaponType {
    pub open spec fn spec_is_melee(self) -> bool {
        self == WeaponType::Sword || self == WeaponType::Hammer
    }

    /// Sword and hammer are melee weapons; the bow is not.
    pub fn is_melee(&self) -> (b: bool)
        ensures
            b == self.spec_is_melee(),
    {
        match self {
            WeaponType::Sword | WeaponType::Hammer => true,
            WeaponType::Bow => false,
        }
    }
}

impl From<SkillWeaponKind> for WeaponType {
    fn from(value: SkillWeaponKind) -> (w: WeaponType) {
        match value {
            SkillWeaponKind::Sword => WeaponType::Sword,
            SkillWeaponKind::Hammer => WeaponType::Hammer,
            SkillWeaponKind::Bow => WeaponType::Bow,
        }
    }
}

impl vstd::std_specs::convert::FromSpecImpl<SkillWeaponKind> for WeaponType {
    open spec fn obeys_from_spec() -> bool {
        true
    }

    open spec fn from_spec(v: SkillWeaponKind) -> WeaponType {
        match v {
            SkillWeaponKind::Sword => WeaponType::Sword,
            SkillWeaponKind::Hammer => WeaponType::Hammer,
            SkillWeaponKind::Bow => WeaponType::Bow,
        }
    }
}

impl From<WeaponType> for SkillWeaponKind {
    fn from(value: WeaponType) -> (k: SkillWeaponKind) {
        match value {
            WeaponType::Sword => SkillWeaponKind::Sword,
            WeaponType::Hammer => SkillWeaponKind::Hammer,
            WeaponType::Bow => SkillWeaponKind::Bow,
        }
    }
}

impl vstd::std_specs::convert::FromSpecImpl<WeaponType> for SkillWeaponKind {
    open spec fn obeys_from_spec() -> bool {
        true
    }

    open spec fn from_spec(v: WeaponType) -> SkillWeaponKind {
        match v {
            WeaponType::Sword => SkillWeaponKind::Sword,
            WeaponType::Hammer => SkillWeaponKind::Hammer,
            WeaponType::Bow => SkillWeaponKind::Bow,
        }
    }
}


/// Weapon conversions to and from the skill-table kind are inverse to each other.
pub proof fn lemma_weapon_kind_roundtrip(w: WeaponType, k: SkillWeaponKind)
    ensures
        <SkillWeaponKind as vstd::std_specs::convert::FromSpec<WeaponType>>::from_spec(
            <WeaponType as vstd::std_specs::convert::FromSpec<SkillWeaponKind>>::from_spec(k),
        ) == k,
        <WeaponType as vstd::std_specs::convert::FromSpec<SkillWeaponKind>>::from_spec(
            <SkillWeaponKind as vstd::std_specs::convert::FromSpec<WeaponType>>::from_spec(w),
        ) == w,
{
}

// ---------------------------------------------------------------------------
// Attacking
// ---------------------------------------------------------------------------

/// The attack action state.
#[derive(Debug, PartialEq, Eq, Clone, Copy, Structural)]
pub struct Attacking {
    pub tick: u32,
    pub variant: AttackVariant,
    pub weapon_type: WeaponType,
    pub followup: bool,
    /// Auto-aim flipped the facing for this attack.
    pub auto_aim_flipped: bool,
    /// Lifetime provided by the attack skill, if any.
    pub max_ticks: Option<u32>,
}

impl Attacking {
    /// A fresh attack of the given variant and weapon.
    pub fn new(variant: AttackVariant, weapon_type: WeaponType) -> (a: Attacking)
        ensures
            a == (Attacking {
                tick: 0,
                variant,
                weapon_type,
                followup: false,
                auto_aim_flipped: false,
                max_ticks: None,
            }),
    {
        Attacking { tick: 0, variant, weapon_type, followup: false, auto_aim_flipped: false, max_ticks: None }
    }

    /// A forward sword attack.
    pub fn default() -> (a: Attacking)
        ensures
            a == (Attacking {
                tick: 0,
                variant: AttackVariant::Forward,
                weapon_type: WeaponType::Sword,
                followup: false,
                auto_aim_flipped: false,
                max_ticks: None,
            }),
    {
        Attacking::new(AttackVariant::Forward, WeaponType::Sword)
    }

    /// The same attack with a skill-provided lifetime.
    pub fn with_max_ticks(self, max_ticks: u32) -> (a: Attacking)
        ensures
            a == (Attacking { max_ticks: Some(max_ticks), ..self }),
    {
        let mut a = self;
        a.max_ticks = Some(max_ticks);
        a
    }
}

/// Result of one Attacking tick.
#[derive(Debug, PartialEq, Eq, Clone, Copy, Structural)]
pub struct AttackStep {
    pub attacking: Attacking,
    /// The attack is over: hand back to Ready.
    pub finished: bool,
    /// Stop the player on the way out (a pogo keeps its own motion).
    pub zero_velocity: bool,
}

/// Lifetime of an attack: the skill-provided one, else the active window of its variant.
pub open spec fn spec_attack_duration(a: Attacking, default_window: u32) -> u32 {
    match a.max_ticks {
        Some(t) => t,
        None => default_window,
    }
}

pub open spec fn spec_attack_step(a: Attacking, default_window: u32, has_pogo: bool) -> AttackStep {
    let next = Attacking { tick: (a.tick + 1) as u32, ..a };
    let finished = next.tick >= spec_attack_duration(a, default_window);
    AttackStep { attacking: next, finished, zero_velocity: finished && !has_pogo }
}

/// One Attacking tick: advance the tick and finish once it reaches the attack's lifetime.
/// `default_window` is the active window of the attack's variant in the skill tables.
pub fn attack_step(a: Attacking, default_window: u32, has_pogo: bool) -> (s: AttackStep)
    requires
        a.tick < u32::MAX,
    ensures
        s == spec_attack_step(a, default_window, has_pogo),
{
    let mut next = a;
    next.tick = a.tick + 1;
    let duration = match a.max_ticks {
        Some(t) => t,
        None => default_window,
    };
    let finished = next.tick >= duration;
    AttackStep { attacking: next, finished, zero_velocity: finished && !has_pogo }
}

/// What the proximity sensors report for melee auto-aim.
#[derive(Debug, PartialEq, Eq, Clone, Copy, Structural)]
pub struct AutoAimView {
    /// Some enemy in melee range lies in the facing direction.
    pub enemy_forward: bool,
    /// Some enemy in melee range lies above, within the horizontal leeway.
    pub enemy_above: bool,
    /// Some enemy in melee range lies below, within the horizontal leeway.
    pub enemy_below: bool,
}

pub open spec fn spec_melee_auto_aim(requested: AttackVariant, v: AutoAimView) -> AttackVariant {
    if requested == AttackVariant::Up || requested == AttackVariant::Down {
        requested
    } else if v.enemy_forward {
        AttackVariant::Forward
    } else if v.enemy_above {
        AttackVariant::Up
    } else if v.enemy_below {
        AttackVariant::Down
    } else {
        AttackVariant::Forward
    }
}

/// Melee auto-aim: an explicit up or down request always stands; otherwise attack
/// forward when an enemy is ahead, else up or down toward an enemy, else forward.
pub fn melee_auto_aim(requested: AttackVariant, v: AutoAimView) -> (r: AttackVariant)
    ensures
        r == spec_melee_auto_aim(requested, v),
{
    match requested {
        AttackVariant::Up | AttackVariant::Down => requested,
        AttackVariant::Forward => {
            if v.enemy_forward {
                AttackVariant::Forward
            } else if v.enemy_above {
                AttackVariant::Up
            } else if v.enemy_below {
                AttackVariant::Down
            } else {
                AttackVariant::Forward
            }
        },
    }
}

/// The sensor flags the airborne downward override reads.
#[derive(Debug, PartialEq, Eq, Clone, Copy, Structural)]
pub struct ProximityView {
    pub has_forward_enemy: bool,
    pub has_enemy_below: bool,
}

pub open spec fn spec_attack_variant_on_enter(
    requested: AttackVariant,
    weapon: WeaponType,
    sensor: Option<(AutoAimView, ProximityView)>,
    airborne: bool,
) -> AttackVariant {
    if !weapon.spec_is_melee() {
        requested
    } else {
        match sensor {
            None => requested,
            Some((aim, prox)) => if airborne && !prox.has_forward_enemy && prox.has_enemy_below {
                AttackVariant::Down
            } else {
                spec_melee_auto_aim(requested, aim)
            },
        }
    }
}

/// The variant an attack settles on when it starts: melee attacks are auto-aimed when a
/// proximity sensor is present, and an airborne melee attack strikes down when an enemy
/// is below and none is ahead; ranged attacks keep the requested variant.
pub fn attack_variant_on_enter(
    requested: AttackVariant,
    weapon: WeaponType,
    sensor: Option<(AutoAimView, ProximityView)>,
    airborne: bool,
) -> (r: AttackVariant)
    ensures
        r == spec_attack_variant_on_enter(requested, weapon, sensor, airborne),
{
    if !weapon.is_melee() {
        return requested;
    }
    match sensor {
        None => requested,
        Some((aim, prox)) => {
            let variant = melee_auto_aim(requested, aim);
            if airborne && !prox.has_forward_enemy && prox.has_enemy_below {
                AttackVariant::Down
            } else {
                variant
            }
        },
    }
}

/// An explicit up or down attack is never redirected by auto-aim.
pub proof fn lemma_auto_aim_respects_explicit(requested: AttackVariant, v: AutoAimView)
    ensures
        requested != AttackVariant::Forward ==> spec_melee_auto_aim(requested, v) == requested,
        v.enemy_forward ==> spec_melee_auto_aim(AttackVariant::Forward, v) == AttackVariant::Forward,
{
}

/// A forward melee swing turns toward an enemy when there is none ahead: up when one is
/// above, otherwise down when one is below; it stays forward only when an enemy is ahead
/// or there is nothing above or below to aim at. The same holds when an attack starts
/// with a melee weapon and a sensor (on the ground, or in the air with an enemy ahead or
/// none below).
pub proof fn lemma_auto_aim_finds_enemy(
    v: AutoAimView,
    weapon: WeaponType,
    prox: ProximityView,
    airborne: bool,
)
    ensures
        !v.enemy_forward && v.enemy_above ==> spec_melee_auto_aim(AttackVariant::Forward, v)
            == AttackVariant::Up,
        !v.enemy_forward && !v.enemy_above && v.enemy_below ==> spec_melee_auto_aim(
            AttackVariant::Forward,
            v,
        ) == AttackVariant::Down,
        spec_melee_auto_aim(AttackVariant::Forward, v) == AttackVariant::Forward ==> v.enemy_forward
            || (!v.enemy_above && !v.enemy_below),
        weapon.spec_is_melee() && !(airborne && !prox.has_forward_enemy && prox.has_enemy_below)
            ==> spec_attack_variant_on_enter(AttackVariant::Forward, weapon, Some((v, prox)), airborne)
            == spec_melee_auto_aim(AttackVariant::Forward, v),
        weapon.spec_is_melee() && airborne && !prox.has_forward_enemy && prox.has_enemy_below
            ==> spec_attack_variant_on_enter(AttackVariant::Forward, weapon, Some((v, prox)), airborne)
            == AttackVariant::Down,
{
}

/// The animation keys of a weapon's attack, from the skill tables.
#[derive(Debug, Clone, Copy)]
pub struct AttackAnimations {
    pub idle: &'static str,
    pub run: &'static str,
    pub air: &'static str,
}

/// The attack animation that plays: the airborne one in the air, else the running one
/// while running, else the standing one.
pub fn get_attack_animation_key(animations: &AttackAnimations, is_running: bool, is_airborne: bool) -> (key:
    &'static str)
    ensures
        key@ == (if is_airborne {
            animations.air@
        } else if is_running {
            animations.run@
        } else {
            animations.idle@
        }),
{
    if is_airborne {
        animations.air
    } else if is_running {
        animations.run
    } else {
        animations.idle
    }
}

/// Ticks an arrow lives.
pub const RANGED_ATTACK_LIFETIME_TICKS: u32 = 192;

/// The damage source an attack spawns as it starts.
#[derive(Debug, Clone, Copy)]
pub enum AttackSpawn {
    /// A melee hitbox over the weapon's swing, living for the variant's active window.
    Melee {
        base_damage: u32,
        variant: SkillVariant,
        lifetime: u32,
        pushback: PushbackValues,
        hit_slot: &'static str,
        stealthed: bool,
        /// An airborne downward swing, which can start a pogo.
        downward: bool,
    },
    /// An arrow flying ahead that hits one target.
    Arrow { base_damage: u32, lifetime: u32, pushback: PushbackValues, max_targets: u32 },
}

/// What starting an attack does besides picking its variant.
#[derive(Debug, Clone, Copy)]
pub struct AttackEnter {
    /// Enable the animation slot of an airborne downward swing.
    pub enable_downward_slot: bool,
    /// The damage source spawned (none for a player without combat modifiers).
    pub spawn: Option<AttackSpawn>,
}

/// The skill-table variant of an attack direction.
pub open spec fn spec_skill_variant(v: AttackVariant) -> SkillVariant {
    match v {
        AttackVariant::Forward => SkillVariant::Forward,
        AttackVariant::Up => SkillVariant::Up,
        AttackVariant::Down => SkillVariant::Down,
    }
}

/// The base damage of the weapon an attack uses.
pub open spec fn spec_weapon_base_damage(w: WeaponType) -> u32 {
    match w {
        WeaponType::Sword => 33,
        WeaponType::Hammer => 55,
        WeaponType::Bow => 22,
    }
}

/// What an attack of `weapon` in the settled `variant` spawns as it starts: a melee
/// swing lasting `active_window` ticks (the variant's window in the skill tables) and
/// pushing as the current melee weapon does, or an arrow; stealth and an airborne
/// downward swing mark the swing.
pub fn attacking_enter(
    weapon: WeaponType,
    variant: AttackVariant,
    is_airborne: bool,
    is_stealthed: bool,
    has_stat_mod: bool,
    melee_weapon: PlayerMeleeWeapon,
    active_window: u32,
) -> (e: AttackEnter)
    ensures
        e.enable_downward_slot == (is_airborne && variant == AttackVariant::Down),
        !has_stat_mod ==> e.spawn is None,
        has_stat_mod && weapon.spec_is_melee() ==> (e.spawn matches Some(
            AttackSpawn::Melee { base_damage, variant: v, lifetime, pushback, hit_slot, stealthed, downward },
        ) && base_damage == spec_weapon_base_damage(weapon) && v == spec_skill_variant(variant)
            && lifetime == active_window && pushback == (PushbackValues {
            pushback_96ths: 90,
            pushback_ticks: 12,
            self_pushback_96ths: 90,
            self_pushback_ticks: 3,
        })
            && hit_slot@ == spec_weapon_hit_slot(weapon) && stealthed == is_stealthed && downward == (
        variant == AttackVariant::Down && is_airborne)),
        has_stat_mod && weapon == WeaponType::Bow ==> (e.spawn matches Some(
            AttackSpawn::Arrow { base_damage, lifetime, pushback, max_targets },
        ) && base_damage == 22 && lifetime == RANGED_ATTACK_LIFETIME_TICKS && pushback == (PushbackValues {
            pushback_96ths: 60,
            pushback_ticks: 12,
            self_pushback_96ths: 0,
            self_pushback_ticks: 0,
        }) && max_targets == 1),
{
    let enable_downward_slot = is_airborne && variant == AttackVariant::Down;
    if !has_stat_mod {
        return AttackEnter { enable_downward_slot, spawn: None };
    }
    let base_damage: u32 = match weapon {
        WeaponType::Sword => PlayerMeleeWeapon::Sword.base_damage(),
        WeaponType::Hammer => PlayerMeleeWeapon::Hammer.base_damage(),
        WeaponType::Bow => PlayerRangedWeapon::Bow.base_damage(),
    };
    let spawn = if weapon.is_melee() {
        let skill_variant = match variant {
            AttackVariant::Forward => SkillVariant::Forward,
            AttackVariant::Up => SkillVariant::Up,
            AttackVariant::Down => SkillVariant::Down,
        };
        AttackSpawn::Melee {
            base_damage,
            variant: skill_variant,
            lifetime: active_window,
            pushback: melee_weapon.pushback_values(),
            hit_slot: weapon_hit_slot(weapon),
            stealthed: is_stealthed,
            downward: variant == AttackVariant::Down && is_airborne,
        }
    } else {
        AttackSpawn::Arrow {
            base_damage,
            lifetime: RANGED_ATTACK_LIFETIME_TICKS,
            pushback: PlayerRangedWeapon::Bow.pushback_values(),
            max_targets: 1,
        }
    };
    AttackEnter { enable_downward_slot, spawn: Some(spawn) }
}

/// The horizontal direction a dash or dash strike launches in: its own stored direction
/// when it has one, else the last horizontal move (for a dash strike), else the facing.
/// Each direction is given by its sign.
pub open spec fn spec_launch_direction(stored: MoveDir, last_move: Option<MoveDir>, facing: Facing) -> Facing {
    match stored {
        MoveDir::Left => Facing::Left,
        MoveDir::Right => Facing::Right,
        MoveDir::Neutral => match last_move {
            Some(MoveDir::Left) => Facing::Left,
            Some(MoveDir::Right) => Facing::Right,
            _ => facing,
        },
    }
}

/// Picks the direction a dash or dash strike launches in (see `spec_launch_direction`).
pub fn launch_direction(stored: MoveDir, last_move: Option<MoveDir>, facing: Facing) -> (f: Facing)
    ensures
        f == spec_launch_direction(stored, last_move, facing),
{
    match stored {
        MoveDir::Left => Facing::Left,
        MoveDir::Right => Facing::Right,
        MoveDir::Neutral => match last_move {
            Some(MoveDir::Left) => Facing::Left,
            Some(MoveDir::Right) => Facing::Right,
            _ => facing,
        },
    }
}

/// How a dash strike starts: diagonally up for an upward strike, diagonally down
/// otherwise, and the animation slots of its variant.
#[derive(Debug, Clone, Copy, PartialEq, Eq, Structural)]
pub struct StrikeLaunch {
    pub heading: Facing,
    pub upward: bool,
    pub variant_up_slot: bool,
    pub variant_down_slot: bool,
}

/// The launch of a dash strike.
pub fn dash_strike_enter(variant: SkillVariant, stored: MoveDir, last_move: Option<MoveDir>, facing: Facing) -> (l:
    StrikeLaunch)
    ensures
        l.heading == spec_launch_direction(stored, last_move, facing),
        l.upward == (variant == SkillVariant::Up),
        l.variant_up_slot == (variant == SkillVariant::Up),
        l.variant_down_slot == (variant == SkillVariant::Down),
{
    let heading = launch_direction(stored, last_move, facing);
    match variant {
        SkillVariant::Up => StrikeLaunch { heading, upward: true, variant_up_slot: true, variant_down_slot: false },
        SkillVariant::Down => StrikeLaunch {
            heading,
            upward: false,
            variant_up_slot: false,
            variant_down_slot: true,
        },
        SkillVariant::Forward => StrikeLaunch {
            heading,
            upward: false,
            variant_up_slot: false,
            variant_down_slot: false,
        },
    }
}

/// The base damage of a whirl: that of its melee weapon (a sword's for anything else).
pub fn whirl_base_damage(weapon: WeaponType) -> (d: u32)
    ensures
        d == (if weapon == WeaponType::Hammer { 55u32 } else { 33u32 }),
{
    match weapon {
        WeaponType::Sword => PlayerMeleeWeapon::Sword.base_damage(),
        WeaponType::Hammer => PlayerMeleeWeapon::Hammer.base_damage(),
        WeaponType::Bow => PlayerMeleeWeapon::Sword.base_damage(),
    }
}

/// Impact sound slot of a weapon's damage source.
pub open spec fn spec_weapon_hit_slot(w: WeaponType) -> Seq<char> {
    match w {
        WeaponType::Sword => "SwordHit"@,
        WeaponType::Hammer => "HammerHit"@,
        WeaponType::Bow => "BowHit"@,
    }
}

/// The spark-audio slot a weapon's hits play.
pub fn weapon_hit_slot(w: WeaponType) -> (s: &'static str)
    ensures
        s@ == spec_weapon_hit_slot(w),
{
    match w {
        WeaponType::Sword => "SwordHit",
        WeaponType::Hammer => "HammerHit",
        WeaponType::Bow => "BowHit",
    }
}

// ---------------------------------------------------------------------------
// Dashing
// ---------------------------------------------------------------------------

/// The dash action state (its direction, speed modifier and elapsed seconds are
/// real-valued and kept with the game objects).
#[derive(Debug, PartialEq, Eq, Clone, Copy, Structural)]
pub struct Dashing {
    pub tick: u32,
    pub hit: bool,
    pub hit_ground: bool,
    /// Lifetime in ticks provided by the dash skill.
    pub max_ticks: u32,
}

impl Dashing {
    pub fn new() -> (d: Dashing)
        ensures
            d == (Dashing { tick: 0, hit: false, hit_ground: false, max_ticks: 0 }),
    {
        Dashing { tick: 0, hit: false, hit_ground: false, max_ticks: 0 }
    }

    pub fn default() -> (d: Dashing)
        ensures
            d == (Dashing { tick: 0, hit: false, hit_ground: false, max_ticks: 0 }),
    {
        Dashing::new()
    }

    pub fn with_max_ticks(self, max_ticks: u32) -> (d: Dashing)
        ensures
            d == (Dashing { max_ticks, ..self }),
    {
        let mut d = self;
        d.max_ticks = max_ticks;
        d
    }
}

/// Result of one Dashing tick.
#[derive(Debug, PartialEq, Eq, Clone, Copy, Structural)]
pub struct DashStep {
    pub dashing: Dashing,
    /// Keep driving the dash velocity this tick.
    pub drive: bool,
    /// The dash ends: stop and hand back to Ready.
    pub finished: bool,
}

pub open spec fn spec_dash_step(d: Dashing, stalled: bool) -> DashStep {
    let next = Dashing { tick: spec_sat_inc32(d.tick), ..d };
    DashStep {
        dashing: next,
        drive: !d.hit,
        finished: (next.tick >= d.max_ticks && !d.hit) || stalled,
    }
}

pub open spec fn spec_sat_inc32(x: u32) -> u32 {
    if x == u32::MAX {
        x
    } else {
        (x + 1) as u32
    }
}

/// One Dashing tick: advance, keep the dash velocity unless it hit something, and end
/// at the skill's lifetime (unless it hit) or when a collision stalled the motion.
/// `stalled` is whether horizontal speed dropped to about zero after this tick's drive.
pub fn dash_step(d: Dashing, stalled: bool) -> (s: DashStep)
    ensures
        s == spec_dash_step(d, stalled),
{
    let mut next = d;
    next.tick = d.tick.saturating_add(1);
    let finished = (next.tick >= d.max_ticks && !d.hit) || stalled;
    DashStep { dashing: next, drive: !d.hit, finished }
}

/// A dash that did not hit anything ends no later than its lifetime.
pub proof fn lemma_dash_ends_by_lifetime(d: Dashing, stalled: bool)
    requires
        !d.hit,
        d.tick + 1 >= d.max_ticks,
    ensures
        spec_dash_step(d, stalled).finished,
{
}

// ---------------------------------------------------------------------------
// Whirling
// ---------------------------------------------------------------------------

/// The whirl action state.
#[derive(Debug, PartialEq, Eq, Clone, Copy, Structural)]
pub struct Whirling {
    pub tick: u32,
    pub weapon_type: WeaponType,
    /// The sustained damage source, by entity id.
    pub damage_entity: Option<u64>,
    pub last_damage_frame: u32,
}

impl Whirling {
    pub fn new(weapon_type: WeaponType) -> (w: Whirling)
        ensures
            w == (Whirling { tick: 0, weapon_type, damage_entity: None, last_damage_frame: 0 }),
    {
        Whirling { tick: 0, weapon_type, damage_entity: None, last_damage_frame: 0 }
    }

    pub fn default() -> (w: Whirling)
        ensures
            w == (Whirling {
                tick: 0,
                weapon_type: WeaponType::Sword,
                damage_entity: None,
                last_damage_frame: 0,
            }),
    {
        Whirling::new(WeaponType::Sword)
    }
}

/// Ticks each whirl animation frame lasts.
pub const WHIRL_TICKS_PER_FRAME: u32 = 8;

/// The animation frame shown at a whirl tick (tick >= 1): the sword plays frame 1 and
/// then loops frames 2 to 5; the hammer plays frames 1 and 2 and then loops 3 to 8.
pub open spec fn spec_whirl_frame(weapon: WeaponType, tick: u32) -> int {
    let raw = (tick - 1) / 8 + 1;
    match weapon {
        WeaponType::Sword => if raw == 1 {
            1
        } else {
            (raw - 2) % 4 + 2
        },
        WeaponType::Hammer => if raw <= 2 {
            raw
        } else {
            (raw - 3) % 6 + 3
        },
        WeaponType::Bow => raw,
    }
}

/// Frames on which a whirl hits again.
pub open spec fn spec_whirl_damage_frame(weapon: WeaponType, frame: int) -> bool {
    match weapon {
        WeaponType::Sword => frame == 2 || frame == 4,
        WeaponType::Hammer => frame == 4 || frame == 7,
        WeaponType::Bow => false,
    }
}

/// The whirl animation frame for a tick.
pub fn whirl_frame(weapon: WeaponType, tick: u32) -> (frame: u32)
    requires
        tick >= 1,
    ensures
        frame == spec_whirl_frame(weapon, tick),
{
    let raw = (tick - 1) / 8 + 1;
    match weapon {
        WeaponType::Sword => if raw == 1 {
            1
        } else {
            (raw - 2) % 4 + 2
        },
        WeaponType::Hammer => if raw <= 2 {
            raw
        } else {
            (raw - 3) % 6 + 3
        },
        WeaponType::Bow => raw,
    }
}

/// Result of one Whirling tick.
#[derive(Debug, PartialEq, Eq, Clone, Copy, Structural)]
pub struct WhirlStep {
    pub whirling: Whirling,
    pub frame: u32,
    /// Clear the damage source's hit set so enemies can be hit again.
    pub reset_hits: bool,
    /// Whether the damage entity must carry the stealth marker this tick (`None` when the
    /// whirl has no damage entity): it follows the player's stealth.
    pub damage_stealthed: Option<bool>,
}

pub open spec fn spec_whirl_step(w: Whirling, has_damage_source: bool, player_stealthed: bool) -> WhirlStep {
    let tick = spec_sat_inc32(w.tick);
    let frame = spec_whirl_frame(w.weapon_type, tick);
    let reset = w.damage_entity is Some && has_damage_source && spec_whirl_damage_frame(
        w.weapon_type,
        frame,
    ) && w.last_damage_frame != frame;
    WhirlStep {
        whirling: Whirling {
            tick,
            last_damage_frame: if reset {
                frame as u32
            } else {
                w.last_damage_frame
            },
            ..w
        },
        frame: frame as u32,
        reset_hits: reset,
        damage_stealthed: if w.damage_entity is Some {
            Some(player_stealthed)
        } else {
            None
        },
    }
}

/// One Whirling tick: advance, pick the looping animation frame, re-arm the damage
/// source the first tick of each damage frame, and mark the damage entity stealthed
/// exactly when the player is. `has_damage_source` is whether the whirl's damage entity
/// still has its damage source.
pub fn whirl_step(w: Whirling, has_damage_source: bool, player_stealthed: bool) -> (s: WhirlStep)
    ensures
        s == spec_whirl_step(w, has_damage_source, player_stealthed),
{
    let tick = w.tick.saturating_add(1);
    let frame = whirl_frame(w.weapon_type, tick);
    let is_damage_frame = match w.weapon_type {
        WeaponType::Sword => frame == 2 || frame == 4,
        WeaponType::Hammer => frame == 4 || frame == 7,
        WeaponType::Bow => false,
    };
    let reset = w.damage_entity.is_some() && has_damage_source && is_damage_frame
        && w.last_damage_frame != frame;
    let mut next = w;
    next.tick = tick;
    if reset {
        next.last_damage_frame = frame;
    }
    let damage_stealthed = match w.damage_entity {
        Some(_) => Some(player_stealthed),
        None => None,
    };
    WhirlStep { whirling: next, frame, reset_hits: reset, damage_stealthed }
}

/// A whirl with a live damage source re-arms twice in every loop: a sword on the first
/// tick of frame 2 (ticks 32k + 9) and of frame 4 (ticks 32k + 25), a hammer on the first
/// tick of frame 4 (48k + 25) and of frame 7 (48k + 49), each time unless it just re-armed
/// on that same frame; re-arming remembers the frame.
pub proof fn lemma_whirl_rearms_twice_per_loop(w: Whirling, stealthed: bool)
    requires
        w.damage_entity is Some,
        w.tick < u32::MAX,
    ensures
        ({
            let s = spec_whirl_step(w, true, stealthed);
            &&& w.weapon_type == WeaponType::Sword && w.tick % 32 == 8 ==> s.frame == 2 && (
            s.reset_hits <==> w.last_damage_frame != 2)
            &&& w.weapon_type == WeaponType::Sword && w.tick % 32 == 24 ==> s.frame == 4 && (
            s.reset_hits <==> w.last_damage_frame != 4)
            &&& w.weapon_type == WeaponType::Hammer && w.tick % 48 == 24 ==> s.frame == 4 && (
            s.reset_hits <==> w.last_damage_frame != 4)
            &&& w.weapon_type == WeaponType::Hammer && w.tick % 48 == 0 && w.tick >= 48 ==> s.frame
                == 7 && (s.reset_hits <==> w.last_damage_frame != 7)
            &&& s.reset_hits ==> s.whirling.last_damage_frame == s.frame
        }),
{
    let t = w.tick;
    if w.weapon_type == WeaponType::Sword && t % 32 == 8 {
        assert((t / 8 + 1 - 2) % 4 == 0 && t / 8 + 1 >= 2) by (bit_vector)
            requires
                t % 32 == 8,
        ;
    }
    if w.weapon_type == WeaponType::Sword && t % 32 == 24 {
        assert((t / 8 + 1 - 2) % 4 == 2 && t / 8 + 1 >= 2) by (bit_vector)
            requires
                t % 32 == 24,
        ;
    }
    if w.weapon_type == WeaponType::Hammer && t % 48 == 24 {
        assert((t / 8 + 1 - 3) % 6 == 1 && t / 8 + 1 >= 3) by (nonlinear_arith)
            requires
                t % 48 == 24,
        ;
    }
    if w.weapon_type == WeaponType::Hammer && t % 48 == 0 && t >= 48 {
        assert((t / 8 + 1 - 3) % 6 == 4 && t / 8 + 1 >= 3) by (nonlinear_arith)
            requires
                t % 48 == 0,
                t >= 48,
        ;
    }
}

/// Melee whirl frames stay inside the weapon's animation: 1 to 5 for the sword, 1 to 8
/// for the hammer, and after the opening frames they repeat with a fixed period
/// (32 ticks for the sword, 48 for the hammer).
pub proof fn lemma_whirl_frames_loop(tick: u32)
    requires
        tick >= 1,
    ensures
        1 <= spec_whirl_frame(WeaponType::Sword, tick) <= 5,
        1 <= spec_whirl_frame(WeaponType::Hammer, tick) <= 8,
        tick > 8 && tick + 32 <= u32::MAX ==> spec_whirl_frame(WeaponType::Sword, (tick + 32) as u32)
            == spec_whirl_frame(WeaponType::Sword, tick),
        tick > 16 && tick + 48 <= u32::MAX ==> spec_whirl_frame(WeaponType::Hammer, (tick + 48) as u32)
            == spec_whirl_frame(WeaponType::Hammer, tick),
{
    let raw = (tick - 1) / 8 + 1;
    if tick > 8 && tick + 32 <= u32::MAX {
        assert(((tick + 32 - 1) / 8 + 1) == raw + 4);
        assert((raw + 4 - 2) % 4 == (raw - 2) % 4);
    }
    if tick > 16 && tick + 48 <= u32::MAX {
        assert(((tick + 48 - 1) / 8 + 1) == raw + 6);
        assert((raw + 6 - 3) % 6 == (raw - 3) % 6);
    }
}


// ---------------------------------------------------------------------------
// Burning dash
// ---------------------------------------------------------------------------

/// Health drained per tick of a burning dash.
pub const BURNING_DASH_HEALTH_COST: u32 = 2;

/// Health a burning dash never drains below; at or under it the dash stops.
pub const BURNING_DASH_MIN_HEALTH: u32 = 2;

/// Ticks between re-arming the burning dash's damage source.
pub const BURNING_DASH_DAMAGE_INTERVAL: u32 = 8;

/// The burning dash action state (its speed modifier is real-valued and kept with the
/// game objects).
#[derive(Debug, PartialEq, Eq, Clone, Copy, Structural)]
pub struct BurningDashing {
    pub tick: u32,
    /// The sustained damage source, by entity id.
    pub damage_entity: Option<u64>,
}

impl BurningDashing {
    pub fn new() -> (b: BurningDashing)
        ensures
            b == (BurningDashing { tick: 0, damage_entity: None }),
    {
        BurningDashing { tick: 0, damage_entity: None }
    }

    pub fn default() -> (b: BurningDashing)
        ensures
            b == (BurningDashing { tick: 0, damage_entity: None }),
    {
        BurningDashing::new()
    }
}

/// Result of one burning dash tick.
#[derive(Debug, PartialEq, Eq, Clone, Copy, Structural)]
pub struct BurningDashStep {
    pub burning: BurningDashing,
    pub health: u32,
    /// Re-arm the damage source's hit set this tick.
    pub reset_hits: bool,
    /// The dash ends: stop, remove the damage source and hand back to Ready.
    pub finished: bool,
}

/// Health after one tick of draining: two points, never below the floor.
pub open spec fn spec_burning_drain(health: u32) -> u32 {
    if health > BURNING_DASH_MIN_HEALTH {
        if health - BURNING_DASH_HEALTH_COST > BURNING_DASH_MIN_HEALTH {
            (health - BURNING_DASH_HEALTH_COST) as u32
        } else {
            BURNING_DASH_MIN_HEALTH
        }
    } else {
        health
    }
}

pub open spec fn spec_burning_dash_step(b: BurningDashing, still_pressed: bool, health: u32, stalled: bool)
    -> BurningDashStep {
    if !still_pressed || health <= BURNING_DASH_MIN_HEALTH {
        BurningDashStep { burning: b, health, reset_hits: false, finished: true }
    } else {
        let tick = spec_sat_inc32(b.tick);
        BurningDashStep {
            burning: BurningDashing { tick, ..b },
            health: spec_burning_drain(health),
            reset_hits: tick % BURNING_DASH_DAMAGE_INTERVAL == 0,
            finished: stalled,
        }
    }
}

/// One burning dash tick: stop when the skill button is released or health is at the
/// floor; otherwise advance, drain health toward the floor, re-arm the damage source every
/// eighth tick, and stop when a collision stalled the motion. `stalled` is whether
/// horizontal speed dropped to about zero after this tick's drive.
pub fn burning_dash_step(b: BurningDashing, still_pressed: bool, health: u32, stalled: bool) -> (s:
    BurningDashStep)
    ensures
        s == spec_burning_dash_step(b, still_pressed, health, stalled),
{
    if !still_pressed || health <= BURNING_DASH_MIN_HEALTH {
        return BurningDashStep { burning: b, health, reset_hits: false, finished: true };
    }
    let tick = b.tick.saturating_add(1);
    let mut h = health;
    if h > BURNING_DASH_MIN_HEALTH {
        let drained = h.saturating_sub(BURNING_DASH_HEALTH_COST);
        h = if drained > BURNING_DASH_MIN_HEALTH {
            drained
        } else {
            BURNING_DASH_MIN_HEALTH
        };
    }
    BurningDashStep {
        burning: BurningDashing { tick, ..b },
        health: h,
        reset_hits: tick % BURNING_DASH_DAMAGE_INTERVAL == 0,
        finished: stalled,
    }
}

/// A burning dash drains at most two health per tick, never raises health, and never
/// drains a player below the floor; a player at or under the floor ends the dash at once.
pub proof fn lemma_burning_dash_health(b: BurningDashing, still_pressed: bool, health: u32, stalled: bool)
    ensures
        ({
            let s = spec_burning_dash_step(b, still_pressed, health, stalled);
            &&& s.health <= health
            &&& health - s.health <= BURNING_DASH_HEALTH_COST
            &&& health > BURNING_DASH_MIN_HEALTH ==> s.health >= BURNING_DASH_MIN_HEALTH
            &&& health <= BURNING_DASH_MIN_HEALTH ==> s.finished && s.health == health
        }),
{
}

// ---------------------------------------------------------------------------
// Dash strike
// ---------------------------------------------------------------------------

/// Ticks the player stays locked after a dash strike hits a surface.
pub const DASH_STRIKE_OUTRO_LOCK_TICKS: u32 = 8;

/// The dash strike action state (its horizontal direction is real-valued and kept
/// with the game objects).
#[derive(Debug, Clone)]
pub struct DashStrike {
    pub tick: u32,
    pub max_ticks: u32,
    pub variant: SkillVariant,
    /// The strike hit a surface its variant stops at.
    pub collided: bool,
    /// Ticks of the post-collision lock.
    pub lock_ticks: u32,
    /// Enemies already damaged by this strike, by entity id.
    pub damaged_entities: Vec<u64>,
}

impl DashStrike {
    /// A downward strike lasting 16 ticks.
    pub fn default() -> (d: DashStrike)
        ensures
            d.tick == 0,
            d.max_ticks == 16,
            d.variant == SkillVariant::Down,
            !d.collided,
            d.lock_ticks == 0,
            d.damaged_entities@ == Seq::<u64>::empty(),
            d.wf(),
    {
        DashStrike {
            tick: 0,
            max_ticks: 16,
            variant: SkillVariant::Down,
            collided: false,
            lock_ticks: 0,
            damaged_entities: Vec::new(),
        }
    }

    /// A strike of the given variant, otherwise default.
    pub fn new(variant: SkillVariant) -> (d: DashStrike)
        ensures
            d.tick == 0,
            d.max_ticks == 16,
            d.variant == variant,
            !d.collided,
            d.lock_ticks == 0,
            d.damaged_entities@ == Seq::<u64>::empty(),
            d.wf(),
    {
        let mut d = DashStrike::default();
        d.variant = variant;
        d
    }

    /// The strike's invariant: its hit set names each enemy at most once.
    pub open spec fn wf(&self) -> bool {
        self.damaged_entities@.no_duplicates()
    }
}

/// Surfaces the dash strike touches this tick.
#[derive(Debug, PartialEq, Eq, Clone, Copy, Structural)]
pub struct StrikeContacts {
    /// The horizontal direction of the strike.
    pub heading: Facing,
    pub left_wall: bool,
    pub right_wall: bool,
    pub ground: bool,
    pub ceiling: bool,
}

/// Whether the strike stops at the surfaces touched: an upward strike at a wall ahead
/// or the ceiling, the others at a wall ahead or the ground.
pub open spec fn spec_strike_should_collide(variant: SkillVariant, c: StrikeContacts) -> bool {
    let hit_wall = (c.heading == Facing::Left && c.left_wall) || (c.heading == Facing::Right
        && c.right_wall);
    match variant {
        SkillVariant::Up => hit_wall || c.ceiling,
        _ => hit_wall || c.ground,
    }
}

/// The timing and collision bookkeeping of one dash strike tick.
#[derive(Debug, PartialEq, Eq, Clone, Copy, Structural)]
pub struct DashStrikeProgress {
    /// The strike hit a surface this tick.
    pub impact: bool,
    pub tick: u32,
    pub collided: bool,
    pub lock_ticks: u32,
    /// The strike ends.
    pub finished: bool,
}

pub open spec fn spec_dash_strike_step(
    tick: u32,
    max_ticks: u32,
    variant: SkillVariant,
    collided: bool,
    lock_ticks: u32,
    c: StrikeContacts,
) -> DashStrikeProgress {
    let impact = !collided && spec_strike_should_collide(variant, c);
    let collided2 = collided || impact;
    let lock2 = if impact {
        0
    } else {
        lock_ticks
    };
    let tick2 = spec_sat_inc32(tick);
    if tick2 >= max_ticks && !collided2 {
        DashStrikeProgress { impact, tick: tick2, collided: collided2, lock_ticks: lock2, finished: true }
    } else if collided2 {
        let lock3 = spec_sat_inc32(lock2);
        DashStrikeProgress {
            impact,
            tick: tick2,
            collided: true,
            lock_ticks: lock3,
            finished: lock3 >= DASH_STRIKE_OUTRO_LOCK_TICKS,
        }
    } else {
        DashStrikeProgress { impact, tick: tick2, collided: false, lock_ticks: lock2, finished: false }
    }
}

fn dash_strike_progress(d: &DashStrike, c: StrikeContacts) -> (s: DashStrikeProgress)
    ensures
        s == spec_dash_strike_step(d.tick, d.max_ticks, d.variant, d.collided, d.lock_ticks, c),
{
    let mut collided = d.collided;
    let mut lock_ticks = d.lock_ticks;
    let mut impact = false;
    if !collided {
        let hit_wall = (c.heading == Facing::Left && c.left_wall) || (c.heading == Facing::Right
            && c.right_wall);
        let should_collide = match d.variant {
            SkillVariant::Up => hit_wall || c.ceiling,
            SkillVariant::Down => hit_wall || c.ground,
            SkillVariant::Forward => hit_wall || c.ground,
        };
        if should_collide {
            collided = true;
            lock_ticks = 0;
            impact = true;
        }
    }
    let tick = d.tick.saturating_add(1);
    if tick >= d.max_ticks && !collided {
        return DashStrikeProgress { impact, tick, collided, lock_ticks, finished: true };
    }
    if collided {
        lock_ticks = lock_ticks.saturating_add(1);
        let finished = lock_ticks >= DASH_STRIKE_OUTRO_LOCK_TICKS;
        return DashStrikeProgress { impact, tick, collided, lock_ticks, finished };
    }
    DashStrikeProgress { impact, tick, collided, lock_ticks, finished: false }
}

/// Damage of the blast a dash strike sets off where it hits a surface.
pub const DASH_STRIKE_IMPACT_DAMAGE: u32 = 120;

/// Most targets the impact blast can hit.
pub const DASH_STRIKE_BLAST_MAX_TARGETS: u32 = 64;

/// Ticks the impact blast lives, so that the combat systems see it after the deferred
/// spawn.
pub const DASH_STRIKE_BLAST_LIFETIME_TICKS: u32 = 2;

/// Radius of the impact blast around the player, in pixels.
pub const DASH_STRIKE_IMPACT_RADIUS_PX: u32 = 24;

/// An enemy or bell near a dash strike's impact: `within_radius` is whether its distance
/// to the player is at most the impact radius.
#[derive(Debug, PartialEq, Eq, Clone, Copy, Structural)]
pub struct BlastCandidate {
    pub id: u64,
    pub within_radius: bool,
}

pub open spec fn within_radius_pred() -> spec_fn(BlastCandidate) -> bool {
    |c: BlastCandidate| c.within_radius
}

pub open spec fn candidate_id() -> spec_fn(BlastCandidate) -> u64 {
    |c: BlastCandidate| c.id
}

/// The blast's targets: the candidates within the impact radius, in query order.
pub open spec fn spec_blast_targets(cs: Seq<BlastCandidate>) -> Seq<u64> {
    cs.filter(within_radius_pred()).map_values(candidate_id())
}

/// The area damage a dash strike sets off at its impact.
#[derive(Debug, Clone)]
pub struct StrikeBlast {
    pub damage: u32,
    pub max_targets: u32,
    pub lifetime: u32,
    /// Exactly these enemies and bells can be hit, by entity id.
    pub targets: Vec<u64>,
    /// The player was stealthed when the strike hit.
    pub stealthed: bool,
}

/// The animation slot an impact switches on: the upward or downward impact frames.
pub open spec fn spec_impact_slot(variant: SkillVariant) -> Option<Seq<char>> {
    match variant {
        SkillVariant::Up => Some("DashStrikeImpactUp"@),
        SkillVariant::Down => Some("DashStrikeImpactDown"@),
        SkillVariant::Forward => None,
    }
}

/// Result of one dash strike tick.
#[derive(Debug, Clone)]
pub struct DashStrikeStep {
    /// The strike hit a surface this tick: shake the camera and start the outro.
    pub impact: bool,
    pub tick: u32,
    pub collided: bool,
    pub lock_ticks: u32,
    /// The strike ends: reset its animation slots and hand back to Ready.
    pub finished: bool,
    /// Drive diagonally this tick, horizontally along the heading and up for an upward
    /// strike, down otherwise; when false the strike stands still.
    pub drive: bool,
    pub rising: bool,
    /// Animation slot to switch on at the impact.
    pub impact_slot: Option<&'static str>,
    /// The impact blast to spawn, when the impact finds anything to hit.
    pub blast: Option<StrikeBlast>,
}

fn blast_targets(cs: &Vec<BlastCandidate>) -> (r: Vec<u64>)
    ensures
        r@ == spec_blast_targets(cs@),
{
    let ghost pred = within_radius_pred();
    let ghost id = candidate_id();
    let mut r: Vec<u64> = Vec::new();
    let mut i: usize = 0;
    while i < cs.len()
        invariant
            i <= cs.len(),
            pred == within_radius_pred(),
            id == candidate_id(),
            r@ == cs@.take(i as int).filter(pred).map_values(id),
        decreases cs.len() - i,
    {
        reveal_with_fuel(Seq::<_>::filter, 1);
        let c = cs[i];
        assert(cs@.take(i + 1).drop_last() =~= cs@.take(i as int));
        let ghost before = cs@.take(i as int).filter(pred);
        if c.within_radius {
            r.push(c.id);
            assert(cs@.take(i + 1).filter(pred) == before.push(c));
            assert(before.push(c).map_values(id) =~= before.map_values(id).push(c.id));
        } else {
            assert(cs@.take(i + 1).filter(pred) == before);
        }
        i = i + 1;
    }
    assert(cs@.take(cs.len() as int) =~= cs@);
    r
}

/// One dash strike tick: drive diagonally until a stopping surface is hit; at the hit,
/// stop, switch on the impact frames and set off a blast at the enemies and bells
/// within the impact radius (`candidates`, in query order), marked stealthed with the
/// player; then end at the lifetime when nothing was hit, or after the outro lock.
pub fn dash_strike_step(
    d: &DashStrike,
    c: StrikeContacts,
    candidates: &Vec<BlastCandidate>,
    player_stealthed: bool,
) -> (s: DashStrikeStep)
    ensures
        ({
            let p = spec_dash_strike_step(d.tick, d.max_ticks, d.variant, d.collided, d.lock_ticks, c);
            &&& s.impact == p.impact
            &&& s.tick == p.tick
            &&& s.collided == p.collided
            &&& s.lock_ticks == p.lock_ticks
            &&& s.finished == p.finished
            &&& s.drive == !p.collided
            &&& s.rising == (d.variant == SkillVariant::Up)
            &&& match s.impact_slot {
                Some(slot) => p.impact && spec_impact_slot(d.variant) == Some(slot@),
                None => !p.impact || spec_impact_slot(d.variant) is None,
            }
            &&& (s.blast is Some <==> p.impact && spec_blast_targets(candidates@).len() > 0)
            &&& s.blast matches Some(b) ==> {
                &&& b.damage == DASH_STRIKE_IMPACT_DAMAGE
                &&& b.max_targets == DASH_STRIKE_BLAST_MAX_TARGETS
                &&& b.lifetime == DASH_STRIKE_BLAST_LIFETIME_TICKS
                &&& b.targets@ == spec_blast_targets(candidates@)
                &&& b.stealthed == player_stealthed
            }
        }),
{
    let p = dash_strike_progress(d, c);
    let mut impact_slot: Option<&'static str> = None;
    let mut blast: Option<StrikeBlast> = None;
    if p.impact {
        impact_slot = match d.variant {
            SkillVariant::Up => Some("DashStrikeImpactUp"),
            SkillVariant::Down => Some("DashStrikeImpactDown"),
            SkillVariant::Forward => None,
        };
        let targets = blast_targets(candidates);
        if targets.len() > 0 {
            blast = Some(
                StrikeBlast {
                    damage: DASH_STRIKE_IMPACT_DAMAGE,
                    max_targets: DASH_STRIKE_BLAST_MAX_TARGETS,
                    lifetime: DASH_STRIKE_BLAST_LIFETIME_TICKS,
                    targets,
                    stealthed: player_stealthed,
                },
            );
        }
    }
    DashStrikeStep {
        impact: p.impact,
        tick: p.tick,
        collided: p.collided,
        lock_ticks: p.lock_ticks,
        finished: p.finished,
        drive: !p.collided,
        rising: d.variant == SkillVariant::Up,
        impact_slot,
        blast,
    }
}

/// A strike that has not hit yet impacts exactly when it touches a stopping surface: a
/// wall on the side it heads to, whatever its variant; the ceiling for an upward strike;
/// the ground for a downward or forward strike (both fly diagonally down).
pub proof fn lemma_dash_strike_impacts(
    tick: u32,
    max_ticks: u32,
    variant: SkillVariant,
    lock_ticks: u32,
    c: StrikeContacts,
)
    ensures
        ({
            let s = spec_dash_strike_step(tick, max_ticks, variant, false, lock_ticks, c);
            let wall_ahead = (c.heading == Facing::Left && c.left_wall) || (c.heading
                == Facing::Right && c.right_wall);
            &&& wall_ahead ==> s.impact
            &&& variant == SkillVariant::Up && c.ceiling ==> s.impact
            &&& variant != SkillVariant::Up && c.ground ==> s.impact
            &&& s.impact ==> wall_ahead || (variant == SkillVariant::Up && c.ceiling) || (variant
                != SkillVariant::Up && c.ground)
            &&& s.impact ==> s.collided && !s.finished
        }),
{
}

/// After a surface hit the strike ends on the eighth tick of its lock, and the tick of
/// the hit starts the lock at one; once it has hit, it stays collided (standing still)
/// and sets off no second impact; a strike that hits nothing ends when its tick reaches
/// its lifetime.
pub proof fn lemma_dash_strike_outro(tick: u32, max_ticks: u32, variant: SkillVariant, lock_ticks: u32, c: StrikeContacts)
    ensures
        ({
            let s = spec_dash_strike_step(tick, max_ticks, variant, true, lock_ticks, c);
            s.collided && !s.impact
        }),
        !spec_strike_should_collide(variant, c) ==> (spec_dash_strike_step(
            tick,
            max_ticks,
            variant,
            false,
            lock_ticks,
            c,
        ).finished <==> spec_sat_inc32(tick) >= max_ticks),
        ({
            let s = spec_dash_strike_step(tick, max_ticks, variant, false, 0, c);
            s.impact ==> s.collided && s.lock_ticks == 1 && !s.finished
        }),
        lock_ticks < DASH_STRIKE_OUTRO_LOCK_TICKS ==> (spec_dash_strike_step(
            tick,
            max_ticks,
            variant,
            true,
            lock_ticks,
            c,
        ).finished <==> lock_ticks + 1 == DASH_STRIKE_OUTRO_LOCK_TICKS),
{
}

// ---------------------------------------------------------------------------
// Pogo
// ---------------------------------------------------------------------------

/// A bounce after a downward attack hits an enemy.
#[derive(Debug, PartialEq, Eq, Clone, Copy, Structural)]
pub struct Pogo {
    pub tick: u32,
}

/// The locomotion the player is in while bouncing.
#[derive(Debug, PartialEq, Eq, Clone, Copy, Structural)]
pub enum PogoContext {
    Falling,
    Jumping { jump_count: u8 },
    Other,
}

/// How a pogo hands control back to locomotion when it ends.
#[derive(Debug, PartialEq, Eq, Clone, Copy, Structural)]
pub enum PogoHandover {
    /// Restart the current fall from the top of its curve, without a wall slide.
    RestartFall,
    /// Transition to this Falling state.
    Fall(Falling),
}

/// Result of one pogo tick.
#[derive(Debug, PartialEq, Eq, Clone, Copy, Structural)]
pub struct PogoStep {
    pub pogo: Pogo,
    /// Vertical displacement for this tick, in thousandths of a unit.
    pub vertical_milli: i32,
    pub horizontal: HorizontalControl,
    pub facing: Facing,
    /// The pogo ends: remove it and hand over as given.
    pub ended: Option<PogoHandover>,
}

pub open spec fn spec_pogo_handover(ctx: PogoContext) -> PogoHandover {
    match ctx {
        PogoContext::Falling => PogoHandover::RestartFall,
        PogoContext::Jumping { jump_count } => PogoHandover::Fall(spec_falling_from_jump(jump_count)),
        PogoContext::Other => PogoHandover::Fall(spec_falling_from_jump(0)),
    }
}

pub open spec fn spec_pogo_step(
    p: Pogo,
    ceiling: bool,
    ctx: PogoContext,
    dashing: bool,
    move_sign: MoveDir,
    facing: Facing,
    facing_locked: bool,
) -> PogoStep {
    if ceiling {
        PogoStep {
            pogo: p,
            vertical_milli: 0,
            horizontal: HorizontalControl::Keep,
            facing,
            ended: Some(spec_pogo_handover(ctx)),
        }
    } else {
        let idx = if p.tick < POGO_CURVE_LEN - 1 {
            p.tick as int
        } else {
            POGO_CURVE_LEN - 1
        };
        let tick = (p.tick + 1) as u32;
        let done = tick >= POGO_CURVE_LEN;
        PogoStep {
            pogo: Pogo { tick },
            vertical_milli: if done {
                0
            } else {
                spec_pogo_curve()[idx] as i32
            },
            horizontal: if dashing {
                HorizontalControl::Keep
            } else if move_sign != MoveDir::Neutral {
                HorizontalControl::Drive
            } else {
                HorizontalControl::Zero
            },
            facing: if dashing {
                facing
            } else {
                spec_facing_after_input(facing, move_sign, facing_locked)
            },
            ended: if done {
                Some(spec_pogo_handover(ctx))
            } else {
                None
            },
        }
    }
}

/// How a pogo hands control back.
pub fn pogo_handover(ctx: PogoContext) -> (h: PogoHandover)
    ensures
        h == spec_pogo_handover(ctx),
{
    match ctx {
        PogoContext::Falling => PogoHandover::RestartFall,
        PogoContext::Jumping { jump_count } => PogoHandover::Fall(Falling::from_jump(jump_count)),
        PogoContext::Other => PogoHandover::Fall(Falling::from_jump(0)),
    }
}

/// One pogo tick: a ceiling ends the bounce at once; otherwise follow the pogo curve with
/// air control and end after the curve's last entry, handing back to falling.
pub fn pogo_step(
    p: Pogo,
    ceiling: bool,
    ctx: PogoContext,
    dashing: bool,
    move_sign: MoveDir,
    facing: Facing,
    facing_locked: bool,
) -> (s: PogoStep)
    requires
        p.tick < u32::MAX,
    ensures
        s == spec_pogo_step(p, ceiling, ctx, dashing, move_sign, facing, facing_locked),
{
    if ceiling {
        return PogoStep {
            pogo: p,
            vertical_milli: 0,
            horizontal: HorizontalControl::Keep,
            facing,
            ended: Some(pogo_handover(ctx)),
        };
    }
    let last: u32 = (POGO_CURVE_LEN - 1) as u32;
    let idx = if p.tick < last {
        p.tick
    } else {
        last
    };
    let mut vertical = pogo_velocity_milli(idx);
    let mut horizontal = HorizontalControl::Keep;
    let mut new_facing = facing;
    if !dashing {
        if move_sign != MoveDir::Neutral {
            horizontal = HorizontalControl::Drive;
            new_facing = facing_after_input(facing, move_sign, facing_locked);
        } else {
            horizontal = HorizontalControl::Zero;
        }
    }
    let tick = p.tick + 1;
    let mut ended = None;
    if tick >= POGO_CURVE_LEN as u32 {
        vertical = 0;
        ended = Some(pogo_handover(ctx));
    }
    PogoStep { pogo: Pogo { tick }, vertical_milli: vertical, horizontal, facing: new_facing, ended }
}

/// A pogo started at tick zero ends after exactly the curve's length of ticks.
pub proof fn lemma_pogo_length(p: Pogo, ctx: PogoContext, dashing: bool, move_sign: MoveDir, facing: Facing, facing_locked: bool)
    requires
        p.tick < POGO_CURVE_LEN,
    ensures
        spec_pogo_step(p, false, ctx, dashing, move_sign, facing, facing_locked).ended is Some
            <==> p.tick == POGO_CURVE_LEN - 1,
{
}

} // verus!
