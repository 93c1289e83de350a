use vstd::prelude::*;

use crate::text::{decimal_string, spec_decimal, string_push};
use crate::visibility::Visibility;

verus! {

/// Marks the text that shows the number of kills.
#[derive(Debug, Clone, Copy, Default, PartialEq, Eq, Structural)]
pub struct KillCounterUi;

/// The text of the kill counter: the number of kills in decimal.
pub fn update_counter(kills: u64) -> (text: String)
    ensures
        text@ == spec_decimal(kills as nat),
{
    decimal_string(kills)
}

/// Marks the icon of an ability widget.
#[derive(Debug, Clone, Copy, Default, PartialEq, Eq, Structural)]
pub struct AbilityWidget;

/// What an ability widget shows: its icon, the component whose cooldown it tracks, and
/// the direction in which its overlay fills.
#[derive(Debug, Clone)]
pub struct AbilityWidgetConfig<T> {
    pub image_path: String,
    pub tracking_component: T,
    pub dir_up: bool,
}

impl<T> AbilityWidgetConfig<T> {
    /// Builds the configuration from its parts.
    pub fn from(image_path: String, tracking_component: T, dir_up: bool) -> (c: Self)
        ensures
            c.image_path@ == image_path@,
            c.tracking_component == tracking_component,
            c.dir_up == dir_up,
    {
        AbilityWidgetConfig { image_path, tracking_component, dir_up }
    }
}

/// Only creatures other than the player get a floating health bar, made when their
/// health first appears.
pub fn should_spawn_hp_bar(health_added: bool, is_player: bool) -> (b: bool)
    ensures
        b == (health_added && !is_player),
{
    health_added && !is_player
}

/// A health bar is hidden while its owner is at full health and shown as soon as it is
/// not; it is only touched when the owner's health changed.
pub fn update_visibility(health_changed: bool, current: u32, max: u32) -> (v: Option<Visibility>)
    ensures
        !health_changed ==> v is None,
        health_changed ==> v == Some(if current == max { Visibility::Hidden } else { Visibility::Inherited }),
{
    if !health_changed {
        None
    } else if current == max {
        Some(Visibility::Hidden)
    } else {
        Some(Visibility::Inherited)
    }
}

/// A floating health bar goes once the creature it follows is gone (a bar not yet
/// attached to a creature stays).
pub fn hp_bar_orphaned(owner_found: bool, owner_is_placeholder: bool) -> (b: bool)
    ensures
        b == (!owner_found && !owner_is_placeholder),
{
    !owner_found && !owner_is_placeholder
}

/// An enemy's health bar goes when the enemy is gone or dead.
pub fn enemy_bar_despawns(enemy_found: bool, enemy_dead: bool) -> (b: bool)
    ensures
        b == (!enemy_found || enemy_dead),
{
    !enemy_found || enemy_dead
}

/// Who was hit, as far as the colour of the damage number goes.
#[derive(Debug, Clone, Copy, PartialEq, Eq, Structural)]
pub enum DamageTarget {
    Enemy,
    Player,
    /// Neither: no number is shown.
    Other,
}

/// The tint of a damage number.
#[derive(Debug, Clone, Copy, PartialEq, Eq, Structural)]
pub enum DamageTint {
    /// A critical hit from stealth.
    Purple,
    /// A critical hit.
    Yellow,
    /// A hit from stealth.
    Pink,
    White,
    /// Damage taken by the player.
    Red,
}

/// The tint of the number for a hit, or `None` where no number is shown.
pub fn damage_tint(target: DamageTarget, crit: bool, stealthed: bool) -> (t: Option<DamageTint>)
    ensures
        t == (match target {
            DamageTarget::Enemy => Some(
                if crit && stealthed {
                    DamageTint::Purple
                } else if crit {
                    DamageTint::Yellow
                } else if stealthed {
                    DamageTint::Pink
                } else {
                    DamageTint::White
                },
            ),
            DamageTarget::Player => Some(DamageTint::Red),
            DamageTarget::Other => None,
        }),
{
    match target {
        DamageTarget::Enemy => Some(
            if crit && stealthed {
                DamageTint::Purple
            } else if crit {
                DamageTint::Yellow
            } else if stealthed {
                DamageTint::Pink
            } else {
                DamageTint::White
            },
        ),
        DamageTarget::Player => Some(DamageTint::Red),
        DamageTarget::Other => None,
    }
}

/// How the digits of a damage number are laid out: each three pixels wide with a pixel
/// between them, centred on the hit, each playing the animation of its character.
pub struct DigitLayout {
    /// The width of the whole number, in pixels.
    pub total_width: usize,
    /// Per character: its left offset from the number's left edge, and its animation key.
    pub digits: Vec<(usize, String)>,
}

/// The animation key of one character of a damage number.
pub open spec fn spec_digit_key(c: char) -> Seq<char> {
    "anim.numbers."@.push(c)
}

/// Lays out the digits of a damage number, given its text (the rounded amount).
pub fn damage_digit_layout(text: &str) -> (l: DigitLayout)
    requires
        text@.len() > 0,
        4 * text@.len() <= usize::MAX,
    ensures
        l.total_width == 4 * text@.len() - 1,
        l.digits@.len() == text@.len(),
        forall|i: int|
            0 <= i < text@.len() ==> (#[trigger] l.digits@[i]).0 == 4 * i && l.digits@[i].1@ == spec_digit_key(
                text@[i],
            ),
{
    let n = text.unicode_len();
    let mut digits: Vec<(usize, String)> = Vec::new();
    let mut i: usize = 0;
    while i < n
        invariant
            n == text@.len(),
            4 * n <= usize::MAX,
            i <= n,
            digits@.len() == i,
            forall|k: int|
                0 <= k < i ==> (#[trigger] digits@[k]).0 == 4 * k && digits@[k].1@ == spec_digit_key(text@[k]),
        decreases n - i,
    {
        let c = text.get_char(i);
        let mut key = String::from_str("anim.numbers.");
        string_push(&mut key, c);
        digits.push((4 * i, key));
        i = i + 1;
    }
    DigitLayout { total_width: n * 3 + (n - 1), digits }
}

/// Ticks of the fixed game clock in a second.
pub const TICKS_PER_SECOND: u64 = 96;

/// The depth offset of damage numbers starts over once none has appeared for a second
/// of game ticks.
pub fn reset_z_order_after_timeout(tick: u64, last_spawn_tick: u64) -> (reset: bool)
    requires
        last_spawn_tick + TICKS_PER_SECOND <= u64::MAX,
    ensures
        reset == (tick > last_spawn_tick + 96),
{
    tick > last_spawn_tick + TICKS_PER_SECOND
}

} // verus!
