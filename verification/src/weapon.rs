use vstd::prelude::*;

verus! {

/// Passive items referenced by the combat and interface rules.
#[derive(Debug, PartialEq, Eq, Clone, Copy, Hash, Structural)]
pub enum Passive {
    SerpentRing,
    FrenziedAttack,
    BatteryPack,
    Bloodstone,
}

/// The passives a player carries: those equipped, which take effect, and the rest.
#[derive(Debug, Clone)]
pub struct Passives {
    pub equipped: Vec<Passive>,
    pub inventory: Vec<Passive>,
}

impl Passives {
    /// Whether a passive is equipped.
    pub fn contains(&self, p: &Passive) -> (b: bool)
        ensures
            b == self.equipped@.contains(*p),
    {
        let mut i: usize = 0;
        while i < self.equipped.len()
            invariant
                i <= self.equipped.len(),
                forall|j: int| 0 <= j < i ==> self.equipped@[j] != *p,
            decreases self.equipped.len() - i,
        {
            if self.equipped[i] == *p {
                return true;
            }
            i = i + 1;
        }
        false
    }
}

/// Whether the player fights in melee or at range.
#[derive(Debug, PartialEq, Eq, Clone, Copy, Hash, Structural)]
pub enum PlayerCombatStyle {
    Ranged,
    Melee,
}

/// The melee weapon in hand.
#[derive(Debug, PartialEq, Eq, Clone, Copy, Hash, Structural)]
pub enum PlayerMeleeWeapon {
    Hammer,
    Sword,
}

/// The ranged weapon in hand.
#[derive(Debug, PartialEq, Eq, Clone, Copy, Hash, Structural)]
pub enum PlayerRangedWeapon {
    Bow,
}

impl Default for PlayerCombatStyle {
    fn default() -> (s: PlayerCombatStyle)
        ensures
            s == PlayerCombatStyle::Melee,
    {
        PlayerCombatStyle::Melee
    }
}

impl Default for PlayerMeleeWeapon {
    fn default() -> (w: PlayerMeleeWeapon)
        ensures
            w == PlayerMeleeWeapon::Sword,
    {
        PlayerMeleeWeapon::Sword
    }
}

impl Default for PlayerRangedWeapon {
    fn default() -> (w: PlayerRangedWeapon)
        ensures
            w == PlayerRangedWeapon::Bow,
    {
        PlayerRangedWeapon::Bow
    }
}

/// Knockback tuning of a weapon: per-tick displacement magnitudes, in 96ths of a unit,
/// and their durations in ticks.
#[derive(Debug, PartialEq, Eq, Clone, Copy, Structural)]
pub struct PushbackValues {
    pub pushback_96ths: u32,
    pub pushback_ticks: u32,
    pub self_pushback_96ths: u32,
    pub self_pushback_ticks: u32,
}

impl PlayerCombatStyle {
    pub open spec fn spec_name(self) -> Seq<char> {
        match self {
            PlayerCombatStyle::Ranged => "Ranged"@,
            PlayerCombatStyle::Melee => "Melee"@,
        }
    }

    /// The style's name as displayed.
    pub fn name(&self) -> (s: &'static str)
        ensures
            s@ == self.spec_name(),
    {
        match self {
            PlayerCombatStyle::Ranged => "Ranged",
            PlayerCombatStyle::Melee => "Melee",
        }
    }
}

impl PlayerMeleeWeapon {
    pub open spec fn spec_name(self) -> Seq<char> {
        match self {
            PlayerMeleeWeapon::Hammer => "Hammer"@,
            PlayerMeleeWeapon::Sword => "Sword"@,
        }
    }

    /// The weapon's name as displayed.
    pub fn name(&self) -> (s: &'static str)
        ensures
            s@ == self.spec_name(),
    {
        match self {
            PlayerMeleeWeapon::Hammer => "Hammer",
            PlayerMeleeWeapon::Sword => "Sword",
        }
    }

    pub open spec fn spec_damage_collider_lifetime(self, quick: bool) -> u32 {
        match self {
            PlayerMeleeWeapon::Hammer => if quick {
                18
            } else {
                24
            },
            PlayerMeleeWeapon::Sword => if quick {
                12
            } else {
                16
            },
        }
    }

    /// Damage-collider lifetime in ticks: sword 16 and hammer 24, shortened to 12 and 18
    /// by the Serpent Ring or Frenzied Attack passive.
    pub fn damage_collider_lifetime(&self, passives: &Passives) -> (ticks: u32)
        ensures
            ticks == self.spec_damage_collider_lifetime(
                passives.equipped@.contains(Passive::SerpentRing) || passives.equipped@.contains(
                    Passive::FrenziedAttack,
                ),
            ),
    {
        let quick = passives.contains(&Passive::SerpentRing) || passives.contains(
            &Passive::FrenziedAttack,
        );
        match self {
            PlayerMeleeWeapon::Hammer => {
                if quick {
                    18
                } else {
                    24
                }
            },
            PlayerMeleeWeapon::Sword => {
                if quick {
                    12
                } else {
                    16
                }
            },
        }
    }

    /// Base damage per hit: 55 for the hammer, 33 for the sword.
    pub fn base_damage(&self) -> (d: u32)
        ensures
            d == (match self {
                PlayerMeleeWeapon::Hammer => 55u32,
                PlayerMeleeWeapon::Sword => 33u32,
            }),
    {
        match self {
            PlayerMeleeWeapon::Hammer => 55,
            PlayerMeleeWeapon::Sword => 33,
        }
    }

    /// Knockback dealt and taken by melee hits: both weapons push the enemy 90/96 per tick
    /// for 12 ticks and the player back 90/96 per tick for 3 ticks.
    pub fn pushback_values(&self) -> (p: PushbackValues)
        ensures
            p == (PushbackValues {
                pushback_96ths: 90,
                pushback_ticks: 12,
                self_pushback_96ths: 90,
                self_pushback_ticks: 3,
            }),
    {
        match self {
            PlayerMeleeWeapon::Hammer => PushbackValues {
                pushback_96ths: 90,
                pushback_ticks: 12,
                self_pushback_96ths: 90,
                self_pushback_ticks: 3,
            },
            PlayerMeleeWeapon::Sword => PushbackValues {
                pushback_96ths: 90,
                pushback_ticks: 12,
                self_pushback_96ths: 90,
                self_pushback_ticks: 3,
            },
        }
    }
}

impl PlayerRangedWeapon {
    pub open spec fn spec_name(self) -> Seq<char> {
        match self {
            PlayerRangedWeapon::Bow => "Bow"@,
        }
    }

    /// The weapon's name as displayed.
    pub fn name(&self) -> (s: &'static str)
        ensures
            s@ == self.spec_name(),
    {
        match self {
            PlayerRangedWeapon::Bow => "Bow",
        }
    }

    /// Base damage per hit: 22 for the bow.
    pub fn base_damage(&self) -> (d: u32)
        ensures
            d == 22,
    {
        match self {
            PlayerRangedWeapon::Bow => 22,
        }
    }

    /// Knockback dealt by arrows: 60/96 per tick for 12 ticks, none taken.
    pub fn pushback_values(&self) -> (p: PushbackValues)
        ensures
            p == (PushbackValues {
                pushback_96ths: 60,
                pushback_ticks: 12,
                self_pushback_96ths: 0,
                self_pushback_ticks: 0,
            }),
    {
        match self {
            PlayerRangedWeapon::Bow => PushbackValues {
                pushback_96ths: 60,
                pushback_ticks: 12,
                self_pushback_96ths: 0,
                self_pushback_ticks: 0,
            },
        }
    }
}

/// The weapon selection of the player.
#[derive(Debug, PartialEq, Eq, Clone, Copy, Structural)]
pub struct CurrentWeapon {
    pub combat_style: PlayerCombatStyle,
    pub melee_weapon: PlayerMeleeWeapon,
    pub ranged_weapon: PlayerRangedWeapon,
}

impl CurrentWeapon {
    /// The selection a new game starts with: melee, sword, bow.
    pub fn initial() -> (w: CurrentWeapon)
        ensures
            w == (CurrentWeapon {
                combat_style: PlayerCombatStyle::Melee,
                melee_weapon: PlayerMeleeWeapon::Sword,
                ranged_weapon: PlayerRangedWeapon::Bow,
            }),
    {
        CurrentWeapon {
            combat_style: PlayerCombatStyle::default(),
            melee_weapon: PlayerMeleeWeapon::default(),
            ranged_weapon: PlayerRangedWeapon::default(),
        }
    }

    pub fn combat_style(&self) -> (s: PlayerCombatStyle)
        ensures
            s == self.combat_style,
    {
        self.combat_style
    }

    pub fn melee_weapon(&self) -> (w: PlayerMeleeWeapon)
        ensures
            w == self.melee_weapon,
    {
        self.melee_weapon
    }

    pub fn ranged_weapon(&self) -> (w: PlayerRangedWeapon)
        ensures
            w == self.ranged_weapon,
    {
        self.ranged_weapon
    }

    /// The name of the weapon in use: the ranged weapon's when ranged, else the melee one's.
    pub open spec fn spec_weapon_name(self) -> Seq<char> {
        match self.combat_style {
            PlayerCombatStyle::Ranged => self.ranged_weapon.spec_name(),
            PlayerCombatStyle::Melee => self.melee_weapon.spec_name(),
        }
    }

    /// The name of the weapon in use, as displayed.
    pub fn to_string(&self) -> (s: String)
        ensures
            s@ == self.spec_weapon_name(),
    {
        match self.combat_style {
            PlayerCombatStyle::Ranged => String::from_str(self.ranged_weapon.name()),
            PlayerCombatStyle::Melee => String::from_str(self.melee_weapon.name()),
        }
    }

    /// Animation key of an action with the weapon in use: `anim.player.<weapon><action>`.
    pub fn get_anim_key(&self, action: &str) -> (key: String)
        ensures
            key@ == "anim.player."@ + self.spec_weapon_name() + action@,
    {
        let mut key = String::from_str("anim.player.");
        let weapon = self.to_string();
        key.append(weapon.as_str());
        key.append(action);
        key
    }

    /// Whirling animation key of the melee weapon: `anim.player.<melee>Whirling`.
    pub fn whirling_anim_key(&self) -> (key: String)
        ensures
            key@ == "anim.player."@ + self.melee_weapon.spec_name() + "Whirling"@,
    {
        let mut key = String::from_str("anim.player.");
        key.append(self.melee_weapon.name());
        key.append("Whirling");
        key
    }

    pub fn is_wielding_hammer(&self) -> (b: bool)
        ensures
            b == (self.combat_style == PlayerCombatStyle::Melee && self.melee_weapon
                == PlayerMeleeWeapon::Hammer),
    {
        self.combat_style() == PlayerCombatStyle::Melee && self.melee_weapon()
            == PlayerMeleeWeapon::Hammer
    }

    pub fn has_bow_equipped(&self) -> (b: bool)
        ensures
            b == (self.combat_style == PlayerCombatStyle::Ranged && self.ranged_weapon
                == PlayerRangedWeapon::Bow),
    {
        self.combat_style() == PlayerCombatStyle::Ranged && self.ranged_weapon()
            == PlayerRangedWeapon::Bow
    }
}

pub open spec fn spec_swap_combat_style(s: PlayerCombatStyle) -> PlayerCombatStyle {
    match s {
        PlayerCombatStyle::Ranged => PlayerCombatStyle::Melee,
        PlayerCombatStyle::Melee => PlayerCombatStyle::Ranged,
    }
}

pub open spec fn spec_swap_melee_weapon(w: PlayerMeleeWeapon) -> PlayerMeleeWeapon {
    match w {
        PlayerMeleeWeapon::Sword => PlayerMeleeWeapon::Hammer,
        PlayerMeleeWeapon::Hammer => PlayerMeleeWeapon::Sword,
    }
}

/// The combat style after the swap button: each press switches melee and ranged.
pub fn swap_combat_style(style: PlayerCombatStyle, presses: u32) -> (s: PlayerCombatStyle)
    ensures
        s == (if presses % 2 == 1 {
            spec_swap_combat_style(style)
        } else {
            style
        }),
{
    let mut s = style;
    let mut i: u32 = 0;
    while i < presses
        invariant
            i <= presses,
            s == (if i % 2 == 1 {
                spec_swap_combat_style(style)
            } else {
                style
            }),
        decreases presses - i,
    {
        s = match s {
            PlayerCombatStyle::Ranged => PlayerCombatStyle::Melee,
            PlayerCombatStyle::Melee => PlayerCombatStyle::Ranged,
        };
        i = i + 1;
    }
    s
}

/// The melee weapon after the swap button: each press switches sword and hammer.
pub fn swap_melee_weapon(weapon: PlayerMeleeWeapon, presses: u32) -> (w: PlayerMeleeWeapon)
    ensures
        w == (if presses % 2 == 1 {
            spec_swap_melee_weapon(weapon)
        } else {
            weapon
        }),
{
    let mut w = weapon;
    let mut i: u32 = 0;
    while i < presses
        invariant
            i <= presses,
            w == (if i % 2 == 1 {
                spec_swap_melee_weapon(weapon)
            } else {
                weapon
            }),
        decreases presses - i,
    {
        w = match w {
            PlayerMeleeWeapon::Sword => PlayerMeleeWeapon::Hammer,
            PlayerMeleeWeapon::Hammer => PlayerMeleeWeapon::Sword,
        };
        i = i + 1;
    }
    w
}

/// Swapping twice restores the selection.
pub proof fn lemma_swaps_are_involutions(s: PlayerCombatStyle, w: PlayerMeleeWeapon)
    ensures
        spec_swap_combat_style(spec_swap_combat_style(s)) == s,
        spec_swap_melee_weapon(spec_swap_melee_weapon(w)) == w,
        spec_swap_combat_style(s) != s,
        spec_swap_melee_weapon(w) != w,
{
}

/// The shortened collider lifetime is three quarters of the normal one for both weapons.
pub proof fn lemma_quick_lifetime_is_three_quarters(w: PlayerMeleeWeapon)
    ensures
        4 * w.spec_damage_collider_lifetime(true) == 3 * w.spec_damage_collider_lifetime(false),
{
}

} // verus!
