use vstd::prelude::*;

verus! {

/// Identifier of every player skill that can sit in a toolbar slot.
#[derive(Debug, PartialEq, Eq, Clone, Copy, Hash, Structural)]
pub enum SkillId {
    Attack,
    Dash,
    DashStrike,
    Whirl,
    Stealth,
    BurningDash,
    FlickerStrike,
    AmplifiedBell,
    Spinner,
    ExplosiveMine,
    IceNova,
}

/// Display name shown in the skill inventory hover popup.
pub open spec fn spec_skill_name(skill: SkillId) -> Seq<char> {
    match skill {
        SkillId::Attack => "Basic Attack"@,
        SkillId::Dash => "Dash"@,
        SkillId::DashStrike => "Dash Strike"@,
        SkillId::Whirl => "Whirling Strike"@,
        SkillId::Stealth => "Stealth"@,
        SkillId::BurningDash => "Burning Dash"@,
        SkillId::FlickerStrike => "Flicker Strike"@,
        SkillId::AmplifiedBell => "Amplified Bell"@,
        SkillId::Spinner => "Spinner"@,
        SkillId::ExplosiveMine => "Explosive Mine"@,
        SkillId::IceNova => "Ice Nova"@,
    }
}

/// The display name of a skill.
pub fn skill_name(skill: SkillId) -> (name: &'static str)
    ensures
        name@ == spec_skill_name(skill),
{
    match skill {
        SkillId::Attack => "Basic Attack",
        SkillId::Dash => "Dash",
        SkillId::DashStrike => "Dash Strike",
        SkillId::Whirl => "Whirling Strike",
        SkillId::Stealth => "Stealth",
        SkillId::BurningDash => "Burning Dash",
        SkillId::FlickerStrike => "Flicker Strike",
        SkillId::AmplifiedBell => "Amplified Bell",
        SkillId::Spinner => "Spinner",
        SkillId::ExplosiveMine => "Explosive Mine",
        SkillId::IceNova => "Ice Nova",
    }
}

/// Description shown under the name in the skill inventory hover popup.
pub open spec fn spec_skill_description(skill: SkillId) -> Seq<char> {
    match skill {
        SkillId::Attack => "A basic weapon attack. Adapts to your currently equipped weapon."@,
        SkillId::Dash => "Quickly dash in a direction, avoiding enemy attacks."@,
        SkillId::DashStrike => "Dive diagonally down by default or strike upward when held, phasing through enemies and unleashing an impact blast on contact."@,
        SkillId::Whirl => "Spin with your melee weapon, dealing damage to all nearby enemies."@,
        SkillId::Stealth => "Become temporarily invisible to enemies. Attacking breaks stealth."@,
        SkillId::BurningDash => "Channel your life force to dash forward, damaging enemies. Consumes health while active."@,
        SkillId::FlickerStrike => "Channel to rapidly dash between enemies, striking each one. Consumes energy while active."@,
        SkillId::AmplifiedBell => "Deploy a bell on nearby ground. Hitting it triggers ring shocks that damage nearby enemies after a short delay."@,
        SkillId::Spinner => "Spawn a follower spinner that initially darts forward, then pulls toward you dealing contact damage. While stealthed it idles and won't be picked up; when visible it despawns on contact."@,
        SkillId::ExplosiveMine => "Instantly plant a mine at your feet. It arms after deployment and explodes when an enemy approaches, dealing area damage. Uses 1/3 energy per mine; energy recharges in 1/3 chunks."@,
        SkillId::IceNova => "Instantly release a devastating burst of cold around you. Deals damage and freezes nearby enemies solid for a short duration."@,
    }
}

/// The description of a skill.
pub fn skill_description(skill: SkillId) -> (text: &'static str)
    ensures
        text@ == spec_skill_description(skill),
{
    match skill {
        SkillId::Attack => "A basic weapon attack. Adapts to your currently equipped weapon.",
        SkillId::Dash => "Quickly dash in a direction, avoiding enemy attacks.",
        SkillId::DashStrike => "Dive diagonally down by default or strike upward when held, phasing through enemies and unleashing an impact blast on contact.",
        SkillId::Whirl => "Spin with your melee weapon, dealing damage to all nearby enemies.",
        SkillId::Stealth => "Become temporarily invisible to enemies. Attacking breaks stealth.",
        SkillId::BurningDash => "Channel your life force to dash forward, damaging enemies. Consumes health while active.",
        SkillId::FlickerStrike => "Channel to rapidly dash between enemies, striking each one. Consumes energy while active.",
        SkillId::AmplifiedBell => "Deploy a bell on nearby ground. Hitting it triggers ring shocks that damage nearby enemies after a short delay.",
        SkillId::Spinner => "Spawn a follower spinner that initially darts forward, then pulls toward you dealing contact damage. While stealthed it idles and won't be picked up; when visible it despawns on contact.",
        SkillId::ExplosiveMine => "Instantly plant a mine at your feet. It arms after deployment and explodes when an enemy approaches, dealing area damage. Uses 1/3 energy per mine; energy recharges in 1/3 chunks.",
        SkillId::IceNova => "Instantly release a devastating burst of cold around you. Deals damage and freezes nearby enemies solid for a short duration.",
    }
}

/// Whether the cooldown overlay of a toolbar slot fills upward: the reverse energy
/// bars of Whirl and Flicker Strike fill the other way.
pub open spec fn spec_cooldown_fills_upward(skill: SkillId) -> bool {
    !(skill == SkillId::Whirl || skill == SkillId::FlickerStrike)
}

/// The fill direction of the cooldown overlay for a skill's toolbar widget.
pub fn cooldown_fills_upward(skill: SkillId) -> (up: bool)
    ensures
        up == spec_cooldown_fills_upward(skill),
{
    match skill {
        SkillId::Whirl => false,
        SkillId::FlickerStrike => false,
        SkillId::AmplifiedBell => true,
        SkillId::Spinner => true,
        _ => true,
    }
}

} // verus!
