use vstd::prelude::*;

use crate::skill_id::{cooldown_fills_upward, spec_cooldown_fills_upward, SkillId};
use crate::text::{decimal_string, spec_decimal};
use crate::weapon::{Passive, Passives};

verus! {

/// The slot of the toolbar that a slot container holds.
#[derive(Debug, Clone, Copy, PartialEq, Eq, Structural)]
pub struct SkillSlotContainer {
    pub slot: usize,
}

/// The slot that a widget of the toolbar (icon or cooldown overlay) shows.
#[derive(Debug, Clone, Copy, PartialEq, Eq, Structural)]
pub struct SkillSlotUI {
    pub slot: usize,
}

/// Marks the root of the toolbar's interface, which a rebuild replaces whole.
#[derive(Debug, Clone, Copy, Default, PartialEq, Eq, Structural)]
pub struct AbilityBarRoot;

/// Marks the toolbar's frame, which carries its preset.
#[derive(Debug, Clone, Copy, Default, PartialEq, Eq, Structural)]
pub struct ToolbarFrame;

/// Marks the fill of the toolbar's health bar, which follows the player's health.
#[derive(Debug, Clone, Copy, Default, PartialEq, Eq, Structural)]
pub struct PlayerHpUI;

/// How many skill slots the toolbar frame was built with.
#[derive(Debug, Clone, Copy, PartialEq, Eq, Structural)]
pub struct ToolbarPreset {
    pub num_slots: usize,
}

/// The toolbar has a fifth slot while the Battery Pack is equipped.
pub open spec fn spec_slot_count(has_battery: bool) -> usize {
    if has_battery {
        5
    } else {
        4
    }
}

/// The number of toolbar slots for the player's passives.
pub fn toolbar_slot_count(passives: &Passives) -> (n: usize)
    ensures
        n == spec_slot_count(passives.equipped@.contains(Passive::BatteryPack)),
{
    if passives.contains(&Passive::BatteryPack) {
        5
    } else {
        4
    }
}

/// Where the pieces of the toolbar go, in screen pixels (the art is drawn at five
/// times its size).
#[derive(Debug, Clone, PartialEq, Eq)]
pub struct ToolbarLayout {
    pub root: AbilityBarRoot,
    pub frame: ToolbarFrame,
    pub preset: ToolbarPreset,
    pub frame_width: u32,
    pub frame_height: u32,
    /// The slot containers, one per slot in order, with the left offset of each.
    pub slots: Vec<(SkillSlotContainer, u32)>,
    pub slot_size: u32,
    pub slot_top: u32,
    pub hp_width: u32,
    pub hp_height: u32,
    pub hp_top: u32,
    pub hp_left: u32,
    pub hp_fill: PlayerHpUI,
    pub xp_width: u32,
    pub xp_height: u32,
    pub xp_bottom: u32,
    pub xp_left: u32,
}

/// The left offset of a slot: a 45 pixel margin, then one slot every 70 pixels.
pub open spec fn spec_slot_left(slot: int) -> int {
    45 + 70 * slot
}

/// Lays out the toolbar: the frame, its slots, and the health and experience bars,
/// wider with the Battery Pack.
pub fn spawn_toolbar(has_battery: bool) -> (l: ToolbarLayout)
    ensures
        l.preset.num_slots == spec_slot_count(has_battery),
        l.frame_width == (if has_battery { 430u32 } else { 360u32 }),
        l.frame_height == 150,
        l.slots@.len() == l.preset.num_slots,
        forall|i: int|
            0 <= i < l.slots@.len() ==> (#[trigger] l.slots@[i]).0.slot == i && l.slots@[i].1
                == spec_slot_left(i),
        l.slot_size == 60,
        l.slot_top == 45,
        l.hp_width == (if has_battery { 340u32 } else { 270u32 }),
        l.hp_height == (if has_battery { 12u32 } else { 10u32 }),
        l.hp_top == (if has_battery { 112u32 } else { 115u32 }),
        l.hp_left == 45,
        l.xp_width == (if has_battery { 340u32 } else { 270u32 }),
        l.xp_height == (if has_battery { 6u32 } else { 5u32 }),
        l.xp_bottom == 15,
        l.xp_left == 45,
{
    let num_slots: usize = if has_battery {
        5
    } else {
        4
    };
    let mut slots: Vec<(SkillSlotContainer, u32)> = Vec::new();
    let mut slot: usize = 0;
    let mut left: u32 = 45;
    while slot < num_slots
        invariant
            num_slots <= 5,
            slot <= num_slots,
            slots@.len() == slot,
            left == spec_slot_left(slot as int),
            forall|i: int|
                0 <= i < slots@.len() ==> (#[trigger] slots@[i]).0.slot == i && slots@[i].1
                    == spec_slot_left(i),
        decreases num_slots - slot,
    {
        slots.push((SkillSlotContainer { slot }, left));
        slot = slot + 1;
        left = left + 70;
    }
    ToolbarLayout {
        root: AbilityBarRoot,
        frame: ToolbarFrame,
        preset: ToolbarPreset { num_slots },
        frame_width: if has_battery {
            86 * 5
        } else {
            72 * 5
        },
        frame_height: 30 * 5,
        slots,
        slot_size: 60,
        slot_top: 45,
        hp_width: if has_battery {
            340
        } else {
            270
        },
        hp_height: if has_battery {
            12
        } else {
            10
        },
        hp_top: if has_battery {
            112
        } else {
            115
        },
        hp_left: 45,
        hp_fill: PlayerHpUI,
        xp_width: if has_battery {
            340
        } else {
            270
        },
        xp_height: if has_battery {
            6
        } else {
            5
        },
        xp_bottom: 15,
        xp_left: 45,
    }
}

/// Whether the toolbar must be rebuilt, and with how many slots: when there is a player
/// (with or without the Battery Pack), unless a frame already exists with the slot count
/// its passives call for.
pub open spec fn spec_toolbar_rebuild(has_battery: Option<bool>, frame: Option<ToolbarPreset>) -> Option<usize> {
    match has_battery {
        None => None,
        Some(b) => if frame == Some(ToolbarPreset { num_slots: spec_slot_count(b) }) {
            None
        } else {
            Some(spec_slot_count(b))
        },
    }
}

/// Decides whether to rebuild the toolbar (see `spec_toolbar_rebuild`).
pub fn apply_toolbar_preset(passives: Option<&Passives>, frame: Option<ToolbarPreset>) -> (rebuild:
    Option<usize>)
    ensures
        rebuild == spec_toolbar_rebuild(
            match passives {
                Some(p) => Some(p.equipped@.contains(Passive::BatteryPack)),
                None => None,
            },
            frame,
        ),
{
    match passives {
        None => None,
        Some(p) => {
            let desired = toolbar_slot_count(p);
            match frame {
                Some(preset) => {
                    if preset.num_slots == desired {
                        None
                    } else {
                        Some(desired)
                    }
                },
                None => Some(desired),
            }
        },
    }
}

/// A toolbar rebuilt for the player's passives is left alone until they change, and a
/// change of the Battery Pack always rebuilds it.
pub proof fn lemma_toolbar_preset_settles(has_battery: bool)
    ensures
        spec_toolbar_rebuild(Some(has_battery), Some(ToolbarPreset { num_slots: spec_slot_count(has_battery) }))
            is None,
        spec_toolbar_rebuild(Some(!has_battery), Some(ToolbarPreset { num_slots: spec_slot_count(has_battery) }))
            == Some(spec_slot_count(!has_battery)),
{
}

/// A skill widget to put into a toolbar slot container: the skill it shows, the slot,
/// the index of the container among those given, and the direction of its cooldown fill.
#[derive(Debug, Clone, Copy, PartialEq, Eq, Structural)]
pub struct WidgetPlan {
    pub skill: SkillId,
    pub slot: usize,
    pub container: usize,
    pub dir_up: bool,
}

fn first_container(containers: &Vec<SkillSlotContainer>, slot: usize) -> (found: Option<usize>)
    ensures
        match found {
            Some(j) => j < containers@.len() && containers@[j as int].slot == slot && forall|k: int|
                0 <= k < j ==> (#[trigger] containers@[k]).slot != slot,
            None => forall|k: int| 0 <= k < containers@.len() ==> (#[trigger] containers@[k]).slot != slot,
        },
{
    let mut j: usize = 0;
    while j < containers.len()
        invariant
            j <= containers@.len(),
            forall|k: int| 0 <= k < j ==> (#[trigger] containers@[k]).slot != slot,
        decreases containers@.len() - j,
    {
        if containers[j].slot == slot {
            return Some(j);
        }
        j = j + 1;
    }
    None
}

/// The widgets for the equipped skills, slot by slot; a slot with no container gets none.
pub open spec fn spec_widget_plan(equipped: Seq<SkillId>, containers: Seq<SkillSlotContainer>) -> Seq<
    WidgetPlan,
>
    decreases equipped.len(),
{
    if equipped.len() == 0 {
        Seq::empty()
    } else {
        let slot = (equipped.len() - 1) as usize;
        let before = spec_widget_plan(equipped.drop_last(), containers);
        match spec_container_for(containers, slot) {
            Some(c) => before.push(
                WidgetPlan {
                    skill: equipped.last(),
                    slot,
                    container: c,
                    dir_up: spec_cooldown_fills_upward(equipped.last()),
                },
            ),
            None => before,
        }
    }
}

/// The first container holding a slot, as the plan uses it.
pub open spec fn spec_container_for(containers: Seq<SkillSlotContainer>, slot: usize) -> Option<usize> {
    if exists|j: int| 0 <= j < containers.len() && (#[trigger] containers[j]).slot == slot {
        Some(
            (choose|j: int|
                0 <= j < containers.len() && containers[j].slot == slot && forall|k: int|
                    0 <= k < j ==> (#[trigger] containers[k]).slot != slot) as usize,
        )
    } else {
        None
    }
}

proof fn lemma_container_for(containers: Seq<SkillSlotContainer>, slot: usize, j: usize)
    requires
        j < containers.len(),
        containers[j as int].slot == slot,
        forall|k: int| 0 <= k < j ==> (#[trigger] containers[k]).slot != slot,
    ensures
        spec_container_for(containers, slot) == Some(j),
{
    assert(containers[j as int].slot == slot);
    let c = choose|i: int|
        0 <= i < containers.len() && containers[i].slot == slot && forall|k: int|
            0 <= k < i ==> (#[trigger] containers[k]).slot != slot;
    assert(0 <= c < containers.len() && containers[c].slot == slot);
    if c < j {
    } else if c > j {
        assert(containers[j as int].slot != slot);
    }
}

/// Plans the skill widgets of the toolbar after the equipped skills change: every
/// slot container is cleared, then each equipped skill gets a widget in the container
/// of its slot.
pub fn update_toolbar_skills(equipped: &Vec<SkillId>, containers: &Vec<SkillSlotContainer>) -> (plan: Vec<
    WidgetPlan,
>)
    ensures
        plan@ == spec_widget_plan(equipped@, containers@),
{
    let mut plan: Vec<WidgetPlan> = Vec::new();
    let mut i: usize = 0;
    while i < equipped.len()
        invariant
            i <= equipped@.len(),
            plan@ == spec_widget_plan(equipped@.take(i as int), containers@),
        decreases equipped@.len() - i,
    {
        assert(equipped@.take(i + 1).drop_last() =~= equipped@.take(i as int));
        let skill = equipped[i];
        match first_container(containers, i) {
            Some(c) => {
                proof {
                    lemma_container_for(containers@, i, c);
                }
                plan.push(WidgetPlan { skill, slot: i, container: c, dir_up: cooldown_fills_upward(skill) });
            },
            None => {},
        }
        i = i + 1;
    }
    assert(equipped@.take(equipped@.len() as int) =~= equipped@);
    plan
}

/// Whether any slot container already holds a skill widget, given for each container
/// whether each of its children is one.
pub fn toolbar_populated(children_are_widgets: &Vec<Vec<bool>>) -> (any: bool)
    ensures
        any == exists|c: int, k: int|
            0 <= c < children_are_widgets@.len() && 0 <= k < children_are_widgets@[c]@.len()
                && #[trigger] children_are_widgets@[c]@[k],
{
    let mut c: usize = 0;
    while c < children_are_widgets.len()
        invariant
            c <= children_are_widgets@.len(),
            forall|a: int, k: int|
                0 <= a < c && 0 <= k < children_are_widgets@[a]@.len() ==> !#[trigger] children_are_widgets@[a]@[k],
        decreases children_are_widgets@.len() - c,
    {
        let children = &children_are_widgets[c];
        let mut k: usize = 0;
        while k < children.len()
            invariant
                c < children_are_widgets@.len(),
                children == children_are_widgets@[c as int],
                k <= children@.len(),
                forall|b: int| 0 <= b < k ==> !#[trigger] children@[b],
            decreases children@.len() - k,
        {
            if children[k] {
                assert(children_are_widgets@[c as int]@[k as int]);
                return true;
            }
            k = k + 1;
        }
        c = c + 1;
    }
    false
}

/// The fallback that fills an empty toolbar: when no container holds a widget and some
/// skill is equipped, the same widgets as after a change of equipped skills; else none.
pub fn ensure_toolbar_populated(any_populated: bool, equipped: &Vec<SkillId>, containers: &Vec<
    SkillSlotContainer,
>) -> (plan: Vec<WidgetPlan>)
    ensures
        plan@ == (if !any_populated && equipped@.len() > 0 {
            spec_widget_plan(equipped@, containers@)
        } else {
            Seq::empty()
        }),
{
    if !any_populated && equipped.len() > 0 {
        update_toolbar_skills(equipped, containers)
    } else {
        Vec::new()
    }
}

/// The names of the entities of a toolbar slot: its container, its skill icon and its
/// cooldown overlay.
pub struct SlotNames {
    pub container: String,
    pub icon: String,
    pub cooldown: String,
}

/// Names the entities of toolbar slot `slot`.
pub fn spawn_ability_widget_in_container(slot: usize) -> (names: SlotNames)
    ensures
        names.container@ == "skill_slot_"@ + spec_decimal(slot as nat),
        names.icon@ == "ability_slot_"@ + spec_decimal(slot as nat),
        names.cooldown@ == "ability_cooldown_slot_"@ + spec_decimal(slot as nat),
{
    let n = decimal_string(slot as u64);
    SlotNames {
        container: String::from_str("skill_slot_").concat(n.as_str()),
        icon: String::from_str("ability_slot_").concat(n.as_str()),
        cooldown: String::from_str("ability_cooldown_slot_").concat(n.as_str()),
    }
}

/// How the cooldown overlay of a skill is filled.
#[derive(Debug, Clone, Copy, PartialEq, Eq, Structural)]
pub enum CooldownDisplay {
    /// Whirl's energy, shown as the part of its capacity that is spent.
    WhirlEnergy,
    /// Flicker Strike's energy, likewise.
    FlickerEnergy,
    /// The explosive mine's whole charges out of three.
    MineCharges,
    /// The skill's cooldown, as the part of it that remains.
    Cooldown,
}

/// Which overlay a skill's slot shows.
pub fn update_skill_cooldowns(skill: SkillId) -> (d: CooldownDisplay)
    ensures
        d == (match skill {
            SkillId::Whirl => CooldownDisplay::WhirlEnergy,
            SkillId::FlickerStrike => CooldownDisplay::FlickerEnergy,
            SkillId::ExplosiveMine => CooldownDisplay::MineCharges,
            _ => CooldownDisplay::Cooldown,
        }),
{
    match skill {
        SkillId::Whirl => CooldownDisplay::WhirlEnergy,
        SkillId::FlickerStrike => CooldownDisplay::FlickerEnergy,
        SkillId::ExplosiveMine => CooldownDisplay::MineCharges,
        _ => CooldownDisplay::Cooldown,
    }
}

/// The slots of a freshly built toolbar are exactly the containers that the widget plan
/// finds: every equipped skill within the slot count gets a widget, in its own slot.
pub proof fn lemma_fresh_toolbar_places_every_skill(
    equipped: Seq<SkillId>,
    containers: Seq<SkillSlotContainer>,
    i: int,
)
    requires
        0 <= i < equipped.len() <= containers.len(),
        equipped.len() <= usize::MAX,
        forall|j: int| 0 <= j < containers.len() ==> (#[trigger] containers[j]).slot == j,
    ensures
        spec_widget_plan(equipped, containers).len() == equipped.len(),
        spec_widget_plan(equipped, containers)[i] == (WidgetPlan {
            skill: equipped[i],
            slot: i as usize,
            container: i as usize,
            dir_up: spec_cooldown_fills_upward(equipped[i]),
        }),
    decreases equipped.len(),
{
    let n = equipped.len() - 1;
    let prefix = equipped.drop_last();
    lemma_container_for(containers, n as usize, n as usize);
    if n == 0 {
        assert(spec_widget_plan(prefix, containers) =~= Seq::<WidgetPlan>::empty());
    } else {
        lemma_fresh_toolbar_places_every_skill(prefix, containers, 0);
        if i < n {
            lemma_fresh_toolbar_places_every_skill(prefix, containers, i);
            assert(prefix[i] == equipped[i]);
        }
    }
}

} // verus!
