use theseeker_game::console::{
    toggle_console, ConsoleCommandHistory, ConsoleKeys, ConsolePrompt, ConsoleToggle, PromptOutcome,
    TypedKey,
};
use theseeker_game::hud::{
    damage_digit_layout, damage_tint, enemy_bar_despawns, hp_bar_orphaned,
    reset_z_order_after_timeout, should_spawn_hp_bar, update_counter, update_visibility,
    AbilityWidgetConfig, DamageTarget, DamageTint,
};
use theseeker_game::inventory::{
    fix_visibility_hierarchy, handle_slot_clicks, hovered_item, passive_window_slots,
    skill_popup_text, skill_window_background, skill_window_slots, toggle_inventory_window,
    update_slot_icon, BatteryWatch, HoverPopup, InventoryItem, InventorySlot, SlotClick, SlotType,
    SlotUnderCursor, WindowRefresh, WindowToggle,
};
use theseeker_game::skill_id::SkillId;
use theseeker_game::toolbar::{
    apply_toolbar_preset, ensure_toolbar_populated, spawn_ability_widget_in_container,
    spawn_toolbar, toolbar_populated, toolbar_slot_count, update_skill_cooldowns,
    update_toolbar_skills, CooldownDisplay, SkillSlotContainer, ToolbarPreset, WidgetPlan,
};
use theseeker_game::visibility::{toggle_control_overlay, toggled, update_fog, Visibility};
use theseeker_game::weapon::{Passive, Passives};

fn keys() -> ConsoleKeys {
    ConsoleKeys { escape: false, enter: false, backspace: false, up: false, down: false, typed: vec![] }
}

fn typing(text: &str) -> ConsoleKeys {
    ConsoleKeys {
        typed: text.chars().map(|c| if c == ' ' { TypedKey::Space } else { TypedKey::Character(c) }).collect(),
        ..keys()
    }
}

fn battery(on: bool) -> Passives {
    Passives { equipped: if on { vec![Passive::BatteryPack] } else { vec![] }, inventory: vec![] }
}

#[test]
fn console_types_and_runs_command() {
    let mut history = ConsoleCommandHistory::default();
    let mut p = ConsolePrompt::new();
    assert_eq!(p.console_text_input(&typing("locale fr"), &mut history), PromptOutcome::Open);
    assert_eq!(p.text, "locale fr");
    let other = ConsoleKeys { typed: vec![TypedKey::Other], ..keys() };
    p.console_text_input(&other, &mut history);
    assert_eq!(p.text, "locale fr");
    let out = p.console_text_input(&ConsoleKeys { enter: true, ..keys() }, &mut history);
    assert_eq!(out, PromptOutcome::Run("locale fr".to_string()));
    assert_eq!(history.0, vec!["locale fr".to_string()]);
}

#[test]
fn console_backspace_undoes_typing_and_closes_when_empty() {
    let mut history = ConsoleCommandHistory::default();
    let mut p = ConsolePrompt::new();
    p.console_text_input(&typing("ab"), &mut history);
    p.console_text_input(&typing("c"), &mut history);
    let out = p.console_text_input(&ConsoleKeys { backspace: true, ..keys() }, &mut history);
    assert_eq!(out, PromptOutcome::Open);
    assert_eq!(p.text, "ab");
    let mut empty = ConsolePrompt::new();
    let out = empty.console_text_input(&ConsoleKeys { backspace: true, ..keys() }, &mut history);
    assert_eq!(out, PromptOutcome::Close);
}

#[test]
fn console_history_walk() {
    let mut history = ConsoleCommandHistory(vec!["first".to_string(), "second".to_string()]);
    let mut p = ConsolePrompt::new();
    let up = ConsoleKeys { up: true, ..keys() };
    let down = ConsoleKeys { down: true, ..keys() };
    p.console_text_input(&up, &mut history);
    assert_eq!((p.text.as_str(), p.history_entry), ("second", Some(1)));
    p.console_text_input(&up, &mut history);
    p.console_text_input(&up, &mut history);
    assert_eq!((p.text.as_str(), p.history_entry), ("first", Some(0)));
    p.console_text_input(&down, &mut history);
    p.console_text_input(&down, &mut history);
    assert_eq!((p.text.as_str(), p.history_entry), ("second", Some(1)));
    p.console_text_input(&typing("x"), &mut history);
    assert_eq!(p.history_entry, None);
    assert_eq!(p.text, "secondx");
}

#[test]
fn console_escape_and_toggle() {
    let mut history = ConsoleCommandHistory::default();
    let mut p = ConsolePrompt::new();
    p.console_text_input(&typing("abc"), &mut history);
    let all = ConsoleKeys { escape: true, enter: true, ..typing("zz") };
    assert_eq!(p.console_text_input(&all, &mut history), PromptOutcome::Close);
    assert!(history.0.is_empty());
    assert_eq!(toggle_console(true, 0), ConsoleToggle::Spawn);
    assert_eq!(toggle_console(true, 2), ConsoleToggle::Despawn);
    assert_eq!(toggle_console(false, 0), ConsoleToggle::Nothing);
}

#[test]
fn toolbar_layout_with_and_without_battery() {
    let four = spawn_toolbar(false);
    assert_eq!(four.preset.num_slots, 4);
    assert_eq!((four.frame_width, four.frame_height), (360, 150));
    assert_eq!(four.slots.iter().map(|s| s.1).collect::<Vec<_>>(), vec![45, 115, 185, 255]);
    assert_eq!((four.hp_width, four.hp_height, four.hp_top), (270, 10, 115));
    assert_eq!((four.xp_width, four.xp_height, four.xp_bottom), (270, 5, 15));
    let five = spawn_toolbar(true);
    assert_eq!(five.preset.num_slots, 5);
    assert_eq!(five.frame_width, 430);
    assert_eq!(five.slots[4], (SkillSlotContainer { slot: 4 }, 325));
    assert_eq!((five.hp_width, five.hp_height, five.hp_top), (340, 12, 112));
    assert_eq!(five.xp_height, 6);
}

#[test]
fn toolbar_rebuilds_when_battery_changes() {
    assert_eq!(toolbar_slot_count(&battery(true)), 5);
    assert_eq!(apply_toolbar_preset(Some(&battery(true)), Some(ToolbarPreset { num_slots: 4 })), Some(5));
    assert_eq!(apply_toolbar_preset(Some(&battery(false)), Some(ToolbarPreset { num_slots: 4 })), None);
    assert_eq!(apply_toolbar_preset(Some(&battery(false)), None), Some(4));
    assert_eq!(apply_toolbar_preset(None, None), None);
}

#[test]
fn toolbar_widgets_follow_equipped_skills() {
    let containers = vec![SkillSlotContainer { slot: 1 }, SkillSlotContainer { slot: 0 }];
    let equipped = vec![SkillId::Whirl, SkillId::Dash, SkillId::IceNova];
    let plan = update_toolbar_skills(&equipped, &containers);
    assert_eq!(
        plan,
        vec![
            WidgetPlan { skill: SkillId::Whirl, slot: 0, container: 1, dir_up: false },
            WidgetPlan { skill: SkillId::Dash, slot: 1, container: 0, dir_up: true },
        ]
    );
    assert!(ensure_toolbar_populated(true, &equipped, &containers).is_empty());
    assert!(ensure_toolbar_populated(false, &vec![], &containers).is_empty());
    assert_eq!(ensure_toolbar_populated(false, &equipped, &containers), plan);
    assert!(toolbar_populated(&vec![vec![false], vec![false, true]]));
    assert!(!toolbar_populated(&vec![vec![], vec![false]]));
}

#[test]
fn toolbar_names_and_cooldown_display() {
    let n = spawn_ability_widget_in_container(3);
    assert_eq!(n.container, "skill_slot_3");
    assert_eq!(n.icon, "ability_slot_3");
    assert_eq!(n.cooldown, "ability_cooldown_slot_3");
    assert_eq!(update_skill_cooldowns(SkillId::Whirl), CooldownDisplay::WhirlEnergy);
    assert_eq!(update_skill_cooldowns(SkillId::ExplosiveMine), CooldownDisplay::MineCharges);
    assert_eq!(update_skill_cooldowns(SkillId::Dash), CooldownDisplay::Cooldown);
}

#[test]
fn skill_window_slot_positions() {
    let slots = skill_window_slots(false);
    assert_eq!(slots.len(), 32);
    assert_eq!(slots.iter().take(4).map(|s| (s.x, s.y)).collect::<Vec<_>>(), vec![(-24, -26), (-8, -26), (8, -26), (24, -26)]);
    assert_eq!(slots[4].slot, InventorySlot { slot_type: SlotType::Inventory, row: 0, col: 0 });
    assert_eq!((slots[4].x, slots[4].y), (-48, -6));
    assert_eq!((slots[31].x, slots[31].y), (48, 42));
    let five = skill_window_slots(true);
    assert_eq!(five.len(), 33);
    assert_eq!((five[0].x, five[4].x), (-32, 32));
    assert_eq!(skill_window_background(true), "anim.ui.skillsbg5slots");
    assert_eq!(skill_window_background(false), "anim.ui.skillsbg");
}

#[test]
fn passive_window_slot_positions() {
    let slots = passive_window_slots();
    assert_eq!(slots.len(), 32);
    assert_eq!((slots[0].x, slots[0].y, slots[3].x), (-24, 26, 24));
    assert_eq!((slots[4].x, slots[4].y), (-48, 6));
    let last = slots[31];
    assert_eq!(last.slot, InventorySlot { slot_type: SlotType::Inventory, row: 3, col: 6 });
    assert_eq!((last.x, last.y), (48, -42));
}

#[test]
fn slot_icons_come_from_the_right_list() {
    let equipped = vec![SkillId::Dash];
    let carried = vec![SkillId::Attack; 8];
    let mut carried = carried;
    carried[7] = SkillId::Spinner;
    let eq0 = InventorySlot { slot_type: SlotType::Equipped, row: 0, col: 0 };
    let eq1 = InventorySlot { col: 1, ..eq0 };
    let grid = InventorySlot { slot_type: SlotType::Inventory, row: 1, col: 0 };
    assert_eq!(update_slot_icon(eq0, &equipped, &carried), Some(SkillId::Dash));
    assert_eq!(update_slot_icon(eq1, &equipped, &carried), None);
    assert_eq!(update_slot_icon(grid, &equipped, &carried), Some(SkillId::Spinner));
}

#[test]
fn clicks_equip_and_unequip() {
    let slots = vec![
        SlotUnderCursor { hit: false, slot_type: SlotType::Inventory, icon: Some(InventoryItem::Skill(SkillId::Dash)) },
        SlotUnderCursor { hit: true, slot_type: SlotType::Equipped, icon: Some(InventoryItem::Skill(SkillId::Whirl)) },
        SlotUnderCursor { hit: true, slot_type: SlotType::Inventory, icon: Some(InventoryItem::Skill(SkillId::IceNova)) },
    ];
    assert_eq!(handle_slot_clicks(true, &slots), SlotClick::Unequip(InventoryItem::Skill(SkillId::Whirl)));
    assert_eq!(handle_slot_clicks(false, &slots), SlotClick::Nothing);
    assert_eq!(hovered_item(&slots), Some(InventoryItem::Skill(SkillId::Whirl)));
    let carried = vec![SlotUnderCursor { hit: true, slot_type: SlotType::Inventory, icon: Some(InventoryItem::Passive(Passive::Bloodstone)) }];
    assert_eq!(handle_slot_clicks(true, &carried), SlotClick::Equip(InventoryItem::Passive(Passive::Bloodstone)));
    let empty = vec![SlotUnderCursor { hit: true, slot_type: SlotType::Inventory, icon: None }];
    assert_eq!(handle_slot_clicks(true, &empty), SlotClick::Nothing);
}

#[test]
fn hover_popup_builds_once_and_leaves() {
    let item = InventoryItem::Skill(SkillId::Dash);
    let mut p = HoverPopup::new();
    let a = p.handle_slot_hover(true, Some(item), true);
    assert_eq!(a.spawn, Some(item));
    assert!(!a.despawn);
    assert!(p.open);
    let b = p.handle_slot_hover(true, Some(item), true);
    assert_eq!(b.spawn, None);
    assert!(b.reposition && !b.despawn);
    let other = InventoryItem::Skill(SkillId::Whirl);
    let c = p.handle_slot_hover(true, Some(other), true);
    assert!(c.despawn);
    assert_eq!(c.spawn, Some(other));
    let d = p.handle_slot_hover(true, None, true);
    assert!(d.despawn);
    assert!(!p.open && p.last.is_none());
    let e = p.handle_slot_hover(false, None, true);
    assert!(!e.despawn);
}

#[test]
fn popup_text_and_window_toggle() {
    assert_eq!(
        skill_popup_text(SkillId::Dash),
        "Dash\n\nQuickly dash in a direction, avoiding enemy attacks."
    );
    assert_eq!(toggle_inventory_window(true, true, false), WindowToggle::Close);
    assert_eq!(toggle_inventory_window(true, false, true), WindowToggle::Open);
    assert_eq!(toggle_inventory_window(true, false, false), WindowToggle::Nothing);
    assert_eq!(toggle_inventory_window(false, true, true), WindowToggle::Nothing);
}

#[test]
fn battery_change_reopens_open_window() {
    let mut w = BatteryWatch::new();
    assert_eq!(w.refresh_inventory_on_battery_pack_change(Some(false), true, true), WindowRefresh::Nothing);
    assert_eq!(w.refresh_inventory_on_battery_pack_change(Some(true), true, true), WindowRefresh::Reopen);
    assert_eq!(w.refresh_inventory_on_battery_pack_change(Some(true), true, true), WindowRefresh::Nothing);
    assert_eq!(w.refresh_inventory_on_battery_pack_change(Some(false), false, true), WindowRefresh::Nothing);
    assert_eq!(w.refresh_inventory_on_battery_pack_change(Some(true), true, false), WindowRefresh::Close);
    assert_eq!(w.refresh_inventory_on_battery_pack_change(None, true, true), WindowRefresh::Nothing);
    assert_eq!(w.prev, Some(true));
}

#[test]
fn visibility_toggles_and_fixes() {
    assert_eq!(toggled(Visibility::Inherited), Visibility::Hidden);
    assert_eq!(toggled(Visibility::Hidden), Visibility::Visible);
    assert_eq!(toggled(toggled(Visibility::Visible)), Visibility::Visible);
    assert_eq!(toggle_control_overlay(false, Visibility::Hidden), Visibility::Hidden);
    assert_eq!(update_fog(true), Visibility::Inherited);
    assert_eq!(update_fog(false), Visibility::Hidden);
    let f = fix_visibility_hierarchy(false, true, false);
    assert_eq!(f.visibility, Some(Visibility::Visible));
    assert!(!f.inherited && f.view);
}

#[test]
fn hud_counter_and_bars() {
    assert_eq!(update_counter(0), "0");
    assert_eq!(update_counter(1207), "1207");
    assert!(should_spawn_hp_bar(true, false));
    assert!(!should_spawn_hp_bar(true, true));
    assert_eq!(update_visibility(true, 10, 10), Some(Visibility::Hidden));
    assert_eq!(update_visibility(true, 3, 10), Some(Visibility::Inherited));
    assert_eq!(update_visibility(false, 3, 10), None);
    assert!(hp_bar_orphaned(false, false));
    assert!(!hp_bar_orphaned(false, true));
    assert!(enemy_bar_despawns(true, true));
    assert!(!enemy_bar_despawns(true, false));
    let cfg = AbilityWidgetConfig::from("icons/dash.png".to_string(), 7u32, true);
    assert_eq!((cfg.image_path.as_str(), cfg.tracking_component, cfg.dir_up), ("icons/dash.png", 7, true));
}

#[test]
fn damage_numbers_layout_and_tint() {
    let l = damage_digit_layout("125");
    assert_eq!(l.total_width, 11);
    assert_eq!(
        l.digits,
        vec![
            (0, "anim.numbers.1".to_string()),
            (4, "anim.numbers.2".to_string()),
            (8, "anim.numbers.5".to_string()),
        ]
    );
    assert_eq!(damage_digit_layout("7").total_width, 3);
    assert_eq!(damage_tint(DamageTarget::Enemy, true, true), Some(DamageTint::Purple));
    assert_eq!(damage_tint(DamageTarget::Enemy, true, false), Some(DamageTint::Yellow));
    assert_eq!(damage_tint(DamageTarget::Enemy, false, true), Some(DamageTint::Pink));
    assert_eq!(damage_tint(DamageTarget::Enemy, false, false), Some(DamageTint::White));
    assert_eq!(damage_tint(DamageTarget::Player, true, true), Some(DamageTint::Red));
    assert_eq!(damage_tint(DamageTarget::Other, false, false), None);
    assert!(!reset_z_order_after_timeout(196, 100));
    assert!(reset_z_order_after_timeout(197, 100));
}

#[test]
fn grid_slots_show_carried_items_in_order() {
    let carried: Vec<u32> = (0..30).collect();
    let equipped: Vec<u32> = vec![100, 101];
    for has_battery in [false, true] {
        let slots = skill_window_slots(has_battery);
        let n = if has_battery { 5 } else { 4 };
        for g in 0..28 {
            assert_eq!(update_slot_icon(slots[n + g].slot, &equipped, &carried), Some(g as u32));
        }
        for k in 0..n {
            assert_eq!(slots[k].x, -slots[n - 1 - k].x);
        }
    }
    let passive = passive_window_slots();
    for g in 0..28 {
        assert_eq!(update_slot_icon(passive[4 + g].slot, &equipped, &carried), Some(g as u32));
    }
    assert_eq!(update_slot_icon(passive[1].slot, &equipped, &carried), Some(101));
}
