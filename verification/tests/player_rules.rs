use theseeker_game::gamestate::{
    initial_app_state, initial_game_state, next_game_state, pause, unpause, AppState, GameState,
};
use theseeker_game::motion_tables::{fall_velocity_milli, jump_velocity_milli, pogo_velocity_milli};
use theseeker_game::skill_id::{cooldown_fills_upward, skill_description, skill_name, SkillId};
use theseeker_game::state_registry::{
    action_metadata, dash_ghost_lifetime_ticks, enter_effects, exit_effects, locomotion_metadata,
    transition_action, transition_locomotion, ActionKind, ActionSlots, EnterHook, ExitHook, FadeCurve,
    GhostColorMode, GhostMovement, LocomotionKind, LocomotionSlots, ScaleCurve,
};
use theseeker_game::weapon::{
    swap_combat_style, swap_melee_weapon, CurrentWeapon, Passive, Passives, PlayerCombatStyle,
    PlayerMeleeWeapon, PlayerRangedWeapon,
};

fn passives(equipped: Vec<Passive>) -> Passives {
    Passives { equipped, inventory: vec![] }
}

#[test]
fn game_starts_loading_and_playing() {
    assert_eq!(initial_app_state(), AppState::AssetsLoading);
    assert_eq!(initial_game_state(), GameState::Playing);
}

#[test]
fn pause_key_requests_the_other_state() {
    assert_eq!(pause(true), Some(GameState::Paused));
    assert_eq!(pause(false), None);
    assert_eq!(unpause(true), Some(GameState::Playing));
    assert_eq!(unpause(false), None);
}

#[test]
fn pause_key_twice_restores_state() {
    let once = next_game_state(GameState::Playing, true);
    assert_eq!(once, GameState::Paused);
    assert_eq!(next_game_state(once, true), GameState::Playing);
    assert_eq!(next_game_state(GameState::Paused, false), GameState::Paused);
}

#[test]
fn collider_lifetime_by_weapon_and_passives() {
    let none = passives(vec![]);
    assert_eq!(PlayerMeleeWeapon::Sword.damage_collider_lifetime(&none), 16);
    assert_eq!(PlayerMeleeWeapon::Hammer.damage_collider_lifetime(&none), 24);
    let ring = passives(vec![Passive::SerpentRing]);
    assert_eq!(PlayerMeleeWeapon::Sword.damage_collider_lifetime(&ring), 12);
    assert_eq!(PlayerMeleeWeapon::Hammer.damage_collider_lifetime(&ring), 18);
    let frenzy = passives(vec![Passive::Bloodstone, Passive::FrenziedAttack]);
    assert_eq!(PlayerMeleeWeapon::Sword.damage_collider_lifetime(&frenzy), 12);
    // a carried, unequipped ring has no effect
    let carried = Passives { equipped: vec![], inventory: vec![Passive::SerpentRing] };
    assert_eq!(PlayerMeleeWeapon::Hammer.damage_collider_lifetime(&carried), 24);
}

#[test]
fn quick_lifetime_is_three_quarters() {
    let ring = passives(vec![Passive::SerpentRing]);
    let none = passives(vec![]);
    for w in [PlayerMeleeWeapon::Sword, PlayerMeleeWeapon::Hammer] {
        assert_eq!(4 * w.damage_collider_lifetime(&ring), 3 * w.damage_collider_lifetime(&none));
    }
}

#[test]
fn weapon_damage_and_pushback() {
    assert_eq!(PlayerMeleeWeapon::Hammer.base_damage(), 55);
    assert_eq!(PlayerMeleeWeapon::Sword.base_damage(), 33);
    assert_eq!(PlayerRangedWeapon::Bow.base_damage(), 22);
    let p = PlayerMeleeWeapon::Sword.pushback_values();
    assert_eq!((p.pushback_96ths, p.pushback_ticks, p.self_pushback_96ths, p.self_pushback_ticks), (90, 12, 90, 3));
    let b = PlayerRangedWeapon::Bow.pushback_values();
    assert_eq!((b.pushback_96ths, b.pushback_ticks, b.self_pushback_96ths, b.self_pushback_ticks), (60, 12, 0, 0));
}

#[test]
fn weapon_names_and_animation_keys() {
    let w = CurrentWeapon::initial();
    assert_eq!(w.combat_style(), PlayerCombatStyle::Melee);
    assert_eq!(w.to_string(), "Sword");
    assert_eq!(w.get_anim_key("Attack"), "anim.player.SwordAttack");
    assert_eq!(w.whirling_anim_key(), "anim.player.SwordWhirling");
    let ranged = CurrentWeapon { combat_style: PlayerCombatStyle::Ranged, ..w };
    assert_eq!(ranged.to_string(), "Bow");
    assert_eq!(ranged.get_anim_key("Run"), "anim.player.BowRun");
    assert!(ranged.has_bow_equipped());
    assert!(!ranged.is_wielding_hammer());
    let hammer = CurrentWeapon { melee_weapon: PlayerMeleeWeapon::Hammer, ..w };
    assert!(hammer.is_wielding_hammer());
    assert_eq!(hammer.whirling_anim_key(), "anim.player.HammerWhirling");
    assert_eq!(PlayerCombatStyle::Ranged.name(), "Ranged");
}

#[test]
fn swapping_twice_restores_selection() {
    assert_eq!(swap_combat_style(PlayerCombatStyle::Melee, 1), PlayerCombatStyle::Ranged);
    assert_eq!(swap_combat_style(PlayerCombatStyle::Melee, 2), PlayerCombatStyle::Melee);
    assert_eq!(swap_melee_weapon(PlayerMeleeWeapon::Sword, 3), PlayerMeleeWeapon::Hammer);
    assert_eq!(swap_melee_weapon(PlayerMeleeWeapon::Hammer, 2), PlayerMeleeWeapon::Hammer);
}

#[test]
fn skill_texts_and_fill_direction() {
    assert_eq!(skill_name(SkillId::Whirl), "Whirling Strike");
    assert_eq!(skill_name(SkillId::Attack), "Basic Attack");
    assert_eq!(
        skill_description(SkillId::Dash),
        "Quickly dash in a direction, avoiding enemy attacks."
    );
    assert!(!cooldown_fills_upward(SkillId::Whirl));
    assert!(!cooldown_fills_upward(SkillId::FlickerStrike));
    assert!(cooldown_fills_upward(SkillId::Spinner));
    assert!(cooldown_fills_upward(SkillId::IceNova));
}

#[test]
fn motion_curves_sample_values() {
    assert_eq!(jump_velocity_milli(0), 0);
    assert_eq!(jump_velocity_milli(2), 1615);
    assert_eq!(jump_velocity_milli(50), 0);
    assert_eq!(fall_velocity_milli(4), -47);
    assert_eq!(fall_velocity_milli(47), -1705);
    assert_eq!(pogo_velocity_milli(0), 818);
    assert_eq!(pogo_velocity_milli(23), 0);
}

#[test]
fn action_registry_entries() {
    let m = action_metadata(ActionKind::Dashing);
    assert_eq!(m.name, "Dashing");
    assert!(m.overrides_locomotion);
    assert_eq!(m.on_enter, Some(EnterHook::DashFx));
    assert_eq!(m.on_exit, Some(ExitHook::CleanupDash));
    let r = action_metadata(ActionKind::Ready);
    assert!(!r.overrides_locomotion);
    assert_eq!(r.on_enter, None);
    assert_eq!(locomotion_metadata(LocomotionKind::Falling).name, "Falling");
}

#[test]
fn action_transition_leaves_one_state() {
    let mut slots = ActionSlots::single(ActionKind::Whirling);
    slots.present[2] = true; // a stray Dashing as well
    let t = transition_action(&slots, ActionKind::BurningDashing);
    assert_eq!(t.slots.present, vec![false, false, false, false, true, false, false]);
    assert_eq!(t.removed, vec![ActionKind::Dashing, ActionKind::Whirling]);
    assert_eq!(t.exit_hooks, vec![ExitHook::CleanupDash, ExitHook::CleanupWhirling]);
    assert_eq!(t.enter_hook, Some(EnterHook::BurningDashFx));
    assert!(t.overrides_locomotion);
}

#[test]
fn settled_action_transition_runs_own_hooks() {
    let slots = ActionSlots::single(ActionKind::Ready);
    let t = transition_action(&slots, ActionKind::Attacking);
    assert_eq!(t.removed, vec![ActionKind::Ready]);
    assert!(t.exit_hooks.is_empty());
    assert_eq!(t.enter_hook, None);
    assert!(!t.overrides_locomotion);
}

#[test]
fn locomotion_transition_replaces_state() {
    let slots = LocomotionSlots::single(LocomotionKind::Running);
    let t = transition_locomotion(&slots, LocomotionKind::Jumping);
    assert_eq!(t.slots.present, vec![false, false, true, false]);
    assert_eq!(t.removed, vec![LocomotionKind::Running]);
}

#[test]
fn dash_ghost_lifetime_has_floor() {
    assert_eq!(dash_ghost_lifetime_ticks(4), 29);
    assert_eq!(dash_ghost_lifetime_ticks(6), 30);
    assert_eq!(dash_ghost_lifetime_ticks(0), 29);
}

#[test]
fn exit_undoes_enter_for_each_state() {
    for (enter, exit) in [
        (EnterHook::DashFx, ExitHook::CleanupDash),
        (EnterHook::WhirlingFx, ExitHook::CleanupWhirling),
        (EnterHook::BurningDashFx, ExitHook::CleanupBurningDash),
        (EnterHook::FlickerStrikeFx, ExitHook::CleanupFlickerStrike),
        (EnterHook::DashStrikeFx, ExitHook::CleanupDashStrike),
    ] {
        let e = enter_effects(enter, 10, false);
        let x = exit_effects(exit);
        assert!(!e.insert_in_air || x.remove_in_air);
        assert!(e.ghosting.is_none() || x.remove_ghosting);
        assert!(e.channeled_skill.is_none() || x.remove_channeled);
    }
    let dash = enter_effects(EnterHook::DashFx, 10, true);
    let g = dash.ghosting.unwrap();
    assert_eq!((g.spawn_interval_ticks, g.ghost_lifetime_ticks, g.initial_alpha_percent), (1, 50, 20));
}

#[test]
fn ghost_trails_fade_linearly_from_a_fresh_counter() {
    for (hook, interval, lifetime) in [
        (EnterHook::DashFx, 1, 29),
        (EnterHook::DashStrikeFx, 1, 29),
        (EnterHook::BurningDashFx, 8, 16),
        (EnterHook::FlickerStrikeFx, 0, 100),
    ] {
        let g = enter_effects(hook, 4, false).ghosting.unwrap();
        assert_eq!(g.spawn_interval_ticks, interval);
        assert_eq!(g.ghost_lifetime_ticks, lifetime);
        assert_eq!(g.initial_alpha_percent, 50);
        assert_eq!(g.fade_curve, FadeCurve::Linear);
        assert_eq!(g.color_mode, GhostColorMode::Original);
        assert_eq!(g.scale_over_time, ScaleCurve::Constant);
        assert_eq!(g.movement, GhostMovement::Static);
        assert_eq!(g.ticks_since_last_spawn, 0);
    }
    assert!(enter_effects(EnterHook::WhirlingFx, 4, false).ghosting.is_none());
}
