use theseeker_game::flicker::{
    flicker_animation_key, flicker_collision_step, flicker_damage_source, flicker_hit_base_damage,
    flicker_phase_slots, flicker_phase_step, flicker_releases_locomotion, flicker_striking_movement,
    flicker_targeting_step, FlickerCandidate, FlickerPhase, FlickerStriking, FlickerVariant,
    FLICKER_HIT_LIFETIME_TICKS,
};
use theseeker_game::locomotion::Facing;
use theseeker_game::skills::WeaponType;

fn enemy(id: u64, key: u32) -> FlickerCandidate {
    FlickerCandidate { id, alive: true, in_range: true, has_defense: false, distance_key: key }
}

fn dashing_strike() -> FlickerStriking {
    let mut f = FlickerStriking::new(WeaponType::Sword);
    f.phase = FlickerPhase::Dashing;
    f
}

#[test]
fn intro_lasts_one_frame_for_sword_two_for_hammer() {
    let mut f = FlickerStriking::new(WeaponType::Sword);
    for _ in 0..7 {
        assert!(!flicker_phase_step(&mut f, false));
        assert_eq!(f.phase, FlickerPhase::Intro);
    }
    flicker_phase_step(&mut f, false);
    assert_eq!(f.phase, FlickerPhase::Dashing);
    assert_eq!(f.phase_start_tick, 8);
    let mut h = FlickerStriking::new(WeaponType::Hammer);
    for _ in 0..8 {
        flicker_phase_step(&mut h, false);
    }
    assert_eq!(h.phase, FlickerPhase::Intro);
    for _ in 0..8 {
        flicker_phase_step(&mut h, false);
    }
    assert_eq!(h.phase, FlickerPhase::Dashing);
}

#[test]
fn outro_ends_the_strike() {
    let mut f = FlickerStriking::new(WeaponType::Sword);
    f.phase = FlickerPhase::Outro;
    let mut ended = false;
    for _ in 0..8 {
        ended = flicker_phase_step(&mut f, false);
    }
    assert!(ended);
}

#[test]
fn first_pick_is_nearest() {
    let mut f = dashing_strike();
    let cs = vec![enemy(1, 30), enemy(2, 10), enemy(3, 20)];
    let t = flicker_targeting_step(&mut f, false, true, &cs);
    assert_eq!(t.selected, Some(2));
    assert_eq!(f.current_target, Some(2));
    assert_eq!(f.last_target, Some(2));
}

#[test]
fn later_picks_skip_previous_target() {
    let mut f = dashing_strike();
    f.last_target = Some(1);
    f.tick = 0;
    let cs = vec![enemy(1, 5), enemy(2, 6)];
    let t = flicker_targeting_step(&mut f, false, true, &cs);
    assert_eq!(t.selected, Some(2));
}

#[test]
fn defended_enemies_only_when_no_other() {
    let mut f = dashing_strike();
    let shielded = FlickerCandidate { has_defense: true, ..enemy(7, 1) };
    let cs = vec![shielded, enemy(8, 50)];
    assert_eq!(flicker_targeting_step(&mut f, false, true, &cs).selected, Some(8));
    let mut g = dashing_strike();
    let only = vec![shielded];
    assert_eq!(flicker_targeting_step(&mut g, false, true, &only).selected, Some(7));
    assert!(g.defense_only_mode);
    // in defense-only mode a second defended target ends the strike
    g.current_target = None;
    let t = flicker_targeting_step(&mut g, false, true, &only);
    assert_eq!(t.selected, None);
    assert_eq!(g.phase, FlickerPhase::Outro);
}

#[test]
fn no_energy_or_targets_goes_to_outro() {
    let mut f = dashing_strike();
    flicker_targeting_step(&mut f, false, false, &vec![enemy(1, 1)]);
    assert_eq!(f.phase, FlickerPhase::Outro);
    let mut g = dashing_strike();
    flicker_targeting_step(&mut g, false, true, &vec![]);
    assert_eq!(g.phase, FlickerPhase::Outro);
}

#[test]
fn all_hit_forgets_hit_set() {
    let mut f = dashing_strike();
    f.damaged_entities = vec![1, 2];
    let t = flicker_targeting_step(&mut f, false, true, &vec![enemy(1, 1), enemy(2, 2)]);
    assert_eq!(t.selected, None);
    assert!(f.damaged_entities.is_empty());
    assert_eq!(f.phase, FlickerPhase::Dashing);
}

#[test]
fn outro_request_is_deferred_mid_dash() {
    let mut f = dashing_strike();
    f.current_target = Some(4);
    let t = flicker_targeting_step(&mut f, true, true, &vec![enemy(4, 1)]);
    assert!(t.consume_outro_request);
    assert!(f.pending_outro);
    assert_eq!(f.phase, FlickerPhase::Dashing);
    let mut g = dashing_strike();
    flicker_targeting_step(&mut g, true, true, &vec![enemy(4, 1)]);
    assert_eq!(g.phase, FlickerPhase::Outro);
}

#[test]
fn deferred_outro_keeps_target_and_hits() {
    let mut f = dashing_strike();
    f.tick = 20;
    f.phase_start_tick = 12;
    f.current_target = Some(4);
    f.last_target = Some(4);
    f.damaged_entities = vec![2, 3];
    f.defense_only_mode = true;
    let t = flicker_targeting_step(&mut f, true, true, &vec![enemy(4, 1), enemy(5, 2)]);
    assert!(t.consume_outro_request);
    assert_eq!(t.selected, None);
    assert!(f.pending_outro);
    assert_eq!(f.phase, FlickerPhase::Dashing);
    assert_eq!(f.phase_start_tick, 12);
    assert_eq!(f.current_target, Some(4));
    assert_eq!(f.last_target, Some(4));
    assert_eq!(f.damaged_entities, vec![2, 3]);
    assert!(f.defense_only_mode);
}

#[test]
fn immediate_outro_keeps_hits_and_last_target() {
    let mut f = dashing_strike();
    f.tick = 30;
    f.phase = FlickerPhase::Damage;
    f.current_target = Some(6);
    f.last_target = Some(6);
    f.damaged_entities = vec![6];
    let t = flicker_targeting_step(&mut f, true, true, &vec![enemy(7, 1)]);
    assert!(t.consume_outro_request);
    assert_eq!(f.phase, FlickerPhase::Outro);
    assert_eq!(f.phase_start_tick, 30);
    assert_eq!(f.current_target, None);
    assert_eq!(f.last_target, Some(6));
    assert_eq!(f.damaged_entities, vec![6]);
    assert!(!f.pending_outro);
}

#[test]
fn hit_damage_by_weapon() {
    assert_eq!(flicker_hit_base_damage(WeaponType::Sword), 33);
    assert_eq!(flicker_hit_base_damage(WeaponType::Hammer), 55);
    assert_eq!(flicker_hit_base_damage(WeaponType::Bow), 10);
    let sword = flicker_damage_source(WeaponType::Sword, Facing::Left, true, false, false);
    assert_eq!(sword.base_damage, 33);
    assert_eq!(sword.lifetime, FLICKER_HIT_LIFETIME_TICKS);
    assert_eq!(sword.lifetime, 3);
    assert_eq!(sword.max_targets, 1);
    assert_eq!(sword.hit_slot, "SwordHit");
    assert!(sword.backstab);
    assert!(!sword.stealthed);
    let hammer = flicker_damage_source(WeaponType::Hammer, Facing::Left, false, true, true);
    assert_eq!(hammer.base_damage, 55);
    assert_eq!(hammer.hit_slot, "HammerHit");
    assert!(!hammer.backstab);
    assert!(hammer.stealthed);
    let bow = flicker_damage_source(WeaponType::Bow, Facing::Right, false, true, false);
    assert_eq!(bow.base_damage, 10);
    assert_eq!(bow.hit_slot, "SwordHit");
    assert!(bow.backstab);
    assert!(!flicker_damage_source(WeaponType::Bow, Facing::Right, true, false, false).backstab);
}

#[test]
fn arrival_applies_damage_once() {
    let mut f = dashing_strike();
    f.current_target = Some(9);
    let h = flicker_collision_step(&mut f, true, true);
    assert!(h.arrived && h.apply_damage);
    assert_eq!(f.phase, FlickerPhase::Damage);
    assert_eq!(f.damaged_entities, vec![9]);
    f.phase = FlickerPhase::Dashing;
    let again = flicker_collision_step(&mut f, true, true);
    assert!(again.arrived && !again.apply_damage);
    assert_eq!(f.damaged_entities, vec![9]);
    let mut far = dashing_strike();
    far.current_target = Some(9);
    assert!(!flicker_collision_step(&mut far, true, false).arrived);
}

#[test]
fn animation_keys_and_slots() {
    assert_eq!(flicker_animation_key(WeaponType::Hammer, FlickerVariant::FrontUpward), "anim.player.HammerFlickerFrontUpward");
    assert_eq!(flicker_animation_key(WeaponType::Bow, FlickerVariant::Forward), "anim.player.SwordFlickerForward");
    let s = flicker_phase_slots(FlickerPhase::Damage);
    assert!(s.damage && !s.intro && !s.dashing && !s.outro);
    assert!(flicker_releases_locomotion(FlickerPhase::Outro));
    assert!(!flicker_releases_locomotion(FlickerPhase::Dashing));
}

#[test]
fn flicker_moves_only_toward_live_target() {
    assert!(flicker_striking_movement(FlickerPhase::Dashing, true, true));
    assert!(!flicker_striking_movement(FlickerPhase::Dashing, true, false));
    assert!(!flicker_striking_movement(FlickerPhase::Dashing, false, true));
    assert!(!flicker_striking_movement(FlickerPhase::Damage, true, true));
}
