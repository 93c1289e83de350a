use theseeker_game::locomotion::{
    auto_dodge_step, facing_after_input, falling_enter_animation, falling_step, idle_step, jumping_step, running_step,
    AutoDodge, AutoDodgeCharge, AutoDodgeInput, AutoDodgeRolling, Facing, Falling, FallingInput,
    GroundedInput, HorizontalControl, Jumping, JumpingInput, LocomotionTarget, MoveDir, WallSide,
};
use theseeker_game::weapon::PlayerMeleeWeapon;
use theseeker_game::skills::{
    attack_step, attack_variant_on_enter, attacking_enter, dash_strike_enter, get_attack_animation_key,
    launch_direction, whirl_base_damage, AttackAnimations, AttackSpawn, burning_dash_step, dash_step, dash_strike_step,
    melee_auto_aim, pogo_step, whirl_frame, whirl_step, AttackVariant, Attacking, AutoAimView,
    BlastCandidate, BurningDashing, DashStrike, Dashing, Pogo, PogoContext, PogoHandover, ProximityView,
    SkillVariant, SkillWeaponKind, StrikeContacts, WeaponType, Whirling,
};

fn grounded() -> GroundedInput {
    GroundedInput {
        overrides_locomotion: false,
        grounded: true,
        move_sign: MoveDir::Neutral,
        jump_requested: false,
        dashing: false,
        dash_striking: false,
        left_wall_contact: false,
        right_wall_contact: false,
        facing: Facing::Right,
        facing_locked: false,
    }
}

fn airborne_jump() -> JumpingInput {
    JumpingInput {
        overrides_locomotion: false,
        has_pogo: false,
        touching_ceiling: false,
        jump_released: false,
        grounded_marker: false,
        near_left_wall: false,
        near_right_wall: false,
        move_deadzone: MoveDir::Neutral,
        move_sign: MoveDir::Neutral,
        knockback_active: false,
        facing: Facing::Right,
        facing_locked: false,
    }
}

fn falling_input() -> FallingInput {
    FallingInput {
        has_pogo: false,
        overrides_locomotion: false,
        moving_down: true,
        move_deadzone: MoveDir::Neutral,
        move_sign: MoveDir::Neutral,
        left_wall_contact: false,
        right_wall_contact: false,
        grounded: false,
        jump_requested: false,
        extra_jumps: 0,
        dashing: false,
        facing: Facing::Right,
        facing_locked: false,
    }
}

#[test]
fn facing_follows_input_unless_locked() {
    assert_eq!(facing_after_input(Facing::Right, MoveDir::Left, false), Facing::Left);
    assert_eq!(facing_after_input(Facing::Right, MoveDir::Left, true), Facing::Right);
    assert_eq!(facing_after_input(Facing::Left, MoveDir::Neutral, false), Facing::Left);
}

#[test]
fn idle_stands_runs_jumps_and_falls() {
    let s = idle_step(grounded());
    assert_eq!(s.next, None);
    assert_eq!(s.horizontal, HorizontalControl::Zero);
    assert!(s.zero_vertical);
    let s = idle_step(GroundedInput { move_sign: MoveDir::Left, ..grounded() });
    assert_eq!(s.next, Some(LocomotionTarget::Running));
    assert_eq!(s.facing, Facing::Left);
    let s = idle_step(GroundedInput { jump_requested: true, ..grounded() });
    assert_eq!(s.next, Some(LocomotionTarget::Jumping(Jumping::new())));
    assert!(s.consume_jump);
    let s = idle_step(GroundedInput { grounded: false, ..grounded() });
    assert_eq!(s.next, Some(LocomotionTarget::Falling(Falling::new())));
}

#[test]
fn running_stops_against_walls() {
    let run = GroundedInput { move_sign: MoveDir::Right, ..grounded() };
    assert_eq!(running_step(run).horizontal, HorizontalControl::Drive);
    let wall = GroundedInput { right_wall_contact: true, ..run };
    assert_eq!(running_step(wall).horizontal, HorizontalControl::Zero);
    assert_eq!(running_step(grounded()).next, Some(LocomotionTarget::Idle));
}

#[test]
fn jump_follows_curve_then_hands_over() {
    let j = Jumping::new();
    let s = jumping_step(j, airborne_jump());
    assert_eq!(s.jumping.tick, 1);
    assert_eq!(s.vertical_milli, Some(0));
    assert_eq!(s.next, None);
    let s = jumping_step(Jumping { tick: 2, ..j }, airborne_jump());
    assert_eq!(s.vertical_milli, Some(1615));
    let released = jumping_step(Jumping { tick: 5, ..j }, JumpingInput { jump_released: true, ..airborne_jump() });
    assert_eq!(released.next, Some(Falling::from_jump(1)));
    let end = jumping_step(Jumping { tick: 51, ..j }, airborne_jump());
    assert_eq!(end.next, Some(Falling::from_jump(1)));
}

#[test]
fn jump_kicks_off_a_single_wall() {
    let i = JumpingInput { near_left_wall: true, move_deadzone: MoveDir::Left, ..airborne_jump() };
    let s = jumping_step(Jumping::new(), i);
    assert_eq!(s.wall_kick, Some(WallSide::Left));
    assert_eq!(s.facing, Facing::Right);
    let both = JumpingInput { near_right_wall: true, ..i };
    assert_eq!(jumping_step(Jumping::new(), both).wall_kick, None);
}

#[test]
fn falling_lands_by_input() {
    let land = falling_step(Falling::new(), FallingInput { grounded: true, ..falling_input() });
    assert_eq!(land.next, Some(LocomotionTarget::Idle));
    let run = falling_step(
        Falling::new(),
        FallingInput { grounded: true, move_deadzone: MoveDir::Right, ..falling_input() },
    );
    assert_eq!(run.next, Some(LocomotionTarget::Running));
}

#[test]
fn falling_follows_fall_curve() {
    let f = Falling { fall_ticks: 4, ..Falling::new() };
    let s = falling_step(f, falling_input());
    assert_eq!(s.vertical_milli, Some(-47));
    assert_eq!(s.falling.fall_ticks, 5);
    assert_eq!(s.falling.coyote_ticks, 1);
    let last = falling_step(Falling { fall_ticks: 47, ..Falling::new() }, falling_input());
    assert_eq!(last.falling.fall_ticks, 47);
    assert_eq!(last.vertical_milli, Some(-1705));
}

#[test]
fn coyote_jump_only_in_window() {
    let jump = FallingInput { jump_requested: true, ..falling_input() };
    let s = falling_step(Falling { coyote_ticks: 9, ..Falling::new() }, jump);
    assert_eq!(s.next, Some(LocomotionTarget::Jumping(Jumping::new())));
    let late = falling_step(Falling { coyote_ticks: 10, ..Falling::new() }, jump);
    assert_eq!(late.next, None);
}

#[test]
fn mid_air_jumps_are_limited() {
    let jump = FallingInput { jump_requested: true, ..falling_input() };
    let s = falling_step(Falling::from_jump(1), jump);
    assert_eq!(s.next, Some(LocomotionTarget::Jumping(Jumping::with_count(2))));
    let spent = falling_step(Falling::from_jump(2), jump);
    assert_eq!(spent.next, None);
    let bonus = falling_step(Falling::from_jump(2), FallingInput { extra_jumps: 1, ..jump });
    assert_eq!(bonus.next, Some(LocomotionTarget::Jumping(Jumping::with_count(3))));
}

#[test]
fn wall_slide_starts_and_wall_jump_kicks() {
    let slide = FallingInput { move_deadzone: MoveDir::Left, left_wall_contact: true, ..falling_input() };
    let s = falling_step(Falling { fall_ticks: 20, ..Falling::new() }, slide);
    assert_eq!(s.wall_slide_started, Some(WallSide::Left));
    assert_eq!(s.falling.wall_slide, Some(WallSide::Left));
    assert_eq!(s.falling.fall_ticks, 13);
    assert_eq!(s.horizontal, HorizontalControl::Zero);
    let sliding = Falling { wall_slide: Some(WallSide::Left), ..Falling::from_jump(2) };
    let j = falling_step(sliding, FallingInput { jump_requested: true, ..slide });
    assert_eq!(j.wall_kick, Some(WallSide::Left));
    assert_eq!(j.facing, Facing::Right);
    assert_eq!(j.next, Some(LocomotionTarget::Jumping(Jumping::new())));
}

#[test]
fn wall_slide_holds_still_facing_away_and_counter_only_grows() {
    let slide = FallingInput { move_deadzone: MoveDir::Right, right_wall_contact: true, ..falling_input() };
    let mut f = Falling { fall_ticks: 9, ..Falling::new() };
    for _ in 0..8 {
        let s = falling_step(f, slide);
        assert_eq!(s.next, None);
        assert_eq!(s.falling.wall_slide, Some(WallSide::Right));
        assert_eq!(s.horizontal, HorizontalControl::Zero);
        assert_eq!(s.facing, Facing::Left);
        assert!(s.falling.fall_ticks >= f.fall_ticks);
        assert!(s.falling.fall_ticks <= 13);
        f = s.falling;
    }
    assert_eq!(f.fall_ticks, 13);
}

#[test]
fn auto_dodge_charges_then_rolls() {
    let i = AutoDodgeInput { overrides_locomotion: false, moving: true, grounded: true, ready: true, blocking_enemy_ahead: true };
    let mut d = AutoDodge { charge: None, rolling: None };
    for _ in 0..15 {
        d = auto_dodge_step(d, i);
        assert!(d.rolling.is_none());
    }
    assert_eq!(d.charge, Some(AutoDodgeCharge { ticks: 15 }));
    d = auto_dodge_step(d, i);
    assert_eq!(d.rolling, Some(AutoDodgeRolling { tick: 0 }));
    assert_eq!(d.charge, None);
    let stopped = auto_dodge_step(d, AutoDodgeInput { moving: false, ..i });
    assert_eq!(stopped.rolling, None);
}

#[test]
fn attack_finishes_at_window() {
    let a = Attacking::new(AttackVariant::Forward, WeaponType::Sword);
    let s = attack_step(a, 2, false);
    assert!(!s.finished);
    let s = attack_step(s.attacking, 2, false);
    assert!(s.finished);
    assert!(s.zero_velocity);
    let pogo = attack_step(Attacking { tick: 1, ..a }, 2, true);
    assert!(pogo.finished && !pogo.zero_velocity);
    let custom = attack_step(a.with_max_ticks(1), 9, false);
    assert!(custom.finished);
}

#[test]
fn melee_auto_aim_prefers_forward() {
    let v = AutoAimView { enemy_forward: false, enemy_above: true, enemy_below: true };
    assert_eq!(melee_auto_aim(AttackVariant::Forward, v), AttackVariant::Up);
    assert_eq!(melee_auto_aim(AttackVariant::Down, v), AttackVariant::Down);
    let fwd = AutoAimView { enemy_forward: true, ..v };
    assert_eq!(melee_auto_aim(AttackVariant::Forward, fwd), AttackVariant::Forward);
    let prox = ProximityView { has_forward_enemy: false, has_enemy_below: true };
    assert_eq!(
        attack_variant_on_enter(AttackVariant::Up, WeaponType::Sword, Some((v, prox)), true),
        AttackVariant::Down
    );
    assert_eq!(
        attack_variant_on_enter(AttackVariant::Forward, WeaponType::Bow, Some((v, prox)), true),
        AttackVariant::Forward
    );
}

#[test]
fn weapon_kinds_convert_both_ways() {
    assert_eq!(WeaponType::from(SkillWeaponKind::Hammer), WeaponType::Hammer);
    assert_eq!(SkillWeaponKind::from(WeaponType::Bow), SkillWeaponKind::Bow);
    assert!(WeaponType::Sword.is_melee());
    assert!(!WeaponType::Bow.is_melee());
}

#[test]
fn dash_ends_at_lifetime_or_stall() {
    let d = Dashing::new().with_max_ticks(2);
    let s = dash_step(d, false);
    assert!(!s.finished && s.drive);
    let s = dash_step(s.dashing, false);
    assert!(s.finished);
    assert!(dash_step(d, true).finished);
}

#[test]
fn whirl_frames_loop() {
    assert_eq!(whirl_frame(WeaponType::Sword, 1), 1);
    assert_eq!(whirl_frame(WeaponType::Sword, 9), 2);
    assert_eq!(whirl_frame(WeaponType::Sword, 41), 2);
    assert_eq!(whirl_frame(WeaponType::Hammer, 17), 3);
    assert_eq!(whirl_frame(WeaponType::Hammer, 65), 3);
    let w = Whirling { tick: 8, damage_entity: Some(7), ..Whirling::new(WeaponType::Sword) };
    let s = whirl_step(w, true, false);
    assert_eq!(s.frame, 2);
    assert!(s.reset_hits);
    assert_eq!(s.whirling.last_damage_frame, 2);
    assert_eq!(s.damage_stealthed, Some(false));
    let again = whirl_step(s.whirling, true, true);
    assert!(!again.reset_hits);
    assert_eq!(again.damage_stealthed, Some(true));
}

#[test]
fn whirl_without_damage_entity_neither_rearms_nor_marks() {
    let w = Whirling { tick: 8, ..Whirling::new(WeaponType::Sword) };
    let s = whirl_step(w, true, true);
    assert_eq!(s.frame, 2);
    assert!(!s.reset_hits);
    assert_eq!(s.whirling.last_damage_frame, 0);
    assert_eq!(s.damage_stealthed, None);
}

#[test]
fn burning_dash_drains_to_floor() {
    let b = BurningDashing::new();
    let s = burning_dash_step(b, true, 10, false);
    assert_eq!(s.health, 8);
    assert!(!s.finished);
    assert_eq!(burning_dash_step(b, true, 3, false).health, 2);
    let floor = burning_dash_step(b, true, 2, false);
    assert!(floor.finished && floor.health == 2);
    assert!(burning_dash_step(b, false, 50, false).finished);
    let eighth = burning_dash_step(BurningDashing { tick: 7, damage_entity: None }, true, 50, false);
    assert!(eighth.reset_hits);
}

#[test]
fn dash_strike_locks_after_impact() {
    let none: Vec<BlastCandidate> = Vec::new();
    let d = DashStrike::new(SkillVariant::Down);
    let ground = StrikeContacts { heading: Facing::Right, left_wall: false, right_wall: false, ground: true, ceiling: false };
    let s = dash_strike_step(&d, ground, &none, false);
    assert!(s.impact && s.collided && s.lock_ticks == 1 && !s.finished);
    assert!(!s.drive);
    assert_eq!(s.impact_slot, Some("DashStrikeImpactDown"));
    assert!(s.blast.is_none());
    let mut locked = DashStrike { tick: s.tick, collided: true, lock_ticks: 7, ..DashStrike::default() };
    locked.variant = SkillVariant::Down;
    let end = dash_strike_step(&locked, ground, &none, false);
    assert!(end.finished && !end.drive && !end.impact);
    let up = DashStrike::new(SkillVariant::Up);
    let rising = dash_strike_step(&up, ground, &none, false);
    assert!(!rising.impact && rising.drive && rising.rising);
    assert_eq!(rising.impact_slot, None);
    let open_air = StrikeContacts { ground: false, ..ground };
    let late = DashStrike { tick: 15, ..DashStrike::default() };
    let last = dash_strike_step(&late, open_air, &none, false);
    assert!(last.finished && last.drive && !last.rising);
}

#[test]
fn dash_strike_blast_hits_what_is_near() {
    let near = vec![
        BlastCandidate { id: 3, within_radius: true },
        BlastCandidate { id: 4, within_radius: false },
        BlastCandidate { id: 8, within_radius: true },
    ];
    let wall = StrikeContacts { heading: Facing::Left, left_wall: true, right_wall: false, ground: false, ceiling: false };
    let s = dash_strike_step(&DashStrike::new(SkillVariant::Up), wall, &near, true);
    assert!(s.impact && !s.drive);
    assert_eq!(s.impact_slot, Some("DashStrikeImpactUp"));
    let b = s.blast.unwrap();
    assert_eq!(b.damage, 120);
    assert_eq!(b.max_targets, 64);
    assert_eq!(b.lifetime, 2);
    assert_eq!(b.targets, vec![3, 8]);
    assert!(b.stealthed);
    let fwd = dash_strike_step(&DashStrike::new(SkillVariant::Forward), wall, &near, false);
    assert_eq!(fwd.impact_slot, None);
    assert!(!fwd.blast.unwrap().stealthed);
    let far = vec![BlastCandidate { id: 4, within_radius: false }];
    assert!(dash_strike_step(&DashStrike::new(SkillVariant::Up), wall, &far, false).blast.is_none());
    let away = StrikeContacts { heading: Facing::Right, ..wall };
    let miss = dash_strike_step(&DashStrike::new(SkillVariant::Up), away, &near, false);
    assert!(!miss.impact && miss.drive && miss.blast.is_none());
    let locked = DashStrike { collided: true, lock_ticks: 2, ..DashStrike::new(SkillVariant::Up) };
    let again = dash_strike_step(&locked, wall, &near, false);
    assert!(!again.impact && again.blast.is_none() && !again.drive);
}

#[test]
fn pogo_lasts_its_curve() {
    let s = pogo_step(Pogo { tick: 0 }, false, PogoContext::Falling, false, MoveDir::Neutral, Facing::Left, false);
    assert_eq!(s.vertical_milli, 818);
    assert_eq!(s.ended, None);
    let last = pogo_step(Pogo { tick: 23 }, false, PogoContext::Jumping { jump_count: 2 }, false, MoveDir::Neutral, Facing::Left, false);
    assert_eq!(last.ended, Some(PogoHandover::Fall(Falling::from_jump(2))));
    let ceiling = pogo_step(Pogo { tick: 3 }, true, PogoContext::Falling, false, MoveDir::Left, Facing::Right, false);
    assert_eq!(ceiling.ended, Some(PogoHandover::RestartFall));
}

#[test]
fn attack_animation_by_locomotion() {
    let a = AttackAnimations { idle: "anim.player.SwordAttack", run: "anim.player.SwordAttackRun", air: "anim.player.SwordAttackAir" };
    assert_eq!(get_attack_animation_key(&a, true, true), "anim.player.SwordAttackAir");
    assert_eq!(get_attack_animation_key(&a, true, false), "anim.player.SwordAttackRun");
    assert_eq!(get_attack_animation_key(&a, false, false), "anim.player.SwordAttack");
}

#[test]
fn attack_spawns_swing_or_arrow() {
    let e = attacking_enter(WeaponType::Hammer, AttackVariant::Down, true, true, true, PlayerMeleeWeapon::Hammer, 14);
    assert!(e.enable_downward_slot);
    match e.spawn {
        Some(AttackSpawn::Melee { base_damage, variant, lifetime, pushback, hit_slot, stealthed, downward }) => {
            assert_eq!((base_damage, variant, lifetime, hit_slot, stealthed, downward), (55, SkillVariant::Down, 14, "HammerHit", true, true));
            assert_eq!((pushback.pushback_96ths, pushback.pushback_ticks, pushback.self_pushback_96ths, pushback.self_pushback_ticks), (90, 12, 90, 3));
        },
        _ => panic!("expected a melee swing"),
    }
    let bow = attacking_enter(WeaponType::Bow, AttackVariant::Forward, false, false, true, PlayerMeleeWeapon::Sword, 14);
    assert!(!bow.enable_downward_slot);
    match bow.spawn {
        Some(AttackSpawn::Arrow { base_damage, lifetime, pushback, max_targets }) => {
            assert_eq!((base_damage, lifetime, max_targets, pushback.pushback_96ths), (22, 192, 1, 60));
        },
        _ => panic!("expected an arrow"),
    }
    assert!(attacking_enter(WeaponType::Sword, AttackVariant::Up, false, false, false, PlayerMeleeWeapon::Sword, 9).spawn.is_none());
}

#[test]
fn launches_follow_stored_then_last_move_then_facing() {
    assert_eq!(launch_direction(MoveDir::Left, Some(MoveDir::Right), Facing::Right), Facing::Left);
    assert_eq!(launch_direction(MoveDir::Neutral, Some(MoveDir::Left), Facing::Right), Facing::Left);
    assert_eq!(launch_direction(MoveDir::Neutral, Some(MoveDir::Neutral), Facing::Right), Facing::Right);
    assert_eq!(launch_direction(MoveDir::Neutral, None, Facing::Left), Facing::Left);
    let up = dash_strike_enter(SkillVariant::Up, MoveDir::Neutral, None, Facing::Left);
    assert!(up.upward && up.variant_up_slot && !up.variant_down_slot);
    assert_eq!(up.heading, Facing::Left);
    let fwd = dash_strike_enter(SkillVariant::Forward, MoveDir::Right, None, Facing::Left);
    assert!(!fwd.upward && !fwd.variant_up_slot && !fwd.variant_down_slot);
    assert_eq!(whirl_base_damage(WeaponType::Hammer), 55);
    assert_eq!(whirl_base_damage(WeaponType::Bow), 33);
    assert_eq!(falling_enter_animation(Some(WallSide::Right)), ("anim.player.WallSlide", Some(Facing::Right)));
    assert_eq!(falling_enter_animation(None), ("anim.player.Fall", None));
}
