use theseeker_game::dof::{
    depth_of_field_enabled, needs_auxiliary_texture, pipeline_render_info,
    prepare_depth_of_field_pipelines, prepare_depth_of_field_view_bind_group_layouts, specialize,
    DepthOfFieldMode, DepthOfFieldNode, DepthOfFieldPipelineKey, DofPass, NodeResources, PassDraw,
    ShaderDef, ViewLayout,
};
use theseeker_game::level::{attach_parallax, mark_light_source_layers, LayerRole, MainBackround, OtherBackround, RunOnce};
use theseeker_game::locale::{apply_locale_choice, cli_locale, init_l10n, localized_text, resolve_l10n, L10nInitStep, LocaleOutcome};
use theseeker_game::skill_id::SkillId;
use theseeker_game::skill_slots::{SkillDispatch, SkillInventory, SlotInput};
use theseeker_game::stats::{orb_tint, task_pool_sizes, update_stats, Coefficient, OrbTint, StatType};
use theseeker_game::stepping::{draw_window, handle_input, row_flags, RowClicks, StepRequest, SystemBehavior};
use theseeker_game::switches::{
    find_puzzle, parse_puzzle_id, puzzle_anim_key, should_change_switch_status, switch_update,
    SwitchContact,
};
use theseeker_game::text::{decimal_string, parse_u8, str_eq, two_digit_string};
use theseeker_game::visibility::Visibility;
use theseeker_game::weapon::{Passive, Passives};

fn ready() -> NodeResources {
    NodeResources {
        first_pipeline_ready: true,
        second_pipeline_ready: true,
        view_uniforms_bound: true,
        global_bind_group_ready: true,
        auxiliary_texture: true,
        dual_input_layout: true,
    }
}

#[test]
fn parses_bytes_like_std() {
    for s in ["0", "7", "255", "+12", "007", "256", "", "+", "-1", "1a", " 1", "1000"] {
        assert_eq!(parse_u8(s), s.parse::<u8>().ok(), "input {:?}", s);
    }
}

#[test]
fn decimal_text() {
    assert_eq!(decimal_string(0), "0");
    assert_eq!(decimal_string(18446744073709551615), "18446744073709551615");
    assert_eq!(two_digit_string(5), "05");
    assert_eq!(two_digit_string(42), "42");
    assert_eq!(two_digit_string(123), "123");
    assert!(str_eq("Main", "Main"));
    assert!(!str_eq("Main", "Mains"));
}

#[test]
fn puzzle_ids_from_names() {
    assert_eq!(parse_puzzle_id("Switch07", "Switch"), 7);
    assert_eq!(parse_puzzle_id("Puzzle255", "Puzzle"), 255);
    assert_eq!(parse_puzzle_id("Puzzle256", "Puzzle"), 0);
    assert_eq!(parse_puzzle_id("Switch", "Switch"), 0);
    assert_eq!(parse_puzzle_id("Lever3", "Switch"), 0);
    assert_eq!(puzzle_anim_key(3), "anim.puzzle.03");
    assert_eq!(puzzle_anim_key(12), "anim.puzzle.12");
    assert_eq!(puzzle_anim_key(200), "anim.puzzle.200");
}

#[test]
fn switches_activate_their_puzzle() {
    let idle = SwitchContact { player_inside: false, shown_activated: false };
    let stepped_on = SwitchContact { player_inside: true, shown_activated: false };
    assert!(!should_change_switch_status(&vec![idle, idle]));
    assert!(should_change_switch_status(&vec![idle, stepped_on]));
    assert_eq!(find_puzzle(&vec![None, Some(2), Some(3), Some(3)], 3), Some(2));
    assert_eq!(find_puzzle(&vec![Some(1)], 3), None);
    let u = switch_update(true);
    assert!(u.activated);
    assert_eq!(u.puzzle_visibility, Visibility::Visible);
    assert_eq!(switch_update(false).puzzle_visibility, Visibility::Hidden);
}

#[test]
fn layers_by_name() {
    assert_eq!(attach_parallax("TundraFarBackground"), LayerRole::Parallax(3));
    assert_eq!(attach_parallax("Background"), LayerRole::Parallax(4));
    assert_eq!(attach_parallax("NearBackground"), LayerRole::Parallax(1));
    assert_eq!(attach_parallax("Main"), LayerRole::Main(MainBackround));
    assert_eq!(attach_parallax("Entities"), LayerRole::Entities);
    assert_eq!(attach_parallax("Foreground"), LayerRole::Other(OtherBackround));
    assert_eq!(mark_light_source_layers(&vec![1, 4, 2, 4], &vec![4, 2]), vec![true, false]);
    assert!(mark_light_source_layers(&vec![3], &vec![]).is_empty());
}

#[test]
fn level_chores_run_once_per_entry() {
    let mut once = RunOnce::default();
    assert!(once.add_despawn_marker_to_entity(false, false));
    assert!(once.add_despawn_marker_to_entity(false, true));
    assert!(!once.add_despawn_marker_to_entity(false, true));
    assert!(once.add_despawn_marker_to_entity(true, false));
    let mut hide = RunOnce::default();
    let names = vec!["Level_1".to_string(), "Level_0".to_string(), "Level_0".to_string()];
    assert_eq!(hide.hide_level_0(false, &names), Some(1));
    assert_eq!(hide.hide_level_0(false, &names), None);
    assert_eq!(hide.hide_level_0(true, &names), Some(1));
}

#[test]
fn locale_command() {
    let supported = vec!["en-US".to_string(), "de-DE".to_string()];
    assert_eq!(cli_locale(&vec![], &supported), LocaleOutcome::Usage);
    assert_eq!(cli_locale(&vec!["a".to_string(), "b".to_string()], &supported), LocaleOutcome::Usage);
    assert_eq!(cli_locale(&vec!["de-DE".to_string()], &supported), LocaleOutcome::Requested("de-DE".to_string()));
    // the identifier is canonicalised by the parser before it is looked up
    assert_eq!(cli_locale(&vec!["en-us".to_string()], &supported), LocaleOutcome::Requested("en-US".to_string()));
    assert_eq!(cli_locale(&vec!["fr-FR".to_string()], &supported), LocaleOutcome::Unsupported);
    assert_eq!(cli_locale(&vec!["not a locale!".to_string()], &supported), LocaleOutcome::Invalid);
    assert_eq!(apply_locale_choice(None, &supported), LocaleOutcome::Invalid);
    assert_eq!(apply_locale_choice(Some("xx".to_string()), &supported), LocaleOutcome::Unsupported);
}

#[test]
fn depth_of_field_pipelines() {
    assert_eq!(DepthOfFieldMode::default(), DepthOfFieldMode::Bokeh);
    let (a, b) = prepare_depth_of_field_pipelines(DepthOfFieldMode::Gaussian, true, false);
    assert_eq!(a, DepthOfFieldPipelineKey { pass: DofPass::GaussianHorizontal, hdr: true, multisample: false });
    assert_eq!(b.pass, DofPass::GaussianVertical);
    let infos = pipeline_render_info(DepthOfFieldMode::Bokeh);
    assert_eq!(infos[0].pass_label, "depth of field pass (bokeh pass 0)");
    assert!(infos[0].is_dual_output && !infos[0].is_dual_input);
    assert!(infos[1].is_dual_input);
    let spec = specialize(DepthOfFieldPipelineKey { pass: DofPass::BokehPass1, hdr: false, multisample: true }, true);
    assert_eq!(spec.view_layout, ViewLayout::DualInput);
    assert_eq!(spec.shader_defs, vec![ShaderDef::DualInput, ShaderDef::Multisampled]);
    assert_eq!(spec.entry_point, "bokeh_pass_1");
    assert_eq!(spec.color_targets, 1);
    let p0 = specialize(DepthOfFieldPipelineKey { pass: DofPass::BokehPass0, hdr: true, multisample: false }, false);
    assert_eq!(p0.color_targets, 2);
    assert!(p0.shader_defs.is_empty());
    assert!(prepare_depth_of_field_view_bind_group_layouts(DepthOfFieldMode::Bokeh, false).has_dual_input);
    assert!(!prepare_depth_of_field_view_bind_group_layouts(DepthOfFieldMode::Gaussian, true).has_dual_input);
    assert!(needs_auxiliary_texture(DepthOfFieldMode::Bokeh));
    assert!(!depth_of_field_enabled(true, false));
    assert!(depth_of_field_enabled(false, false));
}

#[test]
fn depth_of_field_node_passes() {
    let node = DepthOfFieldNode;
    let run = node.run(DepthOfFieldMode::Bokeh, ready());
    assert_eq!(
        run.draws,
        vec![
            PassDraw { pass: DofPass::BokehPass0, view_layout: ViewLayout::SingleInput, color_attachments: 2 },
            PassDraw { pass: DofPass::BokehPass1, view_layout: ViewLayout::DualInput, color_attachments: 1 },
        ]
    );
    assert_eq!(run.post_process_writes, 2);
    let no_aux = node.run(DepthOfFieldMode::Bokeh, NodeResources { auxiliary_texture: false, ..ready() });
    assert!(no_aux.draws.is_empty());
    assert_eq!(no_aux.post_process_writes, 2);
    let gauss = node.run(DepthOfFieldMode::Gaussian, NodeResources { auxiliary_texture: false, ..ready() });
    assert_eq!(gauss.draws.len(), 2);
    let stalled = node.run(DepthOfFieldMode::Gaussian, NodeResources { second_pipeline_ready: false, ..ready() });
    assert_eq!(stalled.draws.len(), 1);
    assert_eq!(stalled.post_process_writes, 1);
}

#[test]
fn stepping_rows_and_keys() {
    let f = row_flags(Some(SystemBehavior::AlwaysRun));
    assert!(f.enabled && f.ignore && !f.breakpoint);
    let bp = RowClicks { enabled: false, ignore: false, breakpoint: true };
    assert_eq!(draw_window(None, bp), Some(SystemBehavior::Break));
    assert_eq!(draw_window(Some(SystemBehavior::Break), bp), Some(SystemBehavior::Continue));
    let en = RowClicks { enabled: true, ignore: false, breakpoint: false };
    assert_eq!(draw_window(None, en), Some(SystemBehavior::NeverRun));
    assert_eq!(draw_window(Some(SystemBehavior::AlwaysRun), en), None);
    assert_eq!(handle_input(false, true, true, false, false), (true, StepRequest::ContinueFrame));
    assert_eq!(handle_input(true, false, false, true, false), (true, StepRequest::StepFrame));
    assert_eq!(handle_input(true, true, true, true, true), (false, StepRequest::Idle));
}

#[test]
fn skill_dispatch_walks_pressed_slots() {
    let inv = SkillInventory { equipped: vec![SkillId::Attack, SkillId::Dash], inventory: vec![] };
    assert_eq!(inv.get_skill_at_slot(1), Some(SkillId::Dash));
    assert_eq!(inv.get_skill_at_slot(2), None);
    let slots = vec![
        SlotInput { index: 0, pressed: false, block_on_success: false },
        SlotInput { index: 1, pressed: true, block_on_success: true },
        SlotInput { index: 4, pressed: true, block_on_success: false },
        SlotInput { index: 0, pressed: true, block_on_success: false },
    ];
    let mut d = SkillDispatch::new();
    assert_eq!(d.skill_dispatch_system(&slots, &inv), Some((1, SkillId::Dash)));
    assert!(!d.report(false, true));
    assert_eq!(d.skill_dispatch_system(&slots, &inv), Some((3, SkillId::Attack)));
    assert!(d.report(true, false));
    assert_eq!(d.skill_dispatch_system(&slots, &inv), None);
    let mut blocked = SkillDispatch::new();
    blocked.skill_dispatch_system(&slots, &inv);
    assert!(blocked.report(true, true));
    assert_eq!(blocked.skill_dispatch_system(&slots, &inv), None);
}

#[test]
fn status_effect_coefficients() {
    let types = vec![StatType::MoveVelMax, StatType::MoveAccel, StatType::MoveAccelInit];
    let plan = update_stats(&types, 1, 0);
    assert_eq!(plan[2], (StatType::MoveAccelInit, Coefficient::At(0), Coefficient::Neutral));
    let per = update_stats(&types, 3, 3);
    assert_eq!(per[1], (StatType::MoveAccel, Coefficient::At(1), Coefficient::At(1)));
    assert_eq!(orb_tint(Some(&Passives { equipped: vec![Passive::Bloodstone], inventory: vec![] })), OrbTint::Red);
    assert_eq!(orb_tint(None), OrbTint::White);
    let p = task_pool_sizes(8);
    assert_eq!((p.io, p.async_compute, p.compute), (6, 2, 8));
    let small = task_pool_sizes(1);
    assert_eq!((small.io, small.async_compute, small.compute), (2, 2, 1));
    assert_eq!(task_pool_sizes(16).async_compute, 4);
}

#[test]
fn decimal_text_parses_back() {
    for n in 0u8..=255 {
        assert_eq!(parse_u8(&decimal_string(n as u64)), Some(n));
        assert_eq!(parse_u8(&two_digit_string(n as u64)), Some(n));
        let name = format!("Switch{}", two_digit_string(n as u64));
        assert_eq!(parse_puzzle_id(&name, "Switch"), n);
    }
}

#[test]
fn translations_load_and_refresh() {
    assert_eq!(init_l10n(false, false, false), (L10nInitStep::LoadFolder, false));
    assert_eq!(init_l10n(false, true, false), (L10nInitStep::Wait, false));
    assert_eq!(init_l10n(false, true, true), (L10nInitStep::Build, true));
    assert_eq!(init_l10n(true, true, true), (L10nInitStep::Done, true));
    let r = resolve_l10n(false, true);
    assert!(r.regenerate && r.update_all);
    assert!(!resolve_l10n(false, false).update_all);
    let key = "mainmenu-entry-play".to_string();
    assert_eq!(localized_text(Some("Play".to_string()), &key), "Play");
    assert_eq!(localized_text(None, &key), "mainmenu-entry-play");
}

#[test]
fn tiles_are_compressed_once() {
    let mut once = RunOnce::default();
    assert!(!once.compress_and_despawn_tiles_once(false));
    assert!(once.compress_and_despawn_tiles_once(true));
    assert!(!once.compress_and_despawn_tiles_once(true));
}
