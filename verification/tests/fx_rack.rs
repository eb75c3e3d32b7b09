use trekr::actions::AppAction;
use trekr::app::{App, AppPage, TimelineContext, TimelineFxField};
use trekr::fx_layout::{
    TimelineFxRowRef, timeline_fx_enabled_chip_label, timeline_fx_kind_display, timeline_fx_kind_target_width,
    timeline_fx_overflow_label,
};
use trekr::geometry::{Rect, rects_overlap};
use trekr::midi_fx::{ArpOrder, MidiFx, MidiFxKind, MidiFxSlot};
use trekr::project::MidiFxChainKind;

fn arp_slot() -> MidiFxSlot {
    MidiFxSlot {
        enabled: true,
        effect: MidiFx::Arp { step_ticks: 240, order: ArpOrder::Up, gate_percent: 100 },
    }
}

fn split_app() -> App {
    let mut app = App::new();
    app.page_state.selected_timeline_context = TimelineContext::OutputFx;
    app.page_state.selected_timeline_fx_field = TimelineFxField::Kind;
    app.project.tracks[0].midi_fx.output_fx = vec![None; 4];
    app
}

#[test]
fn fx_card_names_expand_when_the_full_name_fits() {
    let slot = MidiFxSlot { enabled: true, effect: MidiFx::default_for_kind(MidiFxKind::ScaleQuantize) };
    assert_eq!(timeline_fx_kind_display(&slot, 100), "Scale Quantize");
    assert_eq!(timeline_fx_kind_display(&slot, 25), "SQT");
}

fn check_adjust_and_move() {
    let mut app = App::new();
    app.page_state.current_page = AppPage::Timeline;
    app.page_state.selected_timeline_context = TimelineContext::OutputFx;
    app.page_state.selected_timeline_fx_field = TimelineFxField::Kind;

    let before_kind = app
        .selected_timeline_fx_slot(app.project.active_track().unwrap(), MidiFxChainKind::Output)
        .unwrap()
        .effect
        .kind();
    app.adjust_page_item(1);
    let after_kind = app
        .selected_timeline_fx_slot(app.project.active_track().unwrap(), MidiFxChainKind::Output)
        .unwrap()
        .effect
        .kind();
    assert_ne!(before_kind, after_kind);

    app.page_state.selected_timeline_fx_field = TimelineFxField::Move;
    let before_row = app.selected_timeline_fx_row(MidiFxChainKind::Output);
    app.adjust_page_item(1);
    let after_row = app.selected_timeline_fx_row(MidiFxChainKind::Output);
    assert!(after_row >= before_row);
}

#[test]
fn fx_ui_timeline_fx_adjust_and_move_actions_update_selected_output_row() {
    check_adjust_and_move();
}

#[test]
fn timeline_fx_ui_timeline_fx_adjust_and_move_actions_update_selected_output_row() {
    check_adjust_and_move();
}

fn check_overflow_label() {
    assert_eq!(timeline_fx_overflow_label(2, 0), "--");
    assert_eq!(timeline_fx_overflow_label(3, 0), "1/2");
    assert_eq!(timeline_fx_overflow_label(3, 1), "2/2");
}

#[test]
fn fx_ui_overflow_label_uses_window_position() {
    check_overflow_label();
}

#[test]
fn timeline_fx_ui_overflow_label_uses_window_position() {
    check_overflow_label();
}

fn check_kind_display() {
    let slot = arp_slot();
    assert_eq!(timeline_fx_kind_display(&slot, 19), "AR");
    assert_eq!(timeline_fx_kind_display(&slot, 20), "ARP");
}

#[test]
fn fx_ui_timeline_fx_kind_display_uses_short_labels_at_compact_widths() {
    check_kind_display();
}

#[test]
fn timeline_fx_ui_timeline_fx_kind_display_uses_short_labels_at_compact_widths() {
    check_kind_display();
}

#[test]
fn fx_ui_timeline_fx_enabled_chip_hides_label_when_kind_title_is_visible() {
    let slot = MidiFxSlot::default();
    assert_eq!(timeline_fx_enabled_chip_label(&slot, true), "");
}

#[test]
fn timeline_fx_ui_timeline_fx_enabled_chip_hides_label_when_kind_title_is_visible() {
    let slot = MidiFxSlot::default();
    assert_eq!(timeline_fx_enabled_chip_label(&slot, true), "");
}

#[test]
fn fx_ui_timeline_fx_enabled_chip_uses_two_letter_code_when_kind_title_is_hidden() {
    let slot = MidiFxSlot::default();
    assert_eq!(timeline_fx_enabled_chip_label(&slot, false), "TR");
}

#[test]
fn timeline_fx_ui_timeline_fx_enabled_chip_uses_two_letter_code_when_kind_title_is_hidden() {
    let slot = MidiFxSlot::default();
    assert_eq!(timeline_fx_enabled_chip_label(&slot, false), "TR");
}

fn check_reverse_activate() {
    let mut app = App::new();
    app.page_state.current_page = AppPage::Timeline;
    app.page_state.selected_timeline_context = TimelineContext::OutputFx;
    app.page_state.selected_timeline_fx_field = TimelineFxField::ParamSecondary;

    app.reverse_activate_page_item();

    assert_eq!(app.page_state.selected_timeline_fx_field, TimelineFxField::ParamPrimary);
}

#[test]
fn fx_ui_reverse_activate_page_item_moves_timeline_fx_field_backward() {
    check_reverse_activate();
}

#[test]
fn timeline_fx_ui_reverse_activate_page_item_moves_timeline_fx_field_backward() {
    check_reverse_activate();
}

fn check_shift_m() {
    let mut app = App::new();
    app.page_state.current_page = AppPage::Timeline;
    app.page_state.selected_timeline_context = TimelineContext::OutputFx;

    let before = app
        .selected_timeline_fx_slot(app.project.active_track().unwrap(), MidiFxChainKind::Output)
        .unwrap()
        .enabled;
    app.apply_action(AppAction::ToggleSelectedRecordingClipMute);
    let after = app
        .selected_timeline_fx_slot(app.project.active_track().unwrap(), MidiFxChainKind::Output)
        .unwrap()
        .enabled;
    assert_ne!(before, after);
}

#[test]
fn fx_ui_shift_m_action_toggles_selected_timeline_fx_when_fx_context_is_active() {
    check_shift_m();
}

#[test]
fn timeline_fx_ui_shift_m_action_toggles_selected_timeline_fx_when_fx_context_is_active() {
    check_shift_m();
}

fn check_add_row_adjust(field: TimelineFxField) {
    let mut app = App::new();
    app.page_state.current_page = AppPage::Timeline;
    app.page_state.selected_timeline_context = TimelineContext::OutputFx;
    let existing = app.active_timeline_fx_slot_indices(MidiFxChainKind::Output).len();
    let add_row = app.displayed_timeline_fx_slot_indices(MidiFxChainKind::Output).len() - 1;
    app.set_selected_timeline_fx_row(MidiFxChainKind::Output, add_row);
    app.page_state.selected_timeline_fx_field = field;

    app.adjust_page_item(1);

    let after = app.active_timeline_fx_slot_indices(MidiFxChainKind::Output).len();
    assert_eq!(after, existing + 1);
}

#[test]
fn fx_ui_timeline_add_row_adjust_inserts_even_when_non_kind_field_was_selected() {
    check_add_row_adjust(TimelineFxField::Move);
}

#[test]
fn timeline_fx_ui_timeline_add_row_adjust_inserts_even_when_non_kind_field_was_selected() {
    check_add_row_adjust(TimelineFxField::Move);
}

#[test]
fn fx_ui_timeline_add_row_kind_adjust_inserts_new_fx_into_empty_slot() {
    check_add_row_adjust(TimelineFxField::Kind);
}

#[test]
fn timeline_fx_ui_timeline_add_row_kind_adjust_inserts_new_fx_into_empty_slot() {
    check_add_row_adjust(TimelineFxField::Kind);
}

#[test]
fn timeline_empty_slot_enter_switches_focus_without_inserting() {
    let mut app = App::new();
    app.page_state.selected_timeline_context = TimelineContext::OutputFx;
    app.page_state.selected_timeline_fx_field = TimelineFxField::Kind;
    app.project.tracks[0].midi_fx.output_fx = vec![None; 4];
    app.apply_action(AppAction::ActivatePageItem);
    assert_eq!(app.page_state.selected_timeline_fx_field, TimelineFxField::ParamPrimary);
    assert!(app.project.tracks[0].midi_fx.output_fx.iter().all(Option::is_none));
}

#[test]
fn timeline_add_action_fills_selected_hole_without_moving_selection() {
    let mut app = App::new();
    app.page_state.selected_timeline_context = TimelineContext::OutputFx;
    app.project.tracks[0].midi_fx.output_fx = vec![Some(MidiFxSlot::default()), None, None, None];
    app.set_selected_timeline_fx_row(MidiFxChainKind::Output, 3);
    app.apply_action(AppAction::AddSelectedTimelineFx);
    assert!(app.project.tracks[0].midi_fx.output_fx[3].is_some());
    assert!(app.project.tracks[0].midi_fx.output_fx[1].is_none());
    assert_eq!(app.selected_timeline_fx_row(MidiFxChainKind::Output), 3);
}

fn check_move_after_insert() {
    let mut app = App::new();
    app.project.active_track_mut().unwrap().midi_fx.output_fx =
        vec![Some(MidiFxSlot::default()), Some(MidiFxSlot::default()), None, None];
    app.page_state.current_page = AppPage::Timeline;
    app.page_state.selected_timeline_context = TimelineContext::OutputFx;
    let add_row = app.displayed_timeline_fx_slot_indices(MidiFxChainKind::Output).len() - 1;
    app.set_selected_timeline_fx_row(MidiFxChainKind::Output, add_row);
    app.page_state.selected_timeline_fx_field = TimelineFxField::Kind;
    app.adjust_page_item(1);

    app.page_state.selected_timeline_fx_field = TimelineFxField::Move;
    app.adjust_page_item(1);

    assert!(app
        .selected_timeline_fx_slot(app.project.active_track().unwrap(), MidiFxChainKind::Output)
        .is_some());
}

#[test]
fn fx_ui_timeline_move_after_insert_from_add_row_does_not_panic() {
    check_move_after_insert();
}

#[test]
fn timeline_fx_ui_timeline_move_after_insert_from_add_row_does_not_panic() {
    check_move_after_insert();
}

#[test]
fn timeline_kind_adjust_keeps_existing_row_visible() {
    let mut app = App::new();
    app.page_state.current_page = AppPage::Timeline;
    app.page_state.selected_timeline_context = TimelineContext::OutputFx;
    app.page_state.selected_timeline_fx_field = TimelineFxField::Kind;

    for _ in 0..16 {
        app.adjust_page_item(-1);
        assert!(app
            .selected_timeline_fx_slot(app.project.active_track().unwrap(), MidiFxChainKind::Output)
            .is_some());
    }
}

#[test]
fn split_fx_keeps_empty_slots_addressable() {
    let mut app = split_app();
    assert_eq!(
        app.displayed_timeline_fx_slot_indices(MidiFxChainKind::Output),
        vec![Some(0), Some(1), Some(2), Some(3)]
    );
    app.set_selected_timeline_fx_row(MidiFxChainKind::Output, 2);
    app.apply_action(AppAction::AdjustPageItemForward);
    assert!(app.project.tracks[0].midi_fx.output_fx[2].is_some());
    assert!(app.project.tracks[0].midi_fx.output_fx[0].is_none());
    app.apply_action(AppAction::DeleteSelectedTimelineFx);
    assert_eq!(app.selected_timeline_fx_row(MidiFxChainKind::Output), 2);
    assert!(app.project.tracks[0].midi_fx.output_fx.iter().all(Option::is_none));
}

#[test]
fn split_fx_enter_switches_areas_and_up_down_select_parameters() {
    let mut app = split_app();
    app.project.tracks[0].midi_fx.output_fx[0] =
        Some(MidiFxSlot { enabled: true, effect: MidiFx::default_for_kind(MidiFxKind::Arp) });
    app.apply_action(AppAction::ActivatePageItem);
    app.apply_action(AppAction::SelectNextPageItem);
    app.apply_action(AppAction::SelectNextPageItem);
    assert_eq!(app.selected_timeline_fx_row(MidiFxChainKind::Output), 0);
    let before = app.project.tracks[0].midi_fx.output_fx[0].as_ref().unwrap().effect.inline_parameters();
    app.apply_action(AppAction::AdjustPageItemBackward);
    let after = app.project.tracks[0].midi_fx.output_fx[0].as_ref().unwrap().effect.inline_parameters();
    assert_eq!(before[0].value, after[0].value);
    assert_ne!(before[2].value, after[2].value);
    app.apply_action(AppAction::ActivatePageItem);
    assert_eq!(app.page_state.selected_timeline_fx_field, TimelineFxField::Kind);
    app.apply_action(AppAction::ActivatePageItem);
    assert_eq!(app.selected_timeline_fx_param_window(MidiFxChainKind::Output), 2);
}

#[test]
fn split_fx_reorder_swaps_into_empty_slot_and_follows_effect() {
    let mut app = split_app();
    app.project.tracks[0].midi_fx.output_fx[0] = Some(MidiFxSlot::default());
    app.apply_action(AppAction::MoveSelectedTimelineFxDown);
    assert!(app.project.tracks[0].midi_fx.output_fx[0].is_none());
    assert!(app.project.tracks[0].midi_fx.output_fx[1].is_some());
    assert_eq!(app.selected_timeline_fx_row(MidiFxChainKind::Output), 1);
}

fn check_splits_evenly() {
    let mut app = App::new();
    app.project.tracks[0].midi_fx.output_fx[0] = Some(arp_slot());
    let displayed = vec![Some(0)];
    let layout = app.timeline_fx_row_layouts(
        Rect::new(10, 10, 120, 14),
        &displayed,
        &app.project.tracks[0].midi_fx.output_fx,
        Some(0),
    )[0];

    assert!(layout.param_primary.width() > 0);
    assert!(layout.param_secondary.width() > 0);
    assert!((layout.param_primary.width() as i32 - layout.param_secondary.width() as i32).abs() <= 1);
}

#[test]
fn fx_ui_timeline_fx_row_splits_width_evenly_between_two_visible_params() {
    check_splits_evenly();
}

#[test]
fn timeline_fx_ui_timeline_fx_row_splits_width_evenly_between_two_visible_params() {
    check_splits_evenly();
}

fn check_enabled_and_kind_disjoint() {
    let app = App::new();
    let displayed = app.displayed_timeline_fx_slot_indices(MidiFxChainKind::Output);
    let layout = app.timeline_fx_row_layouts(
        Rect::new(10, 10, 120, 14),
        &displayed,
        &app.project.tracks[0].midi_fx.output_fx,
        Some(0),
    )[0];
    assert!(layout.enabled.x + layout.enabled.width() as i32 <= layout.kind.x);
}

#[test]
fn fx_ui_timeline_fx_enabled_and_kind_rects_are_disjoint() {
    check_enabled_and_kind_disjoint();
}

#[test]
fn timeline_fx_ui_timeline_fx_enabled_and_kind_rects_are_disjoint() {
    check_enabled_and_kind_disjoint();
}

#[test]
fn fx_cards_keep_all_visible_hit_targets_disjoint() {
    let app = App::new();
    let chain = vec![Some(MidiFxSlot { enabled: true, effect: MidiFx::default_for_kind(MidiFxKind::Arp) })];
    for height in [14, 38] {
        for width in [120, 184, 300] {
            let layout = app.timeline_fx_row_layouts(Rect::new(10, 10, width, height), &[Some(0)], &chain, Some(0))[0];
            let controls = [
                layout.enabled,
                layout.kind,
                layout.param_primary,
                layout.param_secondary,
                layout.overflow,
                layout.move_up,
                layout.move_down,
                layout.delete,
            ];
            for (i, a) in controls.iter().enumerate() {
                if a.x < layout.row.x {
                    continue;
                }
                for b in &controls[i + 1..] {
                    if b.x >= layout.row.x {
                        assert!(!rects_overlap(*a, *b), "overlap at {width}x{height}: {a:?}, {b:?}");
                    }
                }
            }
        }
    }
}

#[test]
fn fx_inspector_exposes_all_parameters_without_overlaps() {
    let app = App::new();
    for kind in MidiFxKind::all() {
        let chain = vec![Some(MidiFxSlot { enabled: true, effect: MidiFx::default_for_kind(kind) }); 4];
        for selected in 0..4 {
            let rows = app.timeline_fx_row_layouts(
                Rect::new(10, 10, 184, 48),
                &[Some(0), Some(1), Some(2), Some(3)],
                &chain,
                Some(selected),
            );
            let mut controls = rows.iter().map(|r| r.row).collect::<Vec<_>>();
            controls.extend(rows[selected].parameters);
            controls.extend([rows[selected].move_up, rows[selected].move_down]);
            assert!(chain[0].as_ref().unwrap().effect.inline_parameters().len() <= 4);
            for (i, a) in controls.iter().enumerate() {
                assert!(a.x >= 10 && a.right() <= 194 && a.y >= 10 && a.bottom() <= 58);
                for b in &controls[i + 1..] {
                    assert!(!rects_overlap(*a, *b));
                }
            }
        }
    }
}

#[test]
fn timeline_fx_icon_click_selects_without_mutating_effect() {
    let mut app = App::new();
    app.page_state.selected_timeline_context = TimelineContext::OutputFx;
    let before = app.project.tracks[0].midi_fx.output_fx[0].clone();
    let row = app.timeline_fx_row_layouts(
        Rect::new(10, 10, 184, 48),
        &[Some(0)],
        &app.project.tracks[0].midi_fx.output_fx,
        Some(0),
    )[0];
    let hit = TimelineFxRowRef { context: TimelineContext::OutputFx, row_index: 0, slot_index: Some(0), layout: row };
    app.handle_timeline_fx_pointer_hit(hit, row.row.x + 5, row.row.y + 5, false);
    assert_eq!(app.page_state.selected_timeline_fx_field, TimelineFxField::Kind);
    assert_eq!(app.project.tracks[0].midi_fx.output_fx[0], before);
}

#[test]
fn timeline_empty_slot_click_selects_without_inserting() {
    let mut app = App::new();
    app.page_state.selected_timeline_context = TimelineContext::OutputFx;
    app.project.tracks[0].midi_fx.output_fx = vec![None; 4];
    app.set_selected_timeline_fx_row(MidiFxChainKind::Output, 3);
    let layout = app.timeline_fx_row_layouts(
        Rect::new(10, 10, 184, 48),
        &[Some(0), Some(1), Some(2), Some(3)],
        &app.project.tracks[0].midi_fx.output_fx,
        Some(3),
    )[3];
    app.handle_timeline_fx_pointer_hit(
        TimelineFxRowRef { context: TimelineContext::OutputFx, row_index: 3, slot_index: Some(3), layout },
        layout.row.x + 5,
        layout.row.y + 5,
        false,
    );
    assert!(app.project.tracks[0].midi_fx.output_fx.iter().all(Option::is_none));
    assert_eq!(app.selected_timeline_fx_row(MidiFxChainKind::Output), 3);
}

#[test]
fn timeline_inspector_position_is_independent_of_selected_slot() {
    let app = App::new();
    let mut previous = None;
    for i in 0..4 {
        let rows = app.timeline_fx_row_layouts(
            Rect::new(10, 10, 184, 48),
            &[Some(0), Some(1), Some(2), Some(3)],
            &app.project.tracks[0].midi_fx.output_fx,
            Some(i),
        );
        if let Some(p) = previous {
            assert_eq!(rows[i].parameters, p);
        }
        previous = Some(rows[i].parameters);
    }
}

#[test]
fn timeline_fx_layout_fits_supported_density_widths() {
    let app = App::new();
    for width in [120, 184, 300] {
        for height in [36, 42, 48, 56] {
            let band = Rect::new(10, 10, width, height);
            let rows = app.timeline_fx_row_layouts(
                band,
                &[Some(0), Some(1), Some(2), Some(3)],
                &app.project.tracks[0].midi_fx.output_fx,
                Some(2),
            );
            for rect in rows.iter().map(|r| r.row).chain(rows[2].parameters) {
                assert!(rect.x >= band.x && rect.right() <= band.right() && rect.bottom() <= band.bottom());
            }
        }
    }
}

#[test]
fn timeline_fx_parameters_follow_reading_order() {
    let app = App::new();
    let row = app.timeline_fx_row_layouts(
        Rect::new(10, 10, 184, 48),
        &[Some(0)],
        &app.project.tracks[0].midi_fx.output_fx,
        Some(0),
    )[0];
    assert_eq!(row.parameters[0].y, row.parameters[1].y);
    assert_eq!(row.parameters[2].y, row.parameters[3].y);
    assert_eq!(row.parameters[0].x, row.parameters[2].x);
    assert!(row.parameters[2].y > row.parameters[0].y);
}

#[test]
fn toggling_an_effect_twice_restores_it() {
    let mut app = split_app();
    app.project.tracks[0].midi_fx.output_fx[0] = Some(arp_slot());
    app.apply_action(AppAction::ToggleSelectedTimelineFx);
    assert!(!app.project.tracks[0].midi_fx.output_fx[0].as_ref().unwrap().enabled);
    app.apply_action(AppAction::ToggleSelectedTimelineFx);
    assert_eq!(app.project.tracks[0].midi_fx.output_fx[0], Some(arp_slot()));
}

#[test]
fn moving_down_then_up_restores_the_rack() {
    let mut app = split_app();
    app.project.tracks[0].midi_fx.output_fx[1] = Some(arp_slot());
    app.set_selected_timeline_fx_row(MidiFxChainKind::Output, 1);
    app.apply_action(AppAction::MoveSelectedTimelineFxDown);
    assert!(app.project.tracks[0].midi_fx.output_fx[2].is_some());
    assert_eq!(app.selected_timeline_fx_row(MidiFxChainKind::Output), 2);
    app.apply_action(AppAction::MoveSelectedTimelineFxUp);
    assert_eq!(app.project.tracks[0].midi_fx.output_fx[1], Some(arp_slot()));
    assert!(app.project.tracks[0].midi_fx.output_fx[2].is_none());
    assert_eq!(app.selected_timeline_fx_row(MidiFxChainKind::Output), 1);
}

#[test]
fn moving_past_the_last_row_changes_nothing() {
    let mut app = split_app();
    app.project.tracks[0].midi_fx.output_fx[3] = Some(arp_slot());
    app.set_selected_timeline_fx_row(MidiFxChainKind::Output, 3);
    app.apply_action(AppAction::MoveSelectedTimelineFxDown);
    assert_eq!(app.project.tracks[0].midi_fx.output_fx[3], Some(arp_slot()));
    assert_eq!(app.selected_timeline_fx_row(MidiFxChainKind::Output), 3);
}

#[test]
fn row_selection_wraps_around_the_rack() {
    let mut app = split_app();
    app.apply_action(AppAction::SelectPreviousPageItem);
    assert_eq!(app.selected_timeline_fx_row(MidiFxChainKind::Output), 3);
    app.apply_action(AppAction::SelectNextPageItem);
    assert_eq!(app.selected_timeline_fx_row(MidiFxChainKind::Output), 0);
}

#[test]
fn cycling_an_empty_slot_backward_adds_the_last_kind() {
    let mut app = split_app();
    app.adjust_page_item(-1);
    let slot = app.project.tracks[0].midi_fx.output_fx[0].clone().unwrap();
    assert_eq!(slot.effect.kind(), MidiFxKind::TrackClone);
    assert!(slot.enabled);
}

#[test]
fn timeline_context_steps_between_the_racks_and_stops_at_the_ends() {
    let mut app = App::new();
    app.page_state.selected_timeline_context = TimelineContext::OutputFx;
    app.apply_action(AppAction::SelectPreviousTimelineContext);
    assert_eq!(app.page_state.selected_timeline_context, TimelineContext::TrackTimeline);
    app.apply_action(AppAction::SelectNextTimelineContext);
    assert_eq!(app.page_state.selected_timeline_context, TimelineContext::OutputFx);
    app.apply_action(AppAction::SelectNextTimelineContext);
    assert_eq!(app.page_state.selected_timeline_context, TimelineContext::OutputFx);
    app.page_state.selected_timeline_context = TimelineContext::InputFx;
    app.apply_action(AppAction::SelectPreviousTimelineContext);
    assert_eq!(app.page_state.selected_timeline_context, TimelineContext::InputFx);
    app.apply_action(AppAction::SelectNextTimelineContext);
    assert_eq!(app.page_state.selected_timeline_context, TimelineContext::TrackTimeline);
}

#[test]
fn parameter_cell_click_selects_and_steps_the_parameter() {
    let mut app = split_app();
    app.project.tracks[0].midi_fx.output_fx[0] = Some(arp_slot());
    let layout = app.timeline_fx_row_layouts(
        Rect::new(10, 10, 184, 48),
        &[Some(0), Some(1), Some(2), Some(3)],
        &app.project.tracks[0].midi_fx.output_fx,
        Some(0),
    )[0];
    let cell = layout.parameters[2];
    let before = app.project.tracks[0].midi_fx.output_fx[0].as_ref().unwrap().effect.inline_parameters();
    let control = app.handle_timeline_fx_pointer_hit(
        TimelineFxRowRef { context: TimelineContext::OutputFx, row_index: 0, slot_index: Some(0), layout },
        cell.x + 1,
        cell.y + 1,
        true,
    );
    assert!(control.is_some());
    assert_eq!(app.page_state.selected_timeline_fx_field, TimelineFxField::ParamPrimary);
    assert_eq!(app.selected_timeline_fx_param_window(MidiFxChainKind::Output), 2);
    let after = app.project.tracks[0].midi_fx.output_fx[0].as_ref().unwrap().effect.inline_parameters();
    assert_ne!(before[2].value, after[2].value);
    assert_eq!(before[0].value, after[0].value);
}

#[test]
fn fx_hit_finds_the_slot_under_the_pointer() {
    let mut app = split_app();
    app.project.tracks[0].midi_fx.output_fx[2] = Some(arp_slot());
    let band = Rect::new(10, 10, 184, 48);
    let track = &app.project.tracks[0];
    let hit = app.timeline_fx_hit(TimelineContext::OutputFx, band, track, 14, 40).expect("hit");
    assert_eq!(hit.row_index, 2);
    assert_eq!(hit.slot_index, Some(2));
    assert!(app.timeline_fx_hit(TimelineContext::OutputFx, band, track, 12, 59).is_none());
    assert!(app.timeline_fx_hit(TimelineContext::TrackTimeline, band, track, 14, 40).is_none());
}

#[test]
fn kind_target_width_follows_the_label_that_fits() {
    let slot = arp_slot();
    assert_eq!(timeline_fx_kind_target_width(&slot, 72), 23);
    assert_eq!(timeline_fx_kind_target_width(&slot, 71), 20);
    let delay = MidiFxSlot { enabled: true, effect: MidiFx::default_for_kind(MidiFxKind::Delay) };
    assert_eq!(timeline_fx_kind_target_width(&delay, 200), 23);
}
