use trekr::actions::AppAction;
use trekr::app::{App, AppControl, TimelineContext, TimelineFxField};
use trekr::keyboard::{KeyPress, PanelKey};
use trekr::midi_fx::{MidiFxKind, MidiFxSlot};

#[test]
fn effect_type_menu_lists_every_kind_and_an_empty_slot() {
    let mut app = App::new();
    app.open_fx_menu(0, TimelineContext::OutputFx, 0, 300, 200);
    let menu = app.fx_menu.as_ref().expect("menu");
    assert_eq!(menu.choices.len(), 11);
    assert_eq!(menu.choices[10], None);
    // the slot holds a transpose, the third kind
    assert_eq!(menu.current, 2);
    assert_eq!(menu.selected, 2);
    assert_eq!(menu.choices[2], Some(MidiFxSlot::default()));
    assert_eq!(menu.choices[0].unwrap().effect.kind(), MidiFxKind::Arp);
    assert_eq!(app.page_state.selected_timeline_context, TimelineContext::OutputFx);
    assert_eq!(app.page_state.selected_timeline_fx_field, TimelineFxField::Kind);
}

#[test]
fn menu_geometry_and_selection_stay_in_view() {
    let mut app = App::new();
    app.viewport_size = (1280, 140);
    app.open_fx_menu(0, TimelineContext::OutputFx, 0, 2000, -50);
    let (rect, row_height, rows) = app.fx_menu_geometry().expect("geometry");
    assert_eq!(row_height, 20);
    assert_eq!(rows, 4);
    assert_eq!((rect.x, rect.y, rect.w, rect.h), (1280 - 210 - 8, 8, 210, 120));

    app.move_fx_menu_selection(100);
    let menu = app.fx_menu.as_ref().unwrap();
    assert_eq!(menu.selected, 10);
    assert_eq!(menu.scroll, 7);
    app.move_fx_menu_selection(-100);
    let menu = app.fx_menu.as_ref().unwrap();
    assert_eq!((menu.selected, menu.scroll), (0, 0));

    assert_eq!(app.fx_menu_row_at(rect.x + 5, rect.y + 22 + 20 + 3), Some(1));
    assert_eq!(app.fx_menu_row_at(rect.x + 5, rect.y + 10), None);
}

#[test]
fn committing_a_choice_replaces_the_slot_and_closes_the_menu() {
    let mut app = App::new();
    app.open_fx_menu(0, TimelineContext::OutputFx, 0, 300, 200);
    app.move_fx_menu_selection(-2);
    app.commit_fx_menu_choice();
    assert!(app.fx_menu.is_none());
    let slot = app.project.tracks[0].midi_fx.output_fx[0].unwrap();
    assert_eq!(slot.effect.kind(), MidiFxKind::Arp);

    // a menu whose slot changed meanwhile is discarded
    app.open_fx_menu(0, TimelineContext::OutputFx, 0, 300, 200);
    app.project.tracks[0].midi_fx.output_fx[0] = None;
    app.commit_fx_menu_choice();
    assert!(app.fx_menu.is_none());
    assert_eq!(app.project.tracks[0].midi_fx.output_fx[0], None);
}

#[test]
fn menu_is_allowed_only_on_the_timeline_without_panels() {
    let mut app = App::new();
    assert!(app.fx_menu_allowed());
    app.page_state.current_page = trekr::app::AppPage::Mappings;
    assert!(!app.fx_menu_allowed());
}

#[test]
fn page_item_actions_drive_an_open_menu() {
    let mut app = App::new();
    app.open_fx_menu(0, TimelineContext::OutputFx, 0, 1200, 700);
    let delay = app.fx_menu.as_ref().unwrap().choices.iter()
        .position(|c| c.is_some_and(|s| s.effect.kind() == MidiFxKind::Delay))
        .unwrap();
    let start = app.fx_menu.as_ref().unwrap().selected;
    for _ in start..delay {
        app.apply_action(AppAction::SelectNextPageItem);
    }
    assert_eq!(app.fx_menu.as_ref().unwrap().selected, delay);
    app.apply_action(AppAction::ActivatePageItem);
    assert!(app.fx_menu.is_none());
    assert_eq!(app.project.tracks[0].midi_fx.output_fx[0].unwrap().effect.kind(), MidiFxKind::Delay);
}

fn key(key: PanelKey) -> Option<KeyPress> {
    Some(KeyPress { key, shift: false, repeat: false })
}

#[test]
fn menu_keys_navigate_commit_and_close() {
    let mut app = App::new();
    assert_eq!(app.handle_fx_menu_keyboard_event(key(PanelKey::Down)), None);
    app.open_fx_menu(0, TimelineContext::OutputFx, 0, 300, 200);
    assert_eq!(app.handle_fx_menu_keyboard_event(key(PanelKey::Home)), Some(AppControl::Continue));
    assert_eq!(app.fx_menu.as_ref().unwrap().selected, 0);
    app.handle_fx_menu_keyboard_event(key(PanelKey::Down));
    app.handle_fx_menu_keyboard_event(key(PanelKey::E));
    assert_eq!(app.fx_menu.as_ref().unwrap().selected, 2);
    app.handle_fx_menu_keyboard_event(key(PanelKey::Up));
    assert_eq!(app.fx_menu.as_ref().unwrap().selected, 1);
    assert_eq!(app.handle_fx_menu_keyboard_event(key(PanelKey::Other)), None);
    app.handle_fx_menu_keyboard_event(key(PanelKey::Return));
    assert!(app.fx_menu.is_none());
    assert_eq!(app.project.tracks[0].midi_fx.output_fx[0].unwrap().effect.kind(), MidiFxKind::NoteFilter);

    app.open_fx_menu(0, TimelineContext::OutputFx, 0, 300, 200);
    app.handle_fx_menu_keyboard_event(key(PanelKey::End));
    assert_eq!(app.fx_menu.as_ref().unwrap().selected, 10);
    assert_eq!(app.handle_fx_menu_keyboard_event(key(PanelKey::Escape)), Some(AppControl::Continue));
    assert!(app.fx_menu.is_none());
    assert_eq!(app.project.tracks[0].midi_fx.output_fx[0].unwrap().effect.kind(), MidiFxKind::NoteFilter);
}
