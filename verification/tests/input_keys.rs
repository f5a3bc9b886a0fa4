use ttymap::app_msg::{AppMsg, KeyDelivery};
use ttymap::command::Action as ModeAction;
use ttymap::frontend::UserIntent;
use ttymap::input::keyboard::{KeyboardHandler, Stage, routing};
use ttymap::input::keymap::{KeyMap, KeybindingOverrides, parse_key_binding};
use ttymap::input::mouse::{MouseAdapter, MouseButton, MouseEvent, MouseEventKind};
use ttymap::keymap::{KeyMap as ModeKeyMap, KeybindingOverrides as ModeOverrides};
use ttymap::keys::{KeyCode, KeyModifiers};
use ttymap::map::Action;

fn none() -> KeyModifiers {
    KeyModifiers::none()
}

fn map(action: Action) -> UserIntent {
    UserIntent::MapAction(action)
}

#[test]
fn gg_produces_zoom_to_world_on_second_g() {
    let mut kb = KeyboardHandler::new(KeyMap::default());
    assert_eq!(kb.resolve_with_sequence(KeyCode::Char('g'), none()), None);
    assert_eq!(
        kb.resolve_with_sequence(KeyCode::Char('g'), none()),
        Some(map(Action::ZoomToWorld))
    );
}

#[test]
fn gg_sequence_broken_by_other_key() {
    let mut kb = KeyboardHandler::new(KeyMap::default());
    kb.resolve_with_sequence(KeyCode::Char('g'), none());
    kb.resolve_with_sequence(KeyCode::Char('h'), none());
    assert_eq!(kb.resolve_with_sequence(KeyCode::Char('g'), none()), None);
}

#[test]
fn routing_table_order_is_stable() {
    assert_eq!(
        routing(),
        [
            Stage::FocusDelivery,
            Stage::CycleFocus,
            Stage::OpenPalette,
            Stage::PluginActivation,
            Stage::KeymapFallback,
        ],
    );
}

#[test]
fn handle_routes_through_the_stages_in_order() {
    let mut kb = KeyboardHandler::new(KeyMap::default());
    let none_tag: Option<String> = None;
    // A focused surface that consumes wins over everything.
    assert_eq!(kb.handle(KeyCode::Char('h'), none(), &KeyDelivery::Consumed, &none_tag), None);
    // A surface's own message runs.
    assert_eq!(
        kb.handle(KeyCode::Char('h'), none(), &KeyDelivery::Run(AppMsg::OpenPalette), &none_tag),
        Some(AppMsg::OpenPalette)
    );
    // Tab cycles focus forward, Shift-Tab (BackTab) backward.
    assert_eq!(
        kb.handle(KeyCode::Tab, none(), &KeyDelivery::Passthrough, &none_tag),
        Some(AppMsg::CycleFocus(true))
    );
    assert_eq!(
        kb.handle(KeyCode::BackTab, KeyModifiers::shift(), &KeyDelivery::Passthrough, &none_tag),
        Some(AppMsg::CycleFocus(false))
    );
    // `:` opens the palette.
    assert_eq!(
        kb.handle(KeyCode::Char(':'), none(), &KeyDelivery::Passthrough, &none_tag),
        Some(AppMsg::OpenPalette)
    );
    // A plugin activation key activates its plugin ahead of the keymap.
    assert_eq!(
        kb.handle(KeyCode::Char('h'), none(), &KeyDelivery::Passthrough, &Some("wiki".to_string())),
        Some(AppMsg::ActivatePlugin("wiki".to_string()))
    );
    // Only then does the keymap answer.
    assert_eq!(
        kb.handle(KeyCode::Char('h'), none(), &KeyDelivery::Passthrough, &none_tag),
        Some(AppMsg::Intent(map(Action::PanLeft)))
    );
    assert_eq!(kb.handle(KeyCode::Char('x'), none(), &KeyDelivery::Passthrough, &none_tag), None);
}

#[test]
fn gg_is_broken_by_a_key_a_higher_stage_consumes() {
    let mut kb = KeyboardHandler::new(KeyMap::default());
    let none_tag: Option<String> = None;
    assert_eq!(kb.handle(KeyCode::Char('g'), none(), &KeyDelivery::Passthrough, &none_tag), None);
    assert_eq!(
        kb.handle(KeyCode::Tab, none(), &KeyDelivery::Passthrough, &none_tag),
        Some(AppMsg::CycleFocus(true))
    );
    assert_eq!(kb.handle(KeyCode::Char('g'), none(), &KeyDelivery::Passthrough, &none_tag), None);
    assert_eq!(
        kb.handle(KeyCode::Char('g'), none(), &KeyDelivery::Passthrough, &none_tag),
        Some(AppMsg::Intent(map(Action::ZoomToWorld)))
    );
}

#[test]
fn keymap_test_parse_char() {
    let b = parse_key_binding("h").unwrap();
    assert_eq!(b.code, KeyCode::Char('h'));
    assert_eq!(b.modifiers, KeyModifiers::none());
}

#[test]
fn keymap_test_parse_ctrl() {
    let b = parse_key_binding("C-d").unwrap();
    assert_eq!(b.code, KeyCode::Char('d'));
    assert_eq!(b.modifiers, KeyModifiers::control());
}

#[test]
fn keymap_test_parse_special() {
    assert_eq!(parse_key_binding("Left").unwrap().code, KeyCode::Left);
    assert_eq!(parse_key_binding("Backspace").unwrap().code, KeyCode::Backspace);
    assert_eq!(parse_key_binding("Enter").unwrap().code, KeyCode::Enter);
    assert_eq!(parse_key_binding("Esc").unwrap().code, KeyCode::Esc);
    assert_eq!(parse_key_binding("Tab").unwrap().code, KeyCode::Tab);
}

#[test]
fn keymap_test_parse_invalid() {
    assert!(parse_key_binding("InvalidKey").is_none());
    assert!(parse_key_binding("").is_none());
}

#[test]
fn key_binding_display_round_trips() {
    for s in ["h", "C-d", "S-x", "Left", "Enter", "Esc", "Tab", "C-Left", "Backspace", "C-Backspace"] {
        let b = parse_key_binding(s).unwrap();
        assert_eq!(b.display(), s);
        assert_eq!(parse_key_binding(&b.display()), Some(b));
    }
}

#[test]
fn keymap_test_lookup() {
    let km = KeyMap::default();
    assert_eq!(km.lookup(KeyCode::Char('h'), KeyModifiers::none()), Some(&map(Action::PanLeft)));
    assert_eq!(
        km.lookup(KeyCode::Char('d'), KeyModifiers::control()),
        Some(&map(Action::PanDownHalf))
    );
    assert_eq!(km.lookup(KeyCode::Char('x'), KeyModifiers::none()), None);

    let old = ModeKeyMap::default();
    assert_eq!(old.lookup(KeyCode::Char('h'), KeyModifiers::none()), Some(&ModeAction::PanLeft));
    assert_eq!(
        old.lookup(KeyCode::Char('d'), KeyModifiers::control()),
        Some(&ModeAction::PanDownHalf)
    );
    assert_eq!(old.lookup(KeyCode::Char('x'), KeyModifiers::none()), None);
}

#[test]
fn keymap_with_overrides_applies_rebinds() {
    let overrides: KeybindingOverrides = vec![
        ("zoom_in".to_string(), vec!["i".to_string()]),
        ("quit".to_string(), vec!["Q".to_string(), "C-q".to_string()]),
    ];
    let km = KeyMap::with_overrides(&overrides);
    assert_eq!(km.lookup(KeyCode::Char('i'), KeyModifiers::none()), Some(&map(Action::ZoomIn)));
    assert_eq!(km.lookup(KeyCode::Char('Q'), KeyModifiers::none()), Some(&map(Action::Quit)));
    assert_eq!(km.lookup(KeyCode::Char('q'), KeyModifiers::control()), Some(&map(Action::Quit)));

    let mut o = ModeOverrides::default();
    o.zoom_in = Some(vec!["i".to_string()]);
    o.quit = Some(vec!["Q".to_string(), "C-q".to_string()]);
    let old = ModeKeyMap::with_overrides(&o);
    assert_eq!(old.lookup(KeyCode::Char('i'), KeyModifiers::none()), Some(&ModeAction::ZoomIn));
    assert_eq!(old.lookup(KeyCode::Char('Q'), KeyModifiers::none()), Some(&ModeAction::Quit));
    assert_eq!(old.lookup(KeyCode::Char('q'), KeyModifiers::control()), Some(&ModeAction::Quit));
}

#[test]
fn keymap_with_overrides_keeps_unoverridden_defaults() {
    let km = KeyMap::with_overrides(&Vec::new());
    assert_eq!(km.lookup(KeyCode::Char('h'), KeyModifiers::none()), Some(&map(Action::PanLeft)));
    let old = ModeKeyMap::with_overrides(&ModeOverrides::default());
    assert_eq!(old.lookup(KeyCode::Char('h'), KeyModifiers::none()), Some(&ModeAction::PanLeft));
}

#[test]
fn with_overrides_skips_unknown_entries() {
    let overrides: KeybindingOverrides = vec![("not_an_action".to_string(), vec!["x".to_string()])];
    let km = KeyMap::with_overrides(&overrides);
    assert_eq!(km.lookup(KeyCode::Char('h'), KeyModifiers::none()), Some(&map(Action::PanLeft)));
    assert_eq!(km.lookup(KeyCode::Char('x'), KeyModifiers::none()), None);
}

#[test]
fn keymap_resolve_basic_movement() {
    let km = KeyMap::default();
    assert_eq!(km.resolve(KeyCode::Char('h'), none()), Some(map(Action::PanLeft)));
    assert_eq!(km.resolve(KeyCode::Char('j'), none()), Some(map(Action::PanDown)));
    assert_eq!(km.resolve(KeyCode::Char('k'), none()), Some(map(Action::PanUp)));
    assert_eq!(km.resolve(KeyCode::Char('l'), none()), Some(map(Action::PanRight)));

    let mut old = ModeKeyMap::default();
    assert_eq!(old.resolve(KeyCode::Char('h'), none()), ModeAction::PanLeft);
    assert_eq!(old.resolve(KeyCode::Char('j'), none()), ModeAction::PanDown);
    assert_eq!(old.resolve(KeyCode::Char('k'), none()), ModeAction::PanUp);
    assert_eq!(old.resolve(KeyCode::Char('l'), none()), ModeAction::PanRight);
}

#[test]
fn keymap_resolve_zoom() {
    let km = KeyMap::default();
    assert_eq!(km.resolve(KeyCode::Char('a'), none()), Some(map(Action::ZoomIn)));
    assert_eq!(km.resolve(KeyCode::Char('z'), none()), Some(map(Action::ZoomOut)));
    let mut old = ModeKeyMap::default();
    assert_eq!(old.resolve(KeyCode::Char('a'), none()), ModeAction::ZoomIn);
    assert_eq!(old.resolve(KeyCode::Char('z'), none()), ModeAction::ZoomOut);
}

#[test]
fn keymap_resolve_quit() {
    let km = KeyMap::default();
    assert_eq!(km.resolve(KeyCode::Char('q'), none()), Some(map(Action::Quit)));
    let mut old = ModeKeyMap::default();
    assert_eq!(old.resolve(KeyCode::Char('q'), none()), ModeAction::Quit);
}

#[test]
fn keymap_resolve_big_pan() {
    let km = KeyMap::default();
    assert_eq!(km.resolve(KeyCode::Char('w'), none()), Some(map(Action::PanRightFast)));
    assert_eq!(km.resolve(KeyCode::Char('b'), none()), Some(map(Action::PanLeftFast)));
    assert_eq!(
        km.resolve(KeyCode::Char('d'), KeyModifiers::control()),
        Some(map(Action::PanDownHalf))
    );
    assert_eq!(
        km.resolve(KeyCode::Char('u'), KeyModifiers::control()),
        Some(map(Action::PanUpHalf))
    );
    let mut old = ModeKeyMap::default();
    assert_eq!(old.resolve(KeyCode::Char('w'), none()), ModeAction::PanRightFast);
    assert_eq!(old.resolve(KeyCode::Char('b'), none()), ModeAction::PanLeftFast);
    assert_eq!(old.resolve(KeyCode::Char('d'), KeyModifiers::control()), ModeAction::PanDownHalf);
    assert_eq!(old.resolve(KeyCode::Char('u'), KeyModifiers::control()), ModeAction::PanUpHalf);
}

#[test]
fn keymap_resolve_reset_position() {
    let km = KeyMap::default();
    assert_eq!(km.resolve(KeyCode::Char('0'), none()), Some(map(Action::ResetPosition)));
    let mut old = ModeKeyMap::default();
    assert_eq!(old.resolve(KeyCode::Char('0'), none()), ModeAction::ResetPosition);
}

#[test]
fn resolve_unknown_key_is_none() {
    let km = KeyMap::default();
    assert_eq!(km.resolve(KeyCode::Char('/'), none()), None);
    assert_eq!(km.resolve(KeyCode::Char('?'), none()), None);
    assert_eq!(km.resolve(KeyCode::Char('i'), none()), None);
}

#[test]
fn resolve_gg_zoom_to_world() {
    let mut km = ModeKeyMap::default();
    assert_eq!(km.resolve(KeyCode::Char('g'), none()), ModeAction::Nothing);
    assert_eq!(km.resolve(KeyCode::Char('g'), none()), ModeAction::ZoomToWorld);
}

#[test]
fn resolve_gg_sequence_broken_by_other_key() {
    let mut km = ModeKeyMap::default();
    km.resolve(KeyCode::Char('g'), none());
    km.resolve(KeyCode::Char('h'), none());
    assert_eq!(km.resolve(KeyCode::Char('g'), none()), ModeAction::Nothing);
}

#[test]
fn resolve_mode_transitions() {
    let mut km = ModeKeyMap::default();
    assert_eq!(km.resolve(KeyCode::Char('/'), none()), ModeAction::SearchOpen);
    assert_eq!(km.resolve(KeyCode::Char('?'), none()), ModeAction::HelpToggle);
    assert_eq!(km.resolve(KeyCode::Char('i'), none()), ModeAction::WikiToggle);
}

#[test]
fn reserved_keys_win_over_a_rebinding() {
    let mut o = ModeOverrides::default();
    o.zoom_in = Some(vec!["i".to_string()]);
    let mut km = ModeKeyMap::with_overrides(&o);
    assert_eq!(km.resolve(KeyCode::Char('i'), none()), ModeAction::WikiToggle);
}

#[test]
fn set_bindings_replaces_the_keys_of_one_command_only() {
    let mut km = KeyMap::default();
    km.set_bindings(map(Action::PanLeft), &["y".to_string(), "bogus-key".to_string()]);
    assert_eq!(km.keys_for(&map(Action::PanLeft)), vec!["y".to_string()]);
    assert_eq!(km.lookup(KeyCode::Char('h'), none()), None);
    assert_eq!(km.keys_for(&map(Action::PanRight)), vec!["l".to_string(), "Right".to_string()]);
}

#[test]
fn mouse_press_drag_release_pans_by_the_drag() {
    let mut m = MouseAdapter::new();
    let at = |kind: MouseEventKind, column: u16, row: u16| MouseEvent { kind, column, row };
    assert_eq!(m.resolve(at(MouseEventKind::Down(MouseButton::Left), 10, 10), 80, 24), None);
    let dragged = m.resolve(at(MouseEventKind::Drag(MouseButton::Left), 12, 11), 80, 24);
    assert_eq!(dragged, Some(map(Action::PanCells(2, 1))));
    assert_eq!(m.resolve(at(MouseEventKind::Up(MouseButton::Left), 12, 11), 80, 24), None);
    // After the release a drag pans nothing.
    assert_eq!(m.resolve(at(MouseEventKind::Drag(MouseButton::Left), 20, 20), 80, 24), None);
}

#[test]
fn mouse_translate_leads_with_the_cursor_and_zooms_about_the_pointer() {
    let mut m = MouseAdapter::new();
    let ev = MouseEvent { kind: MouseEventKind::ScrollUp, column: 50, row: 5 };
    let msgs = m.translate(ev, 80, 24);
    assert_eq!(msgs.len(), 2);
    assert_eq!(msgs[0], UserIntent::CursorMoved(50, 5));
    assert_eq!(
        msgs[1],
        map(Action::ZoomAt { anchor_dx2: 20, anchor_dy2: -14, zoom_in: true })
    );
    let moved = MouseEvent { kind: MouseEventKind::Moved, column: 1, row: 2 };
    assert_eq!(m.translate(moved, 80, 24), vec![UserIntent::CursorMoved(1, 2)]);
}

#[test]
fn mouse_accepts_only_drags_whose_delta_fits() {
    let mut m = MouseAdapter::new();
    let press = MouseEvent { kind: MouseEventKind::Down(MouseButton::Left), column: 0x7fff, row: 5 };
    assert!(m.accepts_event(press));
    m.translate(press, 80, 24);
    let near = MouseEvent { kind: MouseEventKind::Drag(MouseButton::Left), column: 0x7ff0, row: 4 };
    assert!(m.accepts_event(near));
    let far = MouseEvent { kind: MouseEventKind::Drag(MouseButton::Left), column: 0x8000, row: 5 };
    assert!(!m.accepts_event(far));
}
