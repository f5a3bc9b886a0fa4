use mlua::Lua;
use ttymap::keys::{KeyCode, KeyModifiers};
use ttymap::lua::bridge::card_component::{CardKeyOutcome, CardView, LuaCardComponent};
use ttymap::lua::bridge::card_handle::CardHandle;
use ttymap::lua::bridge::layout::{
    LuaLayout, PanelAnchor, Placement, WindowLayout, parse_layout, parse_panel_anchor,
};
use ttymap::lua::bridge::palette_handle::PaletteHandle;
use ttymap::lua::bridge::palette_provider::{LuaPaletteProvider, PaletteAction, SubmitMode};
use ttymap::lua::bridge::parse::{
    KeyAction, StyleKind, key_code_to_lua, parse_footer_hints, parse_item_value, parse_line_value,
    style_from_str,
};
use ttymap::lua::bridge::window_component::LuaWindowComponent;
use ttymap::lua::bridge::window_handle::{CloseFlag, CloseFlagWrapper, WindowHandle};
use ttymap::lua::op::{CardId, CardIdAllocator, Op, Pushed, new_ops_buffer, open_card, open_palette};
use ttymap::lua::value::{LuaTable, LuaVal, eval_table, eval_value};

fn spec_of(source: &str) -> (Lua, LuaTable) {
    let lua = Lua::new();
    let spec = eval_table(&lua, source).expect("eval spec");
    (lua, spec)
}

fn window(source: &str, log_tag: &str) -> LuaWindowComponent {
    let (_lua, spec) = spec_of(source);
    LuaWindowComponent::from_spec(spec, log_tag, CloseFlag::default())
}

fn card(source: &str, log_tag: &str) -> LuaCardComponent {
    let (_lua, spec) = spec_of(source);
    LuaCardComponent::from_spec(spec, log_tag, CloseFlag::default())
}

fn provider(source: &str) -> LuaPaletteProvider {
    let (_lua, spec) = spec_of(source);
    LuaPaletteProvider::from_spec(spec, "lua-test")
}

fn none() -> KeyModifiers {
    KeyModifiers::none()
}

// ── layout ─────────────────────────────────────────────────────────

#[test]
fn parse_layout_left_56() {
    let (_lua, spec) = spec_of(r#"return { layout = { anchor = "left", width = 56 } }"#);
    let layout = parse_layout(&spec);
    assert_eq!(layout.anchor, PanelAnchor::Left);
    assert_eq!(layout.width, 56);
    assert_eq!(layout.height, None);
}

#[test]
fn parse_layout_falls_back_when_missing() {
    let (_lua, spec) = spec_of(r#"return {}"#);
    let layout = parse_layout(&spec);
    assert_eq!(layout.anchor, PanelAnchor::TopLeft);
    assert_eq!(layout.width, 32);
    assert_eq!(layout.height, Some(10));
    assert_eq!(layout, WindowLayout::fallback());
}

#[test]
fn parse_layout_unknown_anchor_falls_back_silently() {
    let (_lua, spec) = spec_of(r#"return { layout = { anchor = "norkeast" } }"#);
    let layout = parse_layout(&spec);
    assert_eq!(layout.anchor, PanelAnchor::TopLeft);
}

#[test]
fn parse_layout_reads_height_and_sidebar_kind() {
    let (_lua, spec) = spec_of(
        r#"return { layout = { anchor = "BR", width = 40, height = 12, kind = "SideBar" } }"#,
    );
    let layout = parse_layout(&spec);
    assert_eq!(layout.anchor, PanelAnchor::BottomRight);
    assert_eq!(layout.width, 40);
    assert_eq!(layout.height, Some(12));
    assert_eq!(layout.placement, Placement::Sidebar);
    let (_lua, spec) = spec_of(r#"return { layout = { kind = "floating" } }"#);
    assert_eq!(parse_layout(&spec).placement, Placement::Modal);
}

#[test]
fn panel_anchor_names_ignore_case() {
    assert_eq!(parse_panel_anchor("Left"), Some(PanelAnchor::Left));
    assert_eq!(parse_panel_anchor("TOP-RIGHT"), Some(PanelAnchor::TopRight));
    assert_eq!(parse_panel_anchor("tr"), Some(PanelAnchor::TopRight));
    assert_eq!(parse_panel_anchor("bottomleft"), Some(PanelAnchor::BottomLeft));
    assert_eq!(parse_panel_anchor("Centre"), Some(PanelAnchor::Center));
    assert_eq!(parse_panel_anchor("middle"), None);
}

#[test]
fn layout_falls_back_when_module_omits_it() {
    let (_lua, module) = spec_of(r#"return { name = "plain" }"#);
    let layout = LuaLayout::from_module(&module);
    assert_eq!(layout.anchor, PanelAnchor::TopLeft);
    assert_eq!(layout.width, 32);
    assert_eq!(layout.height, Some(10));
    assert_eq!(layout, LuaLayout::fallback());
}

#[test]
fn layout_reads_anchor_width_height_from_module() {
    let (_lua, module) =
        spec_of(r#"return { layout = { anchor = "right", width = 48, height = 20 } }"#);
    let layout = LuaLayout::from_module(&module);
    assert_eq!(layout.anchor, PanelAnchor::Right);
    assert_eq!(layout.width, 48);
    assert_eq!(layout.height, Some(20));
}

#[test]
fn layout_unknown_anchor_falls_back_silently() {
    let (_lua, module) = spec_of(r#"return { layout = { anchor = "upside-down", width = 40 } }"#);
    let layout = LuaLayout::from_module(&module);
    assert_eq!(layout.anchor, PanelAnchor::TopLeft);
    assert_eq!(layout.width, 40);
}

// ── parsers ────────────────────────────────────────────────────────

#[test]
fn style_keywords_map_to_kinds() {
    assert_eq!(style_from_str(Some("muted")), StyleKind::Muted);
    assert_eq!(style_from_str(Some("accent")), StyleKind::Accent);
    assert_eq!(style_from_str(Some("highlight")), StyleKind::Highlight);
    assert_eq!(style_from_str(Some("selected")), StyleKind::Selected);
    assert_eq!(style_from_str(Some("muted_fg")), StyleKind::MutedFg);
    assert_eq!(style_from_str(Some("link")), StyleKind::Link);
    assert_eq!(style_from_str(Some("Muted")), StyleKind::Body);
    assert_eq!(style_from_str(None), StyleKind::Body);
}

#[test]
fn parse_footer_hints_accepts_both_shapes() {
    let (_lua, spec) = spec_of(
        r#"return { footer_hints = {
            { "Enter", "open" },
            { key = "j", label = "down" },
            "not a table",
            { },
            { key = "x" },
        } }"#,
    );
    let hints = parse_footer_hints(&spec);
    assert_eq!(
        hints,
        vec![
            ("Enter".to_string(), "open".to_string()),
            ("j".to_string(), "down".to_string()),
            ("x".to_string(), String::new()),
        ]
    );
    let (_lua, spec) = spec_of(r#"return { footer_hints = "nope" }"#);
    assert!(parse_footer_hints(&spec).is_empty());
}

#[test]
fn line_values_become_spans() {
    assert_eq!(
        parse_line_value(LuaVal::Str(Some("hello".to_string()))),
        vec![("hello".to_string(), StyleKind::Body)]
    );
    assert_eq!(parse_line_value(LuaVal::Str(None)), vec![(String::new(), StyleKind::Body)]);
    assert_eq!(parse_line_value(LuaVal::Nil), vec![("Nil".to_string(), StyleKind::Body)]);
    assert_eq!(
        parse_line_value(LuaVal::Boolean(true)),
        vec![("Boolean(true)".to_string(), StyleKind::Body)]
    );
    let (_lua, t) = spec_of(
        r#"return { { text = "a", style = "accent" }, "b", 7, { text = "c", style = "nope" } }"#,
    );
    assert_eq!(
        parse_line_value(LuaVal::Table(t)),
        vec![
            ("a".to_string(), StyleKind::Accent),
            ("b".to_string(), StyleKind::Body),
            ("c".to_string(), StyleKind::Body),
        ]
    );
    let (_lua, empty) = spec_of("return {}");
    assert_eq!(parse_line_value(LuaVal::Table(empty)), vec![(String::new(), StyleKind::Body)]);
}

#[test]
fn item_values_are_lines_or_one_line() {
    let (_lua, lines) = spec_of(r#"return { { "M5.7 Tokyo" }, { { text = "2h ago", style = "muted" } } }"#);
    let item = parse_item_value(LuaVal::Table(lines));
    assert_eq!(
        item,
        vec![
            vec![("M5.7 Tokyo".to_string(), StyleKind::Body)],
            vec![("2h ago".to_string(), StyleKind::Muted)],
        ]
    );
    let (_lua, spans) = spec_of(r#"return { { text = "one", style = "link" } }"#);
    assert_eq!(
        parse_item_value(LuaVal::Table(spans)),
        vec![vec![("one".to_string(), StyleKind::Link)]]
    );
    assert_eq!(
        parse_item_value(LuaVal::Str(Some("plain".to_string()))),
        vec![vec![("plain".to_string(), StyleKind::Body)]]
    );
}

#[test]
fn key_codes_reach_lua_by_name() {
    assert_eq!(key_code_to_lua(KeyCode::Char('x')), ("Char", Some('x')));
    assert_eq!(key_code_to_lua(KeyCode::Esc), ("Esc", None));
    assert_eq!(key_code_to_lua(KeyCode::PageDown), ("PageDown", None));
    assert_eq!(key_code_to_lua(KeyCode::F(5)), ("Other", None));
}

// ── window component ───────────────────────────────────────────────

#[test]
fn window_component_display_picks_up_spec_name() {
    let c = window(
        r#"return { name = "International Space Station", render = function() return {} end }"#,
        "iss",
    );
    assert_eq!(c.name(), "International Space Station");
}

#[test]
fn window_component_display_falls_back_to_log_tag_when_spec_omits_name() {
    let c = window(r#"return {}"#, "anon");
    assert_eq!(c.name(), "anon");
    let c = window(r#"return { name = "" }"#, "anon");
    assert_eq!(c.name(), "anon");
}

#[test]
fn window_component_render_lines_round_trip_through_lua() {
    let c = window(
        r#"return {
            name = "demo",
            render = function() return { "alpha", "beta", "gamma" } end,
        }"#,
        "demo",
    );
    let lines = c.render_lines();
    let texts: Vec<&str> = lines.iter().map(|spans| spans[0].0.as_str()).collect();
    assert_eq!(texts, vec!["alpha", "beta", "gamma"]);
    assert!(lines.iter().all(|spans| spans[0].1 == StyleKind::Body));
    assert!(c.has_render);
}

#[test]
fn window_component_render_lines_recovers_when_lua_throws() {
    let c = window(
        r#"return { name = "broken", render = function() error("kaboom") end }"#,
        "broken",
    );
    assert!(c.render_lines().is_empty());
}

#[test]
fn window_component_render_lines_recovers_when_field_is_missing() {
    let c = window(r#"return { name = "noop" }"#, "noop");
    assert!(c.render_lines().is_empty());
    assert!(!c.has_render);
}

#[test]
fn window_component_missing_handler_dispatches_to_ignore() {
    let c = window(r#"return { name = "noop" }"#, "noop");
    assert_eq!(c.dispatch_event(KeyCode::Esc, none()), KeyAction::Ignore);
}

#[test]
fn window_component_handler_returning_nil_consumes() {
    let c = window(
        r#"return { name = "modal", handle_event = function(_) return nil end }"#,
        "modal",
    );
    assert_eq!(c.dispatch_event(KeyCode::Char('a'), none()), KeyAction::Consume);
}

#[test]
fn window_component_handler_returning_close_table_closes() {
    let c = window(
        r#"return {
            name = "esc",
            handle_event = function(k)
                if k.code == "Esc" then return { close = true } end
                return nil
            end,
        }"#,
        "esc",
    );
    assert_eq!(c.dispatch_event(KeyCode::Esc, none()), KeyAction::Close);
    assert_eq!(c.dispatch_event(KeyCode::Char('x'), none()), KeyAction::Consume);
}

#[test]
fn window_component_handler_returning_ignore_table_ignores() {
    let c = window(
        r#"return { name = "passthrough", handle_event = function(_) return { ignore = true } end }"#,
        "passthrough",
    );
    assert_eq!(c.dispatch_event(KeyCode::Char('q'), none()), KeyAction::Ignore);
}

#[test]
fn window_component_handler_runtime_error_falls_back_to_consume() {
    let c = window(
        r#"return { name = "broken", handle_event = function(_) error("kaboom") end }"#,
        "broken",
    );
    assert_eq!(c.dispatch_event(KeyCode::Char('a'), none()), KeyAction::Consume);
}

#[test]
fn window_component_handler_returning_unknown_value_consumes() {
    let c = window(
        r#"return { name = "weird", handle_event = function(_) return "yolo" end }"#,
        "weird",
    );
    assert_eq!(c.dispatch_event(KeyCode::Char('z'), none()), KeyAction::Consume);
}

#[test]
fn key_table_carries_modifiers_and_char() {
    let c = window(
        r#"return {
            handle_event = function(k)
                if k.code == "Char" and k.char == "x" and k.ctrl and not k.shift and not k.alt then
                    return { close = true }
                end
                return { ignore = true }
            end,
        }"#,
        "keys",
    );
    assert_eq!(c.dispatch_event(KeyCode::Char('x'), KeyModifiers::control()), KeyAction::Close);
    assert_eq!(c.dispatch_event(KeyCode::Char('x'), none()), KeyAction::Ignore);
    assert_eq!(c.dispatch_event(KeyCode::Enter, KeyModifiers::control()), KeyAction::Ignore);
}

#[test]
fn window_component_poll_does_nothing_until_flag_is_flipped() {
    let flag = CloseFlag::default();
    let (_lua, spec) = spec_of(r#"return { name = "win" }"#);
    let c = LuaWindowComponent::from_spec(spec, "win", flag.clone());
    assert!(!c.poll(), "no flag flip → no close");
}

#[test]
fn window_component_poll_honours_flag_and_closes_window() {
    let flag = CloseFlag::default();
    let (_lua, spec) = spec_of(r#"return { name = "win" }"#);
    let c = LuaWindowComponent::from_spec(spec, "win", flag.clone());
    flag.request();
    assert!(c.poll(), "flipped flag → close");
    assert!(!c.poll(), "second poll without a new flip is a no-op");
}

#[test]
fn window_panel_height_defaults_to_available_minus_margin() {
    let c = window(r#"return { layout = { anchor = "left", width = 20 } }"#, "h");
    assert_eq!(c.panel_height(30), 28);
    assert_eq!(c.panel_height(1), 0);
    let c = window(r#"return {}"#, "h");
    assert_eq!(c.panel_height(30), 10);
    assert_eq!(c.placement(), Placement::Modal);
}

// ── card component ─────────────────────────────────────────────────

#[test]
fn card_component_display_picks_up_spec_name() {
    let c = card(
        r#"return { name = "International Space Station", render = function() return {} end }"#,
        "iss",
    );
    assert_eq!(c.name(), "International Space Station");
}

#[test]
fn card_component_display_falls_back_to_log_tag_when_spec_omits_name() {
    let c = card(r#"return {}"#, "anon");
    assert_eq!(c.name(), "anon");
}

#[test]
fn card_component_render_lines_round_trip_through_lua() {
    let c = card(
        r#"return { name = "demo", render = function() return { "alpha", "beta", "gamma" } end }"#,
        "demo",
    );
    let lines = c.render_lines();
    let texts: Vec<&str> = lines.iter().map(|spans| spans[0].0.as_str()).collect();
    assert_eq!(texts, vec!["alpha", "beta", "gamma"]);
    assert!(lines.iter().all(|spans| spans[0].1 == StyleKind::Body));
}

#[test]
fn card_component_render_lines_recovers_when_lua_throws() {
    let c = card(r#"return { name = "broken", render = function() error("kaboom") end }"#, "broken");
    assert!(c.render_lines().is_empty());
}

#[test]
fn card_component_render_lines_recovers_when_field_is_missing() {
    let c = card(r#"return { name = "noop" }"#, "noop");
    assert!(c.render_lines().is_empty());
}

#[test]
fn card_component_missing_handler_dispatches_to_ignore() {
    let c = card(r#"return { name = "noop" }"#, "noop");
    assert_eq!(c.dispatch_event(KeyCode::Esc, none()), KeyAction::Ignore);
}

#[test]
fn card_component_handler_returning_nil_consumes() {
    let c = card(r#"return { name = "modal", handle_event = function(_) return nil end }"#, "modal");
    assert_eq!(c.dispatch_event(KeyCode::Char('a'), none()), KeyAction::Consume);
}

#[test]
fn card_component_handler_returning_close_table_closes() {
    let c = card(
        r#"return {
            name = "esc",
            handle_event = function(k)
                if k.code == "Esc" then return { close = true } end
                return nil
            end,
        }"#,
        "esc",
    );
    assert_eq!(c.dispatch_event(KeyCode::Esc, none()), KeyAction::Close);
    assert_eq!(c.dispatch_event(KeyCode::Char('x'), none()), KeyAction::Consume);
}

#[test]
fn card_component_handler_returning_ignore_table_ignores() {
    let c = card(
        r#"return { name = "passthrough", handle_event = function(_) return { ignore = true } end }"#,
        "passthrough",
    );
    assert_eq!(c.dispatch_event(KeyCode::Char('q'), none()), KeyAction::Ignore);
}

#[test]
fn card_component_handler_runtime_error_falls_back_to_consume() {
    let c = card(r#"return { name = "broken", handle_event = function(_) error("kaboom") end }"#, "broken");
    assert_eq!(c.dispatch_event(KeyCode::Char('a'), none()), KeyAction::Consume);
}

#[test]
fn card_component_handler_returning_unknown_value_consumes() {
    let c = card(r#"return { name = "weird", handle_event = function(_) return "yolo" end }"#, "weird");
    assert_eq!(c.dispatch_event(KeyCode::Char('z'), none()), KeyAction::Consume);
}

#[test]
fn card_component_poll_does_nothing_until_flag_is_flipped() {
    let flag = CloseFlag::default();
    let (_lua, spec) = spec_of(r#"return { name = "win" }"#);
    let c = LuaCardComponent::from_spec(spec, "win", flag.clone());
    assert!(!c.poll());
}

#[test]
fn card_component_poll_honours_flag_and_closes_window() {
    let flag = CloseFlag::default();
    let (_lua, spec) = spec_of(r#"return { name = "win" }"#);
    let c = LuaCardComponent::from_spec(spec, "win", flag.clone());
    flag.request();
    assert!(c.poll());
    assert!(!c.poll());
}

#[test]
fn card_scroll_keys_apply_when_the_script_ignores_them() {
    let mut c = card(r#"return { name = "list", render = function() return {} end }"#, "list");
    assert_eq!(c.handle_key(KeyCode::Down, none()), CardKeyOutcome::Scrolled);
    assert_eq!(c.scroll_offset, 1);
    assert_eq!(c.handle_key(KeyCode::PageDown, none()), CardKeyOutcome::Scrolled);
    assert_eq!(c.scroll_offset, 11);
    c.set_inner_height(0);
    assert_eq!(c.handle_key(KeyCode::PageUp, none()), CardKeyOutcome::Scrolled);
    assert_eq!(c.scroll_offset, 10);
    assert_eq!(c.handle_key(KeyCode::Char('p'), KeyModifiers::control()), CardKeyOutcome::Scrolled);
    assert_eq!(c.scroll_offset, 9);
    assert_eq!(c.handle_key(KeyCode::End, none()), CardKeyOutcome::Scrolled);
    assert_eq!(c.scroll_offset, u16::MAX);
    // Painting pulls the offset back to the last page.
    assert_eq!(c.paragraph_offset(25, 10), 15);
    assert_eq!(c.scroll_offset, 15);
    assert_eq!(c.handle_key(KeyCode::Home, none()), CardKeyOutcome::Scrolled);
    assert_eq!(c.scroll_offset, 0);
    // Keys that are no scroll key pass on.
    assert_eq!(c.handle_key(KeyCode::Char('j'), none()), CardKeyOutcome::Ignore);
}

#[test]
fn card_scroll_keys_are_left_to_a_consuming_script() {
    let mut c = card(
        r#"return { handle_event = function(k)
            if k.code == "Esc" then return { close = true } end
            return nil
        end }"#,
        "picker",
    );
    assert_eq!(c.handle_key(KeyCode::Down, none()), CardKeyOutcome::Consume);
    assert_eq!(c.scroll_offset, 0);
    assert_eq!(c.handle_key(KeyCode::Esc, none()), CardKeyOutcome::Close);
}

#[test]
fn card_list_mode_and_selection() {
    let c = card(
        r#"return {
            items = function() return { "one", { { "two" }, { "2b" } }, "three" } end,
            selected = function() return 2 end,
        }"#,
        "list",
    );
    let items = c.render_items();
    assert_eq!(items.len(), 3);
    assert_eq!(items[1].len(), 2);
    assert_eq!(c.view(items.len()), CardView::List);
    assert_eq!(c.selected_index(items.len()), Some(1));
    assert_eq!(c.selected_index(1), None);
    let empty = card(r#"return { items = function() return {} end }"#, "empty");
    assert_eq!(empty.view(0), CardView::Panel);
    let marker = card(r#"return {}"#, "marker");
    assert_eq!(marker.view(0), CardView::Nothing);
    let zero = card(r#"return { items = function() return {} end, selected = function() return 0 end }"#, "z");
    assert_eq!(zero.selected_index(4), None);
}

// ── palette provider ───────────────────────────────────────────────

#[test]
fn prompt_falls_back_to_colon_when_spec_omits_it() {
    let p = provider("return {}");
    assert_eq!(p.prompt(), ":");
}

#[test]
fn prompt_picks_up_spec_value() {
    let p = provider(r#"return { prompt = "/" }"#);
    assert_eq!(p.prompt(), "/");
}

#[test]
fn palette_provider_submit_mode_defaults_on_each_key() {
    let p = provider("return {}");
    assert_eq!(p.submit_mode(), SubmitMode::OnEachKey);
}

#[test]
fn palette_provider_submit_mode_string_debounced_uses_default_ms() {
    let p = provider(r#"return { submit_mode = "debounced" }"#);
    assert_eq!(p.submit_mode(), SubmitMode::Debounced(400));
}

#[test]
fn palette_provider_submit_mode_table_lets_plugin_pick_ms() {
    let p = provider(r#"return { submit_mode = { kind = "debounced", ms = 250 } }"#);
    assert_eq!(p.submit_mode(), SubmitMode::Debounced(250));
}

#[test]
fn submit_mode_string_on_enter() {
    let p = provider(r#"return { submit_mode = "on_enter" }"#);
    assert_eq!(p.submit_mode(), SubmitMode::OnEnter);
}

#[test]
fn submit_mode_table_on_enter() {
    let p = provider(r#"return { submit_mode = { kind = "on_enter" } }"#);
    assert_eq!(p.submit_mode(), SubmitMode::OnEnter);
}

#[test]
fn palette_provider_items_round_trip_through_lua() {
    let mut p = provider(
        r#"
        local items_list = {}
        return {
            filter = function(q)
                items_list = {}
                if q ~= "" then
                    table.insert(items_list, { label = q .. " a", hint = "ha" })
                    table.insert(items_list, { label = q .. " b", hint = "hb" })
                end
            end,
            items = function() return items_list end,
        }
        "#,
    );
    p.filter("hi");
    assert_eq!(p.items().len(), 2);
    assert_eq!(p.items()[0].label, "hi a");
    assert_eq!(p.items()[1].hint, "hb");
    p.filter("");
    assert!(p.items().is_empty());
}

#[test]
fn palette_provider_execute_close_table_returns_close() {
    let mut p = provider(r#"return { execute = function(_) return { close = true } end }"#);
    assert_eq!(p.execute(0), PaletteAction::Close);
}

#[test]
fn execute_passes_the_one_based_index() {
    let mut p = provider(
        r#"
        local picked = 0
        return {
            execute = function(i) picked = i end,
            is_loading = function() return picked == 3 end,
        }
        "#,
    );
    assert!(!p.is_loading());
    assert_eq!(p.execute(2), PaletteAction::Close);
    assert!(p.is_loading());
}

#[test]
fn cancel_defaults_to_close_when_callback_omitted() {
    let mut p = provider("return {}");
    assert_eq!(p.cancel(), PaletteAction::Close);
}

#[test]
fn cancel_invokes_lua_callback() {
    let mut p = provider(
        r#"
        local cancelled = false
        return {
            cancel = function() cancelled = true end,
            is_loading = function() return cancelled end,
        }
        "#,
    );
    assert!(!p.is_loading());
    let _ = p.cancel();
    assert!(p.is_loading());
}

#[test]
fn palette_provider_is_loading_defaults_false() {
    let p = provider("return {}");
    assert!(!p.is_loading());
}

#[test]
fn is_loading_reads_spec_function() {
    let p = provider(r#"return { is_loading = function() return true end }"#);
    assert!(p.is_loading());
}

// ── close handles ──────────────────────────────────────────────────

#[test]
fn close_flips_flag_idempotent() {
    let flag = CloseFlag::default();
    let h = WindowHandle::new(flag.clone());
    h.close();
    h.close();
    assert!(flag.take());
    assert!(!flag.take());
}

#[test]
fn close_flag_wrapper_polls_close_when_flag_set() {
    let flag = CloseFlag::default();
    let wrapped = CloseFlagWrapper::new("inner", flag.clone());
    assert!(!wrapped.poll_close());
    flag.request();
    assert!(wrapped.poll_close());
    assert!(!wrapped.poll_close());
    assert_eq!(*wrapped.inner(), "inner");
}

#[test]
fn card_handle_close_enqueues_op_close_idempotent() {
    let mut ops = new_ops_buffer();
    let mut ids = CardIdAllocator::new();
    let id = ids.next();
    let h = CardHandle::new(id);
    h.close(&mut ops);
    h.close(&mut ops);
    let drained: Vec<Op> = ops.drain();
    assert_eq!(drained.len(), 2, "two close() calls -> two ops queued");
    for op in drained {
        match op {
            Op::Close(got) => assert_eq!(got, id),
            Op::Push { .. } => panic!("close() must not push"),
        }
    }
    assert!(ops.drain().is_empty());
}

#[test]
fn palette_handle_close_enqueues_op_close_idempotent() {
    let mut ops = new_ops_buffer();
    let mut ids = CardIdAllocator::new();
    let _first = ids.next();
    let id = ids.next();
    assert_eq!(id, CardId(1));
    let h = PaletteHandle::new(id);
    h.close(&mut ops);
    h.close(&mut ops);
    let drained: Vec<Op> = ops.drain();
    assert_eq!(drained.len(), 2);
    for op in drained {
        match op {
            Op::Close(got) => assert_eq!(got, id),
            Op::Push { .. } => panic!("close() must not push"),
        }
    }
}

fn return_action(source: &str) -> KeyAction {
    let lua = Lua::new();
    KeyAction::from_lua_return(eval_value(&lua, source).unwrap())
}

#[test]
fn handler_answers_map_to_actions() {
    assert_eq!(return_action("return nil"), KeyAction::Consume);
    assert_eq!(return_action("return { close = true }"), KeyAction::Close);
    assert_eq!(return_action("return { close = true, ignore = true }"), KeyAction::Close);
    assert_eq!(return_action("return { ignore = true }"), KeyAction::Ignore);
    assert_eq!(return_action("return { ignore = 1 }"), KeyAction::Ignore);
    assert_eq!(return_action("return { close = false, ignore = false }"), KeyAction::Consume);
    assert_eq!(return_action("return {}"), KeyAction::Consume);
    assert_eq!(return_action("return 'yolo'"), KeyAction::Consume);
}

#[test]
fn module_layout_missing_height_takes_the_fallback_height() {
    let (_lua, module) = spec_of(r#"return { layout = { anchor = "right", width = 24 } }"#);
    let layout = LuaLayout::from_module(&module);
    assert_eq!(layout.anchor, PanelAnchor::Right);
    assert_eq!(layout.width, 24);
    assert_eq!(layout.height, Some(10));
}

#[test]
fn card_is_placed_in_the_sidebar_whatever_its_layout() {
    let c = card(r#"return { name = "x", layout = { kind = "modal", anchor = "right" } }"#, "x");
    assert_eq!(c.placement(), Placement::Sidebar);
}

#[test]
fn card_and_palette_open_push_under_fresh_ids() {
    let mut ops = new_ops_buffer();
    let mut ids = CardIdAllocator::new();
    let (_lua, card_spec) = spec_of(r#"return { name = "ISS" }"#);
    let card = open_card(card_spec, "iss", &mut ops, &mut ids);
    let (_lua2, palette_spec) = spec_of(r#"return { prompt = "find: " }"#);
    let palette = open_palette(palette_spec, "search", &mut ops, &mut ids);
    assert_eq!(card.id, CardId(0));
    assert_eq!(palette.id, CardId(1));
    card.close(&mut ops);
    let drained = ops.drain();
    assert_eq!(drained.len(), 3);
    match &drained[0] {
        Op::Push { id, component: Pushed::Card(c) } => {
            assert_eq!(*id, CardId(0));
            assert_eq!(c.name(), "ISS");
        },
        _ => panic!("first op should push the card"),
    }
    match &drained[1] {
        Op::Push { id, component: Pushed::Palette(p) } => {
            assert_eq!(*id, CardId(1));
            assert_eq!(p.prompt(), "find: ");
        },
        _ => panic!("second op should push the palette"),
    }
    assert!(matches!(drained[2], Op::Close(CardId(0))));
}
