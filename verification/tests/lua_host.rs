use mlua::Lua;
use ttymap::frontend::UserIntent;
use ttymap::input::keymap::KeybindingOverrides;
use ttymap::keys::{KeyCode, KeyModifiers};
use ttymap::logging::{LogLevel, level_from_trimmed, parse_level};
use ttymap::lua::api::{
    LuaHostShared as ApiShared, NOTIFY_RING_CAP, NotifyEntry, check_event_name, keybind_char,
    notify_level, palette_command_fields,
};
use ttymap::lua::host::{LuaHost, LuaJob as HostJob};
use ttymap::lua::init::{keymap_del, keymap_set, keys_from_val, keys_to_vec};
use ttymap::lua::map_api::{Anchor, ColorRole, anchor_from_str, color_role, color_role_xterm};
use ttymap::lua::plugins::{PluginCandidate, plugin_stem, register_builtin_plugins, register_plugins_in, sort_candidates};
use ttymap::lua::register::{
    CapturedSummary, PluginKind, check_registration, module_enabled, plan_registration, push_plugin_entry,
};
use ttymap::lua::config::{ConfigFields, field_or_default, read_back};
use ttymap::lua::load::{Registrar, register_one};
use ttymap::lua::registry::LuaEventBus;
use ttymap::lua::runtimepath::{
    RuntimeDirError, RuntimeDirSlot, ensure_runtime_dir_for_tests, resolve_runtime_dir, runtime_dir,
    set_runtime_dir,
};
use ttymap::lua::ttymap::{
    FetchStep, LuaHostShared, LuaJob, after_fetch, cache_is_fresh, fnv1a, http_cache_file_name, http_cache_key,
};
use ttymap::lua::value::{LuaVal, eval_table, eval_value};
use ttymap::map::Action;

// ── runtime directory ──────────────────────────────────────────────

#[test]
fn error_display_lists_candidates() {
    let err = RuntimeDirError { candidates: vec!["/a/b".to_string(), "/c/d".to_string()] };
    let s = err.message();
    assert!(s.contains("/a/b"));
    assert!(s.contains("/c/d"));
    assert!(s.contains("make install"));
}

#[test]
fn runtime_dir_error_message_is_exact() {
    let err = RuntimeDirError { candidates: vec!["/x".to_string()] };
    assert_eq!(
        err.message(),
        "ttymap runtime not found. Tried (in order):\n  - /x\n\nDid you `make install`? See README.md for install instructions."
    );
}

#[test]
fn first_valid_candidate_wins() {
    let r = resolve_runtime_dir(vec![
        ("/env".to_string(), false),
        ("/xdg".to_string(), true),
        ("/dev".to_string(), true),
    ]);
    assert_eq!(r, Ok("/xdg".to_string()));
    let r = resolve_runtime_dir(vec![("/env".to_string(), false), ("/dev".to_string(), false)]);
    assert_eq!(r, Err(RuntimeDirError { candidates: vec!["/env".to_string(), "/dev".to_string()] }));
    assert!(resolve_runtime_dir(Vec::new()).is_err());
}

#[test]
fn runtime_dir_is_set_once() {
    let mut slot = RuntimeDirSlot::new();
    assert_eq!(runtime_dir(&slot), None);
    set_runtime_dir(&mut slot, "/first".to_string());
    set_runtime_dir(&mut slot, "/second".to_string());
    assert_eq!(runtime_dir(&slot), Some("/first"));
    let mut dev = RuntimeDirSlot::new();
    ensure_runtime_dir_for_tests(&mut dev, "/src/ttymap");
    assert_eq!(runtime_dir(&dev), Some("/src/ttymap/runtime"));
}

// ── notifications ──────────────────────────────────────────────────

fn notify(shared: &mut ApiShared, message: &str, level: Option<&str>, at: u64) {
    shared.push_notification(NotifyEntry {
        message: message.to_string(),
        level: notify_level(level.map(|l| l.to_string())),
        posted_at_ms: at,
    });
}

#[test]
fn notify_writes_into_shared_ring_and_recent_filters_by_ttl() {
    let mut shared = ApiShared::new(None, String::new(), Vec::new());
    notify(&mut shared, "ok", None, 1000);
    notify(&mut shared, "watch out", Some("warn"), 1000);
    notify(&mut shared, "boom", Some("error"), 1000);
    assert_eq!(shared.notifications.len(), 3, "three notify calls -> three entries");
    assert_eq!(shared.notifications[0].level, "info");
    assert_eq!(shared.notifications[1].level, "warn");
    assert_eq!(shared.notifications[2].level, "error");
    assert_eq!(shared.notifications[2].message, "boom");
    assert_eq!(shared.recent_notifications(1000, 60000).len(), 3);
    assert_eq!(shared.recent_notifications(1000, 0).len(), 0);
    let aged = shared.recent_notifications(1500, 600);
    assert_eq!(aged[0].age_ms, 500);
    assert_eq!(shared.recent_notifications(2000, 1000).len(), 0);
}

#[test]
fn notify_ring_evicts_oldest_on_overflow() {
    let mut shared = ApiShared::new(None, String::new(), Vec::new());
    for i in 0..(NOTIFY_RING_CAP + 4) {
        notify(&mut shared, &format!("msg-{}", i), None, i as u64);
    }
    assert_eq!(shared.notifications.len(), NOTIFY_RING_CAP, "buffer must cap at {NOTIFY_RING_CAP}");
    assert_eq!(
        shared.notifications.front().expect("non-empty").message,
        format!("msg-{}", 4),
        "first 4 entries should have been evicted"
    );
    assert_eq!(shared.notifications.back().unwrap().message, format!("msg-{}", NOTIFY_RING_CAP + 3));
}

#[test]
fn on_event_rejects_empty_name() {
    assert_eq!(
        check_event_name(""),
        Err("ttymap.on_event: event name must be a non-empty string".to_string())
    );
    assert_eq!(check_event_name("tick"), Ok(()));
}

#[test]
fn registration_arguments_are_checked() {
    assert_eq!(
        palette_command_fields(None, None, true),
        Err("ttymap.register_palette_command: spec.label is required".to_string())
    );
    assert_eq!(
        palette_command_fields(Some("Toggle".to_string()), None, false),
        Err("ttymap.register_palette_command: spec.invoke (a function) is required".to_string())
    );
    assert_eq!(
        palette_command_fields(Some("Toggle".to_string()), None, true),
        Ok(("Toggle".to_string(), String::new()))
    );
    assert_eq!(keybind_char("iz"), Ok('i'));
    assert_eq!(
        keybind_char(""),
        Err("ttymap.register_keybind: key must be a non-empty string".to_string())
    );
    assert_eq!(
        check_registration(false, 0, 0, 0),
        Err("script did not call any ttymap.register_* API (register_plugin, register_palette_command, register_keybind, or register_footer_hint)".to_string())
    );
    assert_eq!(check_registration(false, 0, 1, 0), Ok(()));
    assert_eq!(check_registration(true, 0, 0, 0), Ok(()));
}

// ── host state and fetches ─────────────────────────────────────────

#[test]
fn http_cache_key_is_fnv1a_of_the_url() {
    assert_eq!(fnv1a(b""), 0xcbf29ce484222325);
    assert_eq!(fnv1a(b"a"), 0xaf63dc4c8601ec8c);
    assert_eq!(http_cache_key(""), "cbf29ce484222325");
    assert_eq!(http_cache_key("a"), "af63dc4c8601ec8c");
    assert_eq!(http_cache_file_name("a"), "af63dc4c8601ec8c.txt");
    assert_ne!(http_cache_key("https://a.example/x"), http_cache_key("https://a.example/y"));
    assert_eq!(http_cache_key("https://a.example/x").len(), 16);
}

#[test]
fn fetch_steps_follow_the_cache_policy() {
    assert!(cache_is_fresh(Some(60), Some(10)));
    assert!(!cache_is_fresh(Some(60), Some(60)));
    assert!(!cache_is_fresh(None, Some(0)));
    assert!(!cache_is_fresh(Some(60), None));
    assert_eq!(after_fetch(true, true, true), FetchStep::Deliver { write_cache: true });
    assert_eq!(after_fetch(true, true, false), FetchStep::Deliver { write_cache: false });
    assert_eq!(after_fetch(true, false, true), FetchStep::Nothing);
    assert_eq!(after_fetch(false, true, true), FetchStep::ServeStale);
    assert_eq!(after_fetch(false, true, false), FetchStep::Nothing);
}

#[test]
fn mod_job_try_take_returns_nil_before_send() {
    let (tx, rx) = std::sync::mpsc::channel::<String>();
    let mut job = LuaJob::new(rx);
    assert!(job.try_take().is_none(), "try_take should be nil before send");
    tx.send("hi".to_string()).unwrap();
    assert_eq!(job.try_take().as_deref(), Some("hi"));
    assert!(job.try_take().is_none());
}

#[test]
fn host_job_try_take_returns_nil_before_send() {
    let (tx, rx) = std::sync::mpsc::channel::<String>();
    let mut job = HostJob::new(rx);
    assert!(job.try_take().is_none());
    tx.send("hi".to_string()).unwrap();
    assert_eq!(job.try_take().as_deref(), Some("hi"));
}

#[test]
fn host_userdata_can_be_constructed() {
    let (host, _jump_rx) = LuaHost::<(i32, i32)>::new("lua-test");
    assert_eq!(host.tag, "lua-test");
}

#[test]
fn host_jump_pushes_to_channel() {
    let (host, jump_rx) = LuaHost::<(i64, i64)>::new("lua-test");
    host.jump((1397595, 356828));
    assert_eq!(jump_rx.try_recv().expect("jump must be queued"), (1397595, 356828));
}

#[test]
fn shared_snapshot_collects_plugin_entries() {
    let shared = LuaHostShared::empty();
    assert!(shared.palette_entries.is_empty());
    assert!(shared.attribution.is_none());
    let mut shared = LuaHostShared::new(Some("© OSM".to_string()), "https://geo".to_string(), Vec::new());
    push_plugin_entry(&mut shared, "demo", "d", "Toggle demo", &vec![("Enter".to_string(), "open".to_string())]);
    assert_eq!(shared.palette_entries.len(), 1);
    assert_eq!(shared.palette_entries[0].name, "demo");
    assert_eq!(shared.palette_entries[0].footer_hints[0].1, "open");
    assert_eq!(shared.geoip_endpoint, "https://geo");
}

// ── plugin discovery ───────────────────────────────────────────────

fn flat(stem: &str, dir: &str) -> PluginCandidate {
    PluginCandidate { stem: stem.to_string(), path: format!("{}/{}.lua", dir, stem), dir_form: false }
}

fn nested(stem: &str, dir: &str) -> PluginCandidate {
    PluginCandidate { stem: stem.to_string(), path: format!("{}/{}/init.lua", dir, stem), dir_form: true }
}

fn paths(v: &[PluginCandidate]) -> Vec<String> {
    v.iter().map(|c| c.path.clone()).collect()
}

#[test]
fn dir_discovery_registers_each_lua_file_under_its_stem() {
    let found = vec![flat("second", "/p"), flat("first", "/p")];
    let mut seen = Vec::new();
    let plan = register_plugins_in(found, &mut seen, false, &Vec::new());
    assert_eq!(paths(&plan), vec!["/p/first.lua".to_string(), "/p/second.lua".to_string()]);
    assert!(seen.is_empty());
}

#[test]
fn dir_discovery_skips_non_lua_files() {
    assert_eq!(plugin_stem("ok.lua"), Some("ok".to_string()));
    assert_eq!(plugin_stem("README.md"), None);
    assert_eq!(plugin_stem("ok.lua.bak"), None);
    assert_eq!(plugin_stem(".lua"), None);
    assert_eq!(plugin_stem("a.b.lua"), Some("a.b".to_string()));
    assert_eq!(plugin_stem("x.LUA"), None);
}

#[test]
fn dir_discovery_picks_up_plugin_subdirectory_with_init_lua() {
    let found = vec![nested("biggie", "/p")];
    let mut seen = Vec::new();
    let plan = register_plugins_in(found, &mut seen, false, &Vec::new());
    assert_eq!(paths(&plan), vec!["/p/biggie/init.lua".to_string()]);
}

#[test]
fn dir_discovery_no_op_when_directory_is_missing() {
    let plan = register_builtin_plugins(vec![None], &Vec::new());
    assert!(plan.is_empty());
    let plan = register_builtin_plugins(Vec::new(), &Vec::new());
    assert!(plan.is_empty());
}

#[test]
fn flat_file_sorts_before_directory_of_the_same_stem() {
    let sorted = sort_candidates(vec![nested("wiki", "/p"), flat("alpha", "/p"), flat("wiki", "/p")]);
    assert_eq!(
        paths(&sorted),
        vec!["/p/alpha.lua".to_string(), "/p/wiki.lua".to_string(), "/p/wiki/init.lua".to_string()]
    );
    let mut seen = Vec::new();
    let plan = register_plugins_in(
        vec![nested("wiki", "/p"), flat("wiki", "/p")],
        &mut seen,
        true,
        &Vec::new(),
    );
    assert_eq!(paths(&plan), vec!["/p/wiki.lua".to_string()]);
    assert_eq!(seen, vec!["wiki".to_string()]);
}

#[test]
fn higher_priority_layer_shadows_and_disable_skips() {
    let user = vec![flat("wiki", "/user")];
    let bundled = vec![flat("wiki", "/bundled"), flat("help", "/bundled"), flat("quake", "/bundled")];
    let plan = register_builtin_plugins(
        vec![Some(user), None, Some(bundled)],
        &vec!["quake".to_string()],
    );
    assert_eq!(paths(&plan), vec!["/user/wiki.lua".to_string(), "/bundled/help.lua".to_string()]);
}

#[test]
fn enabled_false_surfaces_through_module_enabled() {
    let lua = Lua::new();
    let disabled = eval_table(&lua, r#"return { name = "x", enabled = false }"#).unwrap();
    assert!(!module_enabled(&disabled));
    let enabled = eval_table(&lua, r#"return { name = "x", enabled = true }"#).unwrap();
    assert!(module_enabled(&enabled));
    let silent = eval_table(&lua, r#"return { name = "x" }"#).unwrap();
    assert!(module_enabled(&silent));
    let odd = eval_table(&lua, r#"return { enabled = 0 }"#).unwrap();
    assert!(module_enabled(&odd));
}

fn summary(kind: PluginKind, enabled: bool) -> CapturedSummary {
    CapturedSummary {
        kind,
        enabled,
        keybinds: vec!['d'],
        palette_labels: vec!["Toggle demo".to_string()],
        explicit_footer_hints: Vec::new(),
        module_footer_hints: vec![
            ("Enter".to_string(), "open".to_string()),
            ("Esc".to_string(), "close".to_string()),
        ],
        valid: true,
    }
}

#[test]
fn registering_a_plugin_publishes_metadata_with_footer_hints() {
    let plan = plan_registration("demo", &summary(PluginKind::Plugin, true)).expect("loads");
    let demo = plan.help_entry.expect("has a keybind, so a help row");
    assert_eq!(demo.name, "demo");
    assert_eq!(demo.key, "d");
    assert_eq!(demo.label, "Toggle demo");
    assert_eq!(demo.footer_hints.len(), 2);
    assert_eq!(demo.footer_hints[0], ("Enter".into(), "open".into()));
    assert_eq!(demo.footer_hints[1], ("Esc".into(), "close".into()));
    assert_eq!(plan.activations, vec![(KeyCode::Char('d'), KeyModifiers::none())]);
    assert_eq!(plan.palette_labels, vec!["Toggle demo".to_string()]);
}

#[test]
fn dir_discovery_honours_module_enabled_false() {
    assert!(plan_registration("beta", &summary(PluginKind::Plugin, false)).is_none());
    assert!(plan_registration("alpha", &summary(PluginKind::Plugin, true)).is_some());
    // A pure-action plugin has no module to disable it.
    let mut pure = summary(PluginKind::PureAction, false);
    pure.explicit_footer_hints = Vec::new();
    let plan = plan_registration("export", &pure).expect("pure-action plugins load");
    assert!(plan.help_entry.unwrap().footer_hints.is_empty());
}

#[test]
fn explicit_footer_hints_win_and_label_falls_back_to_name() {
    let mut s = summary(PluginKind::Palette, true);
    s.explicit_footer_hints = vec![("q".to_string(), "quit".to_string())];
    s.palette_labels = Vec::new();
    let plan = plan_registration("search", &s).unwrap();
    let e = plan.help_entry.unwrap();
    assert_eq!(e.label, "search");
    assert_eq!(e.footer_hints, vec![("q".to_string(), "quit".to_string())]);
    s.keybinds = Vec::new();
    assert!(plan_registration("search", &s).unwrap().help_entry.is_none());
    s.valid = false;
    assert!(plan_registration("search", &s).is_none());
}

// ── init.lua keymap ────────────────────────────────────────────────

#[test]
fn keymap_set_with_string_records_single_binding() {
    let keys = keys_from_val(LuaVal::Str(Some("i".to_string()))).unwrap();
    let mut o: KeybindingOverrides = Vec::new();
    keymap_set(&mut o, "zoom_in".to_string(), keys);
    assert_eq!(o, vec![("zoom_in".to_string(), vec!["i".to_string()])]);
}

#[test]
fn keymap_set_with_table_records_array() {
    let lua = Lua::new();
    let v = eval_value(&lua, r#"return { "i", "+", 5 }"#).unwrap();
    let keys = keys_to_vec(v).unwrap();
    assert_eq!(keys, vec!["i".to_string(), "+".to_string(), "5".to_string()]);
    let mut o: KeybindingOverrides = vec![("zoom_in".to_string(), vec!["a".to_string()])];
    keymap_set(&mut o, "zoom_in".to_string(), keys);
    assert_eq!(o.len(), 1);
    assert_eq!(o[0].1.len(), 3);
}

#[test]
fn keymap_del_removes_a_set() {
    let mut o: KeybindingOverrides = Vec::new();
    keymap_set(&mut o, "pan_left".to_string(), vec!["y".to_string()]);
    keymap_set(&mut o, "quit".to_string(), vec!["Q".to_string()]);
    keymap_del(&mut o, "pan_left");
    assert_eq!(o, vec![("quit".to_string(), vec!["Q".to_string()])]);
}

#[test]
fn keys_of_the_wrong_type_are_an_error() {
    assert_eq!(
        keys_from_val(LuaVal::Boolean(true)),
        Err("ttymap.keymap.set expected string or array of strings, got Boolean(true)".to_string())
    );
    assert!(keys_from_val(LuaVal::Nil).is_err());
    assert!(keys_from_val(LuaVal::Str(None)).is_err());
}

// ── event bus ──────────────────────────────────────────────────────

#[test]
fn event_bus_counts_per_event() {
    let mut bus: LuaEventBus<&str> = LuaEventBus::new();
    assert!(bus.is_empty());
    bus.subscribe("tick", "a");
    bus.subscribe("frame_ready", "b");
    bus.subscribe("tick", "c");
    assert_eq!(bus.len(), 3);
    assert_eq!(bus.count("tick"), 2);
    assert_eq!(bus.count("frame_ready"), 1);
    assert_eq!(bus.count("resized"), 0);
    assert!(!bus.is_empty());
    assert_eq!(bus.subscribers("tick"), Some(&vec!["a", "c"]));
    assert_eq!(bus.subscribers("resized"), None);
}

// ── map drawing keywords ───────────────────────────────────────────

#[test]
fn anchors_and_colours_resolve() {
    assert_eq!(anchor_from_str("top-right"), Anchor::TopRight);
    assert_eq!(anchor_from_str("bottomleft"), Anchor::BottomLeft);
    assert_eq!(anchor_from_str("bottom-right"), Anchor::BottomRight);
    assert_eq!(anchor_from_str("Top-Right"), Anchor::TopLeft);
    assert_eq!(color_role(Some("accent_alt")), ColorRole::AccentAlt);
    assert_eq!(color_role(Some("muted")), ColorRole::Muted);
    assert_eq!(color_role(Some("road")), ColorRole::Accent);
    assert_eq!(color_role(None), ColorRole::Accent);
}

#[test]
fn polyline_road_keyword_resolves_to_road_motorway() {
    assert_eq!(color_role_xterm(Some("road")), ColorRole::Road);
}

#[test]
fn polyline_unknown_color_falls_back_to_accent() {
    assert_eq!(color_role_xterm(Some("chartreuse")), ColorRole::Accent);
    assert_eq!(color_role_xterm(Some("muted")), ColorRole::Muted);
}

// ── logging ────────────────────────────────────────────────────────

#[test]
fn log_levels_parse_case_insensitively() {
    assert_eq!(parse_level("debug"), LogLevel::Debug);
    assert_eq!(parse_level(" TRACE \n"), LogLevel::Trace);
    assert_eq!(parse_level("Off"), LogLevel::Off);
    assert_eq!(parse_level("warn"), LogLevel::Warn);
    assert_eq!(parse_level("loud"), LogLevel::Debug);
    assert_eq!(level_from_trimmed("Error"), LogLevel::Error);
    assert_eq!(level_from_trimmed(" info"), LogLevel::Debug);
}

#[test]
fn unused_intent_is_not_a_map_action() {
    assert_ne!(UserIntent::ExportFrame, UserIntent::MapAction(Action::Quit));
}

#[test]
fn dir_discovery_module_enabled_true_is_explicit_default() {
    let lua = Lua::new();
    let explicit = eval_table(&lua, r#"return { name = "explicit", enabled = true }"#).unwrap();
    let mut s = summary(PluginKind::Plugin, module_enabled(&explicit));
    assert!(plan_registration("explicit", &s).is_some());
    let omitted = eval_table(&lua, r#"return { name = "explicit" }"#).unwrap();
    s.enabled = module_enabled(&omitted);
    assert!(plan_registration("explicit", &s).is_some());
}

#[test]
fn dir_discovery_skips_broken_lua_but_keeps_going() {
    // The walk selects every file; a script that fails to build is
    // then skipped on its own, and the others still load.
    let mut seen = Vec::new();
    let plan = register_plugins_in(vec![flat("good", "/p"), flat("broken", "/p")], &mut seen, false, &Vec::new());
    assert_eq!(paths(&plan), vec!["/p/broken.lua".to_string(), "/p/good.lua".to_string()]);
    let mut broken = summary(PluginKind::Plugin, true);
    broken.valid = false;
    assert!(plan_registration("broken", &broken).is_none());
    assert!(plan_registration("good", &summary(PluginKind::Plugin, true)).is_some());
}

#[test]
fn parse_level_trims_unicode_whitespace() {
    assert_eq!(parse_level("\u{3000}info\u{a0}"), LogLevel::Info);
    assert_eq!(parse_level("\u{2003}\t error"), LogLevel::Error);
}

#[test]
fn keys_array_skips_entries_that_are_not_strings() {
    let lua = Lua::new();
    let v = eval_value(&lua, r#"return { "j", {}, "k", true }"#).unwrap();
    assert_eq!(keys_to_vec(v).unwrap(), vec!["j".to_string(), "k".to_string()]);
}

#[test]
fn event_bus_keeps_registration_order_per_event() {
    let mut bus: LuaEventBus<u32> = LuaEventBus::new();
    bus.subscribe("tick", 1);
    bus.subscribe("tick", 2);
    bus.subscribe("other", 9);
    bus.subscribe("tick", 3);
    assert_eq!(bus.subscribers("tick"), Some(&vec![1, 2, 3]));
    assert_eq!(bus.subscribers("other"), Some(&vec![9]));
    assert_eq!(bus.len(), 4);
}

#[test]
fn dispatch_continues_after_a_subscriber_errors() {
    let lua = Lua::new();
    lua.load(
        r#"
        good_calls = 0
        function bang() error("boom") end
        function good() good_calls = good_calls + 1 end
        "#,
    )
    .exec()
    .expect("lua exec");
    let bang: mlua::Function = lua.globals().get("bang").expect("get bang");
    let good: mlua::Function = lua.globals().get("good").expect("get good");
    let mut bus: LuaEventBus<mlua::Function> = LuaEventBus::new();
    bus.subscribe("tick", bang);
    bus.subscribe("tick", good.clone());
    bus.subscribe("other", good);
    let answers = bus.dispatch("tick", |f: &mlua::Function| f.call::<()>(()).is_ok());
    assert_eq!(answers, vec![false, true]);
    let n: i64 = lua.globals().get("good_calls").expect("read good");
    assert_eq!(n, 1, "broken upstream subscriber should not stop downstream subscribers");
    assert_eq!(bus.dispatch("resized", |_f: &mlua::Function| true), Vec::<bool>::new());
}

#[test]
fn register_one_wires_keybinds_palette_rows_and_help() {
    let mut shared = LuaHostShared::new(None, String::new(), Vec::new());
    let mut reg = Registrar::new();
    let src = r#"
        ttymap.register_keybind("w", function() end)
        ttymap.register_palette_command({ label = "Wiki lookup", invoke = function() end })
        ttymap.on_event("tick", function() end)
    "#;
    assert_eq!(register_one("wiki", src, &mut shared, &mut reg), Ok(()));
    assert_eq!(reg.activations.len(), 1);
    assert_eq!(reg.activations[0].plugin, "wiki");
    assert_eq!(reg.activations[0].code, KeyCode::Char('w'));
    assert_eq!(reg.activations[0].modifiers, KeyModifiers::none());
    assert_eq!(reg.palette_rows.len(), 1);
    assert_eq!(reg.palette_rows[0].label, "Wiki lookup");
    assert_eq!(reg.palette_rows[0].hint, "");
    assert_eq!(reg.subscribers.len(), 1);
    assert_eq!(reg.subscribers[0].event_name, "tick");
    assert_eq!(shared.palette_entries.len(), 1);
    assert_eq!(shared.palette_entries[0].name, "wiki");
    assert_eq!(shared.palette_entries[0].key, "w");
    assert_eq!(shared.palette_entries[0].label, "Wiki lookup");
}

#[test]
fn register_one_without_a_keybind_adds_no_help_row() {
    let mut shared = LuaHostShared::new(None, String::new(), Vec::new());
    let mut reg = Registrar::new();
    let src = r#"ttymap.register_palette_command({ label = "Export", hint = "png", invoke = function() end })"#;
    assert_eq!(register_one("export", src, &mut shared, &mut reg), Ok(()));
    assert_eq!(reg.palette_rows.len(), 1);
    assert_eq!(reg.palette_rows[0].hint, "png");
    assert!(reg.activations.is_empty());
    assert!(shared.palette_entries.is_empty());
}

#[test]
fn register_one_errors_leave_the_host_unchanged() {
    let mut shared = LuaHostShared::new(None, String::new(), Vec::new());
    let mut reg = Registrar::new();
    let nothing = register_one("noop", "local x = 1", &mut shared, &mut reg);
    assert_eq!(
        nothing,
        Err("script did not call any ttymap.register_* API (register_plugin, register_palette_command, register_keybind, or register_footer_hint)".to_string())
    );
    let empty_key = register_one("bad", r#"ttymap.register_keybind("", function() end)"#, &mut shared, &mut reg);
    assert!(empty_key.unwrap_err().contains("ttymap.register_keybind: key must be a non-empty string"));
    let no_label = register_one("bad", r#"ttymap.register_palette_command({ invoke = function() end })"#, &mut shared, &mut reg);
    assert!(no_label.unwrap_err().contains("spec.label is required"));
    let broken = register_one("broken", "error('boom')", &mut shared, &mut reg);
    assert!(broken.unwrap_err().contains("boom"));
    assert!(reg.activations.is_empty() && reg.palette_rows.is_empty() && reg.subscribers.is_empty());
    assert!(shared.palette_entries.is_empty());
}

fn config_defaults() -> ConfigFields {
    ConfigFields {
        style: "dark".to_string(),
        language: "en".to_string(),
        cache_tiles: true,
        memory_tiles: 256,
        geoip_on_startup: false,
        geoip_endpoint: "https://default".to_string(),
        geoip_timeout_ms: 1500,
    }
}

#[test]
fn read_back_keeps_defaults_for_options_the_script_left_alone() {
    let lua = Lua::new();
    lua.load(
        r#"ttymap = { opt = {
            render = { style = "light" },
            cache = { memory_tiles = 64 },
            geoip = { endpoint = "https://geo", on_startup = true },
        } }"#,
    )
    .exec()
    .unwrap();
    let c = read_back(&lua, config_defaults()).unwrap();
    assert_eq!(c.style, "light");
    assert_eq!(c.language, "en");
    // `cache` is a table, so `tiles` reads as a boolean: nil is false.
    assert!(!c.cache_tiles);
    assert_eq!(c.memory_tiles, 64);
    assert!(c.geoip_on_startup);
    assert_eq!(c.geoip_endpoint, "https://geo");
    assert_eq!(c.geoip_timeout_ms, 1500);
}

#[test]
fn read_back_with_empty_opt_is_the_defaults() {
    let lua = Lua::new();
    lua.load("ttymap = { opt = {} }").exec().unwrap();
    assert_eq!(read_back(&lua, config_defaults()), Ok(config_defaults()));
    let bare = Lua::new();
    assert!(read_back(&bare, config_defaults()).is_err());
    assert_eq!(field_or_default(Some(3), 7), 3);
    assert_eq!(field_or_default(None, 7), 7);
}

#[test]
fn register_one_takes_on_tick_as_a_tick_subscription() {
    let mut shared = LuaHostShared::new(None, String::new(), Vec::new());
    let mut reg = Registrar::new();
    let src = r#"
        ttymap.register_keybind("n", function() end)
        ttymap.api.frame.on_tick(function(map) end)
        ttymap.on_event("frame_ready", function() end)
    "#;
    assert_eq!(register_one("notify", src, &mut shared, &mut reg), Ok(()));
    let names: Vec<&str> = reg.subscribers.iter().map(|s| s.event_name.as_str()).collect();
    assert_eq!(names, vec!["tick", "frame_ready"]);
    assert!(reg.subscribers.iter().all(|s| s.plugin == "notify"));
}
