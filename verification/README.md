# ttymap

The input and plugin-runtime logic of ttymap, a terminal map viewer,
written in Verus. The library's logic is verified against its
contracts; the calls into `mlua`, `log` and the standard library that
Verus cannot read go through small trusted wrappers (marked
`#[verifier::external_body]`, mostly in `src/lua/value.rs`), whose
contracts say only what the outside code's source shows. Where a result
depends on what a Lua script does or returns, the contract states what
holds whatever it returned.

## Layout

- `src/keys.rs`, `src/map.rs`, `src/frontend.rs`, `src/app_msg.rs`,
  `src/command.rs` — the command vocabulary: key codes and modifier sets,
  map actions, user intents and application messages.
- `src/input/` — key-binding parsing and the keymap (`keymap.rs`), the
  staged keyboard router with its `gg` sequence (`keyboard.rs`), and the
  mouse adapter (`mouse.rs`).
- `src/keymap.rs` — the single-table keymap with reserved mode keys.
- `src/lua/` — the Lua plugin bridge:
  - `runtimepath.rs` — choosing the runtime directory;
  - `plugins.rs` — which plugin files load, in which order (with the
    laws of the selection);
  - `register.rs` — how a registered plugin is wired; `load.rs` —
    running a plugin script to capture its registrations, and wiring
    them into the host;
  - `config.rs` — reading back the options `init.lua` set;
  - `bridge/` — parsers for what scripts hand back, the window, card
    and palette adapters, and the close handles;
  - `api/`, `ttymap.rs`, `host.rs` — host state behind the `ttymap`
    global: notification ring, help metadata, fetch cache keys;
  - `registry.rs` — the event bus; `init.rs` — `init.lua` keymap calls;
  - `value.rs` — the bridge's view of Lua values, through `mlua`.
- `src/logging.rs` — log level selection.
- `app/` — the program: command line, logging to a file, filesystem and
  environment probing, `init.lua`, and the terminal loop.
- `tests/` — tests run against the compiled library.
