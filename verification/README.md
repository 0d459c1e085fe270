# lunara

A gamepad-driven launcher for X11 desktops: it lists applications and snippets read from
YAML files under the configuration directory, launches or focuses applications through
the bspwm window manager, shows the volume, battery and network state, and turns gamepad
input into navigation, key presses and mouse movement.

## Layout

- `src/` — the library, verified with Verus:
  - `text.rs`, `order.rs` — string helpers and the stable ordering by id;
  - `models.rs`, `command.rs`, `config.rs` — the data model, commands and configuration;
  - `loader.rs` — configuration paths, `.yml` selection, icon embedding, sorting;
  - `app_manager.rs`, `snippets_manager.rs` — the application and snippet catalogues;
  - `collect.rs` — parsing of the system readings and the status snapshot;
  - `gamepad.rs` — the gamepad handler: stick and D-pad repetition, key bindings;
  - `bspwm.rs` — the launch/focus state machine and the bspwm controller.
- `tests/` — tests of the library.
- `app/` — the program around the library: file and process I/O, the Tauri window,
  the gamepad and input backends.
