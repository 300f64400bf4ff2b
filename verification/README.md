# server-tui

A library for a Linux server dashboard: diagnostics rules and health, log,
service, process and storage models, key handling, guarded admin actions,
exports, the glossary, configuration and persisted state. Each function in
`src/` carries a contract that Verus proves; the laws the library keeps
(round trips, cycles, the safety guards, the order of sorted listings) are
public proof functions beside the code they speak of.

Layout:

- `src/` — the verified library. `model/` holds the data of each screen,
  `diagnostics/` the rules and the report, `actions/` the guarded signal
  and `systemctl` paths, `app/` the application state machine: the state
  of every screen, `apply_action` (what a key's action does to the state
  and which side effects it asks for), `apply_event` (what finished
  background work, input and resizes change), the action menus, inspectors,
  exports and guards. The contracts of `apply_action` (`action_post`) and
  `apply_event` say what each action and event does, including that a
  read-only session never acts on the system and that signals and unit
  actions ask first with Cancel focused when confirmation is on.
- `app/` — the program around it: argument parsing, files, process
  spawning, the measurements that use floating point, and a line-mode
  session that feeds typed keys to the state machine.
- `tests/` — tests of the library through its public items.
