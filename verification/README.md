# iamb

A Matrix client for the terminal, with Vim keybindings. Its decisions are a library that
Verus verifies; the terminal, the screen, the keybindings and the homeserver are driven by a
program around it.

- `src/` is the library. It performs no input or output: each of its machines hands out the
  next thing to do and takes back what came of it. `application.rs` is the run of the client,
  `action.rs` the actions, `redraw.rs`, `setup.rs`, `login.rs` and `startup.rs` the drawing,
  the opening, the login and the stages of the program. `laws.rs` states what holds of every
  run. `outside.rs` holds what is taken on trust from other crates.
- `app/` is the program: it does what the library asks for.
- `tests/` runs the library on concrete values.
