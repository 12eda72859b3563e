# window_context

The decisions of a terminal emulator's window that holds several tabs, verified
with Verus.

- `src/` is the library. `context` holds the window, `model` says what each
  operation makes of it, and `laws` proves what holds across operations. `tab`,
  `terminal`, `config`, `event` and `setup` hold the values that the window works
  on. `ref_test` and `decimal` produce the files that record a terminal.
- `app/` runs the library against real terminals, displays and files.
- `tests/` runs the library on concrete windows.

The library calls alacritty_terminal and serde_json through a few functions whose
contracts are trusted. Each of them says in its documentation which function it
calls and what is claimed of it.
