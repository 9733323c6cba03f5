# limes

A Linux input method switcher over D-Bus (`get`, `set`, `list`, `toggle`) for
the Fcitx5, Fcitx5 Rime and IBus frameworks.

- `src/` is the verified library. `cli.rs` turns the parts of a command line
  into a request; `session.rs` is the request's state machine: it decides
  which D-Bus operation comes next, which requests are refused and when, and
  what each answer means for the user (`session_laws.rs` holds its proved
  properties); `engine_desc.rs` reads engine names out of IBus engine
  descriptions; `input_method.rs` formats Fcitx5 input methods; `error.rs`
  words every error.
- `app/` is the program: argument parsing with clap, shell completions, and a
  loop that performs on the session or IBus bus each operation that a session
  asks for and hands the reply back.
