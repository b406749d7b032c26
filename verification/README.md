# build_sbf

The decisions of `cargo-build-sbf`, a command that builds on-chain programs with a toolchain of
their own, written and proved in Verus.

- `src/command_line.rs`, `src/config.rs`: what the options ask for.
- `src/package.rs`, `src/metadata.rs`: the packages that cargo describes, and their programs.
- `src/cargo.rs`: the arguments and the environment that cargo is called with.
- `src/session.rs`: a build as a state machine, which asks for one action at a time.
- `src/report.rs`, `src/text.rs`: what the user is told, and the text that it is made of.
- `src/laws.rs`: what holds of a build as a whole.
- `app/`: the command itself. It parses options, performs the actions and reads their outcome. The
  platform tools are installed, linked and used by the crate `cargo_build_sbf`.
