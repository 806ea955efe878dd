# cargo-nuttx

A Cargo subcommand that builds a Rust crate against Apache NuttX: it writes an
application shim into the NuttX apps tree, configures the board, builds the crate as
a static library with `-Zbuild-std`, links it into NuttX and copies the firmware to
`<target>/nuttx/<board>/<release|debug>/`.

Layout:

- `src/` — the verified library (Verus):
  - `text.rs`: decimal rendering, splitting at a separator, joining, with the
    join-of-split law;
  - `casing.rs`, `paths.rs`: the calls into `convert_case`, `camino` and `std::path`;
  - `cli.rs`: the NuttX location and the `cargo nuttx` argument convention;
  - `metadata.rs`: the `[package.metadata.nuttx]` table and what is derived from it;
  - `cargo.rs`: package and target selection, the `cargo build` invocation and the
    choice of the produced static library;
  - `shim.rs`: the `Kconfig`, `Make.defs`, `Makefile` and configuration texts, for the
    converted crate names and for the crate name, with the laws that every option read
    is declared and that fragments stay whole lines;
  - `nuttx.rs`: download addresses and location, and the ordered steps that prepare and
    finish the NuttX build;
  - `fs_model.rs`: what those steps do to the files of a NuttX root, and the law that a
    rebuild starts from the same configuration.
- `app/` — the command-line program: argument parsing, `cargo metadata`, file system,
  downloads and processes, executing the steps the library plans.
- `tests/` — tests of the library on concrete values.
