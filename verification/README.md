# pd2lcp

A launcher for Project Diablo 2 on Linux (through its own Wine installation)
and in externally managed Windows environments.

- `src/` is the verified library: the launcher's screens and their state
  machine, the layout of its directories, the commands it runs, the parsers
  of the published game-file list, of filter listings and of the registry
  output that says where the base game was installed, the settings and their
  on-disk form, checksums, and the event queue between background work and
  the interface.
- `app/` is the program around it: the `iced` window, downloads, file-system
  work, running processes, and reading and writing JSON and TOML.
- `tests/` runs the library on concrete values.

Dependencies: `winreg` serves only the Windows code of `app/` and does not
build on other systems. `wayland-sys` is named only to switch on its `dlopen`
feature, so that the Wayland support of the file dialogs (`rfd`) loads the
system Wayland library at run time instead of needing it at build time.
