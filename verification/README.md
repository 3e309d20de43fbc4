# clippy_core

The verified core of the Clippy clipboard manager.

- `src/` is the library, proved with Verus: encryption of stored clipboard
  entries (`encrypt`, over the `ring` primitives in `crypto`), export of
  clipboard images as PNG (`export`, with `decimal` for the file name),
  window placement and toggling (`window`), reading the X11 font resolution
  from `xrdb` output (`xrdb`), paging of the history (`paging`) and the
  settings table's column types, boolean and position defaults and the check
  on its position column (`settings`). The table's other defaults and range
  checks depend on constants this crate does not hold.
- `app/` holds what the library leaves to its host: the process-wide key,
  database and window access behind small traits, file output, the `xrdb`
  subprocess and the floating-point window geometry.
- `tests/` runs the library on concrete inputs.
