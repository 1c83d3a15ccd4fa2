# quarkpad

A game launcher for Linux that runs Windows games through Proton and
umu-launcher. The crate is split in two:

- `src/` is the verified library (Verus). It holds the data model (settings,
  games, playtime), the add/edit form, the game list operations, the banner
  that warns about missing paths, the construction of every command the
  launcher runs (direct, under gamescope, or through `flatpak-spawn` from a
  Flatpak sandbox), the lines of a session's log, and the playtime tracking
  driven by those lines. `laws.rs` proves the properties that tie these
  together.
- `app/` is the GTK4/libadwaita program around it: windows and pages,
  reading and writing the TOML data file, spawning processes and streaming
  their output.

Modules of the library:

| module     | contents |
|------------|----------|
| `text`     | decimal rendering, unsigned parsing, prefix/suffix tests |
| `paths`    | path joining; parent directory and file name of a path |
| `model`    | `Settings`, `Game`, `GamescopeConfig`, `Timestamp`, `AppData` and their views |
| `form`     | the add/edit page's fields and the game they stand for |
| `library`  | saving, storing and removing games; banner warnings; data location |
| `launch`   | game, winecfg and probe commands |
| `session`  | log header, exit report, log line cleaning, playtime tracking |
| `laws`     | cross-function properties |
