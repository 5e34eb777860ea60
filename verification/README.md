# proof_harness

The proof and debug harness of a desktop shell, verified with Verus.

In proof mode the shell goes straight to one surface and keeps it on the screen, so that screenshots
can be captured automatically. The variable `CODEXBAR_PROOF_MODE` names the surface:

- `trayPanel` shows the tray panel
- `popOut` shows the pop-out dashboard
- `popOut:provider:codex` shows a provider pop-out
- `settings` shows settings on the General tab
- `settings:menuBar` shows settings on the Menu Bar tab

`CODEXBAR_SEED_USAGE_JSON` names a file with one synthetic usage snapshot of the Codex provider.

## Layout

- `src/config.rs` reads the value of the variable and selects the mode and the target
- `src/surface.rs` holds the modes, the targets and the catalog of tabs and providers
- `src/placement.rs` computes where the panel goes
- `src/seed.rs` turns a seed into a snapshot
- `src/laws.rs` states what holds of configurations as a whole
- `src/text.rs` and `src/clock.rs` hold what the rest is built on
- `app/` reads the environment, the seed file and the monitors, and drives the windows

Measured numbers are of a type parameter: the library moves them and leaves arithmetic on them to
functions that `app/` hands in. The tabs and providers that exist are handed in as a `Catalog`.
