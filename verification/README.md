# dsh_desktop

The desktop client of `dsh web`: a Tauri shell that starts the `dsh web`
server as a child process, supervises it (crash restarts with a doubling
back-off, a crash limit, clean shutdown), shows its UI in the main window and
keeps a tray status line.

The decisions of the client are a Verus-verified library; the Tauri
application around it performs the I/O.

## Layout

- `src/` — the verified library
  - `server.rs` — the supervisor: its transition table, the effects it asks
    the host to carry out, and the laws of the restart cycle
  - `launch.rs` — the child's command line, working directory and the home
    directories
  - `runtime.rs` — choosing the node binary and the dsh script
  - `probe.rs` — the URL line of the child, URL ports, the health probe
  - `logbuf.rs` — the bounded, time-stamped log buffer
  - `profile.rs` — the web profile's `package.json` (the bundled plugin in
    `dsh.profile.bundles`)
  - `theme.rs` — the UI theme preference from dsh's `settings.yaml`
  - `shell.rs` — navigation rules of the windows and the tray text
  - `settings.rs`, `tray.rs`, `text.rs` — settings, tray status, text helpers
- `app/` — the Tauri application: windows, tray, threads, processes, files
- `tests/` — tests of the library
