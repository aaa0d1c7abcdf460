# opencode_desktop

The verified core of the OpenCode desktop shell.

- `src/` is the library, verified with Verus: file layout below the home
  directory (`paths`), the configuration and updater commands as machines from
  stage and reply to next request (`flows`), the chrono-formatted backup name
  (`stamp`), the quoting of a reported path (`pathtext`), the bounded server log (`logs`), port selection (`ports`), the
  pseudo-terminal table (`pty`), the sidecar's launch description and child
  slot (`sidecar`), start-up supervision (`supervisor`), and text helpers
  (`text`).
- `app/` is the Tauri shell around it: commands, file and process I/O, the
  window, and the loops that perform what the library's machines ask for.
- `tests/` exercise the library on concrete values.
