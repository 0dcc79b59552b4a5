# c9watch

A Verus-verified library for a desktop monitor of coding-assistant sessions.

- `src/` — the verified library: application naming rules per platform
  (`macos`, `windows`, `linux`), launcher choice and process-tree walks
  (`apps`), `wmic` output reading (`windows`), outcomes and messages of the
  session actions (`actions`), the conversation view (`conversation`), and the
  text and number utilities they rest on (`text`, `number`).
- `app/` — the desktop side: runs `ps`, `wmic`, `kill`, `taskkill`,
  `osascript` and PowerShell, checks the file system and environment, and
  feeds the results to the library.
- `tests/` — tests of the library on concrete values.
