# dark_privilege_lib

A small Windows information tool (`whoami`, `winver`, `sysinfo`,
`privileges`, `keep-awake`, `paste`) whose decision and decoding logic is a
library verified with Verus.

- `src/` — the verified library:
  - `text.rs`: lossy UTF-16 decoding (as `String::from_utf16_lossy` and
    NUL-terminated wide strings).
  - `privileges.rs`: parsing of the `TOKEN_PRIVILEGES` buffer and of the
    privilege names that `LookupPrivilegeNameW` writes.
  - `window.rs`: the window under the cursor and its title.
  - `version.rs`: the Windows version report.
  - `memory.rs`: memory figures as sizes, through `bytesize`.
  - `identity.rs`: the `whoami` summary and its fallbacks.
  - `command.rs`: the sub-commands and the work each one runs.
- `tests/` — tests of the library.
- `app/` — the program: argument parsing, the Windows and system calls,
  logging and JSON output.
