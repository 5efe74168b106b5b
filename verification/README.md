# opencodedeck

A desktop companion for the opencode server and its IM bridge: it keeps a
list of opencode servers, starts and stops them and the bridge, shows their
state in a tray menu, collects their output, spots the WeChat login QR code
the bridge prints, and writes the bridge's settings files.

## Layout

- `src/` — the library, verified with Verus. It holds the configuration
  model (defaults, migration of the older single-server layout, what to do
  with what is found on disk), the rendering of the bridge's `.env` and
  `opencode-im.jsonc`, the log history, the QR-code recognizer, the process
  lifecycle (`ProcessRecord`), the commands that start each process, the
  parsing of `lsof` output and the steps of ending a process by signals,
  the tray menu, and the text handling these rely on. Each public function
  states its result in `ensures`; the `law_*` proof functions state what
  holds across calls.
- `app/` — the code around the library: file and network I/O, child
  processes and signals, the health-check loop, and the commands the user
  interface calls.
- `tests/` — tests of the library on concrete values.
