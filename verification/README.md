# fortitui

A keyboard-driven terminal console for FortiGate firewalls (FortiOS 8.0
monitor API), read-only. The library in `src/` is verified with Verus; the
binary in `app/` does the terminal, file, environment and network work around
it.

## Layout

- `src/json.rs` — JSON documents as plain values; parsing and printing go
  through `serde_json` behind two trusted wrappers.
- `src/fortigate/` — endpoint paths, URL building, what an HTTP response
  means (`parse_response`), and the normalizers from monitor-API documents to
  the models in `src/models/`.
- `src/backend/` — capabilities and the direct backend's decisions (token
  resolution, TLS verification, which document feeds which model).
- `src/config/` — profiles kept by name in ascending order, the
  configuration paths, credentials from the environment, redaction, and the
  answers of `profile add`.
- `src/cli.rs` — the command line, what each command asks for, and the text
  of the non-interactive reports.
- `src/tui/` — the console: key handling and navigation (`app.rs`), the
  in-memory state with its bounded event log and throughput histories
  (`state.rs`), transition detection (`detect.rs`), and what each screen
  shows (`screens/`).
- `src/text.rs`, `src/numfmt.rs` — character-level text helpers, and number
  formatting that reproduces `f64` formatting exactly with integers.
- `app/` — `main`, argument parsing (`clap`), the YAML profiles file, the
  HTTPS client (`reqwest`), the ratatui screens, and the floating-point
  measurements (CPU/memory/disk load, SD-WAN latency, jitter and loss).

Each public function states its result in `ensures`; the laws that relate
functions are public proof functions named `law_*`.
