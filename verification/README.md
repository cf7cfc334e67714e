# qxchat

The verified core of the QxChat desktop client's native side.

- `src/tor/` — the Tor run-state machine (start/stop/toggle, port conflicts,
  engine reports, status snapshots, boot marker, geo cache), the SOCKS5
  server handshake, the circuit display, the relay directory records, port
  probing and the readers of `fuser`/`lsof`/`netstat` output, and the
  geolocation providers with IP masking. `src/tor/history.rs` states what
  holds over any sequence of commands and engine reports (the SOCKS port
  follows the latest start; a stop holds until the next start).
- `src/json.rs`, `src/text.rs` — the JSON value the parsers read and the
  character-level helpers they use.
- `src/permissions.rs`, `src/screen_audio.rs`, `src/tray.rs` — desktop
  permission reports, audio rates/formats/PCM decoding, tray commands.
- `app/` — the I/O around it: HTTP (reqwest), the tokio SOCKS5 listener,
  files, processes, serialisable copies of the types, the floating-point
  audio path, and a windowless shell (`app/headless.rs`).

Verify with `verus`; the contracts are stated over the `View`s of the types.
