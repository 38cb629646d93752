# sessioncast

The SessionCast agent and command line, with its decisions verified in Verus.

- `src/` is the verified library: relay messages and their encryption
  (`crypto`, `websocket`), the reconnection policy, the per-session streaming
  decisions and the session bookkeeping of the agent (`agent`), tmux command
  construction and output parsing for Unix and itmux (`tmux`), the stored
  configuration (`config`), and the pure parts of the commands (`commands`).
  Calls into outside crates (Base64, AES-GCM, zstd, gzip, SHA-256, hex, url,
  rand) go through small trusted wrappers whose contracts are stated next to
  them.
- `app/` is the `sessioncast` program: argument parsing, the terminal, files,
  processes, HTTP and the WebSocket connection. It asks the library what to
  do and performs it.
- `tests/` exercises the library on concrete values.
