# rust_rclone

Download-on-demand rclone HTTP sidecar for offline Rust desktop apps, with its decisions
verified by Verus.

rclone is never bundled. The engine downloads a version-pinned binary, checks its SHA-256,
places it in the app-data directory, runs `rclone rcd` on a loopback port and talks to it
over the rc HTTP API.

- `src/` is the verified library. It decides and does not act: what touches disk, network
  and processes is handed out as an action, and what came of it is taken in as an event.
- `app/` is the async engine that performs the actions.
- `tests/` runs the library on concrete values.

| module | what it holds |
| --- | --- |
| `engine` | the engine: its state, its daemon, and the start of a daemon |
| `provision` | a run of provisioning: download, verify, unpack, place, mark |
| `archive`, `digest` | the release archive and its checksum |
| `lifecycle` | how the daemon is spawned, asked for its health and stopped |
| `client`, `wire`, `filter` | the requests of the rc API |
| `job`, `notice`, `path` | waiting for a job, and the conflicts that it reports |
| `config`, `state`, `error`, `text`, `time` | what the others are made of |
