# watch_presence

A desktop companion that mirrors what a user is watching on the web into
Discord rich presence. The decisions it takes are verified with Verus:

- `src/settings.rs` — the user's settings, how a stored settings file is
  resolved (missing, current, older layout, unreadable, unparsable), and the
  messages of settings file errors.
- `src/user_store.rs` — the in-memory store of values given this session and
  the rule for which user id is reported.
- `src/watching.rs` — the service's endpoints and how a reply's status is judged.
- `src/presence.rs` — what the presence shows for what is watched, as the
  visibility switches allow.
- `src/rpc_link.rs` — the connection to the local Discord client as a state machine.
- `src/polling.rs` — when the service is asked again.
- `src/decimal.rs`, `src/greeting.rs` — number rendering and the greeting.

`app/` is the Tauri shell: commands, the settings file, HTTP and the Discord
IPC socket. It performs the outside work that the library asks for.
