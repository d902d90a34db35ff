# codex_rs

Verified core logic of the Codex client, written in Verus.

- `src/thread_items.rs`: synthetic thread items (file changes, command
  executions, and the command item shown while the guardian assesses an action).
- `src/realtime_webrtc.rs`: setting up a realtime WebRTC call: the session's
  model, the realtime calls URL (path rewriting on top of the `url` crate), the
  request headers (`src/headers.rs`), and what the server's answer means.
- `src/directory_prompt.rs`: the directory prompt's state machine (suggestion
  refresh, selection, keys, paste, cancellation), its screen layout, and the
  filtering and ordering of directory suggestions.
- `src/status_words.rs`: the status words and how one is picked.
- `src/version.rs`: the whole client version string.
- `src/text.rs`, `src/paths.rs`: string operations stated over characters, and
  paths carried as opaque values.

`app/` holds what Verus does not check: the HTTP exchange, terminal input and
drawing, filesystem listing and the build-time version components. `tests/`
exercises the library.
