# calendario_app

The verified core of a desktop agenda that shows the user's Google Calendar,
works offline from a local cache, and can sit behind the desktop icons on
Windows, with a small supervisor that relaunches it after a crash.

- `src/` — the library, verified with Verus: the event model and its JSON
  (request bodies, reading API answers), OAuth helpers (PKCE, callback
  handling, client id and token choices), the synchronisation driver
  (incremental and full-window listings), write requests and the offline
  queue, window geometry, the wallpaper-mode decisions, the supervisor's
  restart policy and the autostart `Run` value. Each public function states
  its result in `ensures`; the proof functions state the laws that span calls.
- `tests/` — tests on concrete values.
- `app/` — the program around the library: the supervisor binary, the SQLite
  store, keyring and token files, HTTP calls, the loopback OAuth listener,
  `config.json`, and the serde forms of the library's types.
