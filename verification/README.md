# remux_sync

Synchronisation logic of a media server, verified with Verus: dynamic regex
rules that are pulled from remote sources and cached, and an integration with
Simkl (scrobbling, signing in from a device, taking over playback sessions).

- `src/` is the verified library. Every decision is a pure function or a step on
  an explicit state; requests to send, rows to store and messages to show are
  values that it returns.
- `app/` is the server around it: HTTP, the settings table, files, background
  tasks, routes, and floating-point arithmetic.
- `tests/` run the library on concrete values.

Outside crates are called through a few trusted items: regular expressions and
their errors (`patterns`), JSON (`json`), UUIDs (`ids`), dates (`time`), status
lines and URL encoding (`http`), and text functions of std (`text`). Each says
in its comment what is taken on trust.
