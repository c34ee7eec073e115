# resident

A verified core for a set of small desktop and WebAssembly programs: a
resident tray program with a local HTTP settings server, a Windows tray
program with a counter service, a web-view program, and several
WebAssembly guest modules.

- `src/` is the library, checked with Verus: the JSON model, its reading
  and writing and the transformation behind the settings page (`json`); the
  tray program's events, menu, log layout, background worker, icon
  decoding and server pages (`tray`); the counter service and its "Add"
  job (`tide_tray`); the guest modules' computations (`wasm`); the web-view
  protocol and event loop (`webview`); and text helpers (`text`).
- `app/` holds the programs' shells: event loops, windows and tray icons,
  the HTTP servers, host calls and memory access of the guests.  They
  perform what the library decides.  The tray program is the default
  build; `--cfg program="webview"` and `--cfg program="windows_tray"` build
  the other two, and `--cfg guest="<name>"` exports one guest module.
- `tests/` runs the library on concrete values.
