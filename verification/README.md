# soulboard

The match state behind a Splatoon broadcast dashboard, verified with Verus.

- `src/` — the library: the state and its model (`model`), what each control
  does to it (`controls`), the dashboard update with the outside work it asks
  for (`board`), team names (`teams`), whitespace trimming (`text`), the
  payload sent to overlay clients (`payload`), and properties of the whole
  (`laws`).
- `app/` — the desktop program around it: the iced window, the asset and state
  files, and the HTTP/WebSocket bridge on `127.0.0.1:7878`.
- `tests/` — tests of the library on concrete values.
