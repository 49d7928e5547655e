# codenotch usage adapters

What the usage cells of the Codenotch HUD show for four AI providers
(DeepSeek, MiniMax, Meta Muse, OpenCode Go), as a library verified with Verus.

- `src/` — the verified library: the snapshot model (`usage`), the refresh
  flag (`refresh`), text helpers (`text`), a JSON document model (`json`),
  API-key lookup (`credentials`) and one module per provider that turns a
  reply, a failure or the local configuration into a snapshot.
- `app/` — the desktop side: environment, files, HTTP requests, saved
  readings and the polling threads. It converts the services' decimal
  numbers into the library's fixed-point millionths.
- `tests/` — tests of the library on concrete values.
