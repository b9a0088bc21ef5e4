# tjxy_db

The rules of the media server's database layer as a verified library: what a stored row
must hold, how a request is checked, how a guarded write is decided, and how states move
from one to the next. Every function in `src/` states its result in its contract and is
proved by Verus (what rests on a freshly drawn random id is stated only up to that id); laws that relate several functions stand as public proof functions next
to them.

- `src/` — the verified library, one module per repository of the server.
- `tests/` — tests of the library on concrete values.
- `app/` — the `sea_orm` shell around it: repositories that read rows, call the library
  and write back (for announcements, assets and their storage roots, sessions, AI
  settings and conversations, cache invalidation and the filesystem index), error types
  with their messages, and the records that carry floating-point values.

Outside crates are called only behind small trusted wrappers whose contracts are stated
in their doc comments: `sha2` (SHA-256), `uuid` (name-based and random ids, parsing),
`chrono` (calendar days and instants) and `serde_json` (serializing JSON values).
