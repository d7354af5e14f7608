# fff-server

Typed HTTP access to the `fff` file-search engine, with its rules proved.

`src/` is the library: what a request means, which engine call it becomes, and what the typed
reply says. Verus proves its functions against their contracts.

| Module | What it holds |
|---|---|
| `config`, `clock` | Settings, and the rescan and idle intervals derived from measured cost |
| `error` | Every failure, and the problem document it becomes |
| `paths` | Validation, presentation and identity of roots |
| `query` | Raw and structured queries, and warnings about globs that are none |
| `engine` | Plain records for what the engine takes and returns, and the calls into it that need no index |
| `dto` | Wire types: files, scores, locations, cursors, constraints, workspaces |
| `workspace`, `workspace::pool` | Readiness, the pool of live workspaces, eviction and rescans |
| `routes` | The handlers, in two halves round the engine's own work |
| `text`, `number`, `utf16` | Strings as sequences of characters, numbers as text, UTF-8 offsets as UTF-16 offsets |

Where the library calls the engine, the query parser or the standard library, the call stands
behind a small function or declaration whose doc comment says what is believed of it, or that
nothing is.

`app/` is the program round the library: configuration layers, sockets, locks, the filesystem, the
engine's handles, and the JSON shapes on the wire. It is not verified.

`tests/` runs the library with the real engine crates linked.
