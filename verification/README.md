# apalis-surrealdb

A task queue storage on SurrealDB for apalis workers, written in Verus.

The library in `src/` decides what is asked of the database and what becomes of
the answers. The requests are plain values; `app/` performs them over a live
connection and offers the storage as an apalis backend.

| Module | What it holds |
|--------|---------------|
| `storage` | the storage: constructors, change of codec, heartbeat, layers, polls |
| `setup` | how the database is prepared, step by step |
| `poll` | how a worker registers and then fetches tasks |
| `task` | tasks, and what decoding makes of them |
| `heartbeat` | the reports of a worker, and the tasks taken back from silent ones |
| `config` | the settings of a queue |
| `sink`, `fetcher`, `ack` | where tasks are written, how they are fetched, the layers round them |
| `foreign` | what is taken from outside crates, and what is believed of it |

A storage is generic in its connection, which it shares and never looks into. The
statements that a deployment runs against its tables are supplied to `app/` as an
implementation of `Queries`.
