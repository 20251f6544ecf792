# gobai

The core of the gobai desktop agent as a library verified with Verus, and the
Tauri application around it.

- `src/` — the library, its functions proved by Verus against their
  contracts, apart from a few small trusted wrappers around std, chrono and
  regex calls, whose contracts are stated from those crates' documentation:
  - `settings`: the settings, their defaults, the semantic checks (every
    broken rule is reported, in order), their messages, the end of the load
    pipeline, and the decisions in finding the settings file (the
    application checks the candidate file's existence).
  - `storage`: the storage layout and the steps that prepare it, as a step
    function from outcome to next action.
  - `state_transition`: the decision inside a task's status change and the
    two writes it makes, with laws over a model of the two tables.
  - `db`: the database status line.
  - `clock`: the RFC 3339 time stamp of a status change.
  - `paths`, `text`: path joining (through `std::path`) and text building.
- `app/` — the application: Tauri commands and startup, figment loading,
  filesystem and SQLite work, serde shapes and `Display` adapters.
- `tests/` — tests of the library.

Floats are held by their IEEE-754 bit patterns inside the library (the cost
warning ratio), so that the range check on them is exact and verified.
