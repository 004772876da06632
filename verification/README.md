# skills_hub

The core of Skills Hub, a desktop manager for agent skills and prompts,
written in Verus. The functions in `src/` carry contracts that Verus proves,
except the few marked `#[verifier::external_body]`: the calls into SQLite,
SHA-256, UUIDs built from given random bytes, the clock and a few
standard-library string and path functions, whose contracts are taken on trust (and which, where nothing can
be said of the result, state nothing).

- `src/db.rs`: the SQLite database (through `rusqlite`), its schema and the
  clock.
- `src/repositories/`: the `prompts` and `prompt_file_links` tables, and the
  maintenance repository (statistics, upkeep statements, the table browser
  with filtering, sorting and paging, reset).
- `src/services/`: prompts and the files they are linked to (import, refresh,
  write-back with conflict detection by SHA-256 content hash) and the tally of
  a bulk sync.
- `src/commands/`: the decisions behind the desktop commands: database
  overview, maintenance and reset, backup names and timestamps, byte sizes
  for people, import validation, the planning of skill and suite syncs, the
  records of the directories they place, the clearing of a tool's skills,
  the install mode.
- `src/logging.rs`: log levels and the preparation of records from the user
  interface (required fields, long strings cut short, secrets redacted).
- `src/path_safety.rs`: directory names and child paths that stay below
  their base directory.
- `app/`: a command-line program around the library: file I/O, the
  `tracing` subscriber, and JSON output through `serde`.
- `tests/`: tests of the library on concrete values.
