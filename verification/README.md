# fieldsync

The domain logic of an offline-first field-data application: users, workshops and
their participants, strategic goals, and the change log that synchronises them with a
server. Verus verifies all of `src/`: its functions state in contracts what they
compute, save where the result comes from the clock or a random generator.

## Layout

- `src/` — the verified library.
  - `sync_types`, `sync_records`, `sync_config`, `sync_service`, `sync_utils`,
    `cloud_storage`, `entity_merger`: change-log entries, batches, tombstones and
    settings; how stored rows are read; how remote changes are routed, merged and
    applied in batches; retry and checksum rules of the cloud exchange.
  - `user`, `user_store`, `user_sync`, `user_service`: users, the plans of their
    creation and field-by-field updates, last-write-wins merging of remote changes.
  - `workshop`, `workshop_participant`, `workshop_service`, `workshop_stats`:
    workshops, their budgets and links to participants, merging, statistics.
  - `strategic_goal`, `goal_update`, `doc_fields`: strategic goals, their updates and
    which fields accept documents.
  - `amount`, `clock`, `ident`, `json`, `text`, `records`, `validation`, `errors`:
    decimal amounts, instants, UUIDs, JSON values, strings, row reading, validation
    rules and the error types.
  Calls into `uuid`, `chrono`, `rust_decimal`, `serde_json`, `sha2` and `hex` stand
  behind small trusted wrappers whose contracts are stated in their doc comments.
- `tests/` — tests of the library on concrete values.
- `app/` — the SQLite repositories, the HTTP client and the serde data-transfer types
  around the library; it holds the I/O and the floating-point figures.
