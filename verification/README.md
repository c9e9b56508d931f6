# bdk_sqlite

A wallet database on SQLite, with its logic verified by Verus.

The store keeps a wallet's scripts and their derivation paths, its outputs,
its transactions and their details, the last derivation index of each
keychain, the descriptor checksums and the sync time.

## Layout

- `src/` is the verified library.
  - `types.rs`: the wallet's records, with scripts, transaction ids and
    transactions held as bytes.
  - `codec.rs`: how keychains, transaction ids and transactions are written
    into the store and read back.
  - `sql.rs`: the statements the store issues; `rows.rs`: the rows its
    queries give, the replies to its statements, and how a row reads as a
    record.
  - `request.rs`, `protocol.rs`, `machine.rs`: the operations of the store and
    the protocol each follows, stated (`protocol.rs`) and carried out
    (`machine.rs`): which statement comes next, and what the operation
    answers once the replies are in.
  - `schema.rs`: the schema statements, the reading of the recorded schema
    version, and the protocol of a migration.
  - `model.rs`: what each statement does to the tables; `laws/`: the laws of
    the store, proved against that model.
  - `external.rs`: the calls into `serde_json` and `bitcoin`, and the outside
    types the library carries, with the contracts it relies on.
- `app/` runs the protocol against a SQLite connection (`rusqlite`), and
  offers the store with bitcoin types (`SqliteDatabase`).
- `tests/` exercises the library, among others against an in-memory SQLite
  database.
