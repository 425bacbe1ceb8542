# midenscan_indexer

An indexer for the Miden blockchain: it fetches each new block from a Miden node and stores
its accounts, account updates, vault assets, storage slots and maps, transactions, notes,
note tags and nullifiers in PostgreSQL, serves `/health` and `/metrics`, and can backfill
the code commitments of accounts indexed before they were recorded.

## Layout

- `src/` — the verified library (Verus). It turns the plain values read from a block into
  the database rows, decodes named storage slots, orders events by internal time,
  canonicalizes procedure digests and script roots, builds the configuration from the
  settings, and makes the decisions of the indexing loop, the backfill and the HTTP
  endpoints. Every public function carries a contract; the laws that relate several
  functions are public proof functions next to them.
- `tests/` — tests of the library on concrete values.
- `app/` — the program around the library: reading the environment, the Miden node RPC
  client, the conversion of the node's block types into the library's plain values,
  PostgreSQL access, the Prometheus registry and the HTTP server.
