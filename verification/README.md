# loth

An authorization engine that combines ReBAC over SpiceDB with ABAC by Cedar.

- SpiceDB is the structural source of truth: it answers whether a user has a
  permission on a resource.
- Cedar is the contextual filter at the edge: its policies see that answer and
  the attributes of the request (device, address, time, or what an application
  defines), and may deny what SpiceDB allows. They grant nothing that it denies.
- The engine fuses both into one boolean decision. Without policies, or without
  a context, the structural answer is the decision.

## Layout

`src/` holds the rules, verified with Verus. It performs no I/O.

| Module | What it states |
| --- | --- |
| `types` | configuration, errors, contexts |
| `cedar::authorizer` | the calls into Cedar |
| `cedar::abac` | which attributes the policies see, and what they decide |
| `spicedb::client` | the endpoint and the authenticating header |
| `spicedb::messages` | the requests in plain values |
| `spicedb::rebac` | which request each operation sends, and what its reply means |
| `spicedb::schema` | the normal form of a schema, and when a schema is written |
| `replication` | the worker: batches, retries, backoff, failing closed |
| `startup` | the order of steps in which an engine comes to life |
| `engine` | the fused decision, and the refusal while the replication is broken |

`app/` runs the rules: gRPC, files, channels and timers. `tests/` runs them on
concrete values.

The replication writes every change in the order in which it was queued, and
retries a failing batch before it fails closed. It does not survive the end of
the process: for strict replication, pair it with an outbox in the database.
