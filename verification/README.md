# agentos_actor

Request validation, configuration bookkeeping and protocol rules of the hosted
agentOS actor and its native plugin, written in Verus and proved against their
contracts.

- `src/` is the verified library:
  - `error`, `text`, `strmap`: the error type with stable public codes, text
    helpers, and an insertion-ordered string map with distinct keys.
  - `contract`: the public action contract: bounds of every action input,
    configuration normalization, JSON merge patches, CBOR action inputs, the
    action and event schema, and public error classification.
  - `actor`: the actor's own rules: configuration revisions, the runtime state
    machine, software installation plans, cron jobs, previews, the durable
    store's rows and the VM SQLite callback.
  - `plugin`: the plugin's action surface and argument checks, pending
    permission requests, health buffers, session remaps, the event loop's
    routing and shutdown bookkeeping.
  - `protocol`, `sidecar`, `uds`: the ACP session bookkeeping and the framing
    rules of the actor SQLite socket.
- `app/` holds what stays outside the proofs: serde and CBOR conversion, socket
  I/O and the shared buffers behind locks.
- `tests/` exercises the library on concrete values.
