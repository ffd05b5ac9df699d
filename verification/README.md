# ghostlink

The core of the GhostLink anonymous messaging server, written in Verus.

- `src/` is the library. Its own logic is verified against its contracts: the
  wire protocol and the per-account bus subjects, the per-pod connection
  registry, the WebSocket handshake and the routing of direct messages
  (contact check, local delivery, other pods, offline queue and push wakeup),
  the key-bundle lookup (which answers a one-time pre-key only once its
  conditional delete in the store applied, so that of two lookups that found
  the same key at most one hands it out, as long as the store applies
  conditional deletes one at a time), the order of a registration's writes and
  their undoing when one fails, the erasures of an account's deletion across
  the stores, the contact relationships and their store model, the request
  rules, password hashing, the issuing and checking of tokens, the error
  answers of the REST API, the configuration and rate quotas, the cache keys
  and the push payloads. Calls into other crates (uuid, base64, chrono,
  argon2, jsonwebtoken, zeroize, dashmap and a few std functions) go through
  small trusted wrappers whose contracts state what those crates document;
  they are not verified.
- `tests/` runs the library on concrete values.
- `app/` is the server around it: axum routes and middleware, ScyllaDB, Redis,
  NATS and object storage, and the JSON forms of the library's types. It reads
  what a handler needs, calls the library for the decisions, and performs what
  the library planned.
