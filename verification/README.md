# tokenapi

An off-chain metadata server for the Cardano token registry (CIP-26): the
registry's JSON files are read into memory and served by subject.

- `src/` is the verified library. `json.rs` models a metadata document;
  `server/registry.rs` holds the registry and loads the parsed files;
  `server/api.rs` gives the reply of each endpoint; `server/laws.rs` proves
  properties that span endpoints and reloads; `api.rs` is the first version
  of the endpoints.
- `app/` is the HTTP server (actix-web): it reads the registry directory,
  holds the state behind a lock, and turns replies into HTTP responses.
