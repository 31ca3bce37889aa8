# rhizo_crypt_core

Core of a content-addressed DAG engine, written in Verus. Verus proves every function
in `src/` against its contract. Implementations of traits (`==`, `<`, validation sinks)
take their contract from the trait, the `Clone` impls of resolution routes have none,
and the trusted items in `src/outside.rs` are believed, not proved.

- `src/types.rs` — vertex, session and slice identifiers, payload references, DIDs,
  signatures, timestamps.
- `src/store.rs` — storage health and statistics; the in-memory content-addressed
  payload store (read after write, delete, stored sizes).
- `src/dag_keys.rs` — byte layout shared by the persistent DAG stores: vertex keys,
  session key ranges, packed vertex-ID sets and the frontier rule.
- `src/transport/` — transport endpoints, socket paths, family identifiers, the BTSP
  environment guard and the per-platform transport choice. Environment values are
  passed in.
- `src/slice.rs`, `src/validation.rs`, `src/chaos.rs`, `src/ecosystem/` — slices and
  their builder, the validation harness, chaos runs, and types shared with capability
  providers.
- `src/text.rs` — verified text helpers (decimal and hex rendering, parsing, trimming,
  path joining).
- `src/outside.rs` — the calls into `blake3`, `uuid`, `getrandom`, `hashbrown`, std's
  clock and stderr, each with the contract it is trusted to meet.

`app/` holds what touches the operating system: reading the environment, sockets and
JSON-RPC over them (mesh event polling, gossip announcements), filesystem links and
permissions, and the figures that need floating point. `tests/` exercises the library.
