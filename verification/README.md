# blockmatrix

The IPC layer of the HyperMesh node daemon — the JSON-RPC protocol, request
dispatch with capability checks, the method handlers' decisions and
replies, configuration, the REST routing of the dashboard API — and the
bookkeeping of its intelligence layer (health board, workflows, validation,
latency and throughput windows, trust bands, path policy).

- `src/` is the library, written in Verus: its functions carry contracts
  over mathematical models (`JsonModel`, `Seq`, `Map`, integers) and is
  proved. Laws that relate several operations are public proof functions
  named `law_*`. Calls into outside crates (base64, hex, sha2, blake3,
  chrono, uuid, x509-parser) sit behind small trusted wrappers whose doc
  comments say what they claim.
- `app/` is the unverified shell: sockets, files, the environment, clocks,
  serde conversions, floating-point rates, and the wiring of handlers.
- `tests/` runs the library on concrete inputs.
