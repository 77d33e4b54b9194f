# orchestrator_studio

The decision logic of a desktop studio that operates local inference nodes
(services, agents, models, SSH approval, launch of an inference unit) and of
its observability stack (event types and ids, event sink buffering and
queries, trace and QoS collectors, latency/cost/error trackers), written in
Verus. The functions in `src/` carry `requires`/`ensures` contracts that
Verus proves, except for a few small trusted wrappers around `std` and
outside crates (clock reads, string pushes and lowercasing, SHA-256,
DashMap), whose contracts restate what those libraries document and are
believed, not proved. The two functions that only read the clock
(`now_ns`, `LatencySpan::finish`) promise nothing about the reading; the
conversion they apply to it (`nanos_or_zero`, `truncated_ns`) is verified.

Layout:

- `src/` — the verified library. Each module models its data with spec
  functions and views; the laws of the library (round trips of wire names,
  orderings kept, well-formedness kept by every operation, what a failed
  request leaves behind) are public proof functions next to the code they
  speak of. Calls into `sha2`, `dashmap`, `ahash` and `serde_json` go through
  small trusted wrappers whose contracts state what those crates document.
- `tests/` — executable tests of the library on concrete values.
- `app/` — the unverified shell: the `eframe`/`egui` window, HTTP clients
  (`reqwest`), JSON wire types (`serde`), file I/O and background threads.
  It hands the library plain values and performs the actions the library
  decides.
