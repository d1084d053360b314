# nexis

Verified logic of three NexisOS programs, written in Verus:

- `src/init` — the PID 1 service manager: service declarations and how
  files of them layer, the service state machine, restart decisions, pidfd
  token bookkeeping, sd_notify messages, cgroup limits, signal and event
  dispatch.
- `src/guard` — the security front end: `guard.toml` defaults, alert
  normalization for Tetragon, Suricata and ClamAV (fields read from the
  decoded events, which the alerts keep as their details), scan reports, the
  Suricata YAML and Tetragon policies it generates, backend launch plans.
- `src/pm` — the declarative package manager: content addresses (BLAKE3),
  the store layout, generations, configuration layering, dependency order
  (petgraph), version requests.
- `src/text.rs`, `src/keyed.rs` — strings, numbers, lines and paths, and
  tables keyed by name, shared by the three.

Every public function states its result in `ensures`; the cross-function
properties stand as `law_*` proof functions next to the code they concern.
Calls into BLAKE3, petgraph, num_cpus and std's UTF-8 decoding go through
small wrappers whose contracts are the only trusted statements.

`app/` holds the programs around the library: the PID 1 event loop (mio,
pidfds, signals), the `nexis-guard` command line (clap, tokio, serde; it decodes each
event line into the library's `JsonValue`), and a
`nexispm` command line (toml, redb). `tests/` exercises the library.
