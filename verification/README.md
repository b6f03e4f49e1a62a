# diom

The decision logic of the Diom server and of its Kubernetes operator, written in Verus
and proved against its contracts.

- `src/` is the verified library:
  - `bootstrap/`: the bootstrap script (parsing, the default namespaces it ensures);
  - `cfg/`: configuration values, JWT keys and their environment overrides, memory
    sizes, peer addresses, and the commented TOML of settings;
  - `operator/`: the operator's view of a cluster: labels, services, the StatefulSet
    and its volumes, PVC expansion, conditions and status;
  - `cluster/`: the replicated core: log cache, flushing, snapshots and their
    streaming, background jobs, discovery, membership, node addresses, endpoints;
  - `auth.rs`, `jwt.rs`, `uid.rs`, `http.rs`, `metrics.rs`, `telemetry.rs`: request
    authentication, JWT verification, identifier checks, and the values recorded for
    requests.
- Calls into outside crates (`serde_json`, `sysinfo`, `sha2`, `hex`, `jsonwebtoken`,
  `toml`, `addr`, `url`, `regex`) go through small trusted wrappers whose contracts are
  documented where they stand.
- `tests/` runs the library on concrete values.
- `app/` is the command-line program around the library: reading files and the
  environment, printing, and serde copies of the library's types.
