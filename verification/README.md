# multitool

A Kubernetes controller that rolls out Helm releases as canaries between two
slots (Red and Black), shifts traffic through Gateway API HTTPRoutes, and
promotes or rolls back on the decision of an analysis backend.

## Layout

- `src/` — the verified library. Every decision the controller takes is a
  function here with a `requires`/`ensures` contract proved by Verus:
  slot bookkeeping, status conditions, rollout history, drift detection,
  canary promotion and rollback, cancellation, error handling, deletion
  planning, crash recovery, readiness and propagation checks, route weights,
  events, and the health probe replies. `controller/laws.rs`,
  `controller/rollout_laws.rs` and `controller/resource_laws.rs` hold the
  properties that span several functions, as public proof functions.
- `tests/` — tests of the library on concrete values.
- `app/` — the program around the library: the command line, the custom
  resource as Kubernetes and serde see it (converted to and from the
  library's model), the HTTP clients of the Helm sidecar and the analysis
  backend, and the asynchronous flows that perform I/O and hand the results
  to the library.
