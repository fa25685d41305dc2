# srvcs-percentageof

The percent-of orchestrator: `percent% of whole` is
`floatmultiply(floatdivide(percent, 100), whole)`, computed by two remote
float services.

- `src/` — the verified library: the evaluation as a state machine
  (`evaluate.rs`: which call comes next, how each dependency answer is taken,
  which reply ends it), the replies (`reply.rs`), the service identity
  (`identity.rs`), the settings and their defaults (`config.rs`), the reading of a dependency's `result` (`json.rs`), the
  OpenAPI document (`openapi.rs`) and the laws that hold of the whole
  evaluation (`laws.rs`). Floats are carried as their IEEE-754 bit patterns.
- `app/` — the axum router and handlers, the server start-up from the
  environment, and the HTTP client that perform the calls the
  library decides on.
- `tests/` — scenarios run against computing stand-ins for the dependencies.
