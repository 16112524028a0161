# fusionserve_gateway

A unified inference gateway in front of Triton (image classification,
embeddings) and Dynamo (LLM chat) backends: configuration-driven routing by
workload, admission control with bounded queues, a per-model circuit breaker,
backend health tracking with an admin kill-switch, deadlines, retries and a
stable error model.

The library under `src/` holds every decision the gateway makes, written in
Verus with `requires`/`ensures` contracts:

- `admission/` — the circuit breaker (closed → open → half-open) and the
  bounded admission accounting, each stated as a step function on an abstract
  view, with their invariants and laws as proof functions.
- `routing/` — the model registry (per-model runtime state, per-endpoint
  health), workload classification, the admission/retry/accounting policy and
  health-probe addressing.
- `api/` — request-id and deadline resolution and the checks each HTTP
  endpoint runs before admission (chat, inference, embeddings, model
  discovery, admin toggles, readiness).
- `config.rs`, `error.rs`, `clients/` — configuration values and validation,
  the error codes and their HTTP statuses, backend addressing and failure
  classification.
- `clock.rs`, `json.rs`, `text.rs` — the clock and JSON access (behind small
  trusted wrappers) and verified text helpers.

`app/` is the server binary: YAML loading, the axum router and handlers,
permits and waiting, upstream HTTP calls, Prometheus metrics, logging and the
health-poll loop. It hands the library plain values and acts on what comes
back. `tests/` exercises the library on concrete scenarios.
