# spendguard

Budget enforcement for metered AI agents. Each agent has a monthly budget in
cents; every proxied request is judged before it is forwarded (allow, allow
with a warning, or block) and settled afterwards, when the upstream runtime
reports what it charged. Workflows can carry a kill switch that blocks an
agent's requests once its projected spend reaches a share of its budget.

Layout:

- `src/` — the verified library (Verus): agents and charge decisions
  (`agent.rs`), workflow kill switches (`workflow.rs`), verdicts
  (`budget.rs`), request ledgers and their summaries (`request_log.rs`), the
  steps around a proxied request (`proxy.rs`), and the laws that relate them
  (`laws.rs`). `ident.rs` and `clock.rs` hold the trusted wrappers around the
  `uuid` and `chrono` crates.
- `app/` — the HTTP service: axum handlers, Postgres storage through sqlx,
  the runtime client, and serialisable copies of the library's types.
  Percentages reported in JSON are floating point and computed there.
- `tests/` — tests of the library.

Shares of a budget are exact in the library: thresholds are held in basis
points (hundredths of a percent) and compared with the spend by integer
arithmetic.
