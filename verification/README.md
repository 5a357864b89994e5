# snop_cockpit_be

The S&OP Cockpit's own-database service: planning parameters (service level, MOQ, order
type, EOQ costs), the stocking-policy cells with their planner overrides and audit log, the
durable job schedule, and the demand-side write store (planning cycles, rep sales forecasts,
DSP consensus picks and freezing).

## Layout

- `src/` — the verified library (Verus).
  - `module/schedule.rs` — the job schedule as a state machine: when a job may be claimed, and
    what a claim, a completion, a failure and a reschedule do to its row; lease exclusivity,
    cadence and retry laws.
  - `module/cycle.rs` — cycle defaults and the freeze checks (status gate, target months,
    consensus coverage with the missing months sorted).
  - `module/stocking.rs` — override fields, their validation and normalization, change-log
    values, and the reconciliation plan of a full refresh.
  - `module/{sales_forecast,consensus,leadtime,config,snapshot}.rs` — open-cycle writes,
    frozen picks, lead-time legs, request bodies.
  - `api/` — the response envelope and the request checks and replies of the endpoints.
  - `text.rs` — string helpers (trim, ASCII lower-casing, lexicographic order, join).
- `tests/` — tests of the library.
- `app/` — the actix-web server: routes, SQL over MariaDB (sqlx), the connection pool,
  tracing, and the serde copies of the library's request and reply types.
