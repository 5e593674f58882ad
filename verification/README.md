# pitwall

Telemetry capture, import and integrity checking for racing-simulator
sessions, with the logic verified by Verus.

- `src/` is the verified library: the capture engine's decisions (frame
  pacing, downsampling, flushing, connection handling), the ring buffer, gap
  detection, the reconnection and session state machines, capture errors and
  their IPC form, the simulator's binary telemetry format and the decoding of live frames from
  its shared memory, session metadata
  from its session info text, import bookkeeping, the session store's
  queries, updates, soft delete and restore, integrity checks (lap-distance
  monotonicity, channel ranges, lap times, thresholds, checksums), lap
  boundaries, brake application counting, and the grouping of samples into
  zones and laps into stints. Floating-point samples reach it as their
  IEEE-754 bit patterns, ordered as `<` on `f64` orders them.
- `app/` holds what runs around it: SQLite through `sqlx`, Parquet files
  through `arrow`/`parquet`, the capture and monitoring threads, JSON, and
  the analyses that need floating-point arithmetic (sums, averages,
  differences, lap times from seconds).
- `tests/` exercises the library.
