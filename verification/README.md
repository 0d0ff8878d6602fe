# simetry (iRacing telemetry client)

`src/` is the verified library:

- `utils` — Windows-1252 decoding of NUL-terminated text.
- `iracing::header` — the shared-memory header read from a byte snapshot,
  and the regions (telemetry rows, session info, variable descriptors) it
  points at.
- `iracing::var_header` — the variable descriptors.
- `iracing::session_info` — the session-info sections, their blank defaults,
  and the choice between a single document and a list of them.
- `iracing::client` — the client's decisions: accepting a header when
  connecting, choosing the newest telemetry buffer on each poll, judging the
  connection, the retry after an empty poll, and the session-info cache.

`app/` holds the Windows handles, the waits on the data-valid event, the
async client loop, and the serde/YAML reading of the session info.
