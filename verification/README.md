# opendog

The decision logic of the opendog MCP server, verified with Verus: what the
repository state, the verification evidence and the storage of a project
say about the next safe step for a coding agent.

- `src/json.rs`: a JSON value with a mathematical view, and its read/write laws.
- `src/repo_risk/`: `git status --porcelain` parsing, changed-directory ranking,
  lockfile/manifest mismatches, the risk snapshot and its sorted findings.
- `src/recommendation/`: action eligibility, review scoring, reasons and
  confidence, the recommendation builders, review focus, execution sequences,
  and the precedence that selects one recommendation for a project and
  builds its payload.
- `src/guidance.rs`: the workspace observations, review candidates and
  path-filter notes of the stats and unused-file guidance.
- `src/strategy.rs`: the workspace strategy and the agent's recommended flow.
- `src/storage/`: storage pressure, the retention cleanup plan, and the
  maintenance command templates.
- `src/resources.rs`, `src/review_candidates.rs`, `src/server.rs` (the
  controller is reached only through an exclusive borrow of the server).
- `app/`: process and file I/O (`git`), serde conversion, float ratios and
  the rmcp resource types.
