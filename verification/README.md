# gha-github-service-proof

A GitHub Actions service/API compatibility oracle for offline CI. It classifies
REST calls, `gh` CLI invocations and `curl` requests found in workflows, OIDC
token issuance and captured `gh-log` bundles as `exact`, `simulated` or
`unsupported`, checks that the resolved `permissions:` cover each call, and
renders text, JSON or Markdown receipts.

## Layout

- `src/` — the library, written in Verus. Every function carries a
  `requires`/`ensures` contract over a mathematical model (`Seq`, views of the
  report types), and the properties that span functions are stated and proved
  as `law_*` proof functions.
  - `catalog.rs` — the endpoint catalog, path templates and lookup.
  - `permissions.rs` — `permissions:` blocks (YAML and JSON), resolution, sufficiency.
  - `call.rs` — classification of one call.
  - `workflow.rs` — detection of API usage in workflow steps and scanning of a workflow document.
  - `gh_log.rs` — validation and replay of captured call bundles.
  - `oidc.rs` — stub-local HS256 tokens and their local verification.
  - `json.rs` — compact JSON text and key-ordered JSON objects.
  - `engine.rs` — receipts, one per command.
  - `render.rs` — text and Markdown renderings.
  - `model.rs`, `value.rs`, `text.rs` — the data model, plain JSON/YAML values, string operations.
- `app/` — the command-line program: argument parsing, file reading, YAML/JSON
  parsing into the library's value types, JSON receipt output.
- `tests/` — tests of the library.
