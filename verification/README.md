# ryu-recipes

Recipes are parameterized, replayable desktop automations: recorded once, replayed forever.
This crate is the surface in front of the engine that records and replays them. Its rules are
written in Verus and proved; the process around them is ordinary Rust.

- `src/` is the verified library.
  - `json` holds JSON values, the trees they stand for, and the bridge to `serde_json`.
  - `replay` unwraps tool replies; `recording` reports on recording sessions.
  - `slug` and `draft` turn a task and captured actions into an editable recipe.
  - `catalog` and `sorting` list installed recipes.
  - `api` says what each request is answered, `guard` who is let in.
  - `callback` says how Core is called back, `host` which host is installed.
  - `text` and `error` are what the others share.
- `app/` is the sidecar process: the axum router, the store on disk, the HTTP client.
- `tests/` runs the library.

What the library takes on trust from other crates and the standard library stands in `json`,
`json::codec`, `callback` and `text`, each item with a comment that says what it claims.
