# rust_api

A small web API server (trending lists, weather, digests, website metadata, images
and more) whose request logic is a library verified with Verus.

- `src/` is the verified library. Each endpoint has a module under `src/api/` that
  turns the data fetched from other services into the endpoint's JSON answer, with
  contracts over a JSON model (`src/json.rs`). `src/text.rs` holds the character-level
  text operations, `src/html.rs` the reads made with `scraper`, `src/response.rs` the
  uniform answer and error mapping, `src/config.rs` the settings, and `src/state.rs`
  the connection addresses and the cache-aside decisions.
- `app/` is the server around it: configuration from the environment, logging, the
  HTTP client, the PostgreSQL and Redis pools, and the axum routes. It performs the
  requests and hands their results to the library.
- `tests/` exercises the library on concrete values.
