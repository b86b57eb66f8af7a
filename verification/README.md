# oxidegate

The decision-making core of an LLM inference gateway, verified with Verus.

- `src/` is the library: error classification (`error`), backend reply
  screening (`backend`), the batching scheduler's state machine with its
  admission and reply rules (`scheduler`), start-up settings (`config`), the
  first-chunk watch of streamed replies (`stream`), the request counter's
  labels (`report`), the load generator's statistics (`stats`) and the reply
  shapes (`types`).
- `app/` is the gateway program around it: the axum server, the tokio
  scheduler task that runs the library's `Batcher`, the backend client,
  metrics, and the load generator's settings.
- `tests/` runs the library on concrete values.
