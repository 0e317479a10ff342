# deepseek_sdk

A client for the DeepSeek API (chat completions, beta prefix completions, FIM
completions, model list, account balance), split in two crates:

- `src/` — the library, verified with Verus: request and response models, the request
  builders and their validation rules (sampling parameters are carried as IEEE-754 bit
  patterns and range-checked on those), the error model and its messages, the decisions
  taken on an HTTP response, and the state machine that consumes a server-sent event
  stream.
- `app/` — the I/O layer: serde copies of the models, the HTTP calls through `reqwest`,
  the event-stream pump on `tokio`, the blocking stream adapters, and the
  `DeepSeekRequest`, `BalanceApi` and `ModelsApi` traits.
- `tests/` — tests of the library.
