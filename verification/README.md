# codex_anthropic

Anthropic Messages API support for Codex, written in Verus.

`src/` is the verified library:

- `text` — character-level text operations (equality, prefix stripping,
  splitting at a separator, trimming of Unicode white space) with exact
  specifications and their laws.
- `protocol` — the conversation items, response events, token usage and
  stream errors that the rest reads and writes, with their views.
- `messages` — the Messages API request format, the conversion of a
  conversation history into system prompt and messages, and the request
  body; `history_laws` proves what the conversion keeps.
- `sse` — the decoder of the response event stream, as a step function from
  state and parsed event to next state, emitted events and whether the
  stream is finished; `sse_laws` proves what holds over runs of events.
- `headers`, `auth` — HTTP headers through the `http` crate, the request
  identifier of a response, and the `x-api-key` authentication.
- `json` — JSON reading through `serde_json`.
- `catalog`, `provider` — model catalog entries and the provider's
  capabilities, account state and choice of credentials.
- `otel` — the disabled OpenTelemetry layer.

`app/` holds what runs around it: the serde forms of requests and events,
the task that reads an event stream and sends what the decoder emits, the
environment lookup of the API key, and the tracing layers.
