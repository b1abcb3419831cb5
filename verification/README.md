# anthropic_compatible

An Anthropic-compatible ingress for an inference gateway. Clients of Anthropic's
API send `POST /v1/messages`; the gateway turns the request into a request to its
inference engine, and the answer into a response or a stream of server-sent events.

The library in `src/` holds the rules, with contracts that Verus proves:

- `json`, `reader`, `text_reader`: JSON values, and reading records out of them and out
  of their text
- `types::block_reader`, `types::request_reader`, `types::metadata_reader`: requests
- `types::translate`, `types::into_params`: from a request to the engine's request
- `types::response`: from the engine's answer to a response
- `types::streaming`, `types::stream_state`, `types::stream_adapter`, `types::sse`:
  from the engine's chunks to server-sent events
- `types::translate_laws`, `types::stream_laws`, `types::wire_laws`: what holds of
  every translation, of every stream, and of what is written and read back
- `handler`, `count_tokens`, `routes`: the decisions of the handlers
- `error`: errors and their shape on the wire
- `inference`, `provider`: the types of the engine and of the provider
- `outside`: the calls into serde, serde_json, url, mime and uuid

`app/` puts the library behind axum. It needs a `Gateway`: the engine, the
configuration and an HTTP client.
