# rust_mcp_sdk

A Model Context Protocol (MCP) SDK whose protocol layer is verified with
Verus.

- `src/` is the verified library: JSON-RPC 2.0 messages and how they are
  written and read as JSON (`protocol`, `types`, `json`, `fields`), message
  framing for the line and length-prefixed transports (`transport`),
  pagination cursors and pages (`pagination`), the decisions of a client
  (`client`), of a server session (`server`) and of the HTTP front end
  (`http`), the runtime part of declared tools (`declaration`), error
  descriptions (`error`) and decimal numbers in messages (`decimal`).
  The calls into serde_json, base64, uuid and bytes stand behind small
  trusted wrappers whose contracts say what those crates document.
- `app/` is the asynchronous runtime around it: the stdio and TCP
  transports, the client, the server with its handler registries, sessions
  and HTTP/SSE endpoints (tokio, axum, dashmap), and serde copies of the
  payload types.
- `tests/` runs the library on concrete values.
