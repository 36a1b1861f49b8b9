# tokocrypto_cli

A command-line client for the Tokocrypto exchange whose core is verified with
Verus.

- `src/` is the verified library: request signing (HMAC-SHA256 through the
  `hmac`, `sha2` and `hex` crates), the request each command sends and the
  output it makes of the response, symbol-type detection and the stream URLs,
  the table layout of output and its JSON envelope, the decisions of the
  WebSocket receive loop and of the interactive shell, the MCP tool registry
  and the command lines that tool calls become, and the exchange adapter's
  pure parts. `src/laws.rs` holds properties that relate several operations.
- `app/` is the program around it: clap parsing, the HTTP client, the
  configuration file, terminal drawing, the WebSocket and shell loops, the MCP
  server and the asynchronous exchange adapter.
- `tests/` exercises the library on concrete values.
