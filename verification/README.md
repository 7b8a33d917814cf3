# slight

A headless host that lets remote clients drive ACP coding agents through a
WebSocket gateway, with its core written in Verus and proved against its
contracts.

- `src/` is the verified library: agent kinds and adapter configuration,
  ACP framing and JSON-RPC classification, the normalization of agent
  updates into session events, session records and their bounded journals,
  the gateway's frames, authorization and connection decisions, device
  pairing, routing of gateway commands, the command line's parsing and
  printing, and the session store's in-memory model. Laws that span several
  functions are public proof functions next to the code they speak of.
  Parsing JSON is left to `serde_json`: a frame's classification is proved
  over what the parse finds (whether the text is JSON, whether it holds an
  object, and the members that tell a frame apart), each a named result of
  the parse, and opaque JSON values are carried through, not inspected.
- `tests/` runs the library on concrete values.
- `app/` is the program around it: the command line's `main`, the WebSocket
  server and client, agent processes over standard input and output, the
  SQLite store and the host log. It calls the library for the decisions it
  acts on; the order of an agent probe (spawn, initialize, open a session)
  is its own, with each outcome built by the library. The host registers
  the OpenCode and Codex adapters; the third adapter's configuration is in
  `src/`, its launch resolution is not part of this crate.
