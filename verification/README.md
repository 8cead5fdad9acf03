# slave_mcp

An MCP server that gives AI agents access to a human operator: the agent calls
the `ask_human` tool, the question is shown to a human over telnet or a web
page, and the human's typed answer becomes the tool's result.

- `src/` is the verified library (Verus): the one-request slot shared by the
  operator interfaces (`pending`), the request and its answer channel
  (`request`), the telnet dialogue (`telnet`, `text`), the web interface's
  replies (`web`) and the outcome of an `ask_human` call (`mcp`).
- `app/` is the program around it: the async runtime, the MCP, HTTP and
  telnet servers, the locks and notifications that the library's decisions
  ask for, and the serde copies of the library's message types.
- `tests/` exercises the library on concrete values.
