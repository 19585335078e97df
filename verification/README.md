# favcrm

The FavCRM command-line client, with its core written in Verus.

- `src/` is the verified library: the JSON model (`json`), text helpers
  (`text`), JSON-RPC framing and reply handling for the MCP endpoint
  (`client`), rendering of results (`output`), the mapping of every
  subcommand to its MCP tool call and the post-processing of results
  (`commands`), resolution of the API key and URL (`config`), and the
  decisions of the sidecar token probe (`metadata`).
- `app/` is the program around it: argument parsing, HTTP, the config file,
  environment variables and printing.
- `tests/` exercises the library on concrete values.
