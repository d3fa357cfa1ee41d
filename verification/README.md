# specs_v

A service that keeps projects and their specifications — one spec per project and tag
(`architecture`, `business`, `qa`, `security`) — in SQLite, and offers them over an HTTP API
and as MCP tools.

## Layout

- `src/` — the library, verified with Verus.
  - `tag.rs` — spec tags: canonical names, case-insensitive parsing, round-trip laws.
  - `text.rs` — blank-text check (Unicode `White_Space`), hexadecimal formatting.
  - `json.rs` — JSON documents in `serde_json::Value`, read through a mathematical model.
  - `content.rs` — the spec template and its stored JSON form, read member by member as
    the template's reader reads it; the text written for a template is proved to read back
    as that template.
  - `sqlite.rs` — the `rusqlite` calls the repositories make, the reading of cells, and
    `SqlSession`, which keeps a ghost record of every statement (with its bound parameters
    and outcome) handed to SQLite and every row, end of rows or failed step handed back; the repositories' contracts are stated over it.
  - `project.rs`, `spec.rs` — the repositories; schema creation and migration.
  - `db.rs` — opening the database and readying its schema.
  - `service.rs` — the operations behind the routes and tools: validation, how each
    repository result is answered, error classes.
  - `http.rs`, `mcp.rs` — response bodies, MCP outputs and MCP errors with metadata.
  - `observability.rs` — correlation ids and argument fingerprints.
- `app/` — the server: `axum` routes, the `rmcp` stdio server, serde forms of the bodies,
  logging.
- `tests/` — tests of the library, against real SQLite databases in memory.

Run the server with `ENABLE_MCP_STDIO=1` to serve the MCP tools on standard input and output
beside the HTTP API on port 3000.
