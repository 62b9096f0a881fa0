# argocd-mcp-server

An MCP server that gives an assistant read (and, unless read-only, write)
access to ArgoCD applications, with answers trimmed to what a model needs.

- `src/` is the library, with its contracts proved: the ArgoCD data model and the
  summaries built from it, the request of every tool (method, URL, headers,
  body), the read-only gate, the decoding of API errors and pod logs, and the
  exact text each tool answers. Calls into `urlencoding`, `serde_json` and
  `serde_yaml` stand behind small trusted wrappers whose contracts are stated
  next to them.
- `app/` is the program around it: environment, HTTP through `reqwest`, the
  MCP transport through `rmcp`, and the serde copies of the model types.
- `tests/` runs the library on concrete values.
