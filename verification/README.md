# azure_blob_sink

Configuration and decision logic of a sink that stores observability data in
Azure Blob Storage, verified with Verus.

- `src/` — the verified library: authorization selection (`config`, `auth`),
  connection strings (`connection_string`), client planning and proxy routing
  (`client`, `proxy`, `url_ops`), HTTP statuses of failed requests and the
  retry policy (`status`, `retry`), health check reporting (`health`), the
  shared key string to sign and authorization header (`shared_key`, with the
  text order and sorting of `sorting`), messages (`error`, `text`), request
  data (`request`) and cross-function properties (`laws`).
- `app/` — ordinary Rust around it: TOML (de)serialization, token credentials,
  the request policy that attaches the shared key header, building the Azure
  container client and the asynchronous health check.
- `tests/` — tests of the library on concrete values.
