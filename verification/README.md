# loom_server

The decision logic of the Loom server: every public function states what it
returns in its `ensures`, and the properties that span several functions are
proof functions (`lemma_*`).

## Layout

- `src/` — the verified library.
  - `config.rs` — reading the server configuration from its variables.
  - `health.rs` — component health checks and the overall status.
  - `error.rs` — server errors and the responses they become.
  - `access.rs` — who administers or reads a repository.
  - `tags.rs`, `text.rs`, `num.rs`, `ids.rs` — tag filters, text and
    number helpers, identifiers.
  - `db.rs`, `audit.rs` — the thread store's decisions and the audit query.
  - `migrate.rs` — how migration scripts are cut into statements and what
    a failed statement means for the run.
  - `llm_proxy.rs`, `jobs.rs` — LLM failures and background job reports.
  - `routes/` — the decisions of the HTTP handlers: git smart-HTTP framing,
    agents and weavers, API keys, crash issues, feature flags, repositories,
    protection rules, maintenance, webhooks, the Anthropic account pool and
    the binary directory listing.
- `tests/` — tests run against the compiled library.
- `app/` — the program around the library: environment, file system,
  metrics and JSON forms of library types.
