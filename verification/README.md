# rustio_admin

The decision logic of an admin panel for PostgreSQL-backed Rust
projects, written in Verus: every function in `src/` carries a
`requires` / `ensures` contract that Verus proves.

## Layout

- `src/` — the verified library, one module per concern:
  - text handling and CSV (`text`, `csv`), the audit vocabulary
    (`audit`), errors and JSON responses (`error`, `json_response`,
    `json_api`);
  - list pages: filters and their query-string reading (`filters`,
    `filter_query`), list queries and page assembly (`ops`), pagination
    (`paging`), foreign-key labels
    (`fk_cells`), inline sections (`inlines`), bulk actions (`bulk`,
    `handlers`);
  - forms and flows: create / update / delete (`crud`), sign-in
    (`login`), the second factor (`mfa`), password forms
    (`password_forms`), user and group
    administration (`user_admin`, `user_actions`, `user_view`),
    recovery pages (`recovery`);
  - pages and tools: dashboard, health, history, database browser, the
    API description and its JSON layout, the in-app docs and icons
    (`dashboard`, `health`, `history_views`, `db_browser`, `openapi`,
    `api_doc`, `docs`, `icons`);
  - the model derive's planning and naming rules (`model_plan`,
    `naming`, `modeladmin`), the CLI's decisions (`cli`), and the
    feature-flag cache (`feature_flags`).
- `tests/` — tests of the library, run against the real outside crates.
- `app/` — the unverified edge: clap types, the interactive wizard's
  terminal I/O, the process-wide flag cache, and `serde_json` encoding.

Calls into outside crates (`chrono`, `dashmap`, `urlencoding`,
`pulldown-cmark`, `serde_json`) sit behind small trusted wrappers whose
contracts are stated next to them.
