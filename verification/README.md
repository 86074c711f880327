# earnings_watch

The decision logic of an earnings-notification web service, verified with
Verus: what each request of the service decides is computed here and stated
in `requires` / `ensures` contracts over mathematical models.

Layout:

- `src/` — the verified library.
  - `row.rs`, `import.rs` — classifying imported filter rows and planning a
    whole-account or one-group import (report and ordered storage changes);
    `import_laws.rs` — the laws of imports (every row counted once, no
    duplicate ticker per group, dry runs change nothing, which groups are
    created or paused, an exported filter and a whole export import back).
  - `export.rs`, `sheet.rs`, `xlsx.rs` — the tables of the filter and
    earnings exports, the one-sheet workbook that holds a table, and its
    saving through `rust_xlsxwriter`.
  - `access.rs`, `auth.rs`, `cookie.rs`, `filters.rs`, `group_config.rs`,
    `dashboard.rs`, `admin.rs`, `paging.rs` — ownership and input checks,
    sign-in gates, cookies, filter edits and bulk steps, group settings and
    test sends, dashboard counts, run durations, paging.
  - `error.rs`, `dto.rs`, `model.rs`, `text.rs`, `datetime.rs` — errors and
    their HTTP mapping, request/response types, identifiers, string helpers,
    RFC 3339 text through `chrono`.
- `tests/` — tests of the library on concrete values.
- `app/` — the HTTP layer (axum handlers, storage, network, serde copies of
  the library's types); not verified.
