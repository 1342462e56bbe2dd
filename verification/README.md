# code-worker

Source-code structure for SQL: symbols, imports, comments, string literals,
line counts, lines of code, and arbitrary tree-sitter queries, served to
DuckDB as the `code` VGI worker over Apache Arrow.

The analysis is a library verified with Verus; the worker binary around it
is ordinary Rust.

## Layout

- `src/` — the verified library.
  - `ts.rs` — the tree-sitter boundary: every call into `tree_sitter` and the
    grammar crates, each behind a small trusted wrapper whose contract names
    what tree-sitter gives as a function of its inputs (language, source
    text, query text, node path).
  - `text.rs` — white space, trimming, ASCII case folding, and `str::lines`
    line splitting, specified over character sequences.
  - `lang.rs` — language ids and aliases, inference from file names, and the
    analysis error with its messages.
  - `parsing.rs` — the size-bounded parse, physical line counts, and lines of
    code from the comment spans of the syntax tree.
  - `extract.rs` — query captures, their texts, and the per-language
    import / comment / string queries.
  - `symbols.rs` — pairing definition and name captures into symbols, sorted
    by line span; counting function definitions.
  - `meta.rs` — the catalog tags: JSON escaping, keyword arrays, example
    lists.
  - `functions.rs` — each SQL function's value for one row, and each table
    function's rows (NULL in gives NULL or no rows; an unknown language is an
    error).
  - `laws.rs` — properties relating the functions to each other.
- `tests/` — tests on concrete values.
- `app/` — the worker: Arrow adapters, catalog metadata, registration and
  logging around the library.

## Verifying

Run Verus on `src/lib.rs` with the outside crates named in `Cargo.toml`;
`cargo test` runs the tests.
