# parquet_tui

A terminal viewer for Apache Parquet files and folders of partitioned Parquet files,
backed by DuckDB. The core of the viewer is a library verified with Verus; a thin program
around it runs the terminal and the database.

## Layout

- `src/` — the verified library:
  - `text.rs`: text helpers (trimming, case, searching, decimal numbers) with their specs.
  - `engine/`: the SQL that the viewer sends (quoting, validation of user queries, ORDER
    BY / LIMIT handling, setup and metadata queries), the display text of DuckDB values
    (`format.rs`), and the Parquet schema tree (`metadata.rs`).
  - `app.rs`: the viewer's state machine: column window, reload plans, sorting, the log of
    operations, and what opening a source does.
  - `keys.rs`: what every key does in every mode, and the work a key asks of the caller
    (`Request`), whose outcome is reported back with `App::complete`.
  - `ui/`: table layout (visible columns, widths, first row), the texts of the screens,
    field selection and the metadata listing.
  - `export.rs`: CSV, JSON and Excel export of the shown table, as bytes.
  - `order_law.rs`: where the ORDER BY and LIMIT keywords lie in a query and its rewrite,
    and the law that a sort can be replaced and removed.
- `app/` — the program: command line, terminal loop, drawing, the DuckDB connection, and
  the settings file.
- `tests/` — tests of the library.
