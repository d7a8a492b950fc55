//! Core logic of a terminal viewer for Apache Parquet files: SQL text building, cell
//! formatting, schema trees, the viewer's state machine and its key bindings.
pub mod app;
pub mod engine;
pub mod export;
pub mod keys;
pub mod order_law;
pub mod settings;
pub mod text;
pub mod ui;
