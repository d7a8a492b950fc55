//! What the screens of the viewer show and how their cursors move.
pub mod field_select;
pub mod metadata_view;
pub mod table_view;
pub mod text_views;
