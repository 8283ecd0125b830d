//! Table header and table row logic: column resizing by drag, hit-testing and
//! appearance resolution for a table widget.

pub mod color;
pub mod geometry;
pub mod header_style;
pub mod row_style;
pub mod table_header;
pub mod table_row;
pub mod theme;
