//! The column types that a column declaration names.
pub use crate::table::format::{column_type_of, ColumnType};
