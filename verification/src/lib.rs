//! Table and column metadata extracted from a decorated struct declaration.
//!
//! A struct is described by [`syntax::DeriveInput`]: its name, the options of
//! its attributes, and its fields. [`TableMetadata::try_from`] reads it as a
//! table: the table's name, its columns in the order of the fields, and the
//! column that is its primary key.

pub mod column;
pub mod error;
pub mod naming;
pub mod syntax;
pub mod table;

pub use crate::column::{ColumnMetadata, ColumnMetadataBuilder};
pub use crate::error::SyndecodeError;
pub use crate::table::{TableMetadata, TableMetadataBuilder};
