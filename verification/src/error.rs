//! The ways in which extracting metadata fails.

use vstd::prelude::*;

verus! {

/// Why no metadata could be produced.
#[derive(Debug)]
pub enum SyndecodeError {
    /// The type of a column is a `Join`, and none of its attributes says how
    /// the join is made.
    JoinMissingDirective { column: String },
    /// No column is marked as the primary key, and none has one of the names
    /// by which a primary key is recognised.
    MissingPrimaryKey { table_name: String },
    /// A builder was asked to build before the named field was set.
    BuilderIncomplete { field: String },
}

/// The mathematical value of a [`SyndecodeError`].
pub ghost enum SyndecodeErrorView {
    JoinMissingDirective { column: Seq<char> },
    MissingPrimaryKey { table_name: Seq<char> },
    BuilderIncomplete { field: Seq<char> },
}

impl SyndecodeErrorView {
    /// The text that describes the error to the user.
    pub open spec fn message(self) -> Seq<char> {
        match self {
            SyndecodeErrorView::JoinMissingDirective { column } => "Column "@ + column
                + " is a Join. You must specify one of: many_to_one_key, many_to_many_table_name, or one_to_many_foreign_key"@,
            SyndecodeErrorView::MissingPrimaryKey { table_name } =>
                "No column marked with #[primary_key], and no column named id, uuid, "@
                + table_name + "_id, or "@ + table_name + "_uuid"@,
            SyndecodeErrorView::BuilderIncomplete { field } => "`"@ + field
                + "` must be initialized"@,
        }
    }
}

impl View for SyndecodeError {
    type V = SyndecodeErrorView;

    open spec fn view(&self) -> SyndecodeErrorView {
        match self {
            SyndecodeError::JoinMissingDirective { column } => SyndecodeErrorView::JoinMissingDirective {
                column: column@,
            },
            SyndecodeError::MissingPrimaryKey { table_name } => SyndecodeErrorView::MissingPrimaryKey {
                table_name: table_name@,
            },
            SyndecodeError::BuilderIncomplete { field } => SyndecodeErrorView::BuilderIncomplete {
                field: field@,
            },
        }
    }
}

impl SyndecodeError {
    /// The text that describes the error to the user.
    pub fn message(&self) -> (text: String)
        ensures
            text@ == self@.message(),
    {
        match self {
            SyndecodeError::JoinMissingDirective { column } => {
                let mut text = String::from_str("Column ");
                text.append(column.as_str());
                text.append(
                    " is a Join. You must specify one of: many_to_one_key, many_to_many_table_name, or one_to_many_foreign_key",
                );
                text
            },
            SyndecodeError::MissingPrimaryKey { table_name } => {
                let mut text = String::from_str(
                    "No column marked with #[primary_key], and no column named id, uuid, ",
                );
                text.append(table_name.as_str());
                text.append("_id, or ");
                text.append(table_name.as_str());
                text.append("_uuid");
                text
            },
            SyndecodeError::BuilderIncomplete { field } => {
                let mut text = String::from_str("`");
                text.append(field.as_str());
                text.append("` must be initialized");
                text
            },
        }
    }
}

} // verus!
