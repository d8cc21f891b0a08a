//! Output-target selection shared by the dialect renderers.

use vstd::prelude::*;

use crate::models::Schema;
use crate::sql;
use crate::sql::Dialect;
use crate::text::str_eq;

verus! {

/// A renderer error: the only failure the renderers themselves can raise is
/// an unrecognized format selector.
#[derive(Clone, Debug, PartialEq, Eq)]
pub enum Error {
    InvalidFormat(String),
}

/// Mathematical model of an [`Error`].
pub enum GenErrorView {
    InvalidFormat(Seq<char>),
}

impl View for Error {
    type V = GenErrorView;

    open spec fn view(&self) -> GenErrorView {
        match self {
            Error::InvalidFormat(s) => GenErrorView::InvalidFormat(s@),
        }
    }
}

/// The output targets a schema can be rendered to.
#[derive(Clone, Copy, Debug, PartialEq, Eq, Structural)]
pub enum FormatType {
    MySQL,
    PostgreSQL,
    Rust,
    SQLite,
}

/// The partial mapping from a selector string to an output target; the
/// PostgreSQL target answers to its short and its long name.
pub open spec fn spec_format_from_str(s: Seq<char>) -> Option<FormatType> {
    if s == "mysql"@ {
        Some(FormatType::MySQL)
    } else if s == "postgres"@ || s == "postgresql"@ {
        Some(FormatType::PostgreSQL)
    } else if s == "rust"@ {
        Some(FormatType::Rust)
    } else if s == "sqlite"@ {
        Some(FormatType::SQLite)
    } else {
        None
    }
}

impl FormatType {
    /// Parses a format selector; any unrecognized name fails with
    /// `InvalidFormat` carrying the name.
    pub fn try_from(s: &str) -> (r: Result<FormatType, Error>)
        ensures
            match r {
                Ok(t) => spec_format_from_str(s@) == Some(t),
                Err(e) => spec_format_from_str(s@) is None && e@ == GenErrorView::InvalidFormat(
                    s@,
                ),
            },
    {
        if str_eq(s, "mysql") {
            Ok(FormatType::MySQL)
        } else if str_eq(s, "postgres") || str_eq(s, "postgresql") {
            Ok(FormatType::PostgreSQL)
        } else if str_eq(s, "rust") {
            Ok(FormatType::Rust)
        } else if str_eq(s, "sqlite") {
            Ok(FormatType::SQLite)
        } else {
            Err(Error::InvalidFormat(s.to_owned()))
        }
    }
}

impl Schema {
    /// Renders this schema to the chosen output target. The MySQL target is
    /// an intentionally unimplemented stub that accepts only an empty
    /// schema, and the native-structure target takes rendering options of
    /// its own and is reached through its module directly; asking for
    /// either here is a caller error that the precondition forbids.
    pub fn fmt(&self, typ: FormatType) -> (out: String)
        requires
            typ == FormatType::MySQL ==> self@.items.len() == 0,
            typ != FormatType::Rust,
        ensures
            (match typ {
                FormatType::MySQL => out@ == Seq::<char>::empty(),
                FormatType::PostgreSQL => out@ == sql::schema_sql(Dialect::Postgres, self@),
                FormatType::SQLite => out@ == sql::schema_sql(Dialect::Sqlite, self@),
                FormatType::Rust => false,
            }),
    {
        match typ {
            FormatType::MySQL => crate::mysql::write_schema(self),
            FormatType::PostgreSQL => crate::postgresql::write_schema(self),
            FormatType::SQLite => crate::sqlite::write_schema(self),
            FormatType::Rust => unreached(),
        }
    }
}

} // verus!
