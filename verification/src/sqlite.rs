//! The SQLite renderer. SQLite has no native enum type, so enum items are
//! silently skipped; every other formatting rule is shared with the other
//! SQL dialect and fixed here to the SQLite type map and `Now` expression.

use vstd::prelude::*;

use crate::models::{Column, ColumnDefault, Enum, ForeignKey, Item, Schema, Table, Types};
use crate::sql;
use crate::sql::Dialect;

verus! {

/// Renders every item of the schema in source order, each followed by a
/// newline, with a blank line between consecutive items.
pub fn write_schema(schema: &Schema) -> (out: String)
    ensures
        out@ == sql::schema_sql(Dialect::Sqlite, schema@),
{
    sql::schema_string(Dialect::Sqlite, schema)
}

/// Renders one item: a table statement, or nothing for an enum.
pub fn write_item(item: &Item) -> (out: String)
    ensures
        out@ == sql::item_sql(Dialect::Sqlite, item@),
{
    sql::item_string(Dialect::Sqlite, item)
}

/// Renders nothing: this dialect has no native enum type and enum items are
/// deliberately skipped without a diagnostic.
pub fn write_enum(decl: &Enum) -> (out: String)
    ensures
        out@ == sql::enum_sql(Dialect::Sqlite, decl@),
        out@ == Seq::<char>::empty(),
{
    sql::enum_string(Dialect::Sqlite, decl)
}

/// Renders a complete `CREATE TABLE` statement.
pub fn write_table(decl: &Table) -> (out: String)
    ensures
        out@ == sql::table_sql(Dialect::Sqlite, decl@),
{
    sql::table_string(Dialect::Sqlite, decl)
}

/// Renders one column line, without the trailing comma.
pub fn write_column(column: &Column) -> (out: String)
    ensures
        out@ == sql::column_sql(Dialect::Sqlite, column@),
{
    sql::column_string(Dialect::Sqlite, column)
}

/// Renders the SQLite keyword for a column type.
pub fn write_types(types: &Types) -> (out: String)
    ensures
        out@ == sql::type_sql(Dialect::Sqlite, types@),
{
    sql::types_string(Dialect::Sqlite, types)
}

/// Renders a column's default clause.
pub fn write_column_default(column_default: &ColumnDefault) -> (out: String)
    ensures
        out@ == sql::default_sql(Dialect::Sqlite, column_default@),
{
    sql::column_default_string(Dialect::Sqlite, column_default)
}

/// Renders one foreign-key clause.
pub fn write_foreign_key(foreign_key: &ForeignKey) -> (out: String)
    ensures
        out@ == sql::foreign_key_sql(foreign_key@),
{
    sql::foreign_key_string(foreign_key)
}

} // verus!
