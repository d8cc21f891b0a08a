//! The PostgreSQL renderer: the shared DDL formatting fixed to the
//! PostgreSQL type map, `Now` expression and native enum types.

use vstd::prelude::*;

use crate::models::{Column, ColumnDefault, Enum, ForeignKey, Item, Schema, Table, Types};
use crate::sql;
use crate::sql::Dialect;

verus! {

/// Renders every item of the schema in source order, each followed by a
/// newline, with a blank line between consecutive items.
pub fn write_schema(schema: &Schema) -> (out: String)
    ensures
        out@ == sql::schema_sql(Dialect::Postgres, schema@),
{
    sql::schema_string(Dialect::Postgres, schema)
}

/// Renders one item: a table or enum statement.
pub fn write_item(item: &Item) -> (out: String)
    ensures
        out@ == sql::item_sql(Dialect::Postgres, item@),
{
    sql::item_string(Dialect::Postgres, item)
}

/// Renders a `CREATE TYPE ... AS ENUM` statement, one quoted variant per
/// line, comma-separated with no trailing comma.
pub fn write_enum(decl: &Enum) -> (out: String)
    ensures
        out@ == sql::enum_sql(Dialect::Postgres, decl@),
{
    sql::enum_string(Dialect::Postgres, decl)
}

/// Renders a complete `CREATE TABLE` statement.
pub fn write_table(decl: &Table) -> (out: String)
    ensures
        out@ == sql::table_sql(Dialect::Postgres, decl@),
{
    sql::table_string(Dialect::Postgres, decl)
}

/// Renders one column line, without the trailing comma.
pub fn write_column(column: &Column) -> (out: String)
    ensures
        out@ == sql::column_sql(Dialect::Postgres, column@),
{
    sql::column_string(Dialect::Postgres, column)
}

/// Renders the PostgreSQL keyword for a column type.
pub fn write_types(types: &Types) -> (out: String)
    ensures
        out@ == sql::type_sql(Dialect::Postgres, types@),
{
    sql::types_string(Dialect::Postgres, types)
}

/// Renders a column's default clause.
pub fn write_column_default(column_default: &ColumnDefault) -> (out: String)
    ensures
        out@ == sql::default_sql(Dialect::Postgres, column_default@),
{
    sql::column_default_string(Dialect::Postgres, column_default)
}

/// Renders one foreign-key clause.
pub fn write_foreign_key(foreign_key: &ForeignKey) -> (out: String)
    ensures
        out@ == sql::foreign_key_sql(foreign_key@),
{
    sql::foreign_key_string(foreign_key)
}

} // verus!
