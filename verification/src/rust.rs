//! The native-structure renderer: maps each schema item onto a host-language
//! type declaration — an enum per enum, a struct per table with one field
//! per column, nullable columns wrapped in an option type — deriving
//! equality, ordering and hashing, and optionally adding serialization and
//! GraphQL annotations chosen by the caller's options.

use vstd::prelude::*;

use crate::models::{
    Column, ColumnView, Enum, EnumView, Item, ItemView, Schema, SchemaView, Table, TableView,
    TypeView, Types,
};

verus! {

/// What `heck`'s snake-case conversion returns for the given characters.
pub uninterp spec fn snake_of(s: Seq<char>) -> Seq<char>;

/// What `heck`'s kebab-case conversion returns for the given characters.
pub uninterp spec fn kebab_of(s: Seq<char>) -> Seq<char>;

/// Relies on `heck::ToSnakeCase::to_snake_case`: the snake-case form of a
/// string, a function of its characters alone.
#[verifier::external_body]
fn to_snake_case(s: &str) -> (r: String)
    ensures
        r@ == snake_of(s@),
{
    heck::ToSnakeCase::to_snake_case(s)
}

/// Relies on `heck::ToKebabCase::to_kebab_case`: the kebab-case form of a
/// string, a function of its characters alone.
#[verifier::external_body]
fn to_kebab_case(s: &str) -> (r: String)
    ensures
        r@ == kebab_of(s@),
{
    heck::ToKebabCase::to_kebab_case(s)
}

/// The caller's independent toggles for extra derived capabilities on the
/// generated types: serialization and GraphQL annotations, and the
/// row-mapping and SQL-conversion glue of each database backend.
#[derive(Debug, Clone, Copy, Hash, PartialEq, Eq, PartialOrd, Ord, Structural)]
pub struct Options {
    pub juniper: bool,
    pub serde: bool,
    pub postgres: bool,
    pub sqlite: bool,
}

impl Default for Options {
    /// Every extra capability is off unless asked for.
    fn default() -> (r: Self)
        ensures
            r == (Options { juniper: false, serde: false, postgres: false, sqlite: false }),
    {
        Options { juniper: false, serde: false, postgres: false, sqlite: false }
    }
}

/// The decimal digit for a value below ten.
pub open spec fn dec_digit(d: nat) -> char {
    if d == 0 {
        '0'
    } else if d == 1 {
        '1'
    } else if d == 2 {
        '2'
    } else if d == 3 {
        '3'
    } else if d == 4 {
        '4'
    } else if d == 5 {
        '5'
    } else if d == 6 {
        '6'
    } else if d == 7 {
        '7'
    } else if d == 8 {
        '8'
    } else {
        '9'
    }
}

/// The decimal digits of a number, most significant first.
pub open spec fn dec_str(n: nat) -> Seq<char>
    decreases n,
{
    if n < 10 {
        seq![dec_digit(n)]
    } else {
        dec_str(n / 10) + seq![dec_digit(n % 10)]
    }
}

/// One decimal digit as a string.
fn digit_string(d: usize) -> (r: String)
    requires
        d < 10,
    ensures
        r@ == seq![dec_digit(d as nat)],
{
    let r = if d == 0 {
        String::from_str("0")
    } else if d == 1 {
        String::from_str("1")
    } else if d == 2 {
        String::from_str("2")
    } else if d == 3 {
        String::from_str("3")
    } else if d == 4 {
        String::from_str("4")
    } else if d == 5 {
        String::from_str("5")
    } else if d == 6 {
        String::from_str("6")
    } else if d == 7 {
        String::from_str("7")
    } else if d == 8 {
        String::from_str("8")
    } else {
        String::from_str("9")
    };
    proof {
        reveal_strlit("0");
        reveal_strlit("1");
        reveal_strlit("2");
        reveal_strlit("3");
        reveal_strlit("4");
        reveal_strlit("5");
        reveal_strlit("6");
        reveal_strlit("7");
        reveal_strlit("8");
        reveal_strlit("9");
        assert(r@ =~= seq![dec_digit(d as nat)]);
    }
    r
}

/// Renders a number in decimal.
fn dec_string(n: usize) -> (r: String)
    ensures
        r@ == dec_str(n as nat),
    decreases n,
{
    if n < 10 {
        digit_string(n)
    } else {
        let mut s = dec_string(n / 10);
        let d = digit_string(n % 10);
        s.append(d.as_str());
        proof {
            assert(s@ =~= dec_str(n as nat));
        }
        s
    }
}

/// The host scalar type for each canonical column type; a raw type names a
/// host type verbatim.
pub open spec fn rust_type(t: TypeView) -> Seq<char> {
    match t {
        TypeView::Char => "char"@,
        TypeView::Varchar | TypeView::Text => "::std::string::String"@,
        TypeView::Number | TypeView::Int | TypeView::Serial | TypeView::MediumInt => "i32"@,
        TypeView::SmallInt => "i16"@,
        TypeView::BigInt => "i64"@,
        TypeView::Float | TypeView::Real | TypeView::Decimal => "f64"@,
        TypeView::Numeric => "f32"@,
        TypeView::DateTime => "::chrono::DateTime<chrono::Utc>"@,
        TypeView::Boolean => "bool"@,
        TypeView::Raw(raw) => raw,
    }
}

/// A field's type: the host scalar, wrapped in an option when nullable.
pub open spec fn field_type(t: TypeView, null: bool) -> Seq<char> {
    if null {
        "::std::option::Option<"@ + rust_type(t) + ">"@
    } else {
        rust_type(t)
    }
}

/// One enum variant line, with its serialization rename when asked for.
pub open spec fn variant_rs(v: Seq<char>, serde: bool) -> Seq<char> {
    (if serde {
        "    #[serde(rename = \""@ + kebab_of(v) + "\")]\n"@
    } else {
        Seq::<char>::empty()
    }) + "    "@ + v + ",\n"@
}

/// All variant lines.
pub open spec fn variants_rs(vs: Seq<Seq<char>>, i: int, serde: bool) -> Seq<char>
    decreases vs.len() - i,
{
    if i < 0 || i >= vs.len() {
        Seq::<char>::empty()
    } else {
        variant_rs(vs[i], serde) + variants_rs(vs, i + 1, serde)
    }
}

/// An enum's type declaration, without the backend glue.
pub open spec fn enum_decl_rs(e: EnumView, o: Options) -> Seq<char> {
    "#[derive(Clone, Copy, Debug, Hash, PartialEq, Eq, PartialOrd, Ord)]\n"@ + (if o.juniper {
        "#[derive(juniper::GraphQLEnum)]\n"@
    } else {
        Seq::<char>::empty()
    }) + (if o.serde {
        "#[derive(serde::Deserialize, serde::Serialize)]\n"@
    } else {
        Seq::<char>::empty()
    }) + "pub enum "@ + e.name + " {\n"@ + variants_rs(e.variants, 0, o.serde) + "}\n"@
}

/// One struct field line: the snake-case column name and its host type.
pub open spec fn field_rs(c: ColumnView) -> Seq<char> {
    "    pub "@ + snake_of(c.name) + ": "@ + field_type(c.typ, c.null) + ",\n"@
}

/// All field lines.
pub open spec fn fields_rs(cols: Seq<ColumnView>, i: int) -> Seq<char>
    decreases cols.len() - i,
{
    if i < 0 || i >= cols.len() {
        Seq::<char>::empty()
    } else {
        field_rs(cols[i]) + fields_rs(cols, i + 1)
    }
}

/// A table's struct declaration, without the backend glue.
pub open spec fn table_decl_rs(t: TableView, o: Options) -> Seq<char> {
    "#[derive(Clone, Debug, Hash, PartialEq, Eq, PartialOrd, Ord)]\n"@ + (if o.juniper {
        "#[derive(juniper::GraphQLObject)]\n"@
    } else {
        Seq::<char>::empty()
    }) + (if o.serde {
        "#[derive(serde::Deserialize, serde::Serialize)]\n"@
    } else {
        Seq::<char>::empty()
    }) + "pub struct "@ + t.name + " {\n"@ + fields_rs(t.columns, 0) + "}\n"@
}

/// One match arm mapping a kebab-case column value to an enum variant.
pub open spec fn value_arm_rs(name: Seq<char>, v: Seq<char>) -> Seq<char> {
    "            \""@ + kebab_of(v) + "\" => ::std::result::Result::Ok("@ + name + "::"@ + v
        + "),\n"@
}

/// All value-to-variant arms.
pub open spec fn value_arms_rs(name: Seq<char>, vs: Seq<Seq<char>>, i: int) -> Seq<char>
    decreases vs.len() - i,
{
    if i < 0 || i >= vs.len() {
        Seq::<char>::empty()
    } else {
        value_arm_rs(name, vs[i]) + value_arms_rs(name, vs, i + 1)
    }
}

/// All variant-name arms of the type-acceptance check.
pub open spec fn accepts_arms_rs(vs: Seq<Seq<char>>, i: int) -> Seq<char>
    decreases vs.len() - i,
{
    if i < 0 || i >= vs.len() {
        Seq::<char>::empty()
    } else {
        "                    \""@ + vs[i] + "\" => true,\n"@ + accepts_arms_rs(vs, i + 1)
    }
}

/// All variant-to-value arms of the SQL-conversion glue.
pub open spec fn to_sql_arms_rs(name: Seq<char>, vs: Seq<Seq<char>>, i: int) -> Seq<char>
    decreases vs.len() - i,
{
    if i < 0 || i >= vs.len() {
        Seq::<char>::empty()
    } else {
        "            "@ + name + "::"@ + vs[i] + " => ::std::result::Result::Ok(\""@ + kebab_of(
            vs[i],
        ) + "\".into()),\n"@ + to_sql_arms_rs(name, vs, i + 1)
    }
}

/// The PostgreSQL column-conversion glue of an enum: reads the kebab-case
/// value back into the variant, accepting only the enum type of the same
/// name and variants.
pub open spec fn pg_from_sql_rs(e: EnumView) -> Seq<char> {
    "impl<'r> ::rewryte::postgres::types::FromSql<'r> for "@ + e.name
        + " {\n    fn from_sql(\n        _type: &::rewryte::postgres::types::Type,\n        buf: &'r [u8],\n    ) -> ::std::result::Result<\n        "@
        + e.name
        + ",\n        ::std::boxed::Box<dyn ::std::error::Error + ::std::marker::Sync + ::std::marker::Send>,\n    > {\n        match ::std::str::from_utf8(buf)? {\n"@
        + value_arms_rs(e.name, e.variants, 0)
        + "            s => ::std::result::Result::Err(::std::convert::Into::into(format!(\"invalid variant `{}`\", s))),\n        }\n    }\n\n    fn accepts(type_: &::rewryte::postgres::types::Type) -> bool {\n        if type_.name() != \""@
        + e.name
        + "\" {\n            return false;\n        }\n        match *type_.kind() {\n            ::rewryte::postgres::types::Kind::Enum(ref variants) => {\n                if variants.len() != "@
        + dec_str(e.variants.len())
        + " {\n                    return false;\n                }\n                variants.iter().all(|v| match &**v {\n"@
        + accepts_arms_rs(e.variants, 0)
        + "                    _ => false,\n                })\n            }\n            _ => false,\n        }\n    }\n}\n"@
}

/// The SQLite to-SQL glue of an enum: each variant becomes its kebab-case
/// value.
pub open spec fn lite_to_sql_rs(e: EnumView) -> Seq<char> {
    "impl ::rewryte::sqlite::types::ToSql for "@ + e.name
        + " {\n    fn to_sql(&self) -> ::rewryte::sqlite::Result<::rewryte::sqlite::types::ToSqlOutput> {\n        match self {\n"@
        + to_sql_arms_rs(e.name, e.variants, 0) + "        }\n    }\n}\n"@
}

/// The SQLite from-SQL glue of an enum: the kebab-case value is read back
/// into the variant.
pub open spec fn lite_from_sql_rs(e: EnumView) -> Seq<char> {
    "impl ::rewryte::sqlite::types::FromSql for "@ + e.name
        + " {\n    fn column_result(\n        value: ::rewryte::sqlite::types::ValueRef,\n    ) -> ::rewryte::sqlite::types::FromSqlResult<Self> {\n        value.as_str().and_then(|s| match s {\n"@
        + value_arms_rs(e.name, e.variants, 0)
        + "            _ => ::std::result::Result::Err(::rewryte::sqlite::types::FromSqlError::InvalidType),\n        })\n    }\n}\n"@
}

/// One row-mapping field initializer: the field is read positionally, with
/// a contextual message naming the index and field on failure.
pub open spec fn row_field_rs(c: ColumnView, i: int, pg: bool) -> Seq<char> {
    "            "@ + snake_of(c.name) + ": row."@ + (if pg {
        "try_get("@
    } else {
        "get("@
    }) + dec_str(i as nat) + ").context(\"Failed to get data for row index "@ + dec_str(i as nat)
        + ": `"@ + snake_of(c.name) + "`\")?,\n"@
}

/// All row-mapping field initializers, in column order.
pub open spec fn row_fields_rs(cols: Seq<ColumnView>, i: int, pg: bool) -> Seq<char>
    decreases cols.len() - i,
{
    if i < 0 || i >= cols.len() {
        Seq::<char>::empty()
    } else {
        row_field_rs(cols[i], i, pg) + row_fields_rs(cols, i + 1, pg)
    }
}

/// The row-mapping glue of a table for one backend.
pub open spec fn from_row_rs(t: TableView, pg: bool) -> Seq<char> {
    (if pg {
        "impl ::rewryte::postgres::FromRow for "@ + t.name
            + " {\n    fn from_row(row: ::rewryte::postgres::Row) -> ::anyhow::Result<Self>\n"@
    } else {
        "impl ::rewryte::sqlite::FromRow for "@ + t.name
            + " {\n    fn from_row(row: &::rewryte::sqlite::Row<'_>) -> ::anyhow::Result<Self>\n"@
    })
        + "    where\n        Self: Sized,\n    {\n        use ::anyhow::Context;\n\n        ::std::result::Result::Ok(Self {\n"@
        + row_fields_rs(t.columns, 0, pg) + "        })\n    }\n}\n"@
}

/// A complete enum declaration with the backend glue the options ask for.
pub open spec fn enum_rs(e: EnumView, o: Options) -> Seq<char> {
    enum_decl_rs(e, o) + (if o.postgres {
        pg_from_sql_rs(e)
    } else {
        Seq::<char>::empty()
    }) + (if o.sqlite {
        lite_to_sql_rs(e) + lite_from_sql_rs(e)
    } else {
        Seq::<char>::empty()
    })
}

/// A complete struct declaration with the backend glue the options ask for.
pub open spec fn table_rs(t: TableView, o: Options) -> Seq<char> {
    table_decl_rs(t, o) + (if o.postgres {
        from_row_rs(t, true)
    } else {
        Seq::<char>::empty()
    }) + (if o.sqlite {
        from_row_rs(t, false)
    } else {
        Seq::<char>::empty()
    })
}

/// Appends the value-to-variant arms to `out`.
fn append_value_arms(out: &mut String, name: &String, variants: &Vec<String>)
    ensures
        final(out)@ == old(out)@ + value_arms_rs(
            name@,
            variants@.map_values(|v: String| v@),
            0,
        ),
{
    let ghost base = out@;
    let ghost vseq = variants@.map_values(|v: String| v@);
    let nvs = variants.len();
    let mut i: usize = 0;
    while i < nvs
        invariant
            nvs == variants@.len(),
            vseq == variants@.map_values(|v: String| v@),
            i <= nvs,
            out@ + value_arms_rs(name@, vseq, i as int) == base + value_arms_rs(name@, vseq, 0),
        decreases nvs - i,
    {
        let ghost pre = out@;
        out.append("            \"");
        let kb = to_kebab_case(variants[i].as_str());
        out.append(kb.as_str());
        out.append("\" => ::std::result::Result::Ok(");
        out.append(name.as_str());
        out.append("::");
        out.append(variants[i].as_str());
        out.append("),\n");
        proof {
            assert(value_arms_rs(name@, vseq, i as int) == value_arm_rs(name@, vseq[i as int])
                + value_arms_rs(name@, vseq, i as int + 1));
            assert(out@ =~= pre + value_arm_rs(name@, vseq[i as int]));
            assert(out@ + value_arms_rs(name@, vseq, i as int + 1) =~= pre + value_arms_rs(
                name@,
                vseq,
                i as int,
            ));
        }
        i += 1;
    }
    proof {
        assert(value_arms_rs(name@, vseq, nvs as int) =~= Seq::<char>::empty());
        assert(out@ =~= base + value_arms_rs(name@, vseq, 0));
    }
}

/// Renders the PostgreSQL column-conversion glue of an enum.
fn write_pg_from_sql(decl: &Enum) -> (out: String)
    ensures
        out@ == pg_from_sql_rs(decl@),
{
    let mut out = String::from_str("impl<'r> ::rewryte::postgres::types::FromSql<'r> for ");
    out.append(decl.name.as_str());
    out.append(
        " {\n    fn from_sql(\n        _type: &::rewryte::postgres::types::Type,\n        buf: &'r [u8],\n    ) -> ::std::result::Result<\n        ",
    );
    out.append(decl.name.as_str());
    out.append(
        ",\n        ::std::boxed::Box<dyn ::std::error::Error + ::std::marker::Sync + ::std::marker::Send>,\n    > {\n        match ::std::str::from_utf8(buf)? {\n",
    );
    append_value_arms(&mut out, &decl.name, &decl.variants);
    out.append(
        "            s => ::std::result::Result::Err(::std::convert::Into::into(format!(\"invalid variant `{}`\", s))),\n        }\n    }\n\n    fn accepts(type_: &::rewryte::postgres::types::Type) -> bool {\n        if type_.name() != \"",
    );
    out.append(decl.name.as_str());
    out.append(
        "\" {\n            return false;\n        }\n        match *type_.kind() {\n            ::rewryte::postgres::types::Kind::Enum(ref variants) => {\n                if variants.len() != ",
    );
    let count = dec_string(decl.variants.len());
    out.append(count.as_str());
    out.append(
        " {\n                    return false;\n                }\n                variants.iter().all(|v| match &**v {\n",
    );
    let ghost mid = out@;
    let ghost vseq = decl@.variants;
    let nvs = decl.variants.len();
    let mut i: usize = 0;
    while i < nvs
        invariant
            nvs == decl.variants@.len(),
            vseq == decl@.variants,
            vseq == decl.variants@.map_values(|v: String| v@),
            i <= nvs,
            out@ + accepts_arms_rs(vseq, i as int) == mid + accepts_arms_rs(vseq, 0),
        decreases nvs - i,
    {
        let ghost pre = out@;
        out.append("                    \"");
        out.append(decl.variants[i].as_str());
        out.append("\" => true,\n");
        proof {
            assert(accepts_arms_rs(vseq, i as int) == "                    \""@ + vseq[i as int]
                + "\" => true,\n"@ + accepts_arms_rs(vseq, i as int + 1));
            assert(out@ + accepts_arms_rs(vseq, i as int + 1) =~= pre + accepts_arms_rs(
                vseq,
                i as int,
            ));
        }
        i += 1;
    }
    proof {
        assert(accepts_arms_rs(vseq, nvs as int) =~= Seq::<char>::empty());
        assert(out@ =~= mid + accepts_arms_rs(vseq, 0));
    }
    out.append(
        "                    _ => false,\n                })\n            }\n            _ => false,\n        }\n    }\n}\n",
    );
    proof {
        assert(out@ =~= pg_from_sql_rs(decl@));
    }
    out
}

/// Renders the SQLite to-SQL glue of an enum.
fn write_lite_to_sql(decl: &Enum) -> (out: String)
    ensures
        out@ == lite_to_sql_rs(decl@),
{
    let mut out = String::from_str("impl ::rewryte::sqlite::types::ToSql for ");
    out.append(decl.name.as_str());
    out.append(
        " {\n    fn to_sql(&self) -> ::rewryte::sqlite::Result<::rewryte::sqlite::types::ToSqlOutput> {\n        match self {\n",
    );
    let ghost mid = out@;
    let ghost vseq = decl@.variants;
    let nvs = decl.variants.len();
    let mut i: usize = 0;
    while i < nvs
        invariant
            nvs == decl.variants@.len(),
            vseq == decl@.variants,
            vseq == decl.variants@.map_values(|v: String| v@),
            i <= nvs,
            out@ + to_sql_arms_rs(decl@.name, vseq, i as int) == mid + to_sql_arms_rs(
                decl@.name,
                vseq,
                0,
            ),
        decreases nvs - i,
    {
        let ghost pre = out@;
        out.append("            ");
        out.append(decl.name.as_str());
        out.append("::");
        out.append(decl.variants[i].as_str());
        out.append(" => ::std::result::Result::Ok(\"");
        let kb = to_kebab_case(decl.variants[i].as_str());
        out.append(kb.as_str());
        out.append("\".into()),\n");
        proof {
            assert(to_sql_arms_rs(decl@.name, vseq, i as int) == "            "@ + decl@.name
                + "::"@ + vseq[i as int] + " => ::std::result::Result::Ok(\""@ + kebab_of(
                vseq[i as int],
            ) + "\".into()),\n"@ + to_sql_arms_rs(decl@.name, vseq, i as int + 1));
            assert(out@ + to_sql_arms_rs(decl@.name, vseq, i as int + 1) =~= pre + to_sql_arms_rs(
                decl@.name,
                vseq,
                i as int,
            ));
        }
        i += 1;
    }
    proof {
        assert(to_sql_arms_rs(decl@.name, vseq, nvs as int) =~= Seq::<char>::empty());
        assert(out@ =~= mid + to_sql_arms_rs(decl@.name, vseq, 0));
    }
    out.append("        }\n    }\n}\n");
    proof {
        assert(out@ =~= lite_to_sql_rs(decl@));
    }
    out
}

/// Renders the SQLite from-SQL glue of an enum.
fn write_lite_from_sql(decl: &Enum) -> (out: String)
    ensures
        out@ == lite_from_sql_rs(decl@),
{
    let mut out = String::from_str("impl ::rewryte::sqlite::types::FromSql for ");
    out.append(decl.name.as_str());
    out.append(
        " {\n    fn column_result(\n        value: ::rewryte::sqlite::types::ValueRef,\n    ) -> ::rewryte::sqlite::types::FromSqlResult<Self> {\n        value.as_str().and_then(|s| match s {\n",
    );
    append_value_arms(&mut out, &decl.name, &decl.variants);
    out.append(
        "            _ => ::std::result::Result::Err(::rewryte::sqlite::types::FromSqlError::InvalidType),\n        })\n    }\n}\n",
    );
    proof {
        assert(out@ =~= lite_from_sql_rs(decl@));
    }
    out
}

/// Renders the row-mapping glue of a table for one backend.
fn write_from_row(decl: &Table, pg: bool) -> (out: String)
    ensures
        out@ == from_row_rs(decl@, pg),
{
    let mut out = if pg {
        let mut s = String::from_str("impl ::rewryte::postgres::FromRow for ");
        s.append(decl.name.as_str());
        s.append(" {\n    fn from_row(row: ::rewryte::postgres::Row) -> ::anyhow::Result<Self>\n");
        s
    } else {
        let mut s = String::from_str("impl ::rewryte::sqlite::FromRow for ");
        s.append(decl.name.as_str());
        s.append(
            " {\n    fn from_row(row: &::rewryte::sqlite::Row<'_>) -> ::anyhow::Result<Self>\n",
        );
        s
    };
    out.append(
        "    where\n        Self: Sized,\n    {\n        use ::anyhow::Context;\n\n        ::std::result::Result::Ok(Self {\n",
    );
    let ghost mid = out@;
    let ghost colseq = decl@.columns;
    let ncols = decl.columns.len();
    let mut i: usize = 0;
    while i < ncols
        invariant
            ncols == decl.columns@.len(),
            colseq == decl@.columns,
            colseq == decl.columns@.map_values(|c: Column| c@),
            i <= ncols,
            out@ + row_fields_rs(colseq, i as int, pg) == mid + row_fields_rs(colseq, 0, pg),
        decreases ncols - i,
    {
        let ghost pre = out@;
        out.append("            ");
        let sn = to_snake_case(decl.columns[i].name.as_str());
        out.append(sn.as_str());
        out.append(": row.");
        if pg {
            out.append("try_get(");
        } else {
            out.append("get(");
        }
        let ix = dec_string(i);
        out.append(ix.as_str());
        out.append(").context(\"Failed to get data for row index ");
        out.append(ix.as_str());
        out.append(": `");
        out.append(sn.as_str());
        out.append("`\")?,\n");
        proof {
            assert(colseq[i as int] == decl.columns@[i as int]@);
            assert(row_fields_rs(colseq, i as int, pg) == row_field_rs(colseq[i as int], i as int, pg)
                + row_fields_rs(colseq, i as int + 1, pg));
            assert(out@ =~= pre + row_field_rs(colseq[i as int], i as int, pg));
            assert(out@ + row_fields_rs(colseq, i as int + 1, pg) =~= pre + row_fields_rs(
                colseq,
                i as int,
                pg,
            ));
        }
        i += 1;
    }
    proof {
        assert(row_fields_rs(colseq, ncols as int, pg) =~= Seq::<char>::empty());
        assert(out@ =~= mid + row_fields_rs(colseq, 0, pg));
    }
    out.append("        })\n    }\n}\n");
    proof {
        assert(out@ =~= from_row_rs(decl@, pg));
    }
    out
}

/// One item's declaration.
pub open spec fn item_rs(it: ItemView, o: Options) -> Seq<char> {
    match it {
        ItemView::Enum(e) => enum_rs(e, o),
        ItemView::Table(t) => table_rs(t, o),
    }
}

/// All items, in source order: one declaration block per item, consecutive
/// blocks separated by a blank line.
pub open spec fn items_rs(items: Seq<ItemView>, i: int, o: Options) -> Seq<char>
    decreases items.len() - i,
{
    if i < 0 || i >= items.len() {
        Seq::<char>::empty()
    } else {
        item_rs(items[i], o) + (if i != items.len() - 1 {
            "\n"@
        } else {
            Seq::<char>::empty()
        }) + items_rs(items, i + 1, o)
    }
}

/// A whole schema's declarations.
pub open spec fn schema_rs(s: SchemaView, o: Options) -> Seq<char> {
    items_rs(s.items, 0, o)
}

/// Renders the host type for a column type.
pub fn write_types(types: &Types) -> (out: String)
    ensures
        out@ == rust_type(types@),
{
    match types {
        Types::Char => String::from_str("char"),
        Types::Varchar | Types::Text => String::from_str("::std::string::String"),
        Types::Number | Types::Int | Types::Serial | Types::MediumInt => String::from_str("i32"),
        Types::SmallInt => String::from_str("i16"),
        Types::BigInt => String::from_str("i64"),
        Types::Float | Types::Real | Types::Decimal => String::from_str("f64"),
        Types::Numeric => String::from_str("f32"),
        Types::DateTime => String::from_str("::chrono::DateTime<chrono::Utc>"),
        Types::Boolean => String::from_str("bool"),
        Types::Raw(raw) => raw.clone(),
    }
}

/// Renders a complete enum declaration.
pub fn write_enum(decl: &Enum, options: Options) -> (out: String)
    ensures
        out@ == enum_rs(decl@, options),
{
    let mut out = String::from_str(
        "#[derive(Clone, Copy, Debug, Hash, PartialEq, Eq, PartialOrd, Ord)]\n",
    );
    if options.juniper {
        out.append("#[derive(juniper::GraphQLEnum)]\n");
    }
    if options.serde {
        out.append("#[derive(serde::Deserialize, serde::Serialize)]\n");
    }
    out.append("pub enum ");
    out.append(decl.name.as_str());
    out.append(" {\n");
    let ghost header = out@;
    let ghost vseq = decl@.variants;
    let nvs = decl.variants.len();
    let mut i: usize = 0;
    while i < nvs
        invariant
            nvs == decl.variants@.len(),
            vseq == decl@.variants,
            vseq == decl.variants@.map_values(|v: String| v@),
            i <= nvs,
            out@ + variants_rs(vseq, i as int, options.serde) == header + variants_rs(
                vseq,
                0,
                options.serde,
            ),
        decreases nvs - i,
    {
        let ghost pre = out@;
        if options.serde {
            out.append("    #[serde(rename = \"");
            let kb = to_kebab_case(decl.variants[i].as_str());
            out.append(kb.as_str());
            out.append("\")]\n");
        }
        out.append("    ");
        out.append(decl.variants[i].as_str());
        out.append(",\n");
        proof {
            assert(variants_rs(vseq, i as int, options.serde) == variant_rs(
                vseq[i as int],
                options.serde,
            ) + variants_rs(vseq, i as int + 1, options.serde));
            assert(out@ =~= pre + variant_rs(vseq[i as int], options.serde));
            assert(out@ + variants_rs(vseq, i as int + 1, options.serde) =~= pre + variants_rs(
                vseq,
                i as int,
                options.serde,
            ));
        }
        i += 1;
    }
    proof {
        assert(variants_rs(vseq, nvs as int, options.serde) =~= Seq::<char>::empty());
        assert(out@ =~= header + variants_rs(vseq, 0, options.serde));
    }
    out.append("}\n");
    proof {
        assert(out@ =~= enum_decl_rs(decl@, options));
    }
    if options.postgres {
        let glue = write_pg_from_sql(decl);
        out.append(glue.as_str());
    }
    if options.sqlite {
        let to_glue = write_lite_to_sql(decl);
        out.append(to_glue.as_str());
        let from_glue = write_lite_from_sql(decl);
        out.append(from_glue.as_str());
    }
    proof {
        assert(out@ =~= enum_rs(decl@, options));
    }
    out
}

/// Renders a complete struct declaration.
pub fn write_table(decl: &Table, options: Options) -> (out: String)
    ensures
        out@ == table_rs(decl@, options),
{
    let mut out = String::from_str("#[derive(Clone, Debug, Hash, PartialEq, Eq, PartialOrd, Ord)]\n");
    if options.juniper {
        out.append("#[derive(juniper::GraphQLObject)]\n");
    }
    if options.serde {
        out.append("#[derive(serde::Deserialize, serde::Serialize)]\n");
    }
    out.append("pub struct ");
    out.append(decl.name.as_str());
    out.append(" {\n");
    let ghost header = out@;
    let ghost colseq = decl@.columns;
    let ncols = decl.columns.len();
    let mut i: usize = 0;
    while i < ncols
        invariant
            ncols == decl.columns@.len(),
            colseq == decl@.columns,
            colseq == decl.columns@.map_values(|c: Column| c@),
            i <= ncols,
            out@ + fields_rs(colseq, i as int) == header + fields_rs(colseq, 0),
        decreases ncols - i,
    {
        let ghost pre = out@;
        out.append("    pub ");
        let sn = to_snake_case(decl.columns[i].name.as_str());
        out.append(sn.as_str());
        out.append(": ");
        let column = &decl.columns[i];
        if column.null {
            out.append("::std::option::Option<");
            let t = write_types(&column.typ);
            out.append(t.as_str());
            out.append(">");
        } else {
            let t = write_types(&column.typ);
            out.append(t.as_str());
        }
        out.append(",\n");
        proof {
            assert(colseq[i as int] == decl.columns@[i as int]@);
            assert(fields_rs(colseq, i as int) == field_rs(colseq[i as int]) + fields_rs(
                colseq,
                i as int + 1,
            ));
            assert(out@ =~= pre + field_rs(colseq[i as int]));
            assert(out@ + fields_rs(colseq, i as int + 1) =~= pre + fields_rs(colseq, i as int));
        }
        i += 1;
    }
    proof {
        assert(fields_rs(colseq, ncols as int) =~= Seq::<char>::empty());
        assert(out@ =~= header + fields_rs(colseq, 0));
    }
    out.append("}\n");
    proof {
        assert(out@ =~= table_decl_rs(decl@, options));
    }
    if options.postgres {
        let glue = write_from_row(decl, true);
        out.append(glue.as_str());
    }
    if options.sqlite {
        let glue = write_from_row(decl, false);
        out.append(glue.as_str());
    }
    proof {
        assert(out@ =~= table_rs(decl@, options));
    }
    out
}

/// Renders one item's declaration.
pub fn write_item(item: &Item, options: Options) -> (out: String)
    ensures
        out@ == item_rs(item@, options),
{
    match item {
        Item::Enum(decl) => write_enum(decl, options),
        Item::Table(decl) => write_table(decl, options),
    }
}

/// Renders every item of the schema in source order, with a blank line
/// between consecutive declarations.
pub fn write_schema(schema: &Schema, options: Options) -> (out: String)
    ensures
        out@ == schema_rs(schema@, options),
{
    let mut out = String::new();
    let ghost iseq = schema@.items;
    let nits = schema.items.len();
    let mut i: usize = 0;
    while i < nits
        invariant
            nits == schema.items@.len(),
            iseq == schema@.items,
            iseq == schema.items@.map_values(|it: Item| it@),
            i <= nits,
            out@ + items_rs(iseq, i as int, options) == items_rs(iseq, 0, options),
        decreases nits - i,
    {
        let ghost pre = out@;
        let is = write_item(&schema.items[i], options);
        out.append(is.as_str());
        if i != nits - 1 {
            out.append("\n");
        }
        proof {
            assert(items_rs(iseq, i as int, options) == item_rs(iseq[i as int], options) + (
            if i as int != iseq.len() - 1 {
                "\n"@
            } else {
                Seq::<char>::empty()
            }) + items_rs(iseq, i as int + 1, options));
            assert(out@ + items_rs(iseq, i as int + 1, options) =~= pre + items_rs(
                iseq,
                i as int,
                options,
            ));
        }
        i += 1;
    }
    proof {
        assert(items_rs(iseq, nits as int, options) =~= Seq::<char>::empty());
        assert(out@ =~= items_rs(iseq, 0, options));
    }
    out
}

} // verus!
