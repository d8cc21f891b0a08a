//! The shared DDL formatting rules of the SQL dialect renderers, stated as
//! spec functions over the schema model and implemented once; the dialect
//! modules fix the dialect and re-export the contracts.

use vstd::prelude::*;

use crate::models::{
    spec_action_sql, Column, ColumnDefault, ColumnView, DefaultView, Enum, EnumView, ForeignKey,
    ForeignKeyView, Item, ItemView, Schema, SchemaView, Table, TableView, TypeView, Types,
};

verus! {

/// The SQL dialects with an implemented renderer.
#[derive(Clone, Copy, Debug, PartialEq, Eq, Structural)]
pub enum Dialect {
    Sqlite,
    Postgres,
}

/// The dialect's scalar keyword for each canonical column type; a raw type
/// passes through unchanged.
pub open spec fn type_sql(d: Dialect, t: TypeView) -> Seq<char> {
    match d {
        Dialect::Sqlite => match t {
            TypeView::Char | TypeView::Text => "TEXT"@,
            TypeView::Varchar => "VARCHAR"@,
            TypeView::Number | TypeView::SmallInt | TypeView::MediumInt | TypeView::Int
                | TypeView::Serial => "INTEGER"@,
            TypeView::BigInt => "BIGINT"@,
            TypeView::Float | TypeView::Real | TypeView::Numeric => "REAL"@,
            TypeView::Decimal => "DECIMAL"@,
            TypeView::DateTime => "DATETIME"@,
            TypeView::Boolean => "BOOLEAN"@,
            TypeView::Raw(raw) => raw,
        },
        Dialect::Postgres => match t {
            TypeView::Char => "\"char\""@,
            TypeView::Text => "TEXT"@,
            TypeView::Varchar => "VARCHAR"@,
            TypeView::SmallInt => "SMALLINT"@,
            TypeView::Number | TypeView::Int | TypeView::MediumInt | TypeView::Serial => "INT"@,
            TypeView::BigInt => "BIGINT"@,
            TypeView::Float | TypeView::Real => "REAL"@,
            TypeView::Numeric => "NUMERIC"@,
            TypeView::Decimal => "DECIMAL"@,
            TypeView::DateTime => "TIMESTAMP WITH TIME ZONE"@,
            TypeView::Boolean => "BOOL"@,
            TypeView::Raw(raw) => raw,
        },
    }
}

/// The dialect's current-UTC-timestamp expression, used for a `Now` default.
pub open spec fn now_sql(d: Dialect) -> Seq<char> {
    match d {
        Dialect::Sqlite => "(DATETIME('now', 'utc'))"@,
        Dialect::Postgres => "(timezone('utc', now()))"@,
    }
}

/// The default clause of a column, leading space included; an unset default
/// renders nothing.
pub open spec fn default_sql(d: Dialect, df: DefaultView) -> Seq<char> {
    match df {
        DefaultView::Unset => Seq::<char>::empty(),
        DefaultView::Now => " DEFAULT "@ + now_sql(d),
        DefaultView::Null => " DEFAULT NULL"@,
        DefaultView::Raw(raw) => " DEFAULT "@ + raw,
    }
}

/// One column line (without the trailing comma): name, type keyword,
/// a `NOT NULL` marker unless the column is nullable, then the default.
pub open spec fn column_sql(d: Dialect, c: ColumnView) -> Seq<char> {
    "  "@ + c.name + " "@ + type_sql(d, c.typ) + (if !c.null {
        " NOT NULL"@
    } else {
        Seq::<char>::empty()
    }) + default_sql(d, c.default)
}

/// All column lines, each terminated by a comma and newline.
pub open spec fn columns_sql(d: Dialect, cols: Seq<ColumnView>, i: int) -> Seq<char>
    decreases cols.len() - i,
{
    if i < 0 || i >= cols.len() {
        Seq::<char>::empty()
    } else {
        column_sql(d, cols[i]) + ",\n"@ + columns_sql(d, cols, i + 1)
    }
}

/// Names joined by `", "`, with no trailing separator.
pub open spec fn name_list_sql(names: Seq<Seq<char>>, i: int) -> Seq<char>
    decreases names.len() - i,
{
    if i < 0 || i >= names.len() {
        Seq::<char>::empty()
    } else if i == names.len() - 1 {
        names[i]
    } else {
        names[i] + ", "@ + name_list_sql(names, i + 1)
    }
}

/// One foreign-key clause.
pub open spec fn foreign_key_sql(fk: ForeignKeyView) -> Seq<char> {
    "  FOREIGN KEY ("@ + fk.local + ") REFERENCES "@ + fk.table + "("@ + fk.foreign
        + ") ON UPDATE "@ + spec_action_sql(fk.update) + " ON DELETE "@ + spec_action_sql(
        fk.delete,
    )
}

/// Foreign-key clauses joined by `",\n"`, with no trailing separator.
pub open spec fn foreign_keys_sql(fks: Seq<ForeignKeyView>, i: int) -> Seq<char>
    decreases fks.len() - i,
{
    if i < 0 || i >= fks.len() {
        Seq::<char>::empty()
    } else if i == fks.len() - 1 {
        foreign_key_sql(fks[i])
    } else {
        foreign_key_sql(fks[i]) + ",\n"@ + foreign_keys_sql(fks, i + 1)
    }
}

/// Everything after the primary-key clause: the optional foreign-key and
/// unique clauses with their exact comma and newline placement, then the
/// closing `");"`. The primary-key clause is followed by a bare newline only
/// when it is the last clause.
pub open spec fn table_tail_sql(t: TableView) -> Seq<char> {
    (if t.foreign_keys.len() > 0 {
        ",\n"@ + foreign_keys_sql(t.foreign_keys, 0) + (if t.unique_keys.len() == 0 {
            "\n"@
        } else {
            Seq::<char>::empty()
        })
    } else if t.unique_keys.len() == 0 {
        "\n"@
    } else {
        Seq::<char>::empty()
    }) + (if t.unique_keys.len() > 0 {
        ",\n  UNIQUE ("@ + name_list_sql(t.unique_keys, 0) + ")\n"@
    } else {
        Seq::<char>::empty()
    }) + ");"@
}

/// A complete `CREATE TABLE` statement.
pub open spec fn table_sql(d: Dialect, t: TableView) -> Seq<char> {
    "CREATE TABLE"@ + (if t.not_exists {
        " IF NOT EXISTS"@
    } else {
        Seq::<char>::empty()
    }) + " "@ + t.name + " (\n"@ + columns_sql(d, t.columns, 0) + "  PRIMARY KEY ("@
        + name_list_sql(t.primary_keys, 0) + ")"@ + table_tail_sql(t)
}

/// Enum variant lines: each quoted, comma-separated with no trailing comma,
/// one per line.
pub open spec fn enum_variants_sql(vs: Seq<Seq<char>>, i: int) -> Seq<char>
    decreases vs.len() - i,
{
    if i < 0 || i >= vs.len() {
        Seq::<char>::empty()
    } else {
        "  '"@ + vs[i] + "'"@ + (if i != vs.len() - 1 {
            ","@
        } else {
            Seq::<char>::empty()
        }) + "\n"@ + enum_variants_sql(vs, i + 1)
    }
}

/// A `CREATE TYPE ... AS ENUM` statement in the dialect with native enum
/// types; the dialect without them renders nothing at all.
pub open spec fn enum_sql(d: Dialect, e: EnumView) -> Seq<char> {
    match d {
        Dialect::Sqlite => Seq::<char>::empty(),
        Dialect::Postgres => "CREATE TYPE "@ + e.name + " AS ENUM (\n"@ + enum_variants_sql(
            e.variants,
            0,
        ) + ");"@,
    }
}

/// One item's statement.
pub open spec fn item_sql(d: Dialect, it: ItemView) -> Seq<char> {
    match it {
        ItemView::Enum(e) => enum_sql(d, e),
        ItemView::Table(t) => table_sql(d, t),
    }
}

/// All items in source order: one block per item, each followed by a
/// newline, consecutive blocks separated by a blank line.
pub open spec fn schema_items_sql(d: Dialect, items: Seq<ItemView>, i: int) -> Seq<char>
    decreases items.len() - i,
{
    if i < 0 || i >= items.len() {
        Seq::<char>::empty()
    } else {
        item_sql(d, items[i]) + "\n"@ + (if i != items.len() - 1 {
            "\n"@
        } else {
            Seq::<char>::empty()
        }) + schema_items_sql(d, items, i + 1)
    }
}

/// A whole schema's output.
pub open spec fn schema_sql(d: Dialect, s: SchemaView) -> Seq<char> {
    schema_items_sql(d, s.items, 0)
}

// ---------------------------------------------------------------------------
// Laws of the rendering rules
// ---------------------------------------------------------------------------

/// Law: rendering is deterministic — the same schema rendered twice to the
/// same dialect yields identical text.
pub proof fn lemma_render_deterministic(
    d: Dialect,
    s: SchemaView,
    out1: Seq<char>,
    out2: Seq<char>,
)
    requires
        out1 == schema_sql(d, s),
        out2 == schema_sql(d, s),
    ensures
        out1 == out2,
{
}

/// Law: the dialect without native enum types silently skips enum items — a
/// schema holding only an enum renders to nothing but the item separator.
pub proof fn lemma_enum_skipped(e: EnumView)
    ensures
        schema_sql(Dialect::Sqlite, (SchemaView { items: seq![ItemView::Enum(e)] })) == "\n"@,
{
    let items = seq![ItemView::Enum(e)];
    assert(schema_items_sql(Dialect::Sqlite, items, 1) =~= Seq::<char>::empty());
    assert(schema_sql(Dialect::Sqlite, SchemaView { items }) =~= "\n"@);
}

/// Law: an explicit null default renders the same `DEFAULT NULL` clause in
/// every SQL dialect, while a `now()` default renders each dialect's own
/// current-UTC-timestamp expression, and those expressions differ.
pub proof fn lemma_default_translation(d1: Dialect, d2: Dialect)
    ensures
        default_sql(d1, DefaultView::Null) == default_sql(d2, DefaultView::Null),
        default_sql(Dialect::Sqlite, DefaultView::Now) != default_sql(
            Dialect::Postgres,
            DefaultView::Now,
        ),
{
    reveal_strlit(" DEFAULT ");
    reveal_strlit("(DATETIME('now', 'utc'))");
    reveal_strlit("(timezone('utc', now()))");
    let a = default_sql(Dialect::Sqlite, DefaultView::Now);
    let b = default_sql(Dialect::Postgres, DefaultView::Now);
    assert(a[10] == 'D');
    assert(b[10] == 't');
    assert(a != b);
}

// ---------------------------------------------------------------------------
// Executable renderer, shared by the dialect modules
// ---------------------------------------------------------------------------

/// Renders the dialect's keyword for a column type.
pub fn types_string(d: Dialect, types: &Types) -> (out: String)
    ensures
        out@ == type_sql(d, types@),
{
    match d {
        Dialect::Sqlite => match types {
            Types::Char | Types::Text => String::from_str("TEXT"),
            Types::Varchar => String::from_str("VARCHAR"),
            Types::Number | Types::SmallInt | Types::MediumInt | Types::Int | Types::Serial => {
                String::from_str("INTEGER")
            },
            Types::BigInt => String::from_str("BIGINT"),
            Types::Float | Types::Real | Types::Numeric => String::from_str("REAL"),
            Types::Decimal => String::from_str("DECIMAL"),
            Types::DateTime => String::from_str("DATETIME"),
            Types::Boolean => String::from_str("BOOLEAN"),
            Types::Raw(raw) => raw.clone(),
        },
        Dialect::Postgres => match types {
            Types::Char => String::from_str("\"char\""),
            Types::Text => String::from_str("TEXT"),
            Types::Varchar => String::from_str("VARCHAR"),
            Types::SmallInt => String::from_str("SMALLINT"),
            Types::Number | Types::Int | Types::MediumInt | Types::Serial => {
                String::from_str("INT")
            },
            Types::BigInt => String::from_str("BIGINT"),
            Types::Float | Types::Real => String::from_str("REAL"),
            Types::Numeric => String::from_str("NUMERIC"),
            Types::Decimal => String::from_str("DECIMAL"),
            Types::DateTime => String::from_str("TIMESTAMP WITH TIME ZONE"),
            Types::Boolean => String::from_str("BOOL"),
            Types::Raw(raw) => raw.clone(),
        },
    }
}

/// Renders a column's default clause.
pub fn column_default_string(d: Dialect, column_default: &ColumnDefault) -> (out: String)
    ensures
        out@ == default_sql(d, column_default@),
{
    match column_default {
        ColumnDefault::Unset => String::new(),
        ColumnDefault::Now => {
            let mut out = String::from_str(" DEFAULT ");
            match d {
                Dialect::Sqlite => out.append("(DATETIME('now', 'utc'))"),
                Dialect::Postgres => out.append("(timezone('utc', now()))"),
            }
            out
        },
        ColumnDefault::Null => String::from_str(" DEFAULT NULL"),
        ColumnDefault::Raw(raw) => {
            let mut out = String::from_str(" DEFAULT ");
            out.append(raw.as_str());
            out
        },
    }
}

/// Renders one column line, without the trailing comma.
pub fn column_string(d: Dialect, column: &Column) -> (out: String)
    ensures
        out@ == column_sql(d, column@),
{
    let mut out = String::from_str("  ");
    out.append(column.name.as_str());
    out.append(" ");
    let t = types_string(d, &column.typ);
    out.append(t.as_str());
    if !column.null {
        out.append(" NOT NULL");
    }
    let df = column_default_string(d, &column.default);
    out.append(df.as_str());
    out
}

/// Renders one foreign-key clause.
pub fn foreign_key_string(foreign_key: &ForeignKey) -> (out: String)
    ensures
        out@ == foreign_key_sql(foreign_key@),
{
    let mut out = String::from_str("  FOREIGN KEY (");
    out.append(foreign_key.local.as_str());
    out.append(") REFERENCES ");
    out.append(foreign_key.table.as_str());
    out.append("(");
    out.append(foreign_key.foreign.as_str());
    out.append(") ON UPDATE ");
    let upd = foreign_key.update.to_string();
    out.append(upd.as_str());
    out.append(" ON DELETE ");
    let del = foreign_key.delete.to_string();
    out.append(del.as_str());
    out
}

/// Appends names joined by `", "` to `out`.
fn append_name_list(out: &mut String, names: &Vec<String>)
    ensures
        final(out)@ == old(out)@ + name_list_sql(names@.map_values(|n: String| n@), 0),
{
    let ghost base = out@;
    let ghost seqs = names@.map_values(|n: String| n@);
    let n = names.len();
    let mut i: usize = 0;
    while i < n
        invariant
            n == names@.len(),
            seqs == names@.map_values(|m: String| m@),
            i <= n,
            out@ + name_list_sql(seqs, i as int) == base + name_list_sql(seqs, 0),
        decreases n - i,
    {
        let ghost pre = out@;
        out.append(names[i].as_str());
        if i != n - 1 {
            out.append(", ");
            proof {
                assert(name_list_sql(seqs, i as int) == seqs[i as int] + ", "@ + name_list_sql(
                    seqs,
                    i as int + 1,
                ));
                assert(out@ + name_list_sql(seqs, i as int + 1) =~= pre + name_list_sql(
                    seqs,
                    i as int,
                ));
            }
        } else {
            proof {
                assert(name_list_sql(seqs, i as int) == seqs[i as int]);
                assert(name_list_sql(seqs, i as int + 1) =~= Seq::<char>::empty());
                assert(out@ + name_list_sql(seqs, i as int + 1) =~= pre + name_list_sql(
                    seqs,
                    i as int,
                ));
            }
        }
        i += 1;
    }
    proof {
        assert(name_list_sql(seqs, n as int) =~= Seq::<char>::empty());
        assert(out@ =~= base + name_list_sql(seqs, 0));
    }
}

/// Renders a complete `CREATE TABLE` statement.
pub fn table_string(d: Dialect, decl: &Table) -> (out: String)
    ensures
        out@ == table_sql(d, decl@),
{
    let mut out = String::from_str("CREATE TABLE");
    if decl.not_exists {
        out.append(" IF NOT EXISTS");
    }
    out.append(" ");
    out.append(decl.name.as_str());
    out.append(" (\n");
    let ghost header = out@;

    // column lines
    let ghost colseq = decl@.columns;
    let ncols = decl.columns.len();
    let mut i: usize = 0;
    while i < ncols
        invariant
            ncols == decl.columns@.len(),
            colseq == decl@.columns,
            colseq == decl.columns@.map_values(|c: Column| c@),
            i <= ncols,
            out@ + columns_sql(d, colseq, i as int) == header + columns_sql(d, colseq, 0),
        decreases ncols - i,
    {
        let ghost pre = out@;
        let cs = column_string(d, &decl.columns[i]);
        out.append(cs.as_str());
        out.append(",\n");
        proof {
            assert(colseq[i as int] == decl.columns@[i as int]@);
            assert(columns_sql(d, colseq, i as int) == column_sql(d, colseq[i as int]) + ",\n"@
                + columns_sql(d, colseq, i as int + 1));
            assert(out@ + columns_sql(d, colseq, i as int + 1) =~= pre + columns_sql(
                d,
                colseq,
                i as int,
            ));
        }
        i += 1;
    }
    proof {
        assert(columns_sql(d, colseq, ncols as int) =~= Seq::<char>::empty());
        assert(out@ =~= header + columns_sql(d, colseq, 0));
    }

    // primary-key clause
    out.append("  PRIMARY KEY (");
    append_name_list(&mut out, &decl.primary_keys);
    out.append(")");
    let ghost with_pk = out@;
    proof {
        assert(decl@.primary_keys == decl.primary_keys@.map_values(|n: String| n@));
        assert(with_pk =~= header + columns_sql(d, colseq, 0) + "  PRIMARY KEY ("@ + name_list_sql(
            decl@.primary_keys,
            0,
        ) + ")"@);
    }

    // foreign-key clauses
    if decl.foreign_keys.len() > 0 {
        out.append(",\n");
        let ghost fkbase = out@;
        let ghost fkseq = decl@.foreign_keys;
        let nfks = decl.foreign_keys.len();
        let mut j: usize = 0;
        while j < nfks
            invariant
                nfks == decl.foreign_keys@.len(),
                nfks > 0,
                fkseq == decl@.foreign_keys,
                fkseq == decl.foreign_keys@.map_values(|k: ForeignKey| k@),
                j <= nfks,
                out@ + foreign_keys_sql(fkseq, j as int) == fkbase + foreign_keys_sql(fkseq, 0),
            decreases nfks - j,
        {
            let ghost pre = out@;
            let fs = foreign_key_string(&decl.foreign_keys[j]);
            out.append(fs.as_str());
            if j != nfks - 1 {
                out.append(",\n");
                proof {
                    assert(foreign_keys_sql(fkseq, j as int) == foreign_key_sql(fkseq[j as int])
                        + ",\n"@ + foreign_keys_sql(fkseq, j as int + 1));
                    assert(out@ + foreign_keys_sql(fkseq, j as int + 1) =~= pre + foreign_keys_sql(
                        fkseq,
                        j as int,
                    ));
                }
            } else {
                proof {
                    assert(foreign_keys_sql(fkseq, j as int) == foreign_key_sql(fkseq[j as int]));
                    assert(foreign_keys_sql(fkseq, j as int + 1) =~= Seq::<char>::empty());
                    assert(out@ + foreign_keys_sql(fkseq, j as int + 1) =~= pre + foreign_keys_sql(
                        fkseq,
                        j as int,
                    ));
                }
            }
            j += 1;
        }
        proof {
            assert(foreign_keys_sql(fkseq, nfks as int) =~= Seq::<char>::empty());
            assert(out@ =~= fkbase + foreign_keys_sql(fkseq, 0));
        }
        if decl.unique_keys.len() == 0 {
            out.append("\n");
        }
    } else if decl.unique_keys.len() == 0 {
        out.append("\n");
    }
    proof {
        assert(out@ =~= with_pk + (if decl@.foreign_keys.len() > 0 {
            ",\n"@ + foreign_keys_sql(decl@.foreign_keys, 0) + (if decl@.unique_keys.len() == 0 {
                "\n"@
            } else {
                Seq::<char>::empty()
            })
        } else if decl@.unique_keys.len() == 0 {
            "\n"@
        } else {
            Seq::<char>::empty()
        }));
    }
    let ghost with_fk = out@;

    // unique clause
    if decl.unique_keys.len() > 0 {
        out.append(",\n  UNIQUE (");
        append_name_list(&mut out, &decl.unique_keys);
        out.append(")\n");
        proof {
            assert(decl@.unique_keys == decl.unique_keys@.map_values(|n: String| n@));
            assert(out@ =~= with_fk + (",\n  UNIQUE ("@ + name_list_sql(decl@.unique_keys, 0)
                + ")\n"@));
        }
    }
    out.append(");");
    proof {
        assert(out@ =~= table_sql(d, decl@));
    }
    out
}

/// Renders a `CREATE TYPE ... AS ENUM` statement for the dialect with native
/// enum types; the other dialect renders nothing.
pub fn enum_string(d: Dialect, decl: &Enum) -> (out: String)
    ensures
        out@ == enum_sql(d, decl@),
{
    match d {
        Dialect::Sqlite => String::new(),
        Dialect::Postgres => {
            let mut out = String::from_str("CREATE TYPE ");
            out.append(decl.name.as_str());
            out.append(" AS ENUM (\n");
            let ghost header = out@;
            let ghost vseq = decl@.variants;
            let nvs = decl.variants.len();
            let mut i: usize = 0;
            while i < nvs
                invariant
                    nvs == decl.variants@.len(),
                    vseq == decl@.variants,
                    vseq == decl.variants@.map_values(|v: String| v@),
                    i <= nvs,
                    out@ + enum_variants_sql(vseq, i as int) == header + enum_variants_sql(
                        vseq,
                        0,
                    ),
                decreases nvs - i,
            {
                let ghost pre = out@;
                out.append("  '");
                out.append(decl.variants[i].as_str());
                out.append("'");
                if i != nvs - 1 {
                    out.append(",");
                }
                out.append("\n");
                proof {
                    assert(enum_variants_sql(vseq, i as int) == "  '"@ + vseq[i as int] + "'"@ + (
                    if i as int != vseq.len() - 1 {
                        ","@
                    } else {
                        Seq::<char>::empty()
                    }) + "\n"@ + enum_variants_sql(vseq, i as int + 1));
                    assert(out@ + enum_variants_sql(vseq, i as int + 1) =~= pre
                        + enum_variants_sql(vseq, i as int));
                }
                i += 1;
            }
            proof {
                assert(enum_variants_sql(vseq, nvs as int) =~= Seq::<char>::empty());
                assert(out@ =~= header + enum_variants_sql(vseq, 0));
            }
            out.append(");");
            proof {
                assert(out@ =~= enum_sql(d, decl@));
            }
            out
        },
    }
}

/// Renders one item.
pub fn item_string(d: Dialect, item: &Item) -> (out: String)
    ensures
        out@ == item_sql(d, item@),
{
    match item {
        Item::Enum(decl) => enum_string(d, decl),
        Item::Table(decl) => table_string(d, decl),
    }
}

/// Renders a whole schema: one block per item in source order, blank-line
/// separated.
pub fn schema_string(d: Dialect, schema: &Schema) -> (out: String)
    ensures
        out@ == schema_sql(d, schema@),
{
    let mut out = String::new();
    let ghost iseq = schema@.items;
    let nits = schema.items.len();
    let mut i: usize = 0;
    while i < nits
        invariant
            nits == schema.items@.len(),
            iseq == schema@.items,
            iseq == schema.items@.map_values(|it: Item| it@),
            i <= nits,
            out@ + schema_items_sql(d, iseq, i as int) == schema_items_sql(d, iseq, 0),
        decreases nits - i,
    {
        let ghost pre = out@;
        let is = item_string(d, &schema.items[i]);
        out.append(is.as_str());
        out.append("\n");
        if i != nits - 1 {
            out.append("\n");
        }
        proof {
            assert(schema_items_sql(d, iseq, i as int) == item_sql(d, iseq[i as int]) + "\n"@ + (
            if i as int != iseq.len() - 1 {
                "\n"@
            } else {
                Seq::<char>::empty()
            }) + schema_items_sql(d, iseq, i as int + 1));
            assert(out@ + schema_items_sql(d, iseq, i as int + 1) =~= pre + schema_items_sql(
                d,
                iseq,
                i as int,
            ));
        }
        i += 1;
    }
    proof {
        assert(schema_items_sql(d, iseq, nits as int) =~= Seq::<char>::empty());
        assert(out@ =~= schema_items_sql(d, iseq, 0));
    }
    out
}

} // verus!
