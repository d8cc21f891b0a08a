use rewryte::diagnostic::Context;
use rewryte::generator::{Error as GenError, FormatType};
use rewryte::models::{Action, Column, ColumnDefault, Enum, Item, Schema, Table, Types};
use rewryte::parser::parse;
use rewryte::rust::Options;

#[test]
fn types_round_trip() {
    let canonical = [
        ("bigInt", Types::BigInt),
        ("bool", Types::Boolean),
        ("boolean", Types::Boolean),
        ("char", Types::Char),
        ("dateTime", Types::DateTime),
        ("decimal", Types::Decimal),
        ("float", Types::Float),
        ("int", Types::Int),
        ("mediumInt", Types::MediumInt),
        ("number", Types::Number),
        ("numeric", Types::Numeric),
        ("real", Types::Real),
        ("serial", Types::Serial),
        ("smallInt", Types::SmallInt),
        ("text", Types::Text),
        ("varchar", Types::Varchar),
    ];
    for (spelling, expected) in canonical {
        assert_eq!(Types::from_str(spelling), expected, "{}", spelling);
    }
    assert_eq!(Types::from_str("foo"), Types::Raw("foo".to_string()));
    // parsing is case-sensitive
    assert_eq!(Types::from_str("BigInt"), Types::Raw("BigInt".to_string()));
}

#[test]
fn action_round_trip() {
    let canonical = [
        ("no action", Action::NoAction, "NO ACTION"),
        ("restrict", Action::Restrict, "RESTRICT"),
        ("set null", Action::SetNull, "SET NULL"),
        ("set default", Action::SetDefault, "SET DEFAULT"),
        ("cascade", Action::Cascade, "CASCADE"),
    ];
    for (phrase, action, keyword) in canonical {
        let parsed = Action::try_from(phrase).expect("a canonical phrase parses");
        assert_eq!(parsed, action, "{}", phrase);
        assert_eq!(parsed.to_string(), keyword, "{}", phrase);
    }
    match Action::try_from("explode") {
        Err(rewryte::error::Error::InvalidAction(word)) => assert_eq!(word, "explode"),
        other => panic!("expected an invalid-action error, got {:?}", other),
    }
}

#[test]
fn format_type_selectors() {
    assert!(matches!(FormatType::try_from("mysql"), Ok(FormatType::MySQL)));
    assert!(matches!(
        FormatType::try_from("postgres"),
        Ok(FormatType::PostgreSQL)
    ));
    assert!(matches!(
        FormatType::try_from("postgresql"),
        Ok(FormatType::PostgreSQL)
    ));
    assert!(matches!(FormatType::try_from("rust"), Ok(FormatType::Rust)));
    assert!(matches!(FormatType::try_from("sqlite"), Ok(FormatType::SQLite)));
    match FormatType::try_from("yaml") {
        Err(GenError::InvalidFormat(name)) => assert_eq!(name, "yaml"),
        other => panic!("expected an invalid-format error, got {:?}", other),
    }
}

fn example_schema() -> Schema {
    Schema {
        items: vec![
            Item::Enum(Enum {
                name: "Rating".to_string(),
                not_exists: false,
                variants: vec!["Explicit".to_string(), "General".to_string()],
            }),
            Item::Table(Table {
                name: "Example".to_string(),
                not_exists: true,
                columns: vec![Column {
                    name: "Id".to_string(),
                    typ: Types::Text,
                    null: false,
                    default: ColumnDefault::Unset,
                }],
                primary_keys: vec!["Id".to_string()],
                foreign_keys: vec![],
                unique_keys: vec![],
            }),
        ],
    }
}

#[test]
fn render_is_idempotent() {
    let schema = example_schema();
    assert_eq!(
        rewryte::sqlite::write_schema(&schema),
        rewryte::sqlite::write_schema(&schema)
    );
    assert_eq!(
        rewryte::postgresql::write_schema(&schema),
        rewryte::postgresql::write_schema(&schema)
    );
    let options = Options::default();
    assert_eq!(
        rewryte::rust::write_schema(&schema, options),
        rewryte::rust::write_schema(&schema, options)
    );
}

#[test]
fn sqlite_skips_enums() {
    let decl = Enum {
        name: "Rating".to_string(),
        not_exists: false,
        variants: vec!["Explicit".to_string()],
    };
    assert_eq!(rewryte::sqlite::write_enum(&decl), "");
    let schema = Schema {
        items: vec![Item::Enum(decl)],
    };
    assert_eq!(rewryte::sqlite::write_schema(&schema), "\n");
}

#[test]
fn default_translation_per_dialect() {
    assert_eq!(
        rewryte::sqlite::write_column_default(&ColumnDefault::Now),
        " DEFAULT (DATETIME('now', 'utc'))"
    );
    assert_eq!(
        rewryte::postgresql::write_column_default(&ColumnDefault::Now),
        " DEFAULT (timezone('utc', now()))"
    );
    assert_eq!(
        rewryte::sqlite::write_column_default(&ColumnDefault::Null),
        " DEFAULT NULL"
    );
    assert_eq!(
        rewryte::postgresql::write_column_default(&ColumnDefault::Null),
        " DEFAULT NULL"
    );
    assert_eq!(
        rewryte::sqlite::write_column_default(&ColumnDefault::Raw("7".to_string())),
        " DEFAULT 7"
    );
    assert_eq!(rewryte::sqlite::write_column_default(&ColumnDefault::Unset), "");
}

#[test]
fn parse_and_render_simple_table() {
    let source = "table Example [exists] { Id text [primary key] Name text }";
    let expected = "CREATE TABLE IF NOT EXISTS Example (
  Id TEXT NOT NULL,
  Name TEXT NOT NULL,
  PRIMARY KEY (Id)
);";
    let mut ctx = Context::new(0);
    let schema = parse(&mut ctx, source).expect("the scenario parses");
    assert_eq!(schema.items.len(), 1);
    match &schema.items[0] {
        Item::Table(table) => {
            assert_eq!(rewryte::sqlite::write_table(table), expected);
            assert_eq!(rewryte::postgresql::write_table(table), expected);
        }
        other => panic!("expected a table, got {:?}", other),
    }
}

#[test]
fn parse_and_render_foreign_key_clause() {
    let source =
        "table Example [exists] { Id text [primary key] Name text Other text [ref: Other.Id] }";
    let expected = "CREATE TABLE IF NOT EXISTS Example (
  Id TEXT NOT NULL,
  Name TEXT NOT NULL,
  Other TEXT NOT NULL,
  PRIMARY KEY (Id),
  FOREIGN KEY (Other) REFERENCES Other(Id) ON UPDATE NO ACTION ON DELETE NO ACTION
);";
    let mut ctx = Context::new(0);
    let schema = parse(&mut ctx, source).expect("the scenario parses");
    match &schema.items[0] {
        Item::Table(table) => {
            assert_eq!(rewryte::sqlite::write_table(table), expected);
            assert_eq!(rewryte::postgresql::write_table(table), expected);
        }
        other => panic!("expected a table, got {:?}", other),
    }
}

#[test]
fn rust_renderer_snake_cases_fields() {
    let table = Table {
        name: "Example".to_string(),
        not_exists: false,
        columns: vec![
            Column {
                name: "FooBar".to_string(),
                typ: Types::BigInt,
                null: false,
                default: ColumnDefault::Unset,
            },
            Column {
                name: "MaybeText".to_string(),
                typ: Types::Text,
                null: true,
                default: ColumnDefault::Unset,
            },
        ],
        primary_keys: vec![],
        foreign_keys: vec![],
        unique_keys: vec![],
    };
    let out = rewryte::rust::write_table(&table, Options::default());
    assert_eq!(
        out,
        "#[derive(Clone, Debug, Hash, PartialEq, Eq, PartialOrd, Ord)]
pub struct Example {
    pub foo_bar: i64,
    pub maybe_text: ::std::option::Option<::std::string::String>,
}
"
    );
}

#[test]
fn rust_renderer_kebab_cases_serde_renames() {
    let decl = Enum {
        name: "Rating".to_string(),
        not_exists: false,
        variants: vec!["MostlyHarmless".to_string()],
    };
    let options = Options {
        juniper: true,
        serde: true,
        postgres: false,
        sqlite: false,
    };
    let out = rewryte::rust::write_enum(&decl, options);
    assert_eq!(
        out,
        "#[derive(Clone, Copy, Debug, Hash, PartialEq, Eq, PartialOrd, Ord)]
#[derive(juniper::GraphQLEnum)]
#[derive(serde::Deserialize, serde::Serialize)]
pub enum Rating {
    #[serde(rename = \"mostly-harmless\")]
    MostlyHarmless,
}
"
    );
}

#[test]
fn schema_fmt_dispatches_per_target() {
    let schema = example_schema();
    assert_eq!(
        schema.fmt(FormatType::SQLite),
        rewryte::sqlite::write_schema(&schema)
    );
    assert_eq!(
        schema.fmt(FormatType::PostgreSQL),
        rewryte::postgresql::write_schema(&schema)
    );
    let empty = Schema { items: vec![] };
    assert_eq!(empty.fmt(FormatType::MySQL), "");
}

#[test]
fn sqlite_separates_items_by_a_blank_line() {
    let schema = example_schema();
    // the enum is skipped, but its separator line remains
    assert_eq!(
        rewryte::sqlite::write_schema(&schema),
        "\n\nCREATE TABLE IF NOT EXISTS Example (
  Id TEXT NOT NULL,
  PRIMARY KEY (Id)
);\n"
    );
}

#[test]
fn postgresql_separates_items_by_a_blank_line() {
    let schema = example_schema();
    assert_eq!(
        rewryte::postgresql::write_schema(&schema),
        "CREATE TYPE Rating AS ENUM (
  'Explicit',
  'General'
);

CREATE TABLE IF NOT EXISTS Example (
  Id TEXT NOT NULL,
  PRIMARY KEY (Id)
);\n"
    );
}

#[test]
fn rust_renderer_separates_items_by_a_blank_line() {
    let schema = example_schema();
    let out = rewryte::rust::write_schema(&schema, Options::default());
    assert_eq!(
        out,
        "#[derive(Clone, Copy, Debug, Hash, PartialEq, Eq, PartialOrd, Ord)]
pub enum Rating {
    Explicit,
    General,
}

#[derive(Clone, Debug, Hash, PartialEq, Eq, PartialOrd, Ord)]
pub struct Example {
    pub id: ::std::string::String,
}
"
    );
}

#[test]
fn mysql_renders_an_empty_schema_to_nothing() {
    let schema = Schema { items: vec![] };
    assert_eq!(rewryte::mysql::write_schema(&schema), "");
}

#[test]
fn context_starts_empty() {
    let ctx = Context::new(7);
    assert_eq!(ctx.diagnostics().len(), 0);
    assert_eq!(ctx.file_id, 7);
}

#[test]
fn rust_renderer_emits_postgres_enum_glue() {
    let decl = Enum {
        name: "Rating".to_string(),
        not_exists: false,
        variants: vec!["Explicit".to_string(), "General".to_string()],
    };
    let options = Options {
        juniper: false,
        serde: false,
        postgres: true,
        sqlite: false,
    };
    let out = rewryte::rust::write_enum(&decl, options);
    let expected = "#[derive(Clone, Copy, Debug, Hash, PartialEq, Eq, PartialOrd, Ord)]
pub enum Rating {
    Explicit,
    General,
}
impl<'r> ::rewryte::postgres::types::FromSql<'r> for Rating {
    fn from_sql(
        _type: &::rewryte::postgres::types::Type,
        buf: &'r [u8],
    ) -> ::std::result::Result<
        Rating,
        ::std::boxed::Box<dyn ::std::error::Error + ::std::marker::Sync + ::std::marker::Send>,
    > {
        match ::std::str::from_utf8(buf)? {
            \"explicit\" => ::std::result::Result::Ok(Rating::Explicit),
            \"general\" => ::std::result::Result::Ok(Rating::General),
            s => ::std::result::Result::Err(::std::convert::Into::into(format!(\"invalid variant `{}`\", s))),
        }
    }

    fn accepts(type_: &::rewryte::postgres::types::Type) -> bool {
        if type_.name() != \"Rating\" {
            return false;
        }
        match *type_.kind() {
            ::rewryte::postgres::types::Kind::Enum(ref variants) => {
                if variants.len() != 2 {
                    return false;
                }
                variants.iter().all(|v| match &**v {
                    \"Explicit\" => true,
                    \"General\" => true,
                    _ => false,
                })
            }
            _ => false,
        }
    }
}
";
    assert_eq!(out, expected);
}

#[test]
fn rust_renderer_emits_sqlite_enum_glue() {
    let decl = Enum {
        name: "Rating".to_string(),
        not_exists: false,
        variants: vec!["Explicit".to_string()],
    };
    let options = Options {
        juniper: false,
        serde: false,
        postgres: false,
        sqlite: true,
    };
    let out = rewryte::rust::write_enum(&decl, options);
    let expected = "#[derive(Clone, Copy, Debug, Hash, PartialEq, Eq, PartialOrd, Ord)]
pub enum Rating {
    Explicit,
}
impl ::rewryte::sqlite::types::ToSql for Rating {
    fn to_sql(&self) -> ::rewryte::sqlite::Result<::rewryte::sqlite::types::ToSqlOutput> {
        match self {
            Rating::Explicit => ::std::result::Result::Ok(\"explicit\".into()),
        }
    }
}
impl ::rewryte::sqlite::types::FromSql for Rating {
    fn column_result(
        value: ::rewryte::sqlite::types::ValueRef,
    ) -> ::rewryte::sqlite::types::FromSqlResult<Self> {
        value.as_str().and_then(|s| match s {
            \"explicit\" => ::std::result::Result::Ok(Rating::Explicit),
            _ => ::std::result::Result::Err(::rewryte::sqlite::types::FromSqlError::InvalidType),
        })
    }
}
";
    assert_eq!(out, expected);
}

#[test]
fn rust_renderer_emits_row_mapping_glue() {
    let table = Table {
        name: "Example".to_string(),
        not_exists: false,
        columns: vec![
            Column {
                name: "Id".to_string(),
                typ: Types::BigInt,
                null: false,
                default: ColumnDefault::Unset,
            },
            Column {
                name: "FooBar".to_string(),
                typ: Types::Text,
                null: false,
                default: ColumnDefault::Unset,
            },
        ],
        primary_keys: vec![],
        foreign_keys: vec![],
        unique_keys: vec![],
    };
    let options = Options {
        juniper: false,
        serde: false,
        postgres: true,
        sqlite: true,
    };
    let out = rewryte::rust::write_table(&table, options);
    let expected = "#[derive(Clone, Debug, Hash, PartialEq, Eq, PartialOrd, Ord)]
pub struct Example {
    pub id: i64,
    pub foo_bar: ::std::string::String,
}
impl ::rewryte::postgres::FromRow for Example {
    fn from_row(row: ::rewryte::postgres::Row) -> ::anyhow::Result<Self>
    where
        Self: Sized,
    {
        use ::anyhow::Context;

        ::std::result::Result::Ok(Self {
            id: row.try_get(0).context(\"Failed to get data for row index 0: `id`\")?,
            foo_bar: row.try_get(1).context(\"Failed to get data for row index 1: `foo_bar`\")?,
        })
    }
}
impl ::rewryte::sqlite::FromRow for Example {
    fn from_row(row: &::rewryte::sqlite::Row<'_>) -> ::anyhow::Result<Self>
    where
        Self: Sized,
    {
        use ::anyhow::Context;

        ::std::result::Result::Ok(Self {
            id: row.get(0).context(\"Failed to get data for row index 0: `id`\")?,
            foo_bar: row.get(1).context(\"Failed to get data for row index 1: `foo_bar`\")?,
        })
    }
}
";
    assert_eq!(out, expected);
}
