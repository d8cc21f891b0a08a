use rewryte::diagnostic::Context;
use rewryte::error::Error;
use rewryte::models::{
    Action, Column, ColumnDefault, Enum, ForeignKey, Item, Schema, Table, Types,
};
use rewryte::parser::parse;

fn assert_parses(name: &str, input: &str, out: Schema) {
    let mut ctx = Context::new(0);

    match parse(&mut ctx, input) {
        Ok(schema) => assert_eq!(out, schema, "{}", name),
        Err(err) => panic!("{}: {:?} (diagnostics: {:?})", name, err, ctx.diagnostics()),
    }
}

const ENUM: &str = "enum Rating {
            Explicit
            Mature
            Teen
            General
        }";

const TABLE: &str = "table Settings {
            key text [primary key]
            value text
            created dateTime [default: now()]
            updated dateTime [default: now()]
        }";

const TABLE_NULL: &str = "table Settings {
            key text [primary key]
            value text!
            created dateTime [default: now()]
            updated dateTime [default: now()]
        }";

const TABLE_REFERENCE: &str = "table Settings {
            key text [primary key]
            otherOne text [ref: Other.id (delete: cascade, update: cascade)]
            otherTwo text [ref: Other.id (delete: cascade)]
            otherThree text [ref: Other.id (update: cascade)]
            created dateTime [default: now()]
            updated dateTime [default: now()]
        }";

fn def_table(column: Column) -> Schema {
    Schema {
        items: vec![Item::Table(Table {
            name: "Settings".to_string(),
            not_exists: false,
            columns: vec![
                Column {
                    name: "key".to_string(),
                    typ: Types::Text,
                    null: false,
                    default: ColumnDefault::default(),
                },
                column,
                Column {
                    name: "created".to_string(),
                    typ: Types::DateTime,
                    null: false,
                    default: ColumnDefault::Now,
                },
                Column {
                    name: "updated".to_string(),
                    typ: Types::DateTime,
                    null: false,
                    default: ColumnDefault::Now,
                },
            ],
            primary_keys: vec!["key".to_string()],
            foreign_keys: vec![],
            unique_keys: vec![],
        })],
    }
}

#[test]
fn parser_simple() {
    assert_parses(
        "tests::enums::simple",
        ENUM,
        Schema {
            items: vec![Item::Enum(Enum {
                name: "Rating".to_string(),
                not_exists: false,
                variants: vec![
                    "Explicit".to_string(),
                    "Mature".to_string(),
                    "Teen".to_string(),
                    "General".to_string(),
                ],
            })],
        },
    );
}

#[test]
fn parser_simple_table() {
    assert_parses(
        "tests::tables::simple",
        TABLE,
        def_table(Column {
            name: "value".to_string(),
            typ: Types::Text,
            null: false,
            default: ColumnDefault::default(),
        }),
    );
}

#[test]
fn simple_null() {
    assert_parses(
        "tests::tables::simple_null",
        TABLE_NULL,
        def_table(Column {
            name: "value".to_string(),
            typ: Types::Text,
            null: true,
            default: ColumnDefault::default(),
        }),
    );
}

#[test]
fn reference() {
    let reference_column = |name: &str| Column {
        name: name.to_string(),
        typ: Types::Text,
        null: false,
        default: ColumnDefault::default(),
    };

    assert_parses(
        "tests::tables::reference",
        TABLE_REFERENCE,
        Schema {
            items: vec![Item::Table(Table {
                name: "Settings".to_string(),
                not_exists: false,
                columns: vec![
                    reference_column("key"),
                    reference_column("otherOne"),
                    reference_column("otherTwo"),
                    reference_column("otherThree"),
                    Column {
                        name: "created".to_string(),
                        typ: Types::DateTime,
                        null: false,
                        default: ColumnDefault::Now,
                    },
                    Column {
                        name: "updated".to_string(),
                        typ: Types::DateTime,
                        null: false,
                        default: ColumnDefault::Now,
                    },
                ],
                primary_keys: vec!["key".to_string()],
                foreign_keys: vec![
                    ForeignKey {
                        local: "otherOne".to_string(),
                        table: "Other".to_string(),
                        foreign: "id".to_string(),
                        delete: Action::Cascade,
                        update: Action::Cascade,
                    },
                    ForeignKey {
                        local: "otherTwo".to_string(),
                        table: "Other".to_string(),
                        foreign: "id".to_string(),
                        delete: Action::Cascade,
                        update: Action::default(),
                    },
                    ForeignKey {
                        local: "otherThree".to_string(),
                        table: "Other".to_string(),
                        foreign: "id".to_string(),
                        delete: Action::default(),
                        update: Action::Cascade,
                    },
                ],
                unique_keys: vec![],
            })],
        },
    );
}

#[test]
fn empty_source_yields_empty_schema() {
    let mut ctx = Context::new(0);
    let schema = parse(&mut ctx, "").expect("an empty source parses");
    assert_eq!(schema.items.len(), 0);
    assert_eq!(ctx.diagnostics().len(), 0);
}

#[test]
fn comments_are_skipped() {
    let mut ctx = Context::new(0);
    let schema = parse(&mut ctx, "// leading note\nenum E { A B }\n// trailing note\n")
        .expect("a commented source parses");
    assert_eq!(
        schema,
        Schema {
            items: vec![Item::Enum(Enum {
                name: "E".to_string(),
                not_exists: false,
                variants: vec!["A".to_string(), "B".to_string()],
            })],
        }
    );
}

#[test]
fn exists_marker_sets_not_exists() {
    let mut ctx = Context::new(0);
    let schema = parse(&mut ctx, "table Example [exists] { Id text [primary key] }")
        .expect("the exists marker parses");
    match &schema.items[0] {
        Item::Table(table) => assert!(table.not_exists),
        other => panic!("expected a table, got {:?}", other),
    }
}

#[test]
fn raw_default_is_kept_verbatim() {
    let mut ctx = Context::new(0);
    let schema = parse(&mut ctx, "table T { n int [default: 42] m int [default: null] }")
        .expect("raw and null defaults parse");
    match &schema.items[0] {
        Item::Table(table) => {
            assert_eq!(table.columns[0].default, ColumnDefault::Raw("42".to_string()));
            assert_eq!(table.columns[1].default, ColumnDefault::Null);
        }
        other => panic!("expected a table, got {:?}", other),
    }
}

#[test]
fn malformed_table_reports_the_offending_token() {
    let mut ctx = Context::new(0);
    let result = parse(&mut ctx, "table { }");
    let err = match result {
        Ok(schema) => panic!("a nameless table must not parse, got {:?}", schema),
        Err(err) => err,
    };
    assert!(matches!(
        err,
        Error::UnexpectedPair(_) | Error::UnexpectedEOS
    ));
    let diags = ctx.diagnostics();
    assert!(diags.len() >= 1);
    // the first diagnostic points at the token immediately after `table`
    assert_eq!(diags[0].labels[0].start, 6);
}

#[test]
fn diagnostic_spans_count_utf8_bytes() {
    // the two-byte character before the declaration shifts byte offsets by
    // one relative to character offsets
    let mut ctx = Context::new(0);
    let result = parse(&mut ctx, "// é\ntable { }");
    assert!(result.is_err());
    let diags = ctx.diagnostics();
    assert_eq!(diags.len(), 1);
    // `{` is the 12th character but starts at byte 12 only because of the
    // two-byte `é`: character offset 11, byte offset 12
    assert_eq!(diags[0].labels[0].start, 12);
    if let Err(rewryte::error::Error::UnexpectedPair(span)) = result {
        assert_eq!(span.start, 12);
        assert_eq!(span.value, "{");
    } else {
        panic!("expected an unexpected-pair error");
    }
}

#[test]
fn unknown_action_keyword_fails() {
    let mut ctx = Context::new(0);
    let result = parse(&mut ctx, "table T { a text [ref: Other.id (delete: explode)] }");
    match result {
        Err(Error::InvalidAction(word)) => assert_eq!(word, "explode"),
        other => panic!("expected an invalid-action error, got {:?}", other),
    }
}

#[test]
fn last_default_wins() {
    let mut ctx = Context::new(0);
    let schema = parse(&mut ctx, "table T { a int [default: 1, default: 2] }")
        .expect("duplicate defaults parse");
    match &schema.items[0] {
        Item::Table(table) => {
            assert_eq!(table.columns[0].default, ColumnDefault::Raw("2".to_string()));
        }
        other => panic!("expected a table, got {:?}", other),
    }
}

#[test]
fn several_modifiers_on_one_column() {
    let mut ctx = Context::new(0);
    let schema = parse(&mut ctx, "table T { a int [primary key, unique, default: now()] }")
        .expect("a modifier list parses");
    match &schema.items[0] {
        Item::Table(table) => {
            assert_eq!(table.primary_keys, vec!["a".to_string()]);
            assert_eq!(table.unique_keys, vec!["a".to_string()]);
            assert_eq!(table.columns[0].default, ColumnDefault::Now);
        }
        other => panic!("expected a table, got {:?}", other),
    }
}

#[test]
fn missing_column_type_fails() {
    let mut ctx = Context::new(0);
    let result = parse(&mut ctx, "table T { a [primary key] }");
    match result {
        Err(Error::UnexpectedPair(_)) | Err(Error::UnexpectedEOS) => {}
        other => panic!("expected a structural error, got {:?}", other),
    }
    assert!(ctx.diagnostics().len() >= 1);
}
