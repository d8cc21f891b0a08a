use rewryte::models::{Action, Column, ColumnDefault, Enum, ForeignKey, Table, Types};

fn text_column(name: &str) -> Column {
    Column {
        name: name.to_string(),
        typ: Types::Text,
        null: false,
        default: ColumnDefault::Unset,
    }
}

#[test]
fn postgresql_simple() {
    let decl = Enum {
        name: "Test".to_string(),
        not_exists: false,
        variants: vec!["Variant1".to_string(), "Variant2".to_string()],
    };

    let out = rewryte::postgresql::write_enum(&decl);

    assert_eq!(
        "CREATE TYPE Test AS ENUM (
  'Variant1',
  'Variant2'
);",
        out.as_str(),
    );
}

#[test]
fn postgresql_simple_table() {
    let table = Table {
        name: "Example".to_string(),
        not_exists: true,
        columns: vec![text_column("Id"), text_column("Name")],
        primary_keys: vec!["Id".to_string()],
        foreign_keys: vec![],
        unique_keys: vec![],
    };

    let out = rewryte::postgresql::write_table(&table);

    assert_eq!(
        "CREATE TABLE IF NOT EXISTS Example (
  Id TEXT NOT NULL,
  Name TEXT NOT NULL,
  PRIMARY KEY (Id)
);",
        out.as_str()
    );
}

#[test]
fn sqlite_simple() {
    let table = Table {
        name: "Example".to_string(),
        not_exists: true,
        columns: vec![text_column("Id"), text_column("Name")],
        primary_keys: vec!["Id".to_string()],
        foreign_keys: vec![],
        unique_keys: vec![],
    };

    let out = rewryte::sqlite::write_table(&table);

    assert_eq!(
        "CREATE TABLE IF NOT EXISTS Example (
  Id TEXT NOT NULL,
  Name TEXT NOT NULL,
  PRIMARY KEY (Id)
);",
        out.as_str()
    );
}

#[test]
fn multiple_primary_keys() {
    let table = Table {
        name: "Example".to_string(),
        not_exists: true,
        columns: vec![text_column("Key"), text_column("Value")],
        primary_keys: vec!["Key".to_string(), "Value".to_string()],
        foreign_keys: vec![],
        unique_keys: vec![],
    };

    let out = rewryte::sqlite::write_table(&table);

    assert_eq!(
        "CREATE TABLE IF NOT EXISTS Example (
  Key TEXT NOT NULL,
  Value TEXT NOT NULL,
  PRIMARY KEY (Key, Value)
);",
        out.as_str()
    );
}

#[test]
fn foreign_keys() {
    let table = Table {
        name: "Example".to_string(),
        not_exists: true,
        columns: vec![text_column("Id"), text_column("Name"), text_column("Other")],
        primary_keys: vec!["Id".to_string()],
        foreign_keys: vec![ForeignKey {
            local: "Other".to_string(),
            table: "Other".to_string(),
            foreign: "Id".to_string(),
            delete: Action::default(),
            update: Action::default(),
        }],
        unique_keys: vec![],
    };

    let out = rewryte::sqlite::write_table(&table);

    assert_eq!(
        "CREATE TABLE IF NOT EXISTS Example (
  Id TEXT NOT NULL,
  Name TEXT NOT NULL,
  Other TEXT NOT NULL,
  PRIMARY KEY (Id),
  FOREIGN KEY (Other) REFERENCES Other(Id) ON UPDATE NO ACTION ON DELETE NO ACTION
);",
        out.as_str()
    );
}

#[test]
fn unique_keys() {
    let table = Table {
        name: "Example".to_string(),
        not_exists: true,
        columns: vec![text_column("Id"), text_column("Key"), text_column("Value")],
        primary_keys: vec!["Id".to_string()],
        foreign_keys: vec![],
        unique_keys: vec!["Key".to_string()],
    };

    let out = rewryte::sqlite::write_table(&table);

    assert_eq!(
        "CREATE TABLE IF NOT EXISTS Example (
  Id TEXT NOT NULL,
  Key TEXT NOT NULL,
  Value TEXT NOT NULL,
  PRIMARY KEY (Id),
  UNIQUE (Key)
);",
        out.as_str()
    );
}

#[test]
fn unique_keys_foreign_keys() {
    let table = Table {
        name: "Example".to_string(),
        not_exists: true,
        columns: vec![text_column("Id"), text_column("Name"), text_column("Other")],
        primary_keys: vec!["Id".to_string()],
        foreign_keys: vec![ForeignKey {
            local: "Other".to_string(),
            table: "Other".to_string(),
            foreign: "Id".to_string(),
            delete: Action::default(),
            update: Action::default(),
        }],
        unique_keys: vec!["Name".to_string()],
    };

    let out = rewryte::sqlite::write_table(&table);

    assert_eq!(
        "CREATE TABLE IF NOT EXISTS Example (
  Id TEXT NOT NULL,
  Name TEXT NOT NULL,
  Other TEXT NOT NULL,
  PRIMARY KEY (Id),
  FOREIGN KEY (Other) REFERENCES Other(Id) ON UPDATE NO ACTION ON DELETE NO ACTION,
  UNIQUE (Name)
);",
        out.as_str()
    );
}
