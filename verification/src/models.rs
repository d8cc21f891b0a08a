//! The schema model: the items a schema declares, their columns, types,
//! defaults and key constraints, together with the string-form vocabulary
//! for column types and referential actions.

use vstd::prelude::*;

use crate::error::{Error, ErrorView};
use crate::text::str_eq;

verus! {

/// An ordered sequence of declarations; order mirrors the source text and
/// decides the order of generated output.
#[derive(Clone, Debug, Hash, PartialEq, Eq, PartialOrd, Ord)]
pub struct Schema {
    pub items: Vec<Item>,
}

/// A top-level declaration: an enum or a table.
#[derive(Clone, Debug, Hash, PartialEq, Eq, PartialOrd, Ord)]
pub enum Item {
    Enum(Enum),
    Table(Table),
}

/// An enum declaration: a name, an idempotent-creation flag and the ordered
/// variants.
#[derive(Clone, Debug, Hash, PartialEq, Eq, PartialOrd, Ord)]
pub struct Enum {
    pub name: String,
    pub not_exists: bool,
    pub variants: Vec<String>,
}

/// A table declaration with its columns and key constraints. Column-name
/// references are not validated against `columns` here; that is left to the
/// consumer.
#[derive(Clone, Debug, Hash, PartialEq, Eq, PartialOrd, Ord)]
pub struct Table {
    pub name: String,
    pub not_exists: bool,
    pub columns: Vec<Column>,
    pub primary_keys: Vec<String>,
    pub foreign_keys: Vec<ForeignKey>,
    pub unique_keys: Vec<String>,
}

/// One column: a name, a scalar type, nullability and a default value.
#[derive(Clone, Debug, Hash, PartialEq, Eq, PartialOrd, Ord)]
pub struct Column {
    pub name: String,
    pub typ: Types,
    pub null: bool,
    pub default: ColumnDefault,
}

/// The closed set of canonical column types, plus a `Raw` escape hatch that
/// carries any unrecognized spelling through to the output verbatim.
#[derive(Clone, Debug, Hash, PartialEq, Eq, PartialOrd, Ord)]
pub enum Types {
    Boolean,
    Char,
    Varchar,
    Text,
    Number,
    SmallInt,
    MediumInt,
    BigInt,
    Int,
    Serial,
    Float,
    Real,
    Numeric,
    Decimal,
    DateTime,
    Raw(String),
}

/// A column's default value. `Now` is translated per dialect; `Raw` is
/// emitted verbatim into every dialect.
#[derive(Clone, Debug, Hash, PartialEq, Eq, PartialOrd, Ord)]
pub enum ColumnDefault {
    Unset,
    Now,
    Null,
    Raw(String),
}

/// A foreign-key constraint: the local column, the referenced table and
/// column, and the referential actions on delete and update.
#[derive(Clone, Debug, Hash, PartialEq, Eq, PartialOrd, Ord)]
pub struct ForeignKey {
    pub local: String,
    pub table: String,
    pub foreign: String,
    pub delete: Action,
    pub update: Action,
}

/// The closed set of referential actions.
#[derive(Clone, Copy, Debug, Hash, PartialEq, Eq, PartialOrd, Ord)]
pub enum Action {
    NoAction,
    Restrict,
    SetNull,
    SetDefault,
    Cascade,
}

// ---------------------------------------------------------------------------
// Mathematical models
// ---------------------------------------------------------------------------

/// Mathematical model of a [`Schema`].
pub struct SchemaView {
    pub items: Seq<ItemView>,
}

/// Mathematical model of an [`Item`].
pub enum ItemView {
    Enum(EnumView),
    Table(TableView),
}

/// Mathematical model of an [`Enum`].
pub struct EnumView {
    pub name: Seq<char>,
    pub not_exists: bool,
    pub variants: Seq<Seq<char>>,
}

/// Mathematical model of a [`Table`].
pub struct TableView {
    pub name: Seq<char>,
    pub not_exists: bool,
    pub columns: Seq<ColumnView>,
    pub primary_keys: Seq<Seq<char>>,
    pub foreign_keys: Seq<ForeignKeyView>,
    pub unique_keys: Seq<Seq<char>>,
}

/// Mathematical model of a [`Column`].
pub struct ColumnView {
    pub name: Seq<char>,
    pub typ: TypeView,
    pub null: bool,
    pub default: DefaultView,
}

/// Mathematical model of [`Types`].
pub enum TypeView {
    Boolean,
    Char,
    Varchar,
    Text,
    Number,
    SmallInt,
    MediumInt,
    BigInt,
    Int,
    Serial,
    Float,
    Real,
    Numeric,
    Decimal,
    DateTime,
    Raw(Seq<char>),
}

/// Mathematical model of a [`ColumnDefault`].
pub enum DefaultView {
    Unset,
    Now,
    Null,
    Raw(Seq<char>),
}

/// Mathematical model of a [`ForeignKey`].
pub struct ForeignKeyView {
    pub local: Seq<char>,
    pub table: Seq<char>,
    pub foreign: Seq<char>,
    pub delete: Action,
    pub update: Action,
}

impl View for Schema {
    type V = SchemaView;

    open spec fn view(&self) -> SchemaView {
        SchemaView { items: self.items@.map_values(|it: Item| it@) }
    }
}

impl View for Item {
    type V = ItemView;

    open spec fn view(&self) -> ItemView {
        match self {
            Item::Enum(decl) => ItemView::Enum(decl@),
            Item::Table(decl) => ItemView::Table(decl@),
        }
    }
}

impl View for Enum {
    type V = EnumView;

    open spec fn view(&self) -> EnumView {
        EnumView {
            name: self.name@,
            not_exists: self.not_exists,
            variants: self.variants@.map_values(|v: String| v@),
        }
    }
}

impl View for Table {
    type V = TableView;

    open spec fn view(&self) -> TableView {
        TableView {
            name: self.name@,
            not_exists: self.not_exists,
            columns: self.columns@.map_values(|c: Column| c@),
            primary_keys: self.primary_keys@.map_values(|k: String| k@),
            foreign_keys: self.foreign_keys@.map_values(|k: ForeignKey| k@),
            unique_keys: self.unique_keys@.map_values(|k: String| k@),
        }
    }
}

impl View for Column {
    type V = ColumnView;

    open spec fn view(&self) -> ColumnView {
        ColumnView { name: self.name@, typ: self.typ@, null: self.null, default: self.default@ }
    }
}

impl View for Types {
    type V = TypeView;

    open spec fn view(&self) -> TypeView {
        match self {
            Types::Boolean => TypeView::Boolean,
            Types::Char => TypeView::Char,
            Types::Varchar => TypeView::Varchar,
            Types::Text => TypeView::Text,
            Types::Number => TypeView::Number,
            Types::SmallInt => TypeView::SmallInt,
            Types::MediumInt => TypeView::MediumInt,
            Types::BigInt => TypeView::BigInt,
            Types::Int => TypeView::Int,
            Types::Serial => TypeView::Serial,
            Types::Float => TypeView::Float,
            Types::Real => TypeView::Real,
            Types::Numeric => TypeView::Numeric,
            Types::Decimal => TypeView::Decimal,
            Types::DateTime => TypeView::DateTime,
            Types::Raw(s) => TypeView::Raw(s@),
        }
    }
}

impl View for ColumnDefault {
    type V = DefaultView;

    open spec fn view(&self) -> DefaultView {
        match self {
            ColumnDefault::Unset => DefaultView::Unset,
            ColumnDefault::Now => DefaultView::Now,
            ColumnDefault::Null => DefaultView::Null,
            ColumnDefault::Raw(s) => DefaultView::Raw(s@),
        }
    }
}

impl View for ForeignKey {
    type V = ForeignKeyView;

    open spec fn view(&self) -> ForeignKeyView {
        ForeignKeyView {
            local: self.local@,
            table: self.table@,
            foreign: self.foreign@,
            delete: self.delete,
            update: self.update,
        }
    }
}

// ---------------------------------------------------------------------------
// Vocabulary: string forms
// ---------------------------------------------------------------------------

/// The total mapping from a type spelling to a column type: the fifteen
/// canonical spellings map to their named variants, everything else passes
/// through as `Raw`.
pub open spec fn spec_types_from_str(s: Seq<char>) -> TypeView {
    if s == "bigInt"@ {
        TypeView::BigInt
    } else if s == "bool"@ || s == "boolean"@ {
        TypeView::Boolean
    } else if s == "char"@ {
        TypeView::Char
    } else if s == "dateTime"@ {
        TypeView::DateTime
    } else if s == "decimal"@ {
        TypeView::Decimal
    } else if s == "float"@ {
        TypeView::Float
    } else if s == "int"@ {
        TypeView::Int
    } else if s == "mediumInt"@ {
        TypeView::MediumInt
    } else if s == "number"@ {
        TypeView::Number
    } else if s == "numeric"@ {
        TypeView::Numeric
    } else if s == "real"@ {
        TypeView::Real
    } else if s == "serial"@ {
        TypeView::Serial
    } else if s == "smallInt"@ {
        TypeView::SmallInt
    } else if s == "text"@ {
        TypeView::Text
    } else if s == "varchar"@ {
        TypeView::Varchar
    } else {
        TypeView::Raw(s)
    }
}

impl Types {
    /// Total, case-sensitive recognizer for type spellings: an unknown
    /// spelling is never an error, only a raw passthrough.
    pub fn from_str(s: &str) -> (r: Types)
        ensures
            r@ == spec_types_from_str(s@),
    {
        if str_eq(s, "bigInt") {
            Types::BigInt
        } else if str_eq(s, "bool") || str_eq(s, "boolean") {
            Types::Boolean
        } else if str_eq(s, "char") {
            Types::Char
        } else if str_eq(s, "dateTime") {
            Types::DateTime
        } else if str_eq(s, "decimal") {
            Types::Decimal
        } else if str_eq(s, "float") {
            Types::Float
        } else if str_eq(s, "int") {
            Types::Int
        } else if str_eq(s, "mediumInt") {
            Types::MediumInt
        } else if str_eq(s, "number") {
            Types::Number
        } else if str_eq(s, "numeric") {
            Types::Numeric
        } else if str_eq(s, "real") {
            Types::Real
        } else if str_eq(s, "serial") {
            Types::Serial
        } else if str_eq(s, "smallInt") {
            Types::SmallInt
        } else if str_eq(s, "text") {
            Types::Text
        } else if str_eq(s, "varchar") {
            Types::Varchar
        } else {
            Types::Raw(s.to_owned())
        }
    }
}

impl Default for ColumnDefault {
    /// A column with no default modifier has no default value.
    fn default() -> (r: Self)
        ensures
            r == ColumnDefault::Unset,
    {
        ColumnDefault::Unset
    }
}

/// The partial mapping from a lowercase action phrase to a referential
/// action; only the five canonical phrases are recognized.
pub open spec fn spec_action_from_str(s: Seq<char>) -> Option<Action> {
    if s == "no action"@ {
        Some(Action::NoAction)
    } else if s == "restrict"@ {
        Some(Action::Restrict)
    } else if s == "set null"@ {
        Some(Action::SetNull)
    } else if s == "set default"@ {
        Some(Action::SetDefault)
    } else if s == "cascade"@ {
        Some(Action::Cascade)
    } else {
        None
    }
}

/// The canonical upper-case SQL keyword for each referential action.
pub open spec fn spec_action_sql(a: Action) -> Seq<char> {
    match a {
        Action::NoAction => "NO ACTION"@,
        Action::Restrict => "RESTRICT"@,
        Action::SetNull => "SET NULL"@,
        Action::SetDefault => "SET DEFAULT"@,
        Action::Cascade => "CASCADE"@,
    }
}

impl Action {
    /// Parses one of the five canonical lowercase phrases; any other token
    /// fails with `InvalidAction` carrying the token.
    pub fn try_from(value: &str) -> (r: Result<Action, Error>)
        ensures
            match r {
                Ok(a) => spec_action_from_str(value@) == Some(a),
                Err(e) => spec_action_from_str(value@) is None && e@ == ErrorView::InvalidAction(
                    value@,
                ),
            },
    {
        if str_eq(value, "no action") {
            Ok(Action::NoAction)
        } else if str_eq(value, "restrict") {
            Ok(Action::Restrict)
        } else if str_eq(value, "set null") {
            Ok(Action::SetNull)
        } else if str_eq(value, "set default") {
            Ok(Action::SetDefault)
        } else if str_eq(value, "cascade") {
            Ok(Action::Cascade)
        } else {
            Err(Error::InvalidAction(value.to_owned()))
        }
    }

    /// The canonical upper-case SQL keyword for this action.
    pub fn to_string(&self) -> (r: String)
        ensures
            r@ == spec_action_sql(*self),
    {
        match self {
            Action::NoAction => String::from_str("NO ACTION"),
            Action::Restrict => String::from_str("RESTRICT"),
            Action::SetNull => String::from_str("SET NULL"),
            Action::SetDefault => String::from_str("SET DEFAULT"),
            Action::Cascade => String::from_str("CASCADE"),
        }
    }
}

impl Default for Action {
    /// An absent action clause defaults to `NO ACTION`.
    fn default() -> (r: Self)
        ensures
            r == Action::NoAction,
    {
        Action::NoAction
    }
}

/// The fifteen canonical type spellings (two of them for the boolean type).
pub open spec fn is_canonical_type_spelling(s: Seq<char>) -> bool {
    s == "bigInt"@ || s == "bool"@ || s == "boolean"@ || s == "char"@ || s == "dateTime"@ || s
        == "decimal"@ || s == "float"@ || s == "int"@ || s == "mediumInt"@ || s == "number"@ || s
        == "numeric"@ || s == "real"@ || s == "serial"@ || s == "smallInt"@ || s == "text"@ || s
        == "varchar"@
}

/// Law: every canonical type spelling parses to its named variant, and any
/// other spelling passes through as a raw type carrying exactly its text.
pub proof fn lemma_types_round_trip()
    ensures
        spec_types_from_str("bigInt"@) == TypeView::BigInt,
        spec_types_from_str("bool"@) == TypeView::Boolean,
        spec_types_from_str("boolean"@) == TypeView::Boolean,
        spec_types_from_str("char"@) == TypeView::Char,
        spec_types_from_str("dateTime"@) == TypeView::DateTime,
        spec_types_from_str("decimal"@) == TypeView::Decimal,
        spec_types_from_str("float"@) == TypeView::Float,
        spec_types_from_str("int"@) == TypeView::Int,
        spec_types_from_str("mediumInt"@) == TypeView::MediumInt,
        spec_types_from_str("number"@) == TypeView::Number,
        spec_types_from_str("numeric"@) == TypeView::Numeric,
        spec_types_from_str("real"@) == TypeView::Real,
        spec_types_from_str("serial"@) == TypeView::Serial,
        spec_types_from_str("smallInt"@) == TypeView::SmallInt,
        spec_types_from_str("text"@) == TypeView::Text,
        spec_types_from_str("varchar"@) == TypeView::Varchar,
        forall|s: Seq<char>|
            !is_canonical_type_spelling(s) ==> spec_types_from_str(s) == TypeView::Raw(s),
{
    reveal_strlit("bigInt");
    reveal_strlit("bool");
    reveal_strlit("boolean");
    reveal_strlit("char");
    reveal_strlit("dateTime");
    reveal_strlit("decimal");
    reveal_strlit("float");
    reveal_strlit("int");
    reveal_strlit("mediumInt");
    reveal_strlit("number");
    reveal_strlit("numeric");
    reveal_strlit("real");
    reveal_strlit("serial");
    reveal_strlit("smallInt");
    reveal_strlit("text");
    reveal_strlit("varchar");
    assert("bigInt"@.len() == 6 && "bigInt"@[0] == 'b');
    assert("bool"@.len() == 4 && "bool"@[0] == 'b');
    assert("boolean"@.len() == 7 && "boolean"@[0] == 'b');
    assert("char"@.len() == 4 && "char"@[0] == 'c');
    assert("dateTime"@.len() == 8 && "dateTime"@[0] == 'd');
    assert("decimal"@.len() == 7 && "decimal"@[0] == 'd');
    assert("float"@.len() == 5 && "float"@[0] == 'f');
    assert("int"@.len() == 3 && "int"@[0] == 'i');
    assert("mediumInt"@.len() == 9 && "mediumInt"@[0] == 'm');
    assert("number"@.len() == 6 && "number"@[0] == 'n');
    assert("numeric"@.len() == 7 && "numeric"@[0] == 'n');
    assert("real"@.len() == 4 && "real"@[0] == 'r');
    assert("serial"@.len() == 6 && "serial"@[0] == 's');
    assert("smallInt"@.len() == 8 && "smallInt"@[0] == 's');
    assert("text"@.len() == 4 && "text"@[0] == 't');
    assert("varchar"@.len() == 7 && "varchar"@[0] == 'v');
}

/// The five canonical action phrases.
pub open spec fn is_action_phrase(s: Seq<char>) -> bool {
    s == "no action"@ || s == "restrict"@ || s == "set null"@ || s == "set default"@ || s
        == "cascade"@
}

/// Law: each of the five canonical lowercase phrases parses to its action,
/// whose SQL rendering is the corresponding fixed upper-case keyword; any
/// other phrase is rejected.
pub proof fn lemma_action_round_trip()
    ensures
        spec_action_from_str("no action"@) == Some(Action::NoAction),
        spec_action_sql(Action::NoAction) == "NO ACTION"@,
        spec_action_from_str("restrict"@) == Some(Action::Restrict),
        spec_action_sql(Action::Restrict) == "RESTRICT"@,
        spec_action_from_str("set null"@) == Some(Action::SetNull),
        spec_action_sql(Action::SetNull) == "SET NULL"@,
        spec_action_from_str("set default"@) == Some(Action::SetDefault),
        spec_action_sql(Action::SetDefault) == "SET DEFAULT"@,
        spec_action_from_str("cascade"@) == Some(Action::Cascade),
        spec_action_sql(Action::Cascade) == "CASCADE"@,
        forall|s: Seq<char>| !is_action_phrase(s) ==> spec_action_from_str(s) is None,
{
    reveal_strlit("no action");
    reveal_strlit("restrict");
    reveal_strlit("set null");
    reveal_strlit("set default");
    reveal_strlit("cascade");
    assert("no action"@.len() == 9 && "no action"@[0] == 'n');
    assert("restrict"@.len() == 8 && "restrict"@[0] == 'r');
    assert("set null"@.len() == 8 && "set null"@[0] == 's');
    assert("set default"@.len() == 11 && "set default"@[0] == 's');
    assert("cascade"@.len() == 7 && "cascade"@[0] == 'c');
}

} // verus!
