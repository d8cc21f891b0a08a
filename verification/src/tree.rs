//! The labeled parse tree the grammar engine produces and the tree-to-model
//! builder consumes.

use vstd::prelude::*;

use crate::text::byte_off;

verus! {

/// The grammar category of a parse-tree node. `Token` labels a source token
/// that fits no category at its position; the builder reports it.
#[derive(Clone, Copy, Debug, PartialEq, Eq, Structural)]
pub enum Rule {
    Schema,
    Eoi,
    DeclEnum,
    DeclTable,
    Comment,
    Ident,
    Exists,
    Variant,
    Column,
    ColumnType,
    Null,
    Modifiers,
    ModifierDefault,
    ModifierDefaultValue,
    ModifierPrimary,
    ModifierRef,
    ModifierUnique,
    RefAction,
    RefActionDelete,
    RefActionUpdate,
    Action,
    Token,
}

/// The lower-case name of a grammar category, as used in diagnostics.
pub open spec fn spec_rule_name(r: Rule) -> Seq<char> {
    match r {
        Rule::Schema => "schema"@,
        Rule::Eoi => "EOI"@,
        Rule::DeclEnum => "decl_enum"@,
        Rule::DeclTable => "decl_table"@,
        Rule::Comment => "comment"@,
        Rule::Ident => "ident"@,
        Rule::Exists => "exists"@,
        Rule::Variant => "variant"@,
        Rule::Column => "column"@,
        Rule::ColumnType => "column_type"@,
        Rule::Null => "null"@,
        Rule::Modifiers => "modifiers"@,
        Rule::ModifierDefault => "modifier_default"@,
        Rule::ModifierDefaultValue => "modifier_default_value"@,
        Rule::ModifierPrimary => "modifier_primary"@,
        Rule::ModifierRef => "modifier_ref"@,
        Rule::ModifierUnique => "modifier_unique"@,
        Rule::RefAction => "ref_action"@,
        Rule::RefActionDelete => "ref_action_delete"@,
        Rule::RefActionUpdate => "ref_action_update"@,
        Rule::Action => "action"@,
        Rule::Token => "token"@,
    }
}

impl Rule {
    /// The lower-case name of this category, for diagnostics.
    pub fn name(&self) -> (r: String)
        ensures
            r@ == spec_rule_name(*self),
    {
        match self {
            Rule::Schema => String::from_str("schema"),
            Rule::Eoi => String::from_str("EOI"),
            Rule::DeclEnum => String::from_str("decl_enum"),
            Rule::DeclTable => String::from_str("decl_table"),
            Rule::Comment => String::from_str("comment"),
            Rule::Ident => String::from_str("ident"),
            Rule::Exists => String::from_str("exists"),
            Rule::Variant => String::from_str("variant"),
            Rule::Column => String::from_str("column"),
            Rule::ColumnType => String::from_str("column_type"),
            Rule::Null => String::from_str("null"),
            Rule::Modifiers => String::from_str("modifiers"),
            Rule::ModifierDefault => String::from_str("modifier_default"),
            Rule::ModifierDefaultValue => String::from_str("modifier_default_value"),
            Rule::ModifierPrimary => String::from_str("modifier_primary"),
            Rule::ModifierRef => String::from_str("modifier_ref"),
            Rule::ModifierUnique => String::from_str("modifier_unique"),
            Rule::RefAction => String::from_str("ref_action"),
            Rule::RefActionDelete => String::from_str("ref_action_delete"),
            Rule::RefActionUpdate => String::from_str("ref_action_update"),
            Rule::Action => String::from_str("action"),
            Rule::Token => String::from_str("token"),
        }
    }
}

/// One parse-tree node: its category, its half-open span into the source —
/// `start`/`end` count characters (the text's coordinates), `bstart`/`bend`
/// count UTF-8 bytes (the coordinates reported in spans and diagnostics) —
/// the spanned source text, and its children in source order.
#[derive(Debug)]
pub struct Node {
    pub rule: Rule,
    pub start: usize,
    pub end: usize,
    pub bstart: usize,
    pub bend: usize,
    pub text: String,
    pub children: Vec<Node>,
}

/// Mathematical model of a [`Node`]: spans as integers, text as its
/// characters, children modeled in order.
pub struct NodeView {
    pub rule: Rule,
    pub start: int,
    pub end: int,
    pub bstart: int,
    pub bend: int,
    pub text: Seq<char>,
    pub children: Seq<NodeView>,
}

/// The model of a node.
pub open spec fn node_view(n: Node) -> NodeView
    decreases n,
{
    NodeView {
        rule: n.rule,
        start: n.start as int,
        end: n.end as int,
        bstart: n.bstart as int,
        bend: n.bend as int,
        text: n.text@,
        children: Seq::new(
            n.children@.len(),
            |i: int|
                if 0 <= i < n.children@.len() {
                    node_view(n.children@[i])
                } else {
                    arbitrary()
                },
        ),
    }
}

impl View for Node {
    type V = NodeView;

    open spec fn view(&self) -> NodeView {
        node_view(*self)
    }
}

/// Well-formedness of a node against the source it was built from: the
/// character span is within bounds, the text is exactly the spanned source,
/// the byte span is the character span's UTF-8 byte offsets, and every
/// child is well-formed.
pub open spec fn node_wf(n: Node, src: Seq<char>) -> bool
    decreases n,
{
    &&& n.start <= n.end
    &&& n.end <= src.len()
    &&& n.text@ == src.subrange(n.start as int, n.end as int)
    &&& n.bstart as int == byte_off(src, n.start as int)
    &&& n.bend as int == byte_off(src, n.end as int)
    &&& forall|i: int|
        0 <= i < n.children@.len() ==> node_wf(#[trigger] n.children@[i], src)
}

} // verus!
