//! The tree-to-model builder: a single-pass, depth-first walk of the parse
//! tree that either yields a complete schema or halts at the first
//! structural mismatch with a terminal error, having recorded a diagnostic
//! for it. What each function returns, and the diagnostic each failure
//! records, is pinned exactly, against the spec functions below, for every
//! parse tree; together with the grammar engine's own exact contract this
//! pins `parse` as a function of the source text.

use vstd::prelude::*;

use crate::diagnostic::{spec_diags, Context, DiagnosticView, LabelView, Severity};
use crate::error::{Error, ErrorSpan, ErrorSpanView, ErrorView};
use crate::grammar::{parse_tree, spec_scan};
use crate::models::{
    spec_action_from_str, spec_types_from_str, Action, Column, ColumnDefault, ColumnView, Enum,
    EnumView, ForeignKey, ForeignKeyView, Item, ItemView, Schema, SchemaView, Table, TableView,
    TypeView, Types,
};
use crate::tree::{spec_rule_name, Node, NodeView, Rule};

verus! {

/// One column modifier, as resolved from the parse tree before it is folded
/// into the column and its table.
pub enum Modifier {
    Default { value: String },
    DefaultDateTime,
    DefaultNull,
    PrimaryKey,
    Reference { table: String, column: String, delete: Action, update: Action },
    Unique,
}

/// Mathematical model of a [`Modifier`].
pub enum ModifierView {
    Default(Seq<char>),
    DefaultDateTime,
    DefaultNull,
    PrimaryKey,
    Reference { table: Seq<char>, column: Seq<char>, delete: Action, update: Action },
    Unique,
}

impl View for Modifier {
    type V = ModifierView;

    open spec fn view(&self) -> ModifierView {
        match self {
            Modifier::Default { value } => ModifierView::Default(value@),
            Modifier::DefaultDateTime => ModifierView::DefaultDateTime,
            Modifier::DefaultNull => ModifierView::DefaultNull,
            Modifier::PrimaryKey => ModifierView::PrimaryKey,
            Modifier::Reference { table, column, delete, update } => ModifierView::Reference {
                table: table@,
                column: column@,
                delete: *delete,
                update: *update,
            },
            Modifier::Unique => ModifierView::Unique,
        }
    }
}

/// A column before its modifiers are folded in.
pub struct ColumnPartial {
    pub name: String,
    pub typ: Types,
    pub null: bool,
}

/// Mathematical model of a [`ColumnPartial`].
pub struct ColumnPartialView {
    pub name: Seq<char>,
    pub typ: TypeView,
    pub null: bool,
}

impl View for ColumnPartial {
    type V = ColumnPartialView;

    open spec fn view(&self) -> ColumnPartialView {
        ColumnPartialView { name: self.name@, typ: self.typ@, null: self.null }
    }
}

// ---------------------------------------------------------------------------
// What the builder returns, as spec functions over the parse tree
// ---------------------------------------------------------------------------

/// The span carried by an `UnexpectedPair` error for a given node, in UTF-8
/// byte offsets.
pub open spec fn span_view_of(n: NodeView) -> ErrorSpanView {
    ErrorSpanView { value: n.text, start: n.bstart, end: n.bend }
}

/// The label note of an unexpected-token diagnostic.
pub open spec fn expectation_msg(expected: Seq<char>, found: Rule) -> Seq<char> {
    "expected `"@ + expected + "`, found `"@ + spec_rule_name(found) + "`"@
}

/// The diagnostic a builder failure records: its message, the position both
/// ends of its single label anchor to, and the label's note.
pub struct PendingDiag {
    pub message: Seq<char>,
    pub at: int,
    pub note: Seq<char>,
}

/// A builder failure: the terminal error, and the diagnostic recorded for
/// it (none for an invalid action keyword).
pub struct FailView {
    pub error: ErrorView,
    pub diag: Option<PendingDiag>,
}

/// A premature end of a node's children: the diagnostic is anchored at the
/// end of the enclosing node's span.
pub open spec fn fail_eos(at: int) -> FailView {
    FailView {
        error: ErrorView::UnexpectedEOS,
        diag: Some(PendingDiag { message: "Unexpected end of stream"@, at, note: "here"@ }),
    }
}

/// A child of the wrong category: the diagnostic is anchored at the start
/// of the offending node's span and names the expected and found
/// categories.
pub open spec fn fail_pair(n: NodeView, expected: Seq<char>) -> FailView {
    FailView {
        error: ErrorView::UnexpectedPair(span_view_of(n)),
        diag: Some(
            PendingDiag {
                message: "Unexpected token"@,
                at: n.bstart,
                note: expectation_msg(expected, n.rule),
            },
        ),
    }
}

/// An unrecognized referential-action keyword: fatal, with no diagnostic.
pub open spec fn fail_action(t: Seq<char>) -> FailView {
    FailView { error: ErrorView::InvalidAction(t), diag: None }
}

/// Folds the action sub-clauses of a reference's action list; a later
/// clause for the same action wins. `at` anchors a premature-end failure at
/// the end of the action list's span.
pub open spec fn spec_ref_action_fold(
    cs: Seq<NodeView>,
    i: int,
    at: int,
    delete: Action,
    update: Action,
) -> Result<(Action, Action), FailView>
    decreases cs.len() - i,
{
    if i < 0 || i >= cs.len() {
        Ok((delete, update))
    } else {
        let c = cs[i];
        if c.rule == Rule::RefActionDelete || c.rule == Rule::RefActionUpdate {
            if c.children.len() == 0 {
                Err(fail_eos(at))
            } else if c.children[0].rule != Rule::Action {
                Err(fail_pair(c.children[0], "action"@))
            } else {
                match spec_action_from_str(c.children[0].text) {
                    Some(a) => if c.rule == Rule::RefActionDelete {
                        spec_ref_action_fold(cs, i + 1, at, a, update)
                    } else {
                        spec_ref_action_fold(cs, i + 1, at, delete, a)
                    },
                    None => Err(fail_action(c.children[0].text)),
                }
            }
        } else {
            Err(
                fail_pair(
                    c,
                    "modifier reference action delete`, or `modifier reference action update"@,
                ),
            )
        }
    }
}

/// The delete and update actions of a reference's action list; absent
/// clauses default to `NO ACTION`.
pub open spec fn spec_parse_modifier_ref_action(n: NodeView) -> Result<(Action, Action), FailView> {
    spec_ref_action_fold(n.children, 0, n.bend, Action::NoAction, Action::NoAction)
}

/// A reference modifier: the referenced table and column, then an optional
/// action list.
pub open spec fn spec_parse_modifier_ref(n: NodeView) -> Result<ModifierView, FailView> {
    let cs = n.children;
    if cs.len() == 0 {
        Err(fail_eos(n.bend))
    } else if cs[0].rule != Rule::Ident {
        Err(fail_pair(cs[0], "ident"@))
    } else if cs.len() == 1 {
        Err(fail_eos(n.bend))
    } else if cs[1].rule != Rule::Ident {
        Err(fail_pair(cs[1], "ident"@))
    } else if cs.len() == 2 {
        Ok(
            ModifierView::Reference {
                table: cs[0].text,
                column: cs[1].text,
                delete: Action::NoAction,
                update: Action::NoAction,
            },
        )
    } else if cs[2].rule != Rule::RefAction {
        Err(fail_pair(cs[2], "modifier reference action(s)"@))
    } else {
        match spec_parse_modifier_ref_action(cs[2]) {
            Ok((d, u)) => Ok(
                ModifierView::Reference {
                    table: cs[0].text,
                    column: cs[1].text,
                    delete: d,
                    update: u,
                },
            ),
            Err(e) => Err(e),
        }
    }
}

/// Resolves one default literal: the sentinel `now()` becomes a dialect
/// translated timestamp, `null` an explicit null, anything else raw text.
pub open spec fn spec_default_modifier(v: Seq<char>) -> ModifierView {
    if v == "now()"@ {
        ModifierView::DefaultDateTime
    } else if v == "null"@ {
        ModifierView::DefaultNull
    } else {
        ModifierView::Default(v)
    }
}

/// Folds a modifier list left to right. `at` anchors a premature-end
/// failure at the end of the modifier list's span.
pub open spec fn spec_modifiers_fold(
    cs: Seq<NodeView>,
    i: int,
    at: int,
    acc: Seq<ModifierView>,
) -> Result<Seq<ModifierView>, FailView>
    decreases cs.len() - i,
{
    if i < 0 || i >= cs.len() {
        Ok(acc)
    } else {
        let c = cs[i];
        if c.rule == Rule::ModifierDefault {
            if c.children.len() == 0 {
                Err(fail_eos(at))
            } else if c.children[0].rule != Rule::ModifierDefaultValue {
                Err(fail_pair(c.children[0], "modifier default value"@))
            } else {
                spec_modifiers_fold(
                    cs,
                    i + 1,
                    at,
                    acc.push(spec_default_modifier(c.children[0].text)),
                )
            }
        } else if c.rule == Rule::ModifierPrimary {
            spec_modifiers_fold(cs, i + 1, at, acc.push(ModifierView::PrimaryKey))
        } else if c.rule == Rule::ModifierRef {
            match spec_parse_modifier_ref(c) {
                Ok(m) => spec_modifiers_fold(cs, i + 1, at, acc.push(m)),
                Err(e) => Err(e),
            }
        } else if c.rule == Rule::ModifierUnique {
            spec_modifiers_fold(cs, i + 1, at, acc.push(ModifierView::Unique))
        } else {
            Err(
                fail_pair(
                    c,
                    "modifier default`, `modifier primary`, `modifier reference`, or `modifier unique"@,
                ),
            )
        }
    }
}

/// A column's modifier list.
pub open spec fn spec_parse_modifiers(n: NodeView) -> Result<Seq<ModifierView>, FailView> {
    spec_modifiers_fold(n.children, 0, n.bend, Seq::empty())
}

/// One column: its name, its type (resolved through the total type
/// recognizer), a nullability marker, and its modifier list.
pub open spec fn spec_parse_column(n: NodeView) -> Result<
    (ColumnPartialView, Seq<ModifierView>),
    FailView,
> {
    let cs = n.children;
    if cs.len() == 0 {
        Err(fail_eos(n.bend))
    } else if cs[0].rule != Rule::Ident {
        Err(fail_pair(cs[0], "ident"@))
    } else if cs.len() == 1 {
        Err(fail_eos(n.bend))
    } else if cs[1].rule != Rule::ColumnType {
        Err(fail_pair(cs[1], "column type"@))
    } else {
        let cp = ColumnPartialView {
            name: cs[0].text,
            typ: spec_types_from_str(cs[1].text),
            null: cs.len() > 2 && cs[2].rule == Rule::Null,
        };
        let j: int = if cs.len() > 2 && cs[2].rule == Rule::Null {
            3
        } else {
            2
        };
        if cs.len() <= j {
            Ok((cp, Seq::empty()))
        } else if cs[j].rule != Rule::Modifiers {
            Err(fail_pair(cs[j], "modifiers"@))
        } else {
            match spec_parse_modifiers(cs[j]) {
                Ok(ms) => Ok((cp, ms)),
                Err(e) => Err(e),
            }
        }
    }
}

/// Folds a column's modifiers into the table: the column's final default
/// (last default wins), and the table's primary-key, foreign-key and
/// unique-key accumulators; the finished column is appended last.
pub open spec fn spec_apply_mods(
    acc: TableView,
    cp: ColumnPartialView,
    ms: Seq<ModifierView>,
    i: int,
    df: crate::models::DefaultView,
) -> TableView
    decreases ms.len() - i,
{
    if i < 0 || i >= ms.len() {
        TableView {
            columns: acc.columns.push(
                ColumnView { name: cp.name, typ: cp.typ, null: cp.null, default: df },
            ),
            ..acc
        }
    } else {
        match ms[i] {
            ModifierView::Default(v) => spec_apply_mods(
                acc,
                cp,
                ms,
                i + 1,
                crate::models::DefaultView::Raw(v),
            ),
            ModifierView::DefaultDateTime => spec_apply_mods(
                acc,
                cp,
                ms,
                i + 1,
                crate::models::DefaultView::Now,
            ),
            ModifierView::DefaultNull => spec_apply_mods(
                acc,
                cp,
                ms,
                i + 1,
                crate::models::DefaultView::Null,
            ),
            ModifierView::PrimaryKey => spec_apply_mods(
                TableView { primary_keys: acc.primary_keys.push(cp.name), ..acc },
                cp,
                ms,
                i + 1,
                df,
            ),
            ModifierView::Reference { table, column, delete, update } => spec_apply_mods(
                TableView {
                    foreign_keys: acc.foreign_keys.push(
                        ForeignKeyView { local: cp.name, table, foreign: column, delete, update },
                    ),
                    ..acc
                },
                cp,
                ms,
                i + 1,
                df,
            ),
            ModifierView::Unique => spec_apply_mods(
                TableView { unique_keys: acc.unique_keys.push(cp.name), ..acc },
                cp,
                ms,
                i + 1,
                df,
            ),
        }
    }
}

/// Folds a table body: comments are skipped, each column is parsed and its
/// modifiers applied, anything else is an error.
pub open spec fn spec_table_fold(cs: Seq<NodeView>, i: int, acc: TableView) -> Result<
    TableView,
    FailView,
>
    decreases cs.len() - i,
{
    if i < 0 || i >= cs.len() {
        Ok(acc)
    } else {
        let c = cs[i];
        if c.rule == Rule::Comment {
            spec_table_fold(cs, i + 1, acc)
        } else if c.rule == Rule::Column {
            match spec_parse_column(c) {
                Ok((cp, ms)) => spec_table_fold(
                    cs,
                    i + 1,
                    spec_apply_mods(acc, cp, ms, 0, crate::models::DefaultView::Unset),
                ),
                Err(e) => Err(e),
            }
        } else {
            Err(fail_pair(c, "column` or `comment"@))
        }
    }
}

/// A table declaration: its name, an optional idempotent-creation marker,
/// then its body.
pub open spec fn spec_parse_table(n: NodeView) -> Result<TableView, FailView> {
    let cs = n.children;
    if cs.len() == 0 {
        Err(fail_eos(n.bend))
    } else if cs[0].rule != Rule::Ident {
        Err(fail_pair(cs[0], "ident"@))
    } else {
        let ne = cs.len() > 1 && cs[1].rule == Rule::Exists;
        let start: int = if ne {
            2
        } else {
            1
        };
        spec_table_fold(
            cs,
            start,
            TableView {
                name: cs[0].text,
                not_exists: ne,
                columns: Seq::empty(),
                primary_keys: Seq::empty(),
                foreign_keys: Seq::empty(),
                unique_keys: Seq::empty(),
            },
        )
    }
}

/// Folds an enum body: every child must be a variant.
pub open spec fn spec_enum_fold(cs: Seq<NodeView>, i: int, acc: Seq<Seq<char>>) -> Result<
    Seq<Seq<char>>,
    FailView,
>
    decreases cs.len() - i,
{
    if i < 0 || i >= cs.len() {
        Ok(acc)
    } else if cs[i].rule == Rule::Variant {
        spec_enum_fold(cs, i + 1, acc.push(cs[i].text))
    } else {
        Err(fail_pair(cs[i], "variant"@))
    }
}

/// An enum declaration: its name, an optional idempotent-creation marker,
/// then its variants.
pub open spec fn spec_parse_enum(n: NodeView) -> Result<EnumView, FailView> {
    let cs = n.children;
    if cs.len() == 0 {
        Err(fail_eos(n.bend))
    } else if cs[0].rule != Rule::Ident {
        Err(fail_pair(cs[0], "ident"@))
    } else {
        let ne = cs.len() > 1 && cs[1].rule == Rule::Exists;
        let start: int = if ne {
            2
        } else {
            1
        };
        match spec_enum_fold(cs, start, Seq::empty()) {
            Ok(vs) => Ok(EnumView { name: cs[0].text, not_exists: ne, variants: vs }),
            Err(e) => Err(e),
        }
    }
}

/// Folds the top level of the tree: declarations become items, comments are
/// skipped, the end-of-input marker stops the walk, anything else is an
/// error.
pub open spec fn spec_schema_fold(cs: Seq<NodeView>, i: int, items: Seq<ItemView>) -> Result<
    SchemaView,
    FailView,
>
    decreases cs.len() - i,
{
    if i < 0 || i >= cs.len() {
        Ok(SchemaView { items })
    } else {
        let c = cs[i];
        if c.rule == Rule::DeclEnum {
            match spec_parse_enum(c) {
                Ok(e) => spec_schema_fold(cs, i + 1, items.push(ItemView::Enum(e))),
                Err(e) => Err(e),
            }
        } else if c.rule == Rule::DeclTable {
            match spec_parse_table(c) {
                Ok(t) => spec_schema_fold(cs, i + 1, items.push(ItemView::Table(t))),
                Err(e) => Err(e),
            }
        } else if c.rule == Rule::Comment {
            spec_schema_fold(cs, i + 1, items)
        } else if c.rule == Rule::Eoi {
            Ok(SchemaView { items })
        } else {
            Err(fail_pair(c, "enum declaration`, `table declaration`, or `comment"@))
        }
    }
}

/// What the builder yields for a whole parse tree.
pub open spec fn spec_parse(root: NodeView) -> Result<SchemaView, FailView> {
    spec_schema_fold(root.children, 0, Seq::empty())
}

// ---------------------------------------------------------------------------
// Diagnostics raised by the builder
// ---------------------------------------------------------------------------

/// The record a failure's diagnostic makes in a given file.
pub open spec fn diag_of(fid: int, pd: PendingDiag) -> DiagnosticView {
    DiagnosticView {
        severity: Severity::Error,
        message: pd.message,
        labels: seq![
            LabelView { file_id: fid, start: pd.at, end: pd.at, message: pd.note },
        ],
    }
}

/// How a builder function changes the diagnostics: nothing on success or on
/// an invalid action keyword; otherwise exactly the failure's record.
pub open spec fn diags_evolution<T>(
    old_d: Seq<DiagnosticView>,
    new_d: Seq<DiagnosticView>,
    fid: int,
    r: Result<T, FailView>,
) -> bool {
    match r {
        Ok(_) => new_d == old_d,
        Err(f) => match f.diag {
            None => new_d == old_d,
            Some(pd) => new_d == old_d.push(diag_of(fid, pd)),
        },
    }
}

/// Records the diagnostic of an unexpected-token failure for `n`, naming
/// the expected category (or categories) in the label.
fn push_unexpected_token(ctx: &mut Context, expected: &str, n: &Node)
    ensures
        final(ctx).file_id == old(ctx).file_id,
        spec_diags(*final(ctx)) == spec_diags(*old(ctx)).push(
            diag_of(old(ctx).file_id as int, fail_pair(n@, expected@).diag->0),
        ),
{
    let mut msg = String::from_str("expected `");
    msg.append(expected);
    msg.append("`, found `");
    let rn = n.rule.name();
    msg.append(rn.as_str());
    msg.append("`");
    proof {
        assert(msg@ =~= expectation_msg(expected@, n@.rule));
    }
    ctx.push(Severity::Error, String::from_str("Unexpected token"), n.bstart, n.bstart, msg);
    proof {
        assert(diag_of(old(ctx).file_id as int, fail_pair(n@, expected@).diag->0).labels
            =~= spec_diags(*ctx).last().labels);
        assert(diag_of(old(ctx).file_id as int, fail_pair(n@, expected@).diag->0) == spec_diags(
            *ctx,
        ).last());
        assert(spec_diags(*ctx) =~= spec_diags(*old(ctx)).push(
            diag_of(old(ctx).file_id as int, fail_pair(n@, expected@).diag->0),
        ));
    }
}

/// Records the diagnostic of a premature-end failure anchored at `at`.
fn push_eos(ctx: &mut Context, at: usize)
    ensures
        final(ctx).file_id == old(ctx).file_id,
        spec_diags(*final(ctx)) == spec_diags(*old(ctx)).push(
            diag_of(old(ctx).file_id as int, fail_eos(at as int).diag->0),
        ),
{
    ctx.push(
        Severity::Error,
        String::from_str("Unexpected end of stream"),
        at,
        at,
        String::from_str("here"),
    );
    proof {
        assert(diag_of(old(ctx).file_id as int, fail_eos(at as int).diag->0).labels =~= spec_diags(
            *ctx,
        ).last().labels);
        assert(diag_of(old(ctx).file_id as int, fail_eos(at as int).diag->0) == spec_diags(
            *ctx,
        ).last());
        assert(spec_diags(*ctx) =~= spec_diags(*old(ctx)).push(
            diag_of(old(ctx).file_id as int, fail_eos(at as int).diag->0),
        ));
    }
}

/// The error span of a node.
fn error_span(n: &Node) -> (r: ErrorSpan)
    ensures
        r@ == span_view_of(n@),
{
    ErrorSpan { value: n.text.clone(), start: n.bstart, end: n.bend }
}

// ---------------------------------------------------------------------------
// The executable builder
// ---------------------------------------------------------------------------

/// Builds the delete and update actions of a reference's action list.
fn parse_modifier_ref_action(ctx: &mut Context, n: &Node) -> (r: Result<(Action, Action), Error>)
    ensures
        final(ctx).file_id == old(ctx).file_id,
        (match r {
            Ok((d, u)) => spec_parse_modifier_ref_action(n@) == Ok::<(Action, Action), FailView>(
                (d, u),
            ),
            Err(e) => spec_parse_modifier_ref_action(n@) is Err
                && spec_parse_modifier_ref_action(n@)->Err_0.error == e@,
        }),
        diags_evolution(
            spec_diags(*old(ctx)),
            spec_diags(*final(ctx)),
            old(ctx).file_id as int,
            spec_parse_modifier_ref_action(n@),
        ),
{
    let num = n.children.len();
    let mut delete = Action::NoAction;
    let mut update = Action::NoAction;
    let mut k: usize = 0;
    while k < num
        invariant
            num == n.children@.len(),
            num == n@.children.len(),
            k <= num,
            ctx.file_id == old(ctx).file_id,
            spec_diags(*ctx) == spec_diags(*old(ctx)),
            spec_ref_action_fold(n@.children, k as int, n@.bend, delete, update)
                == spec_parse_modifier_ref_action(n@),
        decreases num - k,
    {
        let c = &n.children[k];
        proof {
            assert(c@ == n@.children[k as int]);
        }
        let is_del = c.rule == Rule::RefActionDelete;
        let is_upd = c.rule == Rule::RefActionUpdate;
        if is_del || is_upd {
            if c.children.len() == 0 {
                proof {
                    assert(c@.children.len() == 0);
                }
                push_eos(ctx, n.bend);
                return Err(Error::UnexpectedEOS);
            }
            let c0 = &c.children[0];
            proof {
                assert(c0@ == c@.children[0]);
            }
            if !(c0.rule == Rule::Action) {
                push_unexpected_token(ctx, "action", c0);
                return Err(Error::UnexpectedPair(error_span(c0)));
            }
            match Action::try_from(c0.text.as_str()) {
                Ok(a) => {
                    if is_del {
                        delete = a;
                    } else {
                        update = a;
                    }
                },
                Err(e) => {
                    return Err(e);
                },
            }
        } else {
            push_unexpected_token(
                ctx,
                "modifier reference action delete`, or `modifier reference action update",
                c,
            );
            return Err(Error::UnexpectedPair(error_span(c)));
        }
        k += 1;
    }
    Ok((delete, update))
}

/// Builds a reference modifier from its node.
fn parse_modifier_ref(ctx: &mut Context, n: &Node) -> (r: Result<Modifier, Error>)
    ensures
        final(ctx).file_id == old(ctx).file_id,
        (match r {
            Ok(m) => spec_parse_modifier_ref(n@) == Ok::<ModifierView, FailView>(m@),
            Err(e) => spec_parse_modifier_ref(n@) is Err && spec_parse_modifier_ref(
                n@,
            )->Err_0.error == e@,
        }),
        diags_evolution(
            spec_diags(*old(ctx)),
            spec_diags(*final(ctx)),
            old(ctx).file_id as int,
            spec_parse_modifier_ref(n@),
        ),
{
    let num = n.children.len();
    if num == 0 {
        proof {
            assert(n@.children.len() == 0);
        }
        push_eos(ctx, n.bend);
        return Err(Error::UnexpectedEOS);
    }
    let c0 = &n.children[0];
    proof {
        assert(c0@ == n@.children[0]);
    }
    if !(c0.rule == Rule::Ident) {
        push_unexpected_token(ctx, "ident", c0);
        return Err(Error::UnexpectedPair(error_span(c0)));
    }
    if num == 1 {
        push_eos(ctx, n.bend);
        return Err(Error::UnexpectedEOS);
    }
    let c1 = &n.children[1];
    proof {
        assert(c1@ == n@.children[1]);
    }
    if !(c1.rule == Rule::Ident) {
        push_unexpected_token(ctx, "ident", c1);
        return Err(Error::UnexpectedPair(error_span(c1)));
    }
    if num == 2 {
        return Ok(
            Modifier::Reference {
                table: c0.text.clone(),
                column: c1.text.clone(),
                delete: Action::NoAction,
                update: Action::NoAction,
            },
        );
    }
    let c2 = &n.children[2];
    proof {
        assert(c2@ == n@.children[2]);
    }
    if !(c2.rule == Rule::RefAction) {
        push_unexpected_token(ctx, "modifier reference action(s)", c2);
        return Err(Error::UnexpectedPair(error_span(c2)));
    }
    match parse_modifier_ref_action(ctx, c2) {
        Ok((delete, update)) => Ok(
            Modifier::Reference { table: c0.text.clone(), column: c1.text.clone(), delete, update },
        ),
        Err(e) => Err(e),
    }
}

/// Builds a column's modifier list from its node.
fn parse_modifiers(ctx: &mut Context, n: &Node) -> (r: Result<Vec<Modifier>, Error>)
    ensures
        final(ctx).file_id == old(ctx).file_id,
        (match r {
            Ok(ms) => spec_parse_modifiers(n@) == Ok::<Seq<ModifierView>, FailView>(
                ms@.map_values(|m: Modifier| m@),
            ),
            Err(e) => spec_parse_modifiers(n@) is Err && spec_parse_modifiers(n@)->Err_0.error
                == e@,
        }),
        diags_evolution(
            spec_diags(*old(ctx)),
            spec_diags(*final(ctx)),
            old(ctx).file_id as int,
            spec_parse_modifiers(n@),
        ),
{
    let num = n.children.len();
    let mut modifiers: Vec<Modifier> = Vec::new();
    proof {
        assert(modifiers@.map_values(|m: Modifier| m@) =~= Seq::<ModifierView>::empty());
    }
    let mut k: usize = 0;
    while k < num
        invariant
            num == n.children@.len(),
            num == n@.children.len(),
            k <= num,
            ctx.file_id == old(ctx).file_id,
            spec_diags(*ctx) == spec_diags(*old(ctx)),
            spec_modifiers_fold(
                n@.children,
                k as int,
                n@.bend,
                modifiers@.map_values(|m: Modifier| m@),
            ) == spec_parse_modifiers(n@),
        decreases num - k,
    {
        let ghost pre = modifiers@.map_values(|m: Modifier| m@);
        let c = &n.children[k];
        proof {
            assert(c@ == n@.children[k as int]);
        }
        if c.rule == Rule::ModifierDefault {
            if c.children.len() == 0 {
                proof {
                    assert(c@.children.len() == 0);
                }
                push_eos(ctx, n.bend);
                return Err(Error::UnexpectedEOS);
            }
            let c0 = &c.children[0];
            proof {
                assert(c0@ == c@.children[0]);
            }
            if !(c0.rule == Rule::ModifierDefaultValue) {
                push_unexpected_token(ctx, "modifier default value", c0);
                return Err(Error::UnexpectedPair(error_span(c0)));
            }
            let m = if crate::text::str_eq(c0.text.as_str(), "now()") {
                Modifier::DefaultDateTime
            } else if crate::text::str_eq(c0.text.as_str(), "null") {
                Modifier::DefaultNull
            } else {
                Modifier::Default { value: c0.text.clone() }
            };
            proof {
                assert(m@ == spec_default_modifier(c0@.text));
            }
            modifiers.push(m);
        } else if c.rule == Rule::ModifierPrimary {
            modifiers.push(Modifier::PrimaryKey);
        } else if c.rule == Rule::ModifierRef {
            match parse_modifier_ref(ctx, c) {
                Ok(m) => {
                    modifiers.push(m);
                },
                Err(e) => {
                    return Err(e);
                },
            }
        } else if c.rule == Rule::ModifierUnique {
            modifiers.push(Modifier::Unique);
        } else {
            push_unexpected_token(
                ctx,
                "modifier default`, `modifier primary`, `modifier reference`, or `modifier unique",
                c,
            );
            return Err(Error::UnexpectedPair(error_span(c)));
        }
        proof {
            assert(modifiers@.map_values(|m: Modifier| m@) =~= pre.push(modifiers@.last()@));
        }
        k += 1;
    }
    Ok(modifiers)
}

/// Builds one column and its modifier list from its node.
fn parse_column(ctx: &mut Context, n: &Node) -> (r: Result<(ColumnPartial, Vec<Modifier>), Error>)
    ensures
        final(ctx).file_id == old(ctx).file_id,
        (match r {
            Ok(cm) => spec_parse_column(n@) == Ok::<
                (ColumnPartialView, Seq<ModifierView>),
                FailView,
            >((cm.0@, cm.1@.map_values(|m: Modifier| m@))),
            Err(e) => spec_parse_column(n@) is Err && spec_parse_column(n@)->Err_0.error == e@,
        }),
        diags_evolution(
            spec_diags(*old(ctx)),
            spec_diags(*final(ctx)),
            old(ctx).file_id as int,
            spec_parse_column(n@),
        ),
{
    let num = n.children.len();
    if num == 0 {
        proof {
            assert(n@.children.len() == 0);
        }
        push_eos(ctx, n.bend);
        return Err(Error::UnexpectedEOS);
    }
    let c0 = &n.children[0];
    proof {
        assert(c0@ == n@.children[0]);
    }
    if !(c0.rule == Rule::Ident) {
        push_unexpected_token(ctx, "ident", c0);
        return Err(Error::UnexpectedPair(error_span(c0)));
    }
    if num == 1 {
        push_eos(ctx, n.bend);
        return Err(Error::UnexpectedEOS);
    }
    let c1 = &n.children[1];
    proof {
        assert(c1@ == n@.children[1]);
    }
    if !(c1.rule == Rule::ColumnType) {
        push_unexpected_token(ctx, "column type", c1);
        return Err(Error::UnexpectedPair(error_span(c1)));
    }
    let null = num > 2 && n.children[2].rule == Rule::Null;
    proof {
        if num > 2 {
            assert(n.children@[2]@ == n@.children[2]);
        }
    }
    let j: usize = if null {
        3
    } else {
        2
    };
    let cp = ColumnPartial {
        name: c0.text.clone(),
        typ: Types::from_str(c1.text.as_str()),
        null,
    };
    if num <= j {
        proof {
            assert(Seq::<Modifier>::empty().map_values(|m: Modifier| m@) =~= Seq::<
                ModifierView,
            >::empty());
        }
        return Ok((cp, Vec::new()));
    }
    let cj = &n.children[j];
    proof {
        assert(cj@ == n@.children[j as int]);
    }
    if !(cj.rule == Rule::Modifiers) {
        push_unexpected_token(ctx, "modifiers", cj);
        return Err(Error::UnexpectedPair(error_span(cj)));
    }
    match parse_modifiers(ctx, cj) {
        Ok(ms) => Ok((cp, ms)),
        Err(e) => Err(e),
    }
}

/// Folds one parsed column and its modifiers into the table.
fn apply_modifiers(table: &mut Table, cp: ColumnPartial, mods: Vec<Modifier>)
    ensures
        final(table)@ == spec_apply_mods(
            old(table)@,
            cp@,
            mods@.map_values(|m: Modifier| m@),
            0,
            crate::models::DefaultView::Unset,
        ),
{
    let ghost msv = mods@.map_values(|m: Modifier| m@);
    let num = mods.len();
    let mut default = ColumnDefault::default();
    let mut k: usize = 0;
    while k < num
        invariant
            num == mods@.len(),
            msv == mods@.map_values(|m: Modifier| m@),
            k <= num,
            cp.name@ == cp@.name,
            spec_apply_mods(table@, cp@, msv, k as int, default@) == spec_apply_mods(
                old(table)@,
                cp@,
                msv,
                0,
                crate::models::DefaultView::Unset,
            ),
        decreases num - k,
    {
        let ghost pre_table = table@;
        match &mods[k] {
            Modifier::Default { value } => {
                default = ColumnDefault::Raw(value.clone());
            },
            Modifier::DefaultDateTime => {
                default = ColumnDefault::Now;
            },
            Modifier::DefaultNull => {
                default = ColumnDefault::Null;
            },
            Modifier::PrimaryKey => {
                table.primary_keys.push(cp.name.clone());
                proof {
                    assert(table@.primary_keys =~= pre_table.primary_keys.push(cp@.name));
                    assert(table@ == TableView {
                        primary_keys: pre_table.primary_keys.push(cp@.name),
                        ..pre_table
                    });
                }
            },
            Modifier::Reference { table: t, column, delete, update } => {
                let fk = ForeignKey {
                    local: cp.name.clone(),
                    table: t.clone(),
                    foreign: column.clone(),
                    delete: *delete,
                    update: *update,
                };
                table.foreign_keys.push(fk);
                proof {
                    assert(table@.foreign_keys =~= pre_table.foreign_keys.push(
                        ForeignKeyView {
                            local: cp@.name,
                            table: t@,
                            foreign: column@,
                            delete: *delete,
                            update: *update,
                        },
                    ));
                    assert(table@ == TableView {
                        foreign_keys: pre_table.foreign_keys.push(
                            ForeignKeyView {
                                local: cp@.name,
                                table: t@,
                                foreign: column@,
                                delete: *delete,
                                update: *update,
                            },
                        ),
                        ..pre_table
                    });
                }
            },
            Modifier::Unique => {
                table.unique_keys.push(cp.name.clone());
                proof {
                    assert(table@.unique_keys =~= pre_table.unique_keys.push(cp@.name));
                    assert(table@ == TableView {
                        unique_keys: pre_table.unique_keys.push(cp@.name),
                        ..pre_table
                    });
                }
            },
        }
        k += 1;
    }
    let ghost pre_table = table@;
    let column = Column { name: cp.name, typ: cp.typ, null: cp.null, default };
    table.columns.push(column);
    proof {
        assert(table@.columns =~= pre_table.columns.push(column@));
        assert(table@ == TableView { columns: pre_table.columns.push(column@), ..pre_table });
    }
}

/// Builds a table declaration from its node.
fn parse_table(ctx: &mut Context, n: &Node) -> (r: Result<Table, Error>)
    ensures
        final(ctx).file_id == old(ctx).file_id,
        (match r {
            Ok(t) => spec_parse_table(n@) == Ok::<TableView, FailView>(t@),
            Err(e) => spec_parse_table(n@) is Err && spec_parse_table(n@)->Err_0.error == e@,
        }),
        diags_evolution(
            spec_diags(*old(ctx)),
            spec_diags(*final(ctx)),
            old(ctx).file_id as int,
            spec_parse_table(n@),
        ),
{
    let num = n.children.len();
    if num == 0 {
        proof {
            assert(n@.children.len() == 0);
        }
        push_eos(ctx, n.bend);
        return Err(Error::UnexpectedEOS);
    }
    let c0 = &n.children[0];
    proof {
        assert(c0@ == n@.children[0]);
    }
    if !(c0.rule == Rule::Ident) {
        push_unexpected_token(ctx, "ident", c0);
        return Err(Error::UnexpectedPair(error_span(c0)));
    }
    let not_exists = num > 1 && n.children[1].rule == Rule::Exists;
    proof {
        if num > 1 {
            assert(n.children@[1]@ == n@.children[1]);
        }
    }
    let start: usize = if not_exists {
        2
    } else {
        1
    };
    let mut table = Table {
        name: c0.text.clone(),
        not_exists,
        columns: Vec::new(),
        primary_keys: Vec::new(),
        foreign_keys: Vec::new(),
        unique_keys: Vec::new(),
    };
    proof {
        assert(table@.columns =~= Seq::<ColumnView>::empty());
        assert(table@.primary_keys =~= Seq::<Seq<char>>::empty());
        assert(table@.foreign_keys =~= Seq::<ForeignKeyView>::empty());
        assert(table@.unique_keys =~= Seq::<Seq<char>>::empty());
        assert(spec_table_fold(n@.children, start as int, table@) == spec_parse_table(n@));
    }
    let mut k: usize = start;
    while k < num
        invariant
            num == n.children@.len(),
            num == n@.children.len(),
            k <= num,
            ctx.file_id == old(ctx).file_id,
            spec_diags(*ctx) == spec_diags(*old(ctx)),
            spec_table_fold(n@.children, k as int, table@) == spec_parse_table(n@),
        decreases num - k,
    {
        let c = &n.children[k];
        proof {
            assert(c@ == n@.children[k as int]);
        }
        if c.rule == Rule::Comment {
            // skipped without a model entry
        } else if c.rule == Rule::Column {
            match parse_column(ctx, c) {
                Ok((cp, mods)) => {
                    apply_modifiers(&mut table, cp, mods);
                },
                Err(e) => {
                    proof {
                        assert(spec_parse_table(n@) is Err);
                    }
                    return Err(e);
                },
            }
        } else {
            push_unexpected_token(ctx, "column` or `comment", c);
            return Err(Error::UnexpectedPair(error_span(c)));
        }
        k += 1;
    }
    Ok(table)
}

/// Builds an enum declaration from its node.
fn parse_enum(ctx: &mut Context, n: &Node) -> (r: Result<Enum, Error>)
    ensures
        final(ctx).file_id == old(ctx).file_id,
        (match r {
            Ok(e) => spec_parse_enum(n@) == Ok::<EnumView, FailView>(e@),
            Err(e) => spec_parse_enum(n@) is Err && spec_parse_enum(n@)->Err_0.error == e@,
        }),
        diags_evolution(
            spec_diags(*old(ctx)),
            spec_diags(*final(ctx)),
            old(ctx).file_id as int,
            spec_parse_enum(n@),
        ),
{
    let num = n.children.len();
    if num == 0 {
        proof {
            assert(n@.children.len() == 0);
        }
        push_eos(ctx, n.bend);
        return Err(Error::UnexpectedEOS);
    }
    let c0 = &n.children[0];
    proof {
        assert(c0@ == n@.children[0]);
    }
    if !(c0.rule == Rule::Ident) {
        push_unexpected_token(ctx, "ident", c0);
        return Err(Error::UnexpectedPair(error_span(c0)));
    }
    let not_exists = num > 1 && n.children[1].rule == Rule::Exists;
    proof {
        if num > 1 {
            assert(n.children@[1]@ == n@.children[1]);
        }
    }
    let start: usize = if not_exists {
        2
    } else {
        1
    };
    let mut variants: Vec<String> = Vec::new();
    proof {
        assert(variants@.map_values(|v: String| v@) =~= Seq::<Seq<char>>::empty());
    }
    let mut k: usize = start;
    while k < num
        invariant
            num == n.children@.len(),
            num == n@.children.len(),
            k <= num,
            start <= k,
            ctx.file_id == old(ctx).file_id,
            spec_diags(*ctx) == spec_diags(*old(ctx)),
            n@.children.len() > 0 && n@.children[0].rule == Rule::Ident,
            not_exists == (n@.children.len() > 1 && n@.children[1].rule == Rule::Exists),
            start == (if not_exists {
                2int
            } else {
                1int
            }),
            (match spec_enum_fold(
                n@.children,
                k as int,
                variants@.map_values(|v: String| v@),
            ) {
                Ok(vs) => spec_parse_enum(n@) == Ok::<EnumView, FailView>(
                    (EnumView { name: n@.children[0].text, not_exists, variants: vs }),
                ),
                Err(e) => spec_parse_enum(n@) == Err::<EnumView, FailView>(e),
            }),
        decreases num - k,
    {
        let ghost pre = variants@.map_values(|v: String| v@);
        let c = &n.children[k];
        proof {
            assert(c@ == n@.children[k as int]);
        }
        if c.rule == Rule::Variant {
            variants.push(c.text.clone());
            proof {
                assert(variants@.map_values(|v: String| v@) =~= pre.push(c@.text));
            }
        } else {
            push_unexpected_token(ctx, "variant", c);
            return Err(Error::UnexpectedPair(error_span(c)));
        }
        k += 1;
    }
    Ok(Enum { name: c0.text.clone(), not_exists, variants })
}

/// Builds a schema from a parse tree: declarations in source order,
/// comments skipped, stopping cleanly at the end-of-input marker. Exactly
/// the schema or error given by [`spec_parse`], with exactly the failure's
/// diagnostic recorded on a structural error.
pub fn build_schema(ctx: &mut Context, root: &Node) -> (r: Result<Schema, Error>)
    ensures
        final(ctx).file_id == old(ctx).file_id,
        (match r {
            Ok(s) => spec_parse(root@) == Ok::<SchemaView, FailView>(s@),
            Err(e) => spec_parse(root@) is Err && spec_parse(root@)->Err_0.error == e@,
        }),
        diags_evolution(
            spec_diags(*old(ctx)),
            spec_diags(*final(ctx)),
            old(ctx).file_id as int,
            spec_parse(root@),
        ),
{
    let num = root.children.len();
    let mut items: Vec<Item> = Vec::new();
    proof {
        assert(items@.map_values(|it: Item| it@) =~= Seq::<ItemView>::empty());
    }
    let mut k: usize = 0;
    while k < num
        invariant
            num == root.children@.len(),
            num == root@.children.len(),
            k <= num,
            ctx.file_id == old(ctx).file_id,
            spec_diags(*ctx) == spec_diags(*old(ctx)),
            spec_schema_fold(root@.children, k as int, items@.map_values(|it: Item| it@))
                == spec_parse(root@),
        decreases num - k,
    {
        let ghost pre = items@.map_values(|it: Item| it@);
        let c = &root.children[k];
        proof {
            assert(c@ == root@.children[k as int]);
        }
        if c.rule == Rule::DeclEnum {
            match parse_enum(ctx, c) {
                Ok(decl) => {
                    items.push(Item::Enum(decl));
                    proof {
                        assert(items@.map_values(|it: Item| it@) =~= pre.push(items@.last()@));
                    }
                },
                Err(e) => {
                    return Err(e);
                },
            }
        } else if c.rule == Rule::DeclTable {
            match parse_table(ctx, c) {
                Ok(decl) => {
                    items.push(Item::Table(decl));
                    proof {
                        assert(items@.map_values(|it: Item| it@) =~= pre.push(items@.last()@));
                    }
                },
                Err(e) => {
                    return Err(e);
                },
            }
        } else if c.rule == Rule::Comment {
            // skipped without a model entry
        } else if c.rule == Rule::Eoi {
            return Ok(Schema { items });
        } else {
            push_unexpected_token(ctx, "enum declaration`, `table declaration`, or `comment", c);
            return Err(Error::UnexpectedPair(error_span(c)));
        }
        k += 1;
    }
    Ok(Schema { items })
}

/// Parses source text: the grammar engine turns it into the labeled parse
/// tree that [`spec_scan`] gives for the text, and the builder turns the
/// tree into exactly the schema or error that [`spec_parse`] gives for it —
/// so the result, and the diagnostic recorded on failure, are pinned as a
/// function of the input.
pub fn parse(ctx: &mut Context, input: &str) -> (r: Result<Schema, Error>)
    ensures
        final(ctx).file_id == old(ctx).file_id,
        (match r {
            Ok(s) => spec_parse(spec_scan(input@)) == Ok::<SchemaView, FailView>(s@),
            Err(e) => spec_parse(spec_scan(input@)) is Err && spec_parse(
                spec_scan(input@),
            )->Err_0.error == e@,
        }),
        diags_evolution(
            spec_diags(*old(ctx)),
            spec_diags(*final(ctx)),
            old(ctx).file_id as int,
            spec_parse(spec_scan(input@)),
        ),
{
    let root = parse_tree(input);
    build_schema(ctx, &root)
}

} // verus!
