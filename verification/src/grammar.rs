//! The grammar engine: turns source text into the labeled parse tree that
//! the builder consumes. It is deliberately lenient: a token that fits no
//! category at its position is kept in the tree as a bare `Token` node, and
//! the builder, not the engine, reports it.

use vstd::prelude::*;

use crate::text::{byte_off, chars_to_string, lemma_byte_off_mono, lemma_byte_off_total, str_chars, str_eq, utf8_len};
use crate::tree::{node_wf, Node, NodeView, Rule};

verus! {

/// The lexical class of one source token.
#[derive(Clone, Copy, Debug, PartialEq, Eq, Structural)]
pub enum Tok {
    Word,
    LBrace,
    RBrace,
    LBracket,
    RBracket,
    LParen,
    RParen,
    Colon,
    Comma,
    Dot,
    Bang,
    Comment,
    Other,
}

/// One token: its class and its half-open span — `start`/`end` count
/// characters, `bstart`/`bend` the same positions in UTF-8 bytes.
#[derive(Clone, Copy, Debug)]
pub struct Token {
    pub kind: Tok,
    pub start: usize,
    pub end: usize,
    pub bstart: usize,
    pub bend: usize,
}

/// Whitespace between tokens.
pub open spec fn spec_is_space(c: char) -> bool {
    c == ' ' || c == '\t' || c == '\r' || c == '\n'
}

/// A character that may stand in a word: a letter, a digit or an
/// underscore.
pub open spec fn spec_is_word_char(c: char) -> bool {
    (97 <= c as u32 && c as u32 <= 122) || (65 <= c as u32 && c as u32 <= 90) || (48 <= c as u32
        && c as u32 <= 57) || c as u32 == 95
}

/// The lexical class of a one-character token.
pub open spec fn punct_kind(c: char) -> Tok {
    if c == '{' {
        Tok::LBrace
    } else if c == '}' {
        Tok::RBrace
    } else if c == '[' {
        Tok::LBracket
    } else if c == ']' {
        Tok::RBracket
    } else if c == '(' {
        Tok::LParen
    } else if c == ')' {
        Tok::RParen
    } else if c == ':' {
        Tok::Colon
    } else if c == ',' {
        Tok::Comma
    } else if c == '.' {
        Tok::Dot
    } else if c == '!' {
        Tok::Bang
    } else {
        Tok::Other
    }
}

/// The index just past the run of word characters starting at `i`.
pub open spec fn word_end(cs: Seq<char>, i: int) -> int
    decreases cs.len() - i,
{
    if 0 <= i < cs.len() && spec_is_word_char(cs[i]) {
        word_end(cs, i + 1)
    } else {
        i
    }
}

/// The index of the line break ending the comment that runs from `i`, or
/// the end of the source.
pub open spec fn comment_end(cs: Seq<char>, i: int) -> int
    decreases cs.len() - i,
{
    if 0 <= i < cs.len() && cs[i] != '\n' {
        comment_end(cs, i + 1)
    } else {
        i
    }
}

proof fn lemma_word_end_bounds(cs: Seq<char>, i: int)
    requires
        0 <= i <= cs.len(),
    ensures
        i <= word_end(cs, i) <= cs.len(),
    decreases cs.len() - i,
{
    if 0 <= i < cs.len() && spec_is_word_char(cs[i]) {
        lemma_word_end_bounds(cs, i + 1);
    }
}

proof fn lemma_comment_end_bounds(cs: Seq<char>, i: int)
    requires
        0 <= i <= cs.len(),
    ensures
        i <= comment_end(cs, i) <= cs.len(),
    decreases cs.len() - i,
{
    if 0 <= i < cs.len() && cs[i] != '\n' {
        lemma_comment_end_bounds(cs, i + 1);
    }
}

/// The tokens of the source from position `i` on: whitespace is dropped, a
/// `//` pair opens a comment token running to the line break, a word
/// character opens a word token running to the end of its run, and any
/// other character is one token of its lexical class. (The guard `g` only
/// discharges termination; both run ends lie past `i`.)
pub open spec fn spec_tokenize(cs: Seq<char>, i: int) -> Seq<Token>
    decreases cs.len() - i,
{
    if i < 0 || i >= cs.len() {
        Seq::<Token>::empty()
    } else {
        let c = cs[i];
        if spec_is_space(c) {
            spec_tokenize(cs, i + 1)
        } else if c == '/' && i + 1 < cs.len() && cs[i + 1] == '/' {
            let e = comment_end(cs, i + 2);
            let g = if i < e <= cs.len() {
                e
            } else {
                i + 1
            };
            seq![
                Token {
                    kind: Tok::Comment,
                    start: i as usize,
                    end: g as usize,
                    bstart: byte_off(cs, i) as usize,
                    bend: byte_off(cs, g) as usize,
                },
            ] + spec_tokenize(cs, g)
        } else if spec_is_word_char(c) {
            let e = word_end(cs, i + 1);
            let g = if i < e <= cs.len() {
                e
            } else {
                i + 1
            };
            seq![
                Token {
                    kind: Tok::Word,
                    start: i as usize,
                    end: g as usize,
                    bstart: byte_off(cs, i) as usize,
                    bend: byte_off(cs, g) as usize,
                },
            ] + spec_tokenize(cs, g)
        } else {
            seq![
                Token {
                    kind: punct_kind(c),
                    start: i as usize,
                    end: (i + 1) as usize,
                    bstart: byte_off(cs, i) as usize,
                    bend: byte_off(cs, i + 1) as usize,
                },
            ] + spec_tokenize(cs, i + 1)
        }
    }
}

// ---------------------------------------------------------------------------
// The tree the engine builds, as spec functions over the tokens
// ---------------------------------------------------------------------------

/// A node covering the given span of the source.
pub open spec fn sv_node(
    cs: Seq<char>,
    rule: Rule,
    start: int,
    end: int,
    children: Seq<NodeView>,
) -> NodeView {
    NodeView {
        rule,
        start,
        end,
        bstart: byte_off(cs, start),
        bend: byte_off(cs, end),
        text: cs.subrange(start, end),
        children,
    }
}

/// A childless node covering one token.
pub open spec fn sv_tok(cs: Seq<char>, t: Token, rule: Rule) -> NodeView {
    sv_node(cs, rule, t.start as int, t.end as int, Seq::empty())
}

/// The guard that discharges termination of a fold that continues at a
/// sub-scan's returned position: every sub-scan in fact returns a position
/// past `j` and within the tokens, so the guard always picks `j2`.
pub open spec fn advance(j: int, j2: int, n: int) -> int {
    if j < j2 <= n {
        j2
    } else {
        j + 1
    }
}

/// The end of a default value: consumes tokens up to a comma or closing
/// bracket, returning the next position and the last consumed token's end.
pub open spec fn value_run(toks: Seq<Token>, j: int, vend: int) -> (int, int)
    decreases toks.len() - j,
{
    if 0 <= j < toks.len() && toks[j].kind != Tok::Comma && toks[j].kind != Tok::RBracket
        && toks[j].kind != Tok::RBrace {
        value_run(toks, j + 1, toks[j].end as int)
    } else {
        (j, vend)
    }
}

/// The end of an action phrase: consumes a run of words, returning the next
/// position and the last consumed token's end.
pub open spec fn word_run(toks: Seq<Token>, j: int, aend: int) -> (int, int)
    decreases toks.len() - j,
{
    if 0 <= j < toks.len() && toks[j].kind == Tok::Word {
        word_run(toks, j + 1, toks[j].end as int)
    } else {
        (j, aend)
    }
}

/// A default modifier: the `default` keyword, an optional colon, then the
/// raw default value up to a comma or closing bracket as one child.
pub open spec fn spec_scan_default(cs: Seq<char>, toks: Seq<Token>, i: int) -> (NodeView, int) {
    let n = toks.len() as int;
    let start = toks[i].start as int;
    let end0 = toks[i].end as int;
    let j0 = i + 1;
    let end1 = if j0 < n && toks[j0].kind == Tok::Colon {
        toks[j0].end as int
    } else {
        end0
    };
    let j1 = if j0 < n && toks[j0].kind == Tok::Colon {
        j0 + 1
    } else {
        j0
    };
    if j1 < n && toks[j1].kind != Tok::Comma && toks[j1].kind != Tok::RBracket && toks[j1].kind
        != Tok::RBrace {
        let vstart = toks[j1].start as int;
        let run = value_run(toks, j1 + 1, toks[j1].end as int);
        let child = sv_node(cs, Rule::ModifierDefaultValue, vstart, run.1, Seq::empty());
        (sv_node(cs, Rule::ModifierDefault, start, run.1, seq![child]), run.0)
    } else {
        (sv_node(cs, Rule::ModifierDefault, start, end1, Seq::empty()), j1)
    }
}

/// A primary-key modifier: the two words `primary key`; a lone `primary` is
/// kept as a bare token.
pub open spec fn spec_scan_primary(cs: Seq<char>, toks: Seq<Token>, i: int) -> (NodeView, int) {
    let n = toks.len() as int;
    if i + 1 < n && toks[i + 1].kind == Tok::Word && cs.subrange(
        toks[i + 1].start as int,
        toks[i + 1].end as int,
    ) == "key"@ {
        (
            sv_node(
                cs,
                Rule::ModifierPrimary,
                toks[i].start as int,
                toks[i + 1].end as int,
                Seq::empty(),
            ),
            i + 2,
        )
    } else {
        (sv_tok(cs, toks[i], Rule::Token), i + 1)
    }
}

/// The clauses of an action list, folded in source order.
pub open spec fn actions_items(cs: Seq<char>, toks: Seq<Token>, j: int, acc: Seq<NodeView>, end: int) -> (
    Seq<NodeView>,
    int,
    int,
)
    decreases toks.len() - j,
{
    let n = toks.len() as int;
    if !(0 <= j < n) || toks[j].kind == Tok::RParen || toks[j].kind == Tok::RBracket {
        (acc, j, end)
    } else {
        let t = toks[j];
        if t.kind == Tok::Comma {
            actions_items(cs, toks, j + 1, acc, t.end as int)
        } else if t.kind == Tok::Word {
            let txt = cs.subrange(t.start as int, t.end as int);
            if txt == "delete"@ || txt == "update"@ {
                let substart = t.start as int;
                let j1 = j + 1;
                let subend1 = if j1 < n && toks[j1].kind == Tok::Colon {
                    toks[j1].end as int
                } else {
                    t.end as int
                };
                let j2 = if j1 < n && toks[j1].kind == Tok::Colon {
                    j1 + 1
                } else {
                    j1
                };
                let rule = if txt == "delete"@ {
                    Rule::RefActionDelete
                } else {
                    Rule::RefActionUpdate
                };
                if j2 < n && toks[j2].kind == Tok::Word {
                    let astart = toks[j2].start as int;
                    let run = word_run(toks, j2 + 1, toks[j2].end as int);
                    let sub = sv_node(
                        cs,
                        rule,
                        substart,
                        run.1,
                        seq![sv_node(cs, Rule::Action, astart, run.1, Seq::empty())],
                    );
                    actions_items(cs, toks, advance(j, run.0, n), acc.push(sub), run.1)
                } else {
                    let sub = sv_node(cs, rule, substart, subend1, Seq::empty());
                    actions_items(cs, toks, advance(j, j2, n), acc.push(sub), subend1)
                }
            } else {
                actions_items(cs, toks, j + 1, acc.push(sv_tok(cs, t, Rule::Token)), t.end as int)
            }
        } else {
            actions_items(cs, toks, j + 1, acc.push(sv_tok(cs, t, Rule::Token)), t.end as int)
        }
    }
}

/// A parenthesized action list.
pub open spec fn spec_scan_actions(cs: Seq<char>, toks: Seq<Token>, i: int) -> (NodeView, int) {
    let n = toks.len() as int;
    let start = toks[i].start as int;
    let body = actions_items(cs, toks, i + 1, Seq::empty(), toks[i].end as int);
    let end = if body.1 < n && toks[body.1].kind == Tok::RParen {
        toks[body.1].end as int
    } else {
        body.2
    };
    let j = if body.1 < n && toks[body.1].kind == Tok::RParen {
        body.1 + 1
    } else {
        body.1
    };
    (sv_node(cs, Rule::RefAction, start, end, body.0), j)
}

/// A reference modifier: `ref: Table.column`, optionally followed by a
/// parenthesized action list.
pub open spec fn spec_scan_ref(cs: Seq<char>, toks: Seq<Token>, i: int) -> (NodeView, int) {
    let n = toks.len() as int;
    let start = toks[i].start as int;
    let end0 = toks[i].end as int;
    let j0 = i + 1;
    // optional colon
    let colon = j0 < n && toks[j0].kind == Tok::Colon;
    let end1 = if colon {
        toks[j0].end as int
    } else {
        end0
    };
    let j1 = if colon {
        j0 + 1
    } else {
        j0
    };
    // referenced table
    let tbl_word = j1 < n && toks[j1].kind == Tok::Word;
    let tbl_raw = !tbl_word && j1 < n && toks[j1].kind != Tok::RBracket && toks[j1].kind
        != Tok::Comma && toks[j1].kind != Tok::RBrace;
    let acc1 = if tbl_word {
        seq![sv_tok(cs, toks[j1], Rule::Ident)]
    } else if tbl_raw {
        seq![sv_tok(cs, toks[j1], Rule::Token)]
    } else {
        Seq::<NodeView>::empty()
    };
    let end2 = if tbl_word || tbl_raw {
        toks[j1].end as int
    } else {
        end1
    };
    let j2 = if tbl_word || tbl_raw {
        j1 + 1
    } else {
        j1
    };
    // optional dot
    let dot = j2 < n && toks[j2].kind == Tok::Dot;
    let end3 = if dot {
        toks[j2].end as int
    } else {
        end2
    };
    let j3 = if dot {
        j2 + 1
    } else {
        j2
    };
    // referenced column
    let col_word = j3 < n && toks[j3].kind == Tok::Word;
    let col_raw = !col_word && j3 < n && toks[j3].kind != Tok::RBracket && toks[j3].kind
        != Tok::Comma && toks[j3].kind != Tok::RBrace && toks[j3].kind != Tok::LParen;
    let acc2 = if col_word {
        acc1.push(sv_tok(cs, toks[j3], Rule::Ident))
    } else if col_raw {
        acc1.push(sv_tok(cs, toks[j3], Rule::Token))
    } else {
        acc1
    };
    let end4 = if col_word || col_raw {
        toks[j3].end as int
    } else {
        end3
    };
    let j4 = if col_word || col_raw {
        j3 + 1
    } else {
        j3
    };
    // optional action list
    if j4 < n && toks[j4].kind == Tok::LParen {
        let sub = spec_scan_actions(cs, toks, j4);
        (sv_node(cs, Rule::ModifierRef, start, sub.0.end, acc2.push(sub.0)), sub.1)
    } else {
        (sv_node(cs, Rule::ModifierRef, start, end4, acc2), j4)
    }
}

/// The modifiers of a bracketed list, folded in source order.
pub open spec fn modifiers_items(cs: Seq<char>, toks: Seq<Token>, j: int, acc: Seq<NodeView>, end: int) -> (
    Seq<NodeView>,
    int,
    int,
)
    decreases toks.len() - j,
{
    let n = toks.len() as int;
    if !(0 <= j < n) || toks[j].kind == Tok::RBracket || toks[j].kind == Tok::RBrace {
        (acc, j, end)
    } else {
        let t = toks[j];
        if t.kind == Tok::Comma {
            modifiers_items(cs, toks, j + 1, acc, t.end as int)
        } else if t.kind == Tok::Word {
            let txt = cs.subrange(t.start as int, t.end as int);
            if txt == "default"@ {
                let sub = spec_scan_default(cs, toks, j);
                modifiers_items(cs, toks, advance(j, sub.1, n), acc.push(sub.0), sub.0.end)
            } else if txt == "primary"@ {
                let sub = spec_scan_primary(cs, toks, j);
                modifiers_items(cs, toks, advance(j, sub.1, n), acc.push(sub.0), sub.0.end)
            } else if txt == "unique"@ {
                modifiers_items(
                    cs,
                    toks,
                    j + 1,
                    acc.push(sv_tok(cs, t, Rule::ModifierUnique)),
                    t.end as int,
                )
            } else if txt == "ref"@ {
                let sub = spec_scan_ref(cs, toks, j);
                modifiers_items(cs, toks, advance(j, sub.1, n), acc.push(sub.0), sub.0.end)
            } else {
                modifiers_items(cs, toks, j + 1, acc.push(sv_tok(cs, t, Rule::Token)), t.end as int)
            }
        } else {
            modifiers_items(cs, toks, j + 1, acc.push(sv_tok(cs, t, Rule::Token)), t.end as int)
        }
    }
}

/// A bracketed modifier list.
pub open spec fn spec_scan_modifiers(cs: Seq<char>, toks: Seq<Token>, i: int) -> (NodeView, int) {
    let n = toks.len() as int;
    let start = toks[i].start as int;
    let body = modifiers_items(cs, toks, i + 1, Seq::empty(), toks[i].end as int);
    let end = if body.1 < n && toks[body.1].kind == Tok::RBracket {
        toks[body.1].end as int
    } else {
        body.2
    };
    let j = if body.1 < n && toks[body.1].kind == Tok::RBracket {
        body.1 + 1
    } else {
        body.1
    };
    (sv_node(cs, Rule::Modifiers, start, end, body.0), j)
}

/// A column's name, type and optional nullability marker: the children so
/// far, the end of the last consumed token, and the next position.
pub open spec fn spec_column_header(cs: Seq<char>, toks: Seq<Token>, i: int) -> (
    Seq<NodeView>,
    int,
    int,
) {
    let n = toks.len() as int;
    let t = toks[i];
    // name
    let name_word = t.kind == Tok::Word;
    let name_skip = !name_word && (t.kind == Tok::Bang || t.kind == Tok::LBracket);
    let acc0 = if name_word {
        seq![sv_tok(cs, t, Rule::Ident)]
    } else if name_skip {
        Seq::<NodeView>::empty()
    } else {
        seq![sv_tok(cs, t, Rule::Token)]
    };
    let end0 = t.end as int;
    let j0 = if name_skip {
        i
    } else {
        i + 1
    };
    // type
    let has_type = j0 < n && toks[j0].kind == Tok::Word;
    let acc1 = if has_type {
        acc0.push(sv_tok(cs, toks[j0], Rule::ColumnType))
    } else {
        acc0
    };
    let end1 = if has_type {
        toks[j0].end as int
    } else {
        end0
    };
    let j1 = if has_type {
        j0 + 1
    } else {
        j0
    };
    // nullability marker
    let has_null = j1 < n && toks[j1].kind == Tok::Bang;
    let acc2 = if has_null {
        acc1.push(sv_tok(cs, toks[j1], Rule::Null))
    } else {
        acc1
    };
    let end2 = if has_null {
        toks[j1].end as int
    } else {
        end1
    };
    let j2 = if has_null {
        j1 + 1
    } else {
        j1
    };
    (acc2, end2, j2)
}

/// One column: its name, type, optional nullability marker and optional
/// modifier list.
pub open spec fn spec_scan_column(cs: Seq<char>, toks: Seq<Token>, i: int) -> (NodeView, int) {
    let n = toks.len() as int;
    let start = toks[i].start as int;
    let hdr = spec_column_header(cs, toks, i);
    // modifier list
    if hdr.2 < n && toks[hdr.2].kind == Tok::LBracket {
        let sub = spec_scan_modifiers(cs, toks, hdr.2);
        (sv_node(cs, Rule::Column, start, sub.0.end, hdr.0.push(sub.0)), sub.1)
    } else {
        (sv_node(cs, Rule::Column, start, hdr.1, hdr.0), hdr.2)
    }
}

/// The body of a declaration, folded in source order: variants (or raw
/// tokens) for an enum, columns and comments for a table.
pub open spec fn decl_body_items(
    cs: Seq<char>,
    toks: Seq<Token>,
    j: int,
    acc: Seq<NodeView>,
    end: int,
    is_enum: bool,
) -> (Seq<NodeView>, int, int)
    decreases toks.len() - j,
{
    let n = toks.len() as int;
    if !(0 <= j < n) || toks[j].kind == Tok::RBrace {
        (acc, j, end)
    } else if is_enum {
        let t = toks[j];
        if t.kind == Tok::Comment {
            decl_body_items(cs, toks, j + 1, acc, end, is_enum)
        } else if t.kind == Tok::Word {
            decl_body_items(
                cs,
                toks,
                j + 1,
                acc.push(sv_tok(cs, t, Rule::Variant)),
                t.end as int,
                is_enum,
            )
        } else {
            decl_body_items(
                cs,
                toks,
                j + 1,
                acc.push(sv_tok(cs, t, Rule::Token)),
                t.end as int,
                is_enum,
            )
        }
    } else {
        if toks[j].kind == Tok::Comment {
            decl_body_items(
                cs,
                toks,
                j + 1,
                acc.push(sv_tok(cs, toks[j], Rule::Comment)),
                toks[j].end as int,
                is_enum,
            )
        } else {
            let sub = spec_scan_column(cs, toks, j);
            decl_body_items(cs, toks, advance(j, sub.1, n), acc.push(sub.0), sub.0.end, is_enum)
        }
    }
}

/// A declaration's name and optional `[exists]` marker: the children so
/// far, the end of the last consumed token, and the next position.
pub open spec fn spec_decl_header(cs: Seq<char>, toks: Seq<Token>, i: int) -> (
    Seq<NodeView>,
    int,
    int,
) {
    let n = toks.len() as int;
    let end0 = toks[i].end as int;
    let j0 = i + 1;
    // name
    let name_word = j0 < n && toks[j0].kind == Tok::Word;
    let name_brace = !name_word && j0 < n && toks[j0].kind == Tok::LBrace;
    let name_skip = !name_word && !name_brace && j0 < n && toks[j0].kind == Tok::LBracket;
    let name_raw = j0 < n && !name_word && !name_brace && !name_skip;
    let acc0 = if name_word {
        seq![sv_tok(cs, toks[j0], Rule::Ident)]
    } else if name_brace {
        seq![sv_tok(cs, toks[j0], Rule::Token)]
    } else if name_raw {
        seq![sv_tok(cs, toks[j0], Rule::Token)]
    } else {
        Seq::<NodeView>::empty()
    };
    let end1 = if name_word || name_raw {
        toks[j0].end as int
    } else {
        end0
    };
    let j1 = if name_word || name_raw {
        j0 + 1
    } else {
        j0
    };
    // optional [exists]
    let has_exists = n - j1 >= 3 && toks[j1].kind == Tok::LBracket && toks[j1 + 1].kind
        == Tok::Word && toks[j1 + 2].kind == Tok::RBracket && cs.subrange(
        toks[j1 + 1].start as int,
        toks[j1 + 1].end as int,
    ) == "exists"@;
    let acc1 = if has_exists {
        acc0.push(
            sv_node(cs, Rule::Exists, toks[j1].start as int, toks[j1 + 2].end as int, Seq::empty()),
        )
    } else {
        acc0
    };
    let end2 = if has_exists {
        toks[j1 + 2].end as int
    } else {
        end1
    };
    let j2 = if has_exists {
        j1 + 3
    } else {
        j1
    };
    (acc1, end2, j2)
}

/// One declaration: the keyword at `i`, the name, an optional `[exists]`
/// marker, and the braced body.
pub open spec fn spec_scan_decl(cs: Seq<char>, toks: Seq<Token>, i: int, is_enum: bool) -> (
    NodeView,
    int,
) {
    let n = toks.len() as int;
    let start = toks[i].start as int;
    let hdr = spec_decl_header(cs, toks, i);
    let rule = if is_enum {
        Rule::DeclEnum
    } else {
        Rule::DeclTable
    };
    // body
    if hdr.2 < n && toks[hdr.2].kind == Tok::LBrace {
        let body = decl_body_items(cs, toks, hdr.2 + 1, hdr.0, toks[hdr.2].end as int, is_enum);
        let end3 = if body.1 < n {
            toks[body.1].end as int
        } else {
            body.2
        };
        let j3 = if body.1 < n {
            body.1 + 1
        } else {
            body.1
        };
        (sv_node(cs, rule, start, end3, body.0), j3)
    } else {
        (sv_node(cs, rule, start, hdr.1, hdr.0), hdr.2)
    }
}

/// The top level of the source, folded in source order: declarations,
/// comments and bare tokens.
pub open spec fn top_items(cs: Seq<char>, toks: Seq<Token>, i: int, acc: Seq<NodeView>) -> Seq<NodeView>
    decreases toks.len() - i,
{
    let n = toks.len() as int;
    if !(0 <= i < n) {
        acc
    } else {
        let t = toks[i];
        if t.kind == Tok::Comment {
            top_items(cs, toks, i + 1, acc.push(sv_tok(cs, t, Rule::Comment)))
        } else if t.kind == Tok::Word {
            let txt = cs.subrange(t.start as int, t.end as int);
            if txt == "enum"@ {
                let sub = spec_scan_decl(cs, toks, i, true);
                top_items(cs, toks, advance(i, sub.1, n), acc.push(sub.0))
            } else if txt == "table"@ {
                let sub = spec_scan_decl(cs, toks, i, false);
                top_items(cs, toks, advance(i, sub.1, n), acc.push(sub.0))
            } else {
                top_items(cs, toks, i + 1, acc.push(sv_tok(cs, t, Rule::Token)))
            }
        } else {
            top_items(cs, toks, i + 1, acc.push(sv_tok(cs, t, Rule::Token)))
        }
    }
}

/// The labeled parse tree of a source text: the declarations, comments and
/// bare tokens of [`spec_tokenize`]'s tokens, grouped by the grammar, under
/// a `Schema` root closed by an end-of-input marker.
pub open spec fn spec_scan(src: Seq<char>) -> NodeView {
    let toks = spec_tokenize(src, 0);
    let items = top_items(src, toks, 0, Seq::empty());
    let eoi = NodeView {
        rule: Rule::Eoi,
        start: src.len() as int,
        end: src.len() as int,
        bstart: byte_off(src, src.len() as int),
        bend: byte_off(src, src.len() as int),
        text: Seq::empty(),
        children: Seq::empty(),
    };
    NodeView {
        rule: Rule::Schema,
        start: 0,
        end: src.len() as int,
        bstart: 0,
        bend: byte_off(src, src.len() as int),
        text: src,
        children: items.push(eoi),
    }
}

/// Tokens have non-empty character spans within the source, in strictly
/// increasing source order, and their byte spans are their character spans'
/// UTF-8 byte offsets.
spec fn toks_wf(cs: Seq<char>, toks: Seq<Token>) -> bool {
    &&& forall|k: int|
        0 <= k < toks.len() ==> ((#[trigger] toks[k]).start < toks[k].end && toks[k].end
            <= cs.len())
    &&& forall|k: int|
        0 <= k < toks.len() ==> ((#[trigger] toks[k]).bstart as int == byte_off(
            cs,
            toks[k].start as int,
        ) && toks[k].bend as int == byte_off(cs, toks[k].end as int))
    &&& forall|k1: int, k2: int|
        0 <= k1 < k2 < toks.len() ==> (#[trigger] toks[k1]).end <= (#[trigger] toks[k2]).start
}

proof fn lemma_tok_span(cs: Seq<char>, toks: Seq<Token>, i: int, j: int)
    requires
        toks_wf(cs, toks),
        0 <= i <= j < toks.len(),
    ensures
        toks[i].start < toks[j].end,
        toks[j].end <= cs.len(),
        toks[i].start <= toks[j].start,
        toks[i].end <= toks[j].end,
        toks[i].bstart as int == byte_off(cs, toks[i].start as int),
        toks[i].bend as int == byte_off(cs, toks[i].end as int),
        toks[j].bstart as int == byte_off(cs, toks[j].start as int),
        toks[j].bend as int == byte_off(cs, toks[j].end as int),
{
    if i < j {
        assert(toks[i].end <= toks[j].start);
    }
    assert(toks[i].start < toks[i].end);
    assert(toks[j].start < toks[j].end);
}

fn is_space(c: char) -> (r: bool)
    ensures
        r == spec_is_space(c),
{
    c == ' ' || c == '\t' || c == '\r' || c == '\n'
}

fn is_word_char(c: char) -> (r: bool)
    ensures
        r == spec_is_word_char(c),
{
    let u = c as u32;
    (97 <= u && u <= 122) || (65 <= u && u <= 90) || (48 <= u && u <= 57) || u == 95
}

/// Splits the source into exactly the tokens of [`spec_tokenize`]: words,
/// punctuation, line comments (`//` to end of line); whitespace separates
/// and is dropped. `blen` is the UTF-8 byte length of the source.
fn tokenize(cs: &Vec<char>, blen: usize) -> (toks: Vec<Token>)
    requires
        blen as int == byte_off(cs@, cs@.len() as int),
    ensures
        toks@ == spec_tokenize(cs@, 0),
        toks_wf(cs@, toks@),
{
    let n = cs.len();
    let mut toks: Vec<Token> = Vec::new();
    let mut i: usize = 0;
    let mut b: usize = 0;
    while i < n
        invariant
            n == cs@.len(),
            i <= n,
            b as int == byte_off(cs@, i as int),
            b <= blen,
            blen as int == byte_off(cs@, cs@.len() as int),
            toks_wf(cs@, toks@),
            forall|k: int| 0 <= k < toks@.len() ==> (#[trigger] toks@[k]).end <= i,
            toks@ + spec_tokenize(cs@, i as int) == spec_tokenize(cs@, 0),
        decreases n - i,
    {
        let ghost pre = toks@;
        let c = cs[i];
        proof {
            lemma_byte_off_mono(cs@, i as int + 1, n as int);
        }
        if is_space(c) {
            b += utf8_len(c);
            i += 1;
        } else if c == '/' && i + 1 < n && cs[i + 1] == '/' {
            let start = i;
            let bstart = b;
            b += utf8_len(c);
            i += 1;
            proof {
                lemma_byte_off_mono(cs@, i as int + 1, n as int);
            }
            b += utf8_len(cs[i]);
            i += 1;
            while i < n && cs[i] != '\n'
                invariant
                    n == cs@.len(),
                    start + 2 <= i <= n,
                    b as int == byte_off(cs@, i as int),
                    b <= blen,
                    blen as int == byte_off(cs@, cs@.len() as int),
                    comment_end(cs@, i as int) == comment_end(cs@, start as int + 2),
                decreases n - i,
            {
                proof {
                    lemma_byte_off_mono(cs@, i as int + 1, n as int);
                }
                b += utf8_len(cs[i]);
                i += 1;
            }
            let tok = Token { kind: Tok::Comment, start, end: i, bstart, bend: b };
            toks.push(tok);
            proof {
                assert(comment_end(cs@, i as int) == i as int);
                lemma_comment_end_bounds(cs@, start as int + 2);
                assert(spec_tokenize(cs@, start as int) == seq![tok] + spec_tokenize(
                    cs@,
                    i as int,
                ));
                assert(toks@ + spec_tokenize(cs@, i as int) =~= pre + spec_tokenize(
                    cs@,
                    start as int,
                ));
            }
        } else if is_word_char(c) {
            let start = i;
            let bstart = b;
            b += utf8_len(c);
            i += 1;
            while i < n && is_word_char(cs[i])
                invariant
                    n == cs@.len(),
                    start < i <= n,
                    b as int == byte_off(cs@, i as int),
                    b <= blen,
                    blen as int == byte_off(cs@, cs@.len() as int),
                    word_end(cs@, i as int) == word_end(cs@, start as int + 1),
                decreases n - i,
            {
                proof {
                    lemma_byte_off_mono(cs@, i as int + 1, n as int);
                }
                b += utf8_len(cs[i]);
                i += 1;
            }
            let tok = Token { kind: Tok::Word, start, end: i, bstart, bend: b };
            toks.push(tok);
            proof {
                assert(word_end(cs@, i as int) == i as int);
                lemma_word_end_bounds(cs@, start as int + 1);
                assert(spec_tokenize(cs@, start as int) == seq![tok] + spec_tokenize(
                    cs@,
                    i as int,
                ));
                assert(toks@ + spec_tokenize(cs@, i as int) =~= pre + spec_tokenize(
                    cs@,
                    start as int,
                ));
            }
        } else {
            let kind = if c == '{' {
                Tok::LBrace
            } else if c == '}' {
                Tok::RBrace
            } else if c == '[' {
                Tok::LBracket
            } else if c == ']' {
                Tok::RBracket
            } else if c == '(' {
                Tok::LParen
            } else if c == ')' {
                Tok::RParen
            } else if c == ':' {
                Tok::Colon
            } else if c == ',' {
                Tok::Comma
            } else if c == '.' {
                Tok::Dot
            } else if c == '!' {
                Tok::Bang
            } else {
                Tok::Other
            };
            let bstart = b;
            b += utf8_len(c);
            let tok = Token { kind, start: i, end: i + 1, bstart, bend: b };
            toks.push(tok);
            proof {
                assert(kind == punct_kind(c));
                assert(spec_tokenize(cs@, i as int) == seq![tok] + spec_tokenize(
                    cs@,
                    i as int + 1,
                ));
                assert(toks@ + spec_tokenize(cs@, i as int + 1) =~= pre + spec_tokenize(
                    cs@,
                    i as int,
                ));
            }
            i += 1;
        }
    }
    proof {
        assert(spec_tokenize(cs@, n as int) =~= Seq::<Token>::empty());
        assert(toks@ =~= spec_tokenize(cs@, 0));
    }
    toks
}

/// The source text a token spans.
fn token_text(cs: &Vec<char>, t: &Token) -> (r: String)
    requires
        t.start <= t.end,
        t.end <= cs@.len(),
    ensures
        r@ == cs@.subrange(t.start as int, t.end as int),
{
    chars_to_string(cs, t.start, t.end)
}

/// A childless node covering the given span.
fn span_node(cs: &Vec<char>, rule: Rule, start: usize, end: usize, bstart: usize, bend: usize) -> (n:
    Node)
    requires
        start <= end,
        end <= cs@.len(),
        bstart as int == byte_off(cs@, start as int),
        bend as int == byte_off(cs@, end as int),
    ensures
        node_wf(n, cs@),
        n.rule == rule,
        n.start == start,
        n.end == end,
        n.children@.len() == 0,
        n@ == sv_node(cs@, rule, start as int, end as int, Seq::<NodeView>::empty()),
{
    let n = Node {
        rule,
        start,
        end,
        bstart,
        bend,
        text: chars_to_string(cs, start, end),
        children: Vec::new(),
    };
    proof {
        assert(n@.children =~= Seq::<NodeView>::empty());
        assert(n@ == sv_node(cs@, rule, start as int, end as int, Seq::<NodeView>::empty()));
    }
    n
}

/// A childless node covering one token.
fn token_node(cs: &Vec<char>, toks: &Vec<Token>, i: usize, rule: Rule) -> (n: Node)
    requires
        toks_wf(cs@, toks@),
        i < toks@.len(),
    ensures
        node_wf(n, cs@),
        n.rule == rule,
        n.start == toks@[i as int].start,
        n.end == toks@[i as int].end,
        n.children@.len() == 0,
        n@ == sv_tok(cs@, toks@[i as int], rule),
{
    proof {
        lemma_tok_span(cs@, toks@, i as int, i as int);
    }
    let t = toks[i];
    span_node(cs, rule, t.start, t.end, t.bstart, t.bend)
}

/// A node with children covering the given span.
fn group_node(
    cs: &Vec<char>,
    rule: Rule,
    start: usize,
    end: usize,
    bstart: usize,
    bend: usize,
    children: Vec<Node>,
) -> (n: Node)
    requires
        start <= end,
        end <= cs@.len(),
        bstart as int == byte_off(cs@, start as int),
        bend as int == byte_off(cs@, end as int),
        forall|k: int| 0 <= k < children@.len() ==> node_wf(#[trigger] children@[k], cs@),
    ensures
        node_wf(n, cs@),
        n.rule == rule,
        n.start == start,
        n.end == end,
        n.children == children,
        n@ == sv_node(
            cs@,
            rule,
            start as int,
            end as int,
            children@.map_values(|c: Node| c@),
        ),
{
    let n = Node { rule, start, end, bstart, bend, text: chars_to_string(cs, start, end), children };
    proof {
        assert(n@.children =~= n.children@.map_values(|c: Node| c@));
        assert(n@ == sv_node(
            cs@,
            rule,
            start as int,
            end as int,
            n.children@.map_values(|c: Node| c@),
        ));
    }
    n
}

/// Scans a default modifier: the `default` keyword, an optional colon, then
/// the raw default value, everything up to the next comma or closing
/// bracket, as one `ModifierDefaultValue` child. Exactly
/// [`spec_scan_default`].
fn scan_default(cs: &Vec<char>, toks: &Vec<Token>, i: usize) -> (r: (Node, usize))
    requires
        toks_wf(cs@, toks@),
        i < toks@.len(),
    ensures
        node_wf(r.0, cs@),
        r.0.rule == Rule::ModifierDefault,
        r.0.start == toks@[i as int].start,
        i < r.1 <= toks@.len(),
        r.0@ == spec_scan_default(cs@, toks@, i as int).0,
        r.1 as int == spec_scan_default(cs@, toks@, i as int).1,
{
    let n = toks.len();
    let start = toks[i].start;
    proof {
        lemma_tok_span(cs@, toks@, i as int, i as int);
    }
    let bstart = toks[i].bstart;
    let end0 = toks[i].end;
    let bend0 = toks[i].bend;
    let j0 = i + 1;
    let has_colon = j0 < n && toks[j0].kind == Tok::Colon;
    proof {
        if has_colon {
            lemma_tok_span(cs@, toks@, i as int, j0 as int);
        }
    }
    let end1 = if has_colon {
        toks[j0].end
    } else {
        end0
    };
    let bend1 = if has_colon {
        toks[j0].bend
    } else {
        bend0
    };
    let j1 = if has_colon {
        j0 + 1
    } else {
        j0
    };
    if j1 < n && toks[j1].kind != Tok::Comma && toks[j1].kind != Tok::RBracket && toks[j1].kind
        != Tok::RBrace {
        proof {
            lemma_tok_span(cs@, toks@, i as int, j1 as int);
        }
        let vstart = toks[j1].start;
        let bvstart = toks[j1].bstart;
        let mut vend = toks[j1].end;
        let mut bvend = toks[j1].bend;
        let mut j = j1 + 1;
        while j < n && toks[j].kind != Tok::Comma && toks[j].kind != Tok::RBracket && toks[j].kind
            != Tok::RBrace
            invariant
                n == toks@.len(),
                toks_wf(cs@, toks@),
                i < j1 < j <= n,
                j1 < n,
                vstart == toks@[j1 as int].start,
                vstart < vend <= cs@.len(),
                bvend as int == byte_off(cs@, vend as int),
                exists|k: int| j1 <= k < j && vend == (#[trigger] toks@[k]).end,
                value_run(toks@, j as int, vend as int) == value_run(
                    toks@,
                    j1 as int + 1,
                    toks@[j1 as int].end as int,
                ),
            decreases n - j,
        {
            proof {
                let k = choose|k: int| j1 <= k < j && vend == (#[trigger] toks@[k]).end;
                lemma_tok_span(cs@, toks@, k, j as int);
            }
            vend = toks[j].end;
            bvend = toks[j].bend;
            j += 1;
        }
        proof {
            assert(value_run(toks@, j as int, vend as int) == (j as int, vend as int));
            let k = choose|k: int| j1 <= k < j && vend == (#[trigger] toks@[k]).end;
            lemma_tok_span(cs@, toks@, i as int, k);
        }
        let mut children: Vec<Node> = Vec::new();
        children.push(span_node(cs, Rule::ModifierDefaultValue, vstart, vend, bvstart, bvend));
        let node = group_node(cs, Rule::ModifierDefault, start, vend, bstart, bvend, children);
        proof {
            assert(node.children@.map_values(|c: Node| c@) =~= seq![
                sv_node(
                    cs@,
                    Rule::ModifierDefaultValue,
                    vstart as int,
                    vend as int,
                    Seq::<NodeView>::empty(),
                ),
            ]);
            assert(node@ == spec_scan_default(cs@, toks@, i as int).0);
        }
        (node, j)
    } else {
        let node = group_node(cs, Rule::ModifierDefault, start, end1, bstart, bend1, Vec::new());
        proof {
            assert(node.children@.map_values(|c: Node| c@) =~= Seq::<NodeView>::empty());
            assert(node@ == spec_scan_default(cs@, toks@, i as int).0);
        }
        (node, j1)
    }
}

/// Scans a primary-key modifier: the two words `primary key`. A lone
/// `primary` is kept as a bare token for the builder to report. Exactly
/// [`spec_scan_primary`].
fn scan_primary(cs: &Vec<char>, toks: &Vec<Token>, i: usize) -> (r: (Node, usize))
    requires
        toks_wf(cs@, toks@),
        i < toks@.len(),
    ensures
        node_wf(r.0, cs@),
        r.0.start == toks@[i as int].start,
        i < r.1 <= toks@.len(),
        r.0@ == spec_scan_primary(cs@, toks@, i as int).0,
        r.1 as int == spec_scan_primary(cs@, toks@, i as int).1,
{
    let n = toks.len();
    if i + 1 < n && toks[i + 1].kind == Tok::Word {
        let txt = {
            proof {
                lemma_tok_span(cs@, toks@, i as int + 1, i as int + 1);
            }
            token_text(cs, &toks[i + 1])
        };
        if str_eq(txt.as_str(), "key") {
            proof {
                lemma_tok_span(cs@, toks@, i as int, i as int + 1);
            }
            let nd = span_node(
                cs,
                Rule::ModifierPrimary,
                toks[i].start,
                toks[i + 1].end,
                toks[i].bstart,
                toks[i + 1].bend,
            );
            return (nd, i + 2);
        }
    }
    (token_node(cs, toks, i, Rule::Token), i + 1)
}

/// Scans the parenthesized action clauses of a reference modifier: zero, one
/// or two `delete:`/`update:` sub-clauses, in either order, each carrying
/// its action phrase (one or more words) as an `Action` child. Exactly
/// [`spec_scan_actions`].
#[verifier::rlimit(100)]
#[verifier::spinoff_prover]
fn scan_actions(cs: &Vec<char>, toks: &Vec<Token>, i: usize) -> (r: (Node, usize))
    requires
        toks_wf(cs@, toks@),
        i < toks@.len(),
    ensures
        node_wf(r.0, cs@),
        r.0.rule == Rule::RefAction,
        r.0.start == toks@[i as int].start,
        i < r.1 <= toks@.len(),
        r.0@ == spec_scan_actions(cs@, toks@, i as int).0,
        r.1 as int == spec_scan_actions(cs@, toks@, i as int).1,
{
    let n = toks.len();
    let start = toks[i].start;
    let mut end = toks[i].end;
    proof {
        lemma_tok_span(cs@, toks@, i as int, i as int);
    }
    let bstart = toks[i].bstart;
    let mut bend = toks[i].bend;
    let mut j = i + 1;
    let mut children: Vec<Node> = Vec::new();
    proof {
        assert(children@.map_values(|c: Node| c@) =~= Seq::<NodeView>::empty());
    }
    while j < n && toks[j].kind != Tok::RParen && toks[j].kind != Tok::RBracket
        invariant
            n == toks@.len(),
            toks_wf(cs@, toks@),
            start == toks@[i as int].start,
            i < j <= n,
            start < end <= cs@.len(),
            bend as int == byte_off(cs@, end as int),
            forall|k: int| 0 <= k < children@.len() ==> node_wf(#[trigger] children@[k], cs@),
            actions_items(
                cs@,
                toks@,
                j as int,
                children@.map_values(|c: Node| c@),
                end as int,
            ) == actions_items(
                cs@,
                toks@,
                i as int + 1,
                Seq::<NodeView>::empty(),
                toks@[i as int].end as int,
            ),
        decreases n - j,
    {
        let ghost prev = children@.map_values(|c: Node| c@);
        let t = toks[j];
        if t.kind == Tok::Comma {
            proof {
                lemma_tok_span(cs@, toks@, i as int, j as int);
            }
            end = t.end;
            bend = t.bend;
            j += 1;
        } else if t.kind == Tok::Word {
            proof {
                lemma_tok_span(cs@, toks@, i as int, j as int);
            }
            let txt = token_text(cs, &t);
            let is_del = str_eq(txt.as_str(), "delete");
            let is_upd = str_eq(txt.as_str(), "update");
            if is_del || is_upd {
                let substart = t.start;
                let bsubstart = t.bstart;
                let j1 = j + 1;
                let sub_colon = j1 < n && toks[j1].kind == Tok::Colon;
                proof {
                    if sub_colon {
                        lemma_tok_span(cs@, toks@, i as int, j1 as int);
                    }
                }
                let subend1 = if sub_colon {
                    toks[j1].end
                } else {
                    t.end
                };
                let bsubend1 = if sub_colon {
                    toks[j1].bend
                } else {
                    t.bend
                };
                let j2 = if sub_colon {
                    j1 + 1
                } else {
                    j1
                };
                let rule = if is_del {
                    Rule::RefActionDelete
                } else {
                    Rule::RefActionUpdate
                };
                if j2 < n && toks[j2].kind == Tok::Word {
                    proof {
                        lemma_tok_span(cs@, toks@, i as int, j2 as int);
                    }
                    let astart = toks[j2].start;
                    let bastart = toks[j2].bstart;
                    let mut aend = toks[j2].end;
                    let mut baend = toks[j2].bend;
                    let mut jr = j2 + 1;
                    while jr < n && toks[jr].kind == Tok::Word
                        invariant
                            n == toks@.len(),
                            toks_wf(cs@, toks@),
                            i < j2 < jr <= n,
                            j2 < n,
                            astart == toks@[j2 as int].start,
                            astart < aend <= cs@.len(),
                            baend as int == byte_off(cs@, aend as int),
                            exists|k: int| j2 <= k < jr && aend == (#[trigger] toks@[k]).end,
                            word_run(toks@, jr as int, aend as int) == word_run(
                                toks@,
                                j2 as int + 1,
                                toks@[j2 as int].end as int,
                            ),
                        decreases n - jr,
                    {
                        proof {
                            let k = choose|k: int| j2 <= k < jr && aend == (
                            #[trigger] toks@[k]).end;
                            lemma_tok_span(cs@, toks@, k, jr as int);
                        }
                        aend = toks[jr].end;
                        baend = toks[jr].bend;
                        jr += 1;
                    }
                    proof {
                        assert(word_run(toks@, jr as int, aend as int) == (jr as int, aend as int));
                        let k = choose|k: int| j2 <= k < jr && aend == (#[trigger] toks@[k]).end;
                        lemma_tok_span(cs@, toks@, i as int, k);
                    }
                    let mut sub_children: Vec<Node> = Vec::new();
                    sub_children.push(span_node(cs, Rule::Action, astart, aend, bastart, baend));
                    let sub = group_node(cs, rule, substart, aend, bsubstart, baend, sub_children);
                    proof {
                        assert(sub.children@.map_values(|c: Node| c@) =~= seq![
                            sv_node(
                                cs@,
                                Rule::Action,
                                astart as int,
                                aend as int,
                                Seq::<NodeView>::empty(),
                            ),
                        ]);
                    }
                    children.push(sub);
                    proof {
                        assert(children@.map_values(|c: Node| c@) =~= prev.push(
                            children@.last()@,
                        ));
                    }
                    end = aend;
                    bend = baend;
                    j = jr;
                } else {
                    let sub = group_node(cs, rule, substart, subend1, bsubstart, bsubend1, Vec::new());
                    proof {
                        assert(sub.children@.map_values(|c: Node| c@) =~= Seq::<
                            NodeView,
                        >::empty());
                    }
                    children.push(sub);
                    proof {
                        assert(children@.map_values(|c: Node| c@) =~= prev.push(
                            children@.last()@,
                        ));
                    }
                    end = subend1;
                    bend = bsubend1;
                    j = j2;
                }
            } else {
                children.push(token_node(cs, toks, j, Rule::Token));
                proof {
                    assert(children@.map_values(|c: Node| c@) =~= prev.push(children@.last()@));
                }
                end = t.end;
                bend = t.bend;
                j += 1;
            }
        } else {
            proof {
                lemma_tok_span(cs@, toks@, i as int, j as int);
            }
            children.push(token_node(cs, toks, j, Rule::Token));
            proof {
                assert(children@.map_values(|c: Node| c@) =~= prev.push(children@.last()@));
            }
            end = t.end;
            bend = t.bend;
            j += 1;
        }
    }
    proof {
        assert(actions_items(
            cs@,
            toks@,
            j as int,
            children@.map_values(|c: Node| c@),
            end as int,
        ) == (children@.map_values(|c: Node| c@), j as int, end as int));
    }
    let has_close = j < n && toks[j].kind == Tok::RParen;
    proof {
        if has_close {
            lemma_tok_span(cs@, toks@, i as int, j as int);
        }
    }
    let end2 = if has_close {
        toks[j].end
    } else {
        end
    };
    let bend2 = if has_close {
        toks[j].bend
    } else {
        bend
    };
    let j2 = if has_close {
        j + 1
    } else {
        j
    };
    let node = group_node(cs, Rule::RefAction, start, end2, bstart, bend2, children);
    proof {
        assert(node@ == spec_scan_actions(cs@, toks@, i as int).0);
    }
    (node, j2)
}

/// Scans a reference modifier: `ref: Table.column`, optionally followed by
/// parenthesized action clauses. Exactly [`spec_scan_ref`].
#[verifier::rlimit(100)]
fn scan_ref(cs: &Vec<char>, toks: &Vec<Token>, i: usize) -> (r: (Node, usize))
    requires
        toks_wf(cs@, toks@),
        i < toks@.len(),
    ensures
        node_wf(r.0, cs@),
        r.0.rule == Rule::ModifierRef,
        r.0.start == toks@[i as int].start,
        i < r.1 <= toks@.len(),
        r.0@ == spec_scan_ref(cs@, toks@, i as int).0,
        r.1 as int == spec_scan_ref(cs@, toks@, i as int).1,
{
    let n = toks.len();
    let start = toks[i].start;
    proof {
        lemma_tok_span(cs@, toks@, i as int, i as int);
    }
    let bstart = toks[i].bstart;
    let end0 = toks[i].end;
    let bend0 = toks[i].bend;
    let j0 = i + 1;
    let mut children: Vec<Node> = Vec::new();
    // optional colon
    let colon = j0 < n && toks[j0].kind == Tok::Colon;
    proof {
        if colon {
            lemma_tok_span(cs@, toks@, i as int, j0 as int);
        }
    }
    let end1 = if colon {
        toks[j0].end
    } else {
        end0
    };
    let bend1 = if colon {
        toks[j0].bend
    } else {
        bend0
    };
    let j1 = if colon {
        j0 + 1
    } else {
        j0
    };
    // referenced table
    let tbl_word = j1 < n && toks[j1].kind == Tok::Word;
    let tbl_raw = !tbl_word && j1 < n && toks[j1].kind != Tok::RBracket && toks[j1].kind
        != Tok::Comma && toks[j1].kind != Tok::RBrace;
    proof {
        if tbl_word || tbl_raw {
            lemma_tok_span(cs@, toks@, i as int, j1 as int);
        }
    }
    if tbl_word {
        children.push(token_node(cs, toks, j1, Rule::Ident));
    } else if tbl_raw {
        children.push(token_node(cs, toks, j1, Rule::Token));
    }
    proof {
        assert(children@.map_values(|c: Node| c@) =~= (if tbl_word {
            seq![sv_tok(cs@, toks@[j1 as int], Rule::Ident)]
        } else if tbl_raw {
            seq![sv_tok(cs@, toks@[j1 as int], Rule::Token)]
        } else {
            Seq::<NodeView>::empty()
        }));
    }
    let end2 = if tbl_word || tbl_raw {
        toks[j1].end
    } else {
        end1
    };
    let bend2 = if tbl_word || tbl_raw {
        toks[j1].bend
    } else {
        bend1
    };
    let j2 = if tbl_word || tbl_raw {
        j1 + 1
    } else {
        j1
    };
    // optional dot
    let dot = j2 < n && toks[j2].kind == Tok::Dot;
    proof {
        if dot {
            lemma_tok_span(cs@, toks@, i as int, j2 as int);
        }
    }
    let end3 = if dot {
        toks[j2].end
    } else {
        end2
    };
    let bend3 = if dot {
        toks[j2].bend
    } else {
        bend2
    };
    let j3 = if dot {
        j2 + 1
    } else {
        j2
    };
    // referenced column
    let col_word = j3 < n && toks[j3].kind == Tok::Word;
    let col_raw = !col_word && j3 < n && toks[j3].kind != Tok::RBracket && toks[j3].kind
        != Tok::Comma && toks[j3].kind != Tok::RBrace && toks[j3].kind != Tok::LParen;
    proof {
        if col_word || col_raw {
            lemma_tok_span(cs@, toks@, i as int, j3 as int);
        }
    }
    let ghost acc1 = children@.map_values(|c: Node| c@);
    if col_word {
        children.push(token_node(cs, toks, j3, Rule::Ident));
    } else if col_raw {
        children.push(token_node(cs, toks, j3, Rule::Token));
    }
    proof {
        assert(children@.map_values(|c: Node| c@) =~= (if col_word {
            acc1.push(sv_tok(cs@, toks@[j3 as int], Rule::Ident))
        } else if col_raw {
            acc1.push(sv_tok(cs@, toks@[j3 as int], Rule::Token))
        } else {
            acc1
        }));
    }
    let end4 = if col_word || col_raw {
        toks[j3].end
    } else {
        end3
    };
    let bend4 = if col_word || col_raw {
        toks[j3].bend
    } else {
        bend3
    };
    let j4 = if col_word || col_raw {
        j3 + 1
    } else {
        j3
    };
    // optional action list
    if j4 < n && toks[j4].kind == Tok::LParen {
        let ghost acc2 = children@.map_values(|c: Node| c@);
        let (nd, nj) = scan_actions(cs, toks, j4);
        proof {
            lemma_tok_span(cs@, toks@, i as int, j4 as int);
            assert(nd.start <= nd.end);
        }
        let sub_end = nd.end;
        let sub_bend = nd.bend;
        children.push(nd);
        proof {
            assert(children@.map_values(|c: Node| c@) =~= acc2.push(children@.last()@));
        }
        let node = group_node(cs, Rule::ModifierRef, start, sub_end, bstart, sub_bend, children);
        proof {
            assert(node@ == spec_scan_ref(cs@, toks@, i as int).0);
        }
        (node, nj)
    } else {
        let node = group_node(cs, Rule::ModifierRef, start, end4, bstart, bend4, children);
        proof {
            assert(node@ == spec_scan_ref(cs@, toks@, i as int).0);
        }
        (node, j4)
    }
}

/// Scans a bracketed modifier list: comma-separated default, primary-key,
/// unique and reference modifiers. Exactly [`spec_scan_modifiers`].
#[verifier::rlimit(100)]
#[verifier::spinoff_prover]
fn scan_modifiers(cs: &Vec<char>, toks: &Vec<Token>, i: usize) -> (r: (Node, usize))
    requires
        toks_wf(cs@, toks@),
        i < toks@.len(),
    ensures
        node_wf(r.0, cs@),
        r.0.rule == Rule::Modifiers,
        r.0.start == toks@[i as int].start,
        i < r.1 <= toks@.len(),
        r.0@ == spec_scan_modifiers(cs@, toks@, i as int).0,
        r.1 as int == spec_scan_modifiers(cs@, toks@, i as int).1,
{
    let n = toks.len();
    let start = toks[i].start;
    let mut end = toks[i].end;
    proof {
        lemma_tok_span(cs@, toks@, i as int, i as int);
    }
    let bstart = toks[i].bstart;
    let mut bend = toks[i].bend;
    let mut j = i + 1;
    let mut children: Vec<Node> = Vec::new();
    proof {
        assert(children@.map_values(|c: Node| c@) =~= Seq::<NodeView>::empty());
    }
    while j < n && toks[j].kind != Tok::RBracket && toks[j].kind != Tok::RBrace
        invariant
            n == toks@.len(),
            toks_wf(cs@, toks@),
            start == toks@[i as int].start,
            i < j <= n,
            start < end <= cs@.len(),
            bend as int == byte_off(cs@, end as int),
            forall|k: int| 0 <= k < children@.len() ==> node_wf(#[trigger] children@[k], cs@),
            modifiers_items(
                cs@,
                toks@,
                j as int,
                children@.map_values(|c: Node| c@),
                end as int,
            ) == modifiers_items(
                cs@,
                toks@,
                i as int + 1,
                Seq::<NodeView>::empty(),
                toks@[i as int].end as int,
            ),
        decreases n - j,
    {
        let ghost prev = children@.map_values(|c: Node| c@);
        let t = toks[j];
        if t.kind == Tok::Comma {
            proof {
                lemma_tok_span(cs@, toks@, i as int, j as int);
            }
            end = t.end;
            bend = t.bend;
            j += 1;
        } else if t.kind == Tok::Word {
            proof {
                lemma_tok_span(cs@, toks@, i as int, j as int);
            }
            let txt = token_text(cs, &t);
            if str_eq(txt.as_str(), "default") {
                let (nd, nj) = scan_default(cs, toks, j);
                end = nd.end;
                bend = nd.bend;
                proof {
                    assert(nd.start <= nd.end);
                }
                children.push(nd);
                proof {
                    assert(children@.map_values(|c: Node| c@) =~= prev.push(children@.last()@));
                }
                j = nj;
            } else if str_eq(txt.as_str(), "primary") {
                let (nd, nj) = scan_primary(cs, toks, j);
                end = nd.end;
                bend = nd.bend;
                proof {
                    assert(nd.start <= nd.end);
                }
                children.push(nd);
                proof {
                    assert(children@.map_values(|c: Node| c@) =~= prev.push(children@.last()@));
                }
                j = nj;
            } else if str_eq(txt.as_str(), "unique") {
                children.push(token_node(cs, toks, j, Rule::ModifierUnique));
                proof {
                    assert(children@.map_values(|c: Node| c@) =~= prev.push(children@.last()@));
                }
                end = t.end;
                bend = t.bend;
                j += 1;
            } else if str_eq(txt.as_str(), "ref") {
                let (nd, nj) = scan_ref(cs, toks, j);
                end = nd.end;
                bend = nd.bend;
                proof {
                    assert(nd.start <= nd.end);
                }
                children.push(nd);
                proof {
                    assert(children@.map_values(|c: Node| c@) =~= prev.push(children@.last()@));
                }
                j = nj;
            } else {
                children.push(token_node(cs, toks, j, Rule::Token));
                proof {
                    assert(children@.map_values(|c: Node| c@) =~= prev.push(children@.last()@));
                }
                end = t.end;
                bend = t.bend;
                j += 1;
            }
        } else {
            proof {
                lemma_tok_span(cs@, toks@, i as int, j as int);
            }
            children.push(token_node(cs, toks, j, Rule::Token));
            proof {
                assert(children@.map_values(|c: Node| c@) =~= prev.push(children@.last()@));
            }
            end = t.end;
            bend = t.bend;
            j += 1;
        }
    }
    proof {
        assert(modifiers_items(
            cs@,
            toks@,
            j as int,
            children@.map_values(|c: Node| c@),
            end as int,
        ) == (children@.map_values(|c: Node| c@), j as int, end as int));
    }
    let has_close = j < n && toks[j].kind == Tok::RBracket;
    proof {
        if has_close {
            lemma_tok_span(cs@, toks@, i as int, j as int);
        }
    }
    let end2 = if has_close {
        toks[j].end
    } else {
        end
    };
    let bend2 = if has_close {
        toks[j].bend
    } else {
        bend
    };
    let j2 = if has_close {
        j + 1
    } else {
        j
    };
    let node = group_node(cs, Rule::Modifiers, start, end2, bstart, bend2, children);
    proof {
        assert(node@ == spec_scan_modifiers(cs@, toks@, i as int).0);
    }
    (node, j2)
}

/// Scans a column's name, type and optional nullability marker. Exactly
/// [`spec_column_header`].
fn scan_column_header(cs: &Vec<char>, toks: &Vec<Token>, i: usize) -> (r: (
    Vec<Node>,
    usize,
    usize,
    usize,
))
    requires
        toks_wf(cs@, toks@),
        i < toks@.len(),
    ensures
        forall|k: int| 0 <= k < r.0@.len() ==> node_wf(#[trigger] r.0@[k], cs@),
        r.0@.map_values(|c: Node| c@) == spec_column_header(cs@, toks@, i as int).0,
        r.1 as int == spec_column_header(cs@, toks@, i as int).1,
        r.2 as int == spec_column_header(cs@, toks@, i as int).2,
        toks@[i as int].start < r.1 <= cs@.len(),
        i <= r.2 <= toks@.len(),
        r.2 == i ==> toks@[i as int].kind == Tok::LBracket,
        r.3 as int == byte_off(cs@, r.1 as int),
{
    let n = toks.len();
    proof {
        lemma_tok_span(cs@, toks@, i as int, i as int);
    }
    let t = toks[i];
    let end0 = t.end;
    let bend0 = t.bend;
    let mut children: Vec<Node> = Vec::new();
    // name
    let name_word = t.kind == Tok::Word;
    let name_skip = !name_word && (t.kind == Tok::Bang || t.kind == Tok::LBracket);
    if name_word {
        children.push(token_node(cs, toks, i, Rule::Ident));
    } else if !name_skip {
        children.push(token_node(cs, toks, i, Rule::Token));
    }
    proof {
        assert(children@.map_values(|c: Node| c@) =~= (if name_word {
            seq![sv_tok(cs@, toks@[i as int], Rule::Ident)]
        } else if name_skip {
            Seq::<NodeView>::empty()
        } else {
            seq![sv_tok(cs@, toks@[i as int], Rule::Token)]
        }));
    }
    let j0 = if name_skip {
        i
    } else {
        i + 1
    };
    // type
    let has_type = j0 < n && toks[j0].kind == Tok::Word;
    proof {
        if has_type {
            lemma_tok_span(cs@, toks@, i as int, j0 as int);
        }
    }
    let ghost acc0 = children@.map_values(|c: Node| c@);
    if has_type {
        children.push(token_node(cs, toks, j0, Rule::ColumnType));
    }
    proof {
        assert(children@.map_values(|c: Node| c@) =~= (if has_type {
            acc0.push(sv_tok(cs@, toks@[j0 as int], Rule::ColumnType))
        } else {
            acc0
        }));
    }
    let end1 = if has_type {
        toks[j0].end
    } else {
        end0
    };
    let bend1 = if has_type {
        toks[j0].bend
    } else {
        bend0
    };
    let j1 = if has_type {
        j0 + 1
    } else {
        j0
    };
    // nullability marker
    let has_null = j1 < n && toks[j1].kind == Tok::Bang;
    proof {
        if has_null {
            lemma_tok_span(cs@, toks@, i as int, j1 as int);
        }
    }
    let ghost acc1 = children@.map_values(|c: Node| c@);
    if has_null {
        children.push(token_node(cs, toks, j1, Rule::Null));
    }
    proof {
        assert(children@.map_values(|c: Node| c@) =~= (if has_null {
            acc1.push(sv_tok(cs@, toks@[j1 as int], Rule::Null))
        } else {
            acc1
        }));
    }
    let end2 = if has_null {
        toks[j1].end
    } else {
        end1
    };
    let bend2 = if has_null {
        toks[j1].bend
    } else {
        bend1
    };
    let j2 = if has_null {
        j1 + 1
    } else {
        j1
    };
    proof {
        assert(children@.map_values(|c: Node| c@) =~= spec_column_header(cs@, toks@, i as int).0);
    }
    (children, end2, j2, bend2)
}

/// Scans one column: its name, its type, an optional `!` nullability
/// marker, and an optional modifier list. Exactly [`spec_scan_column`].
#[verifier::rlimit(100)]
fn scan_column(cs: &Vec<char>, toks: &Vec<Token>, i: usize) -> (r: (Node, usize))
    requires
        toks_wf(cs@, toks@),
        i < toks@.len(),
    ensures
        node_wf(r.0, cs@),
        r.0.rule == Rule::Column,
        r.0.start == toks@[i as int].start,
        i < r.1 <= toks@.len(),
        r.0@ == spec_scan_column(cs@, toks@, i as int).0,
        r.1 as int == spec_scan_column(cs@, toks@, i as int).1,
{
    let n = toks.len();
    let start = toks[i].start;
    proof {
        lemma_tok_span(cs@, toks@, i as int, i as int);
    }
    let bstart = toks[i].bstart;
    let (hdr, end2, j2, bend2) = scan_column_header(cs, toks, i);
    let mut children = hdr;
    // modifier list
    if j2 < n && toks[j2].kind == Tok::LBracket {
        let ghost acc2 = children@.map_values(|c: Node| c@);
        let (nd, nj) = scan_modifiers(cs, toks, j2);
        proof {
            lemma_tok_span(cs@, toks@, i as int, j2 as int);
            assert(nd.start <= nd.end);
        }
        let sub_end = nd.end;
        let sub_bend = nd.bend;
        children.push(nd);
        proof {
            assert(children@.map_values(|c: Node| c@) =~= acc2.push(children@.last()@));
        }
        let node = group_node(cs, Rule::Column, start, sub_end, bstart, sub_bend, children);
        proof {
            assert(node@ == spec_scan_column(cs@, toks@, i as int).0);
        }
        (node, nj)
    } else {
        let node = group_node(cs, Rule::Column, start, end2, bstart, bend2, children);
        proof {
            assert(node@ == spec_scan_column(cs@, toks@, i as int).0);
        }
        (node, j2)
    }
}

/// Scans a declaration's name and optional `[exists]` marker. Exactly
/// [`spec_decl_header`].
fn scan_decl_header(cs: &Vec<char>, toks: &Vec<Token>, i: usize) -> (r: (
    Vec<Node>,
    usize,
    usize,
    usize,
))
    requires
        toks_wf(cs@, toks@),
        i < toks@.len(),
    ensures
        forall|k: int| 0 <= k < r.0@.len() ==> node_wf(#[trigger] r.0@[k], cs@),
        r.0@.map_values(|c: Node| c@) == spec_decl_header(cs@, toks@, i as int).0,
        r.1 as int == spec_decl_header(cs@, toks@, i as int).1,
        r.2 as int == spec_decl_header(cs@, toks@, i as int).2,
        toks@[i as int].start < r.1 <= cs@.len(),
        i < r.2 <= toks@.len(),
        r.3 as int == byte_off(cs@, r.1 as int),
{
    let n = toks.len();
    proof {
        lemma_tok_span(cs@, toks@, i as int, i as int);
    }
    let end0 = toks[i].end;
    let bend0 = toks[i].bend;
    let j0 = i + 1;
    let mut children: Vec<Node> = Vec::new();
    // name
    let name_word = j0 < n && toks[j0].kind == Tok::Word;
    let name_brace = !name_word && j0 < n && toks[j0].kind == Tok::LBrace;
    let name_skip = !name_word && !name_brace && j0 < n && toks[j0].kind == Tok::LBracket;
    let name_raw = j0 < n && !name_word && !name_brace && !name_skip;
    proof {
        if j0 < n {
            lemma_tok_span(cs@, toks@, i as int, j0 as int);
        }
    }
    if name_word {
        children.push(token_node(cs, toks, j0, Rule::Ident));
    } else if name_brace {
        children.push(token_node(cs, toks, j0, Rule::Token));
    } else if name_raw {
        children.push(token_node(cs, toks, j0, Rule::Token));
    }
    proof {
        assert(children@.map_values(|c: Node| c@) =~= (if name_word {
            seq![sv_tok(cs@, toks@[j0 as int], Rule::Ident)]
        } else if name_brace {
            seq![sv_tok(cs@, toks@[j0 as int], Rule::Token)]
        } else if name_raw {
            seq![sv_tok(cs@, toks@[j0 as int], Rule::Token)]
        } else {
            Seq::<NodeView>::empty()
        }));
    }
    let end1 = if name_word || name_raw {
        toks[j0].end
    } else {
        end0
    };
    let bend1 = if name_word || name_raw {
        toks[j0].bend
    } else {
        bend0
    };
    let j1 = if name_word || name_raw {
        j0 + 1
    } else {
        j0
    };
    // optional [exists]
    let kinds_exists = n - j1 >= 3 && toks[j1].kind == Tok::LBracket && toks[j1 + 1].kind
        == Tok::Word && toks[j1 + 2].kind == Tok::RBracket;
    let has_exists = kinds_exists && {
        proof {
            lemma_tok_span(cs@, toks@, j1 as int + 1, j1 as int + 1);
        }
        let txt = token_text(cs, &toks[j1 + 1]);
        str_eq(txt.as_str(), "exists")
    };
    proof {
        if has_exists {
            lemma_tok_span(cs@, toks@, j1 as int, j1 as int + 2);
            lemma_tok_span(cs@, toks@, i as int, j1 as int + 2);
        }
    }
    let ghost acc0 = children@.map_values(|c: Node| c@);
    if has_exists {
        children.push(
            span_node(
                cs,
                Rule::Exists,
                toks[j1].start,
                toks[j1 + 2].end,
                toks[j1].bstart,
                toks[j1 + 2].bend,
            ),
        );
    }
    proof {
        assert(children@.map_values(|c: Node| c@) =~= (if has_exists {
            acc0.push(
                sv_node(
                    cs@,
                    Rule::Exists,
                    toks@[j1 as int].start as int,
                    toks@[j1 as int + 2].end as int,
                    Seq::<NodeView>::empty(),
                ),
            )
        } else {
            acc0
        }));
    }
    let end2 = if has_exists {
        toks[j1 + 2].end
    } else {
        end1
    };
    let bend2 = if has_exists {
        toks[j1 + 2].bend
    } else {
        bend1
    };
    let j2 = if has_exists {
        j1 + 3
    } else {
        j1
    };
    proof {
        assert(children@.map_values(|c: Node| c@) =~= spec_decl_header(cs@, toks@, i as int).0);
    }
    (children, end2, j2, bend2)
}

/// Scans one declaration: the (already seen) `enum` or `table` keyword, the
/// name, an optional `[exists]` marker, and the braced body of variants or
/// columns. Exactly [`spec_scan_decl`].
#[verifier::rlimit(100)]
fn scan_decl(cs: &Vec<char>, toks: &Vec<Token>, i: usize, is_enum: bool) -> (r: (Node, usize))
    requires
        toks_wf(cs@, toks@),
        i < toks@.len(),
    ensures
        node_wf(r.0, cs@),
        r.0.rule == (if is_enum {
            Rule::DeclEnum
        } else {
            Rule::DeclTable
        }),
        r.0.start == toks@[i as int].start,
        i < r.1 <= toks@.len(),
        r.0@ == spec_scan_decl(cs@, toks@, i as int, is_enum).0,
        r.1 as int == spec_scan_decl(cs@, toks@, i as int, is_enum).1,
{
    let n = toks.len();
    let start = toks[i].start;
    proof {
        lemma_tok_span(cs@, toks@, i as int, i as int);
    }
    let bstart = toks[i].bstart;
    let (hdr, end2, j2, bend2) = scan_decl_header(cs, toks, i);
    let mut children = hdr;
    let rule = if is_enum {
        Rule::DeclEnum
    } else {
        Rule::DeclTable
    };
    // body
    if j2 < n && toks[j2].kind == Tok::LBrace {
        proof {
            lemma_tok_span(cs@, toks@, i as int, j2 as int);
        }
        let ghost accb = children@.map_values(|c: Node| c@);
        let mut end = toks[j2].end;
        let mut bend = toks[j2].bend;
        let mut j = j2 + 1;
        while j < n && toks[j].kind != Tok::RBrace
            invariant
                n == toks@.len(),
                toks_wf(cs@, toks@),
                start == toks@[i as int].start,
                i < j <= n,
                j2 < n,
                start < end <= cs@.len(),
                bend as int == byte_off(cs@, end as int),
                forall|k: int| 0 <= k < children@.len() ==> node_wf(#[trigger] children@[k], cs@),
                decl_body_items(
                    cs@,
                    toks@,
                    j as int,
                    children@.map_values(|c: Node| c@),
                    end as int,
                    is_enum,
                ) == decl_body_items(
                    cs@,
                    toks@,
                    j2 as int + 1,
                    accb,
                    toks@[j2 as int].end as int,
                    is_enum,
                ),
            decreases n - j,
        {
            let ghost prev = children@.map_values(|c: Node| c@);
            if is_enum {
                let t = toks[j];
                if t.kind == Tok::Comment {
                    j += 1;
                } else if t.kind == Tok::Word {
                    proof {
                        lemma_tok_span(cs@, toks@, i as int, j as int);
                    }
                    children.push(token_node(cs, toks, j, Rule::Variant));
                    proof {
                        assert(children@.map_values(|c: Node| c@) =~= prev.push(
                            children@.last()@,
                        ));
                    }
                    end = t.end;
                    bend = t.bend;
                    j += 1;
                } else {
                    proof {
                        lemma_tok_span(cs@, toks@, i as int, j as int);
                    }
                    children.push(token_node(cs, toks, j, Rule::Token));
                    proof {
                        assert(children@.map_values(|c: Node| c@) =~= prev.push(
                            children@.last()@,
                        ));
                    }
                    end = t.end;
                    bend = t.bend;
                    j += 1;
                }
            } else {
                if toks[j].kind == Tok::Comment {
                    proof {
                        lemma_tok_span(cs@, toks@, i as int, j as int);
                    }
                    children.push(token_node(cs, toks, j, Rule::Comment));
                    proof {
                        assert(children@.map_values(|c: Node| c@) =~= prev.push(
                            children@.last()@,
                        ));
                    }
                    end = toks[j].end;
                    bend = toks[j].bend;
                    j += 1;
                } else {
                    let (nd, nj) = scan_column(cs, toks, j);
                    proof {
                        lemma_tok_span(cs@, toks@, i as int, j as int);
                        assert(nd.start <= nd.end);
                    }
                    end = nd.end;
                    bend = nd.bend;
                    children.push(nd);
                    proof {
                        assert(children@.map_values(|c: Node| c@) =~= prev.push(
                            children@.last()@,
                        ));
                    }
                    j = nj;
                }
            }
        }
        proof {
            assert(decl_body_items(
                cs@,
                toks@,
                j as int,
                children@.map_values(|c: Node| c@),
                end as int,
                is_enum,
            ) == (children@.map_values(|c: Node| c@), j as int, end as int));
        }
        let has_close = j < n;
        proof {
            if has_close {
                lemma_tok_span(cs@, toks@, i as int, j as int);
            }
        }
        let end3 = if has_close {
            toks[j].end
        } else {
            end
        };
        let bend3 = if has_close {
            toks[j].bend
        } else {
            bend
        };
        let j3 = if has_close {
            j + 1
        } else {
            j
        };
        let node = group_node(cs, rule, start, end3, bstart, bend3, children);
        proof {
            assert(node@ == spec_scan_decl(cs@, toks@, i as int, is_enum).0);
        }
        (node, j3)
    } else {
        let node = group_node(cs, rule, start, end2, bstart, bend2, children);
        proof {
            assert(node@ == spec_scan_decl(cs@, toks@, i as int, is_enum).0);
        }
        (node, j2)
    }
}

/// Turns source text into the labeled parse tree: a `Schema` root holding
/// declarations, comments and bare tokens in source order, closed by an
/// end-of-input marker. Exactly the tree of [`spec_scan`].
pub fn parse_tree(input: &str) -> (root: Node)
    ensures
        node_wf(root, input@),
        root.rule == Rule::Schema,
        root.start == 0,
        root.end == input@.len(),
        root@ == spec_scan(input@),
{
    let cs = str_chars(input);
    let bytes = input.as_bytes();
    let blen = bytes.len();
    proof {
        broadcast use vstd::slice::axiom_spec_len;

        lemma_byte_off_total(cs@);
        assert(bytes@ == vstd::utf8::encode_utf8(input@));
        assert(blen as int == byte_off(cs@, cs@.len() as int));
    }
    let toks = tokenize(&cs, blen);
    let n = toks.len();
    let mut children: Vec<Node> = Vec::new();
    proof {
        assert(children@.map_values(|c: Node| c@) =~= Seq::<NodeView>::empty());
    }
    let mut i: usize = 0;
    while i < n
        invariant
            cs@ == input@,
            n == toks@.len(),
            toks@ == spec_tokenize(cs@, 0),
            toks_wf(cs@, toks@),
            i <= n,
            forall|k: int| 0 <= k < children@.len() ==> node_wf(#[trigger] children@[k], cs@),
            top_items(cs@, toks@, i as int, children@.map_values(|c: Node| c@)) == top_items(
                cs@,
                toks@,
                0,
                Seq::<NodeView>::empty(),
            ),
        decreases n - i,
    {
        let ghost prev = children@.map_values(|c: Node| c@);
        let t = toks[i];
        if t.kind == Tok::Comment {
            children.push(token_node(&cs, &toks, i, Rule::Comment));
            proof {
                assert(children@.map_values(|c: Node| c@) =~= prev.push(children@.last()@));
            }
            i += 1;
        } else if t.kind == Tok::Word {
            proof {
                lemma_tok_span(cs@, toks@, i as int, i as int);
            }
            let txt = token_text(&cs, &t);
            if str_eq(txt.as_str(), "enum") {
                let (nd, ni) = scan_decl(&cs, &toks, i, true);
                children.push(nd);
                proof {
                    assert(children@.map_values(|c: Node| c@) =~= prev.push(children@.last()@));
                }
                i = ni;
            } else if str_eq(txt.as_str(), "table") {
                let (nd, ni) = scan_decl(&cs, &toks, i, false);
                children.push(nd);
                proof {
                    assert(children@.map_values(|c: Node| c@) =~= prev.push(children@.last()@));
                }
                i = ni;
            } else {
                children.push(token_node(&cs, &toks, i, Rule::Token));
                proof {
                    assert(children@.map_values(|c: Node| c@) =~= prev.push(children@.last()@));
                }
                i += 1;
            }
        } else {
            children.push(token_node(&cs, &toks, i, Rule::Token));
            proof {
                assert(children@.map_values(|c: Node| c@) =~= prev.push(children@.last()@));
            }
            i += 1;
        }
    }
    proof {
        assert(top_items(cs@, toks@, n as int, children@.map_values(|c: Node| c@)) == (
        children@.map_values(|c: Node| c@)));
    }
    let len = cs.len();
    let eoi = Node {
        rule: Rule::Eoi,
        start: len,
        end: len,
        bstart: blen,
        bend: blen,
        text: String::new(),
        children: Vec::new(),
    };
    proof {
        assert(cs@.subrange(len as int, len as int) =~= Seq::<char>::empty());
        assert(node_wf(eoi, cs@));
        assert(eoi@.children =~= Seq::<NodeView>::empty());
        assert(eoi@ == (NodeView {
            rule: Rule::Eoi,
            start: len as int,
            end: len as int,
            bstart: byte_off(cs@, len as int),
            bend: byte_off(cs@, len as int),
            text: Seq::<char>::empty(),
            children: Seq::<NodeView>::empty(),
        }));
    }
    let ghost items = children@.map_values(|c: Node| c@);
    children.push(eoi);
    proof {
        assert(children@.map_values(|c: Node| c@) =~= items.push(children@.last()@));
    }
    let root = Node {
        rule: Rule::Schema,
        start: 0,
        end: len,
        bstart: 0,
        bend: blen,
        text: input.to_owned(),
        children,
    };
    proof {
        assert(cs@.subrange(0, len as int) =~= cs@);
        assert(node_wf(root, cs@));
        assert(root@.children =~= root.children@.map_values(|c: Node| c@));
        assert(root@ == spec_scan(input@));
    }
    root
}

} // verus!

